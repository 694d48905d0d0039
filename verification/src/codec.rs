//! The boundary to the image codec. Everything here is believed, not proved:
//! each function hands bytes to the `image` crate and converts what comes back
//! into plain values.
//!
//! Only the GIF decoder's result has a name. It works on integers alone, so
//! the same bytes give the same frames everywhere. The still-image decoders
//! do not: the JPEG decoder picks its colour conversion by the CPU it runs
//! on, and the Radiance decoder maps pixels through floating-point powers.
//! Nothing is claimed of what they return.

use crate::frame::{RawFrame, RawImage, Raster, raw_frames_view};
use image::codecs::gif::GifDecoder;
use image::AnimationDecoder;
use image::ImageFormat;
use std::io::Cursor;
use std::time::Duration;
use vstd::prelude::*;

verus! {

/// What decoding `bytes` as a GIF animation yields: every frame in order with
/// its delay in nanoseconds, or the text of the first error.
pub uninterp spec fn animation_decoding(bytes: Seq<u8>) -> Result<Seq<(Raster, nat)>, Seq<char>>;

/// The view of a still-image decoding result.
pub open spec fn still_result_view(r: Result<RawImage, String>) -> Result<Raster, Seq<char>> {
    match r {
        Ok(image) => Ok(image@),
        Err(text) => Err(text@),
    }
}

/// The view of an animation decoding result.
pub open spec fn animation_result_view(r: Result<Vec<RawFrame>, String>) -> Result<
    Seq<(Raster, nat)>,
    Seq<char>,
> {
    match r {
        Ok(frames) => Ok(raw_frames_view(frames@)),
        Err(text) => Err(text@),
    }
}

/// Decodes `bytes` the way `image::open` decodes a file named `path`:
/// `ImageFormat::from_path` picks the codec from the extension,
/// `image::load_from_memory_with_format` decodes, and the picture is converted
/// to RGBA8. Nothing is claimed of the outcome: for some formats it depends
/// on the machine.
#[verifier::external_body]
pub(crate) fn decode_still(path: &str, bytes: &[u8]) -> (decoded: Result<RawImage, String>) {
    let format = ImageFormat::from_path(path).map_err(|e| e.to_string())?;
    let picture = image::load_from_memory_with_format(bytes, format);
    let rgba = picture.map_err(|e| e.to_string())?.into_rgba8();
    Ok(RawImage { width: rgba.width(), height: rgba.height(), pixels: rgba.into_raw() })
}

/// Decodes `bytes` with `GifDecoder::new`, `into_frames` and
/// `Frames::collect_frames`, which stops at the first frame that fails. Each
/// frame is converted to its RGBA buffer and its delay as a `Duration` in
/// nanoseconds. The contract claims only that the outcome is a function of
/// the bytes.
#[verifier::external_body]
pub(crate) fn decode_animation(bytes: &[u8]) -> (decoded: Result<Vec<RawFrame>, String>)
    ensures
        animation_result_view(decoded) == animation_decoding(bytes@),
{
    let decoder = GifDecoder::new(Cursor::new(bytes)).map_err(|e| e.to_string())?;
    let frames = decoder.into_frames().collect_frames().map_err(|e| e.to_string())?;
    Ok(frames.into_iter().map(|f| RawFrame {
        delay: Duration::from(f.delay()).as_nanos(),
        image: RawImage {
            width: f.buffer().width(),
            height: f.buffer().height(),
            pixels: f.into_buffer().into_raw(),
        },
    }).collect())
}

/// Decodes `bytes` with `image::load_from_memory`, which guesses the codec
/// from the first bytes, and converts the picture to RGBA8. Nothing is
/// claimed of the outcome: for some formats it depends on the machine.
#[verifier::external_body]
pub(crate) fn decode_sniffed(bytes: &[u8]) -> (decoded: Result<RawImage, String>) {
    let picture = image::load_from_memory(bytes).map_err(|e| e.to_string())?;
    let rgba = picture.into_rgba8();
    Ok(RawImage { width: rgba.width(), height: rgba.height(), pixels: rgba.into_raw() })
}

} // verus!
