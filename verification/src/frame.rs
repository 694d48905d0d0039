//! Decoded pixel data: what the codec hands out and what the viewer displays.

use vstd::prelude::*;

verus! {

/// Number of bytes that one RGBA pixel occupies.
pub const BYTES_PER_PIXEL: usize = 4;

/// Mathematical model of an RGBA pixel buffer with its dimensions.
pub struct Raster {
    pub width: u32,
    pub height: u32,
    pub pixels: Seq<u8>,
}

impl Raster {
    /// The buffer holds exactly four bytes for every pixel of the rectangle.
    pub open spec fn well_formed(self) -> bool {
        self.pixels.len() == BYTES_PER_PIXEL * self.width * self.height
    }

    /// Width and height as a pair.
    pub open spec fn size(self) -> (u32, u32) {
        (self.width, self.height)
    }
}

/// Pixel data as a codec returns it. Nothing is known about how the length of
/// `pixels` relates to the dimensions.
#[derive(Debug, PartialEq, Eq)]
pub struct RawImage {
    pub width: u32,
    pub height: u32,
    pub pixels: Vec<u8>,
}

impl View for RawImage {
    type V = Raster;

    open spec fn view(&self) -> Raster {
        Raster { width: self.width, height: self.height, pixels: self.pixels@ }
    }
}

/// One decoded frame of an animation with the time it stays on screen, in
/// nanoseconds.
#[derive(Debug, PartialEq, Eq)]
pub struct RawFrame {
    pub image: RawImage,
    pub delay: u128,
}

impl View for RawFrame {
    type V = (Raster, nat);

    open spec fn view(&self) -> (Raster, nat) {
        (self.image@, self.delay as nat)
    }
}

/// The views of a vector of raw frames, in order.
pub open spec fn raw_frames_view(frames: Seq<RawFrame>) -> Seq<(Raster, nat)> {
    Seq::new(frames.len(), |i: int| frames[i]@)
}

/// A pixel buffer whose length matches its dimensions.
#[derive(Debug, PartialEq, Eq)]
pub struct Frame {
    width: u32,
    height: u32,
    pixels: Vec<u8>,
}

impl View for Frame {
    type V = Raster;

    closed spec fn view(&self) -> Raster {
        Raster { width: self.width, height: self.height, pixels: self.pixels@ }
    }
}

impl Frame {
    /// Holds of every value of this type.
    #[verifier::type_invariant]
    pub open spec fn inv(&self) -> bool {
        self@.well_formed()
    }

    /// Accepts raw pixel data if and only if its length fits its dimensions.
    pub fn from_raw(raw: RawImage) -> (frame: Option<Frame>)
        ensures
            frame is Some <==> raw@.well_formed(),
            frame matches Some(f) ==> f@ == raw@,
    {
        assert(0 <= raw.width * raw.height <= 0xffff_ffff * 0xffff_ffff) by (nonlinear_arith)
            requires
                0 <= raw.width <= 0xffff_ffff,
                0 <= raw.height <= 0xffff_ffff,
        ;
        let area: u128 = (raw.width as u128) * (raw.height as u128);
        assert(4 * raw.width * raw.height == 4 * area) by (nonlinear_arith)
            requires
                area == raw.width * raw.height,
        ;
        let expected: u128 = (BYTES_PER_PIXEL as u128) * area;
        if raw.pixels.len() as u128 == expected {
            Some(Frame { width: raw.width, height: raw.height, pixels: raw.pixels })
        } else {
            None
        }
    }

    /// Width in pixels.
    pub fn width(&self) -> (w: u32)
        ensures
            w == self@.width,
    {
        self.width
    }

    /// Height in pixels.
    pub fn height(&self) -> (h: u32)
        ensures
            h == self@.height,
    {
        self.height
    }

    /// Width and height in pixels.
    pub fn dimensions(&self) -> (d: (u32, u32))
        ensures
            d == self@.size(),
    {
        (self.width, self.height)
    }

    /// The RGBA bytes, row by row.
    pub fn pixels(&self) -> (p: &[u8])
        ensures
            p@ == self@.pixels,
            p@.len() == BYTES_PER_PIXEL * self@.width * self@.height,
    {
        proof {
            use_type_invariant(self);
        }
        self.pixels.as_slice()
    }
}

/// A frame of an animation together with its display time in nanoseconds.
#[derive(Debug, PartialEq, Eq)]
pub struct AnimationFrame {
    frame: Frame,
    duration: u128,
}

impl View for AnimationFrame {
    type V = (Raster, nat);

    closed spec fn view(&self) -> (Raster, nat) {
        (self.frame@, self.duration as nat)
    }
}

impl AnimationFrame {
    /// Accepts a raw frame if and only if its pixel data is well formed.
    pub fn from_raw(raw: RawFrame) -> (frame: Option<AnimationFrame>)
        ensures
            frame is Some <==> raw@.0.well_formed(),
            frame matches Some(f) ==> f@ == raw@,
    {
        let delay: u128 = raw.delay;
        match Frame::from_raw(raw.image) {
            Some(frame) => Some(AnimationFrame { frame, duration: delay }),
            None => None,
        }
    }

    /// The picture of this frame.
    pub fn frame(&self) -> (f: &Frame)
        ensures
            f@ == self@.0,
    {
        &self.frame
    }

    /// How long this frame stays on screen, in nanoseconds.
    pub fn duration(&self) -> (d: u128)
        ensures
            d == self@.1,
    {
        self.duration
    }
}

/// The views of a vector of animation frames, in order.
pub open spec fn frames_view(frames: Seq<AnimationFrame>) -> Seq<(Raster, nat)> {
    Seq::new(frames.len(), |i: int| frames[i]@)
}

} // verus!
