//! The content loader: from the bytes of a file to what the viewer can show.

use crate::codec::{
    animation_decoding, animation_result_view, decode_animation, decode_sniffed, decode_still,
    still_result_view,
};
use crate::frame::{AnimationFrame, Frame, Raster, RawFrame, RawImage, raw_frames_view, frames_view};
use crate::path::{extension, has_extension};
use crate::views::file_view;
use vstd::prelude::*;
use vstd::string::StringExecFns;

verus! {

/// Whether every raster of a frame sequence is well formed.
pub open spec fn all_well_formed(frames: Seq<(Raster, nat)>) -> bool {
    forall|i: int| 0 <= i < frames.len() ==> (#[trigger] frames[i]).0.well_formed()
}

/// A non-empty, ordered sequence of frames with their display times.
#[derive(Debug, PartialEq, Eq)]
pub struct Animation {
    frames: Vec<AnimationFrame>,
}

impl View for Animation {
    type V = Seq<(Raster, nat)>;

    closed spec fn view(&self) -> Seq<(Raster, nat)> {
        frames_view(self.frames@)
    }
}

impl Animation {
    /// Holds of every value of this type.
    #[verifier::type_invariant]
    pub open spec fn inv(&self) -> bool {
        self@.len() > 0 && all_well_formed(self@)
    }

    /// Accepts a sequence of raw frames if and only if it is not empty and
    /// every frame's pixel data is well formed.
    pub fn from_raw(frames: Vec<RawFrame>) -> (animation: Option<Animation>)
        ensures
            animation is Some <==> frames@.len() > 0 && all_well_formed(raw_frames_view(frames@)),
            animation matches Some(a) ==> a@ == raw_frames_view(frames@),
    {
        let ghost all = raw_frames_view(frames@);
        if frames.len() == 0 {
            return None;
        }
        let mut accepted: Vec<AnimationFrame> = Vec::new();
        for raw in it: frames
            invariant
                all == raw_frames_view(it.seq()),
                accepted@.len() == it.index(),
                forall|j: int| 0 <= j < accepted@.len() ==> (#[trigger] accepted@[j])@ == all[j],
                forall|j: int| 0 <= j < accepted@.len() ==> (#[trigger] all[j]).0.well_formed(),
        {
            let ghost k = accepted@.len() as int;
            match AnimationFrame::from_raw(raw) {
                Some(frame) => {
                    accepted.push(frame);
                },
                None => {
                    assert(!all[k].0.well_formed());
                    return None;
                },
            }
        }
        Some(Animation { frames: accepted })
    }

    /// Number of frames; never zero.
    pub fn len(&self) -> (n: usize)
        ensures
            n == self@.len(),
            n > 0,
    {
        proof {
            use_type_invariant(self);
        }
        self.frames.len()
    }

    /// The frame at `index`.
    pub fn frame(&self, index: usize) -> (f: &Frame)
        requires
            index < self@.len(),
        ensures
            f@ == self@[index as int].0,
    {
        self.frames[index].frame()
    }

    /// The display time of the frame at `index`, in nanoseconds.
    pub fn duration(&self, index: usize) -> (d: u128)
        requires
            index < self@.len(),
        ensures
            d == self@[index as int].1,
    {
        self.frames[index].duration()
    }

    /// The dimensions of the first frame, which stand for the whole animation.
    pub fn dimensions(&self) -> (d: (u32, u32))
        ensures
            d == self@[0].0.size(),
    {
        proof {
            use_type_invariant(self);
        }
        self.frames[0].frame().dimensions()
    }
}

/// The two kinds of content, told apart by the path alone.
#[derive(Clone, Copy, Debug, PartialEq, Eq, Structural)]
pub enum ContentKind {
    /// One picture that never changes.
    Still,
    /// A sequence of timed frames.
    Animated,
}

/// The one extension that marks animated content: the bytes of `gif`.
pub open spec fn animated_extension() -> Seq<u8> {
    seq![103u8, 105u8, 102u8]
}

/// The kind of content that a path announces. Only the extension counts; the
/// bytes of the file are never consulted.
pub open spec fn kind_of(path: Seq<char>) -> ContentKind {
    if extension(vstd::utf8::encode_utf8(path)) == Some(animated_extension()) {
        ContentKind::Animated
    } else {
        ContentKind::Still
    }
}

/// Classifies a path by its extension.
pub fn classify(path: &str) -> (kind: ContentKind)
    ensures
        kind == kind_of(path@),
{
    let wanted: Vec<u8> = vec![103u8, 105u8, 102u8];
    if has_extension(path.as_bytes(), wanted.as_slice()) {
        ContentKind::Animated
    } else {
        ContentKind::Still
    }
}

/// Decoded content, ready for display.
#[derive(Debug, PartialEq, Eq)]
pub enum Content {
    /// One frame.
    Still(Frame),
    /// An ordered, non-empty sequence of frames with their display times.
    Animated(Animation),
}

/// Mathematical model of decoded content.
pub enum ContentModel {
    Still(Raster),
    Animated(Seq<(Raster, nat)>),
}

impl ContentModel {
    /// Every raster is well formed and an animation has at least one frame.
    pub open spec fn well_formed(self) -> bool {
        match self {
            ContentModel::Still(raster) => raster.well_formed(),
            ContentModel::Animated(frames) => frames.len() > 0 && all_well_formed(frames),
        }
    }

    /// The natural dimensions: those of the only frame, or of the first.
    pub open spec fn size(self) -> (u32, u32) {
        match self {
            ContentModel::Still(raster) => raster.size(),
            ContentModel::Animated(frames) => frames[0].0.size(),
        }
    }
}

impl View for Content {
    type V = ContentModel;

    open spec fn view(&self) -> ContentModel {
        match self {
            Content::Still(frame) => ContentModel::Still(frame@),
            Content::Animated(animation) => ContentModel::Animated(animation@),
        }
    }
}

/// Why a file could not be turned into content.
#[derive(Debug, PartialEq, Eq)]
pub enum LoadError {
    /// The file could not be read; the text says why.
    Unreadable(String),
    /// The codec rejected the bytes; the text says why.
    Decode(String),
    /// The file was decoded as an animation but holds no frame.
    NoFrames,
}

/// Mathematical model of a load error.
pub enum LoadErrorModel {
    Unreadable(Seq<char>),
    Decode(Seq<char>),
    NoFrames,
}

impl View for LoadError {
    type V = LoadErrorModel;

    open spec fn view(&self) -> LoadErrorModel {
        match self {
            LoadError::Unreadable(reason) => LoadErrorModel::Unreadable(reason@),
            LoadError::Decode(reason) => LoadErrorModel::Decode(reason@),
            LoadError::NoFrames => LoadErrorModel::NoFrames,
        }
    }
}

/// The reason given when a codec returns pixel data whose length does not fit
/// the dimensions it reports.
pub open spec fn malformed_text() -> Seq<char> {
    "pixel data does not match the image dimensions"@
}

/// The text shown when an animation holds no frame.
pub open spec fn no_frames_text() -> Seq<char> {
    "No frames could be decoded"@
}

/// The text shown to the user for an error that arose while loading content
/// of the given kind.
pub open spec fn error_text(error: LoadErrorModel, kind: ContentKind) -> Seq<char> {
    match (kind, error) {
        (_, LoadErrorModel::NoFrames) => no_frames_text(),
        (ContentKind::Still, LoadErrorModel::Unreadable(reason)) => "Failed to load image: "@
            + reason,
        (ContentKind::Still, LoadErrorModel::Decode(reason)) => "Failed to load image: "@ + reason,
        (ContentKind::Animated, LoadErrorModel::Unreadable(reason)) => "Failed to open file: "@
            + reason,
        (ContentKind::Animated, LoadErrorModel::Decode(reason)) => "Failed to decode frame: "@
            + reason,
    }
}

impl LoadError {
    /// The text that the viewer shows in place of the content.
    pub fn message(&self, kind: ContentKind) -> (text: String)
        ensures
            text@ == error_text(self@, kind),
    {
        match self {
            LoadError::NoFrames => String::from_str("No frames could be decoded"),
            LoadError::Unreadable(reason) => match kind {
                ContentKind::Still => String::from_str("Failed to load image: ").concat(
                    reason.as_str(),
                ),
                ContentKind::Animated => String::from_str("Failed to open file: ").concat(
                    reason.as_str(),
                ),
            },
            LoadError::Decode(reason) => match kind {
                ContentKind::Still => String::from_str("Failed to load image: ").concat(
                    reason.as_str(),
                ),
                ContentKind::Animated => String::from_str("Failed to decode frame: ").concat(
                    reason.as_str(),
                ),
            },
        }
    }
}

/// The view of the outcome of a load.
pub open spec fn load_view(r: Result<Content, LoadError>) -> Result<ContentModel, LoadErrorModel> {
    match r {
        Ok(content) => Ok(content@),
        Err(error) => Err(error@),
    }
}

/// What a still-image decoding becomes: the frame if its pixel data is well
/// formed, a decode error otherwise.
pub open spec fn still_content(decoded: Result<Raster, Seq<char>>) -> Result<
    ContentModel,
    LoadErrorModel,
> {
    match decoded {
        Err(reason) => Err(LoadErrorModel::Decode(reason)),
        Ok(raster) => if raster.well_formed() {
            Ok(ContentModel::Still(raster))
        } else {
            Err(LoadErrorModel::Decode(malformed_text()))
        },
    }
}

/// What an animation decoding becomes: the frames if there is at least one and
/// all are well formed; `NoFrames` if there is none; a decode error otherwise.
pub open spec fn animated_content(decoded: Result<Seq<(Raster, nat)>, Seq<char>>) -> Result<
    ContentModel,
    LoadErrorModel,
> {
    match decoded {
        Err(reason) => Err(LoadErrorModel::Decode(reason)),
        Ok(frames) => if frames.len() == 0 {
            Err(LoadErrorModel::NoFrames)
        } else if all_well_formed(frames) {
            Ok(ContentModel::Animated(frames))
        } else {
            Err(LoadErrorModel::Decode(malformed_text()))
        },
    }
}

/// A decoding result that stands where the still-image codec is not asked.
pub open spec fn no_decoding() -> Result<Raster, Seq<char>> {
    Err(Seq::empty())
}

/// What loading a file as a still image yields, given what the codec made of
/// its bytes. The codec's answer counts only if the file could be read.
pub open spec fn loaded_still(
    file: Result<Seq<u8>, Seq<char>>,
    decoded: Result<Raster, Seq<char>>,
) -> Result<ContentModel, LoadErrorModel> {
    match file {
        Err(reason) => Err(LoadErrorModel::Unreadable(reason)),
        Ok(_) => still_content(decoded),
    }
}

/// What loading a file as an animation yields.
pub open spec fn loaded_animation(file: Result<Seq<u8>, Seq<char>>) -> Result<
    ContentModel,
    LoadErrorModel,
> {
    match file {
        Err(reason) => Err(LoadErrorModel::Unreadable(reason)),
        Ok(bytes) => animated_content(animation_decoding(bytes)),
    }
}

/// What loading a file yields: the path decides between still and animated.
/// An animation is a function of the bytes; a still image is what the codec
/// made of them, `decoded`, which counts for nothing on the animated side.
pub open spec fn loaded(
    path: Seq<char>,
    file: Result<Seq<u8>, Seq<char>>,
    decoded: Result<Raster, Seq<char>>,
) -> Result<ContentModel, LoadErrorModel> {
    match kind_of(path) {
        ContentKind::Animated => loaded_animation(file),
        ContentKind::Still => loaded_still(file, decoded),
    }
}

impl Content {
    /// Turns what the still-image codec returned into content.
    pub fn from_still(decoded: Result<RawImage, String>) -> (content: Result<Content, LoadError>)
        ensures
            load_view(content) == still_content(still_result_view(decoded)),
            content matches Ok(c) ==> c@.well_formed(),
    {
        match decoded {
            Err(reason) => Err(LoadError::Decode(reason)),
            Ok(raw) => match Frame::from_raw(raw) {
                Some(frame) => Ok(Content::Still(frame)),
                None => Err(
                    LoadError::Decode(
                        String::from_str("pixel data does not match the image dimensions"),
                    ),
                ),
            },
        }
    }

    /// Turns what the animation codec returned into content.
    pub fn from_animation(decoded: Result<Vec<RawFrame>, String>) -> (content: Result<
        Content,
        LoadError,
    >)
        ensures
            load_view(content) == animated_content(animation_result_view(decoded)),
            content matches Ok(c) ==> c@.well_formed(),
    {
        match decoded {
            Err(reason) => Err(LoadError::Decode(reason)),
            Ok(frames) => {
                if frames.len() == 0 {
                    return Err(LoadError::NoFrames);
                }
                match Animation::from_raw(frames) {
                    Some(animation) => Ok(Content::Animated(animation)),
                    None => Err(
                        LoadError::Decode(
                            String::from_str("pixel data does not match the image dimensions"),
                        ),
                    ),
                }
            },
        }
    }

    /// The natural dimensions of the content.
    pub fn dimensions(&self) -> (d: (u32, u32))
        ensures
            d == self@.size(),
    {
        match self {
            Content::Still(frame) => frame.dimensions(),
            Content::Animated(animation) => animation.dimensions(),
        }
    }

    /// Whether the content is an animation.
    pub fn is_animated(&self) -> (animated: bool)
        ensures
            animated == (self@ is Animated),
    {
        match self {
            Content::Still(_) => false,
            Content::Animated(_) => true,
        }
    }
}

/// Loads a file as a still image. The codec is chosen by the extension of
/// `path`; `file` holds the bytes, or the reason why they could not be read.
/// A file that could not be read is reported as such, with its reason, and
/// nothing else is. What the codec makes of the bytes is not known here; the
/// outcome is what `still_content` gives for the codec's answer, whatever
/// that answer is.
pub fn load_static_image(path: &str, file: Result<Vec<u8>, String>) -> (content: Result<
    Content,
    LoadError,
>)
    ensures
        file matches Err(reason) ==> load_view(content) == Err::<ContentModel, LoadErrorModel>(
            LoadErrorModel::Unreadable(reason@),
        ),
        (content matches Err(LoadError::Unreadable(_))) <==> file is Err,
        !(content matches Err(LoadError::NoFrames)),
        !(content matches Ok(Content::Animated(_))),
        content matches Ok(c) ==> c@.well_formed(),
        exists|decoded: Result<Raster, Seq<char>>|
            load_view(content) == #[trigger] loaded_still(file_view(file), decoded),
{
    match file {
        Err(reason) => {
            let content = Err(LoadError::Unreadable(reason));
            assert(load_view(content) == loaded_still(file_view(file), no_decoding()));
            content
        },
        Ok(bytes) => {
            let decoded = decode_still(path, bytes.as_slice());
            let ghost answer = still_result_view(decoded);
            let content = Content::from_still(decoded);
            assert(load_view(content) == loaded_still(file_view(file), answer));
            content
        },
    }
}

/// Loads a file as an animation. A file without a single frame is an error,
/// never an empty animation.
pub fn load_gif(file: Result<Vec<u8>, String>) -> (content: Result<Content, LoadError>)
    ensures
        load_view(content) == loaded_animation(file_view(file)),
        content matches Ok(c) ==> c@.well_formed(),
{
    match file {
        Err(reason) => Err(LoadError::Unreadable(reason)),
        Ok(bytes) => Content::from_animation(decode_animation(bytes.as_slice())),
    }
}

/// The icon that a decoding yields: the raster if decoding succeeded and the
/// pixel data is well formed, nothing otherwise.
pub open spec fn icon_of(decoded: Result<Raster, Seq<char>>) -> Option<Raster> {
    match decoded {
        Ok(raster) => if raster.well_formed() {
            Some(raster)
        } else {
            None
        },
        Err(_) => None,
    }
}

/// The view of an icon that may be missing.
pub open spec fn icon_view(icon: Option<Frame>) -> Option<Raster> {
    match icon {
        Some(frame) => Some(frame@),
        None => None,
    }
}

/// Turns what the codec returned for the icon into the icon, if it is one.
pub fn icon_from(decoded: Result<RawImage, String>) -> (icon: Option<Frame>)
    ensures
        icon_view(icon) == icon_of(still_result_view(decoded)),
{
    match decoded {
        Ok(raw) => Frame::from_raw(raw),
        Err(_) => None,
    }
}

/// Decodes the bytes of the embedded window icon. The format is guessed from
/// the bytes themselves. A failure costs the icon, nothing else. What the
/// codec makes of the bytes is not known here; the outcome is what `icon_of`
/// gives for the codec's answer, whatever that answer is.
pub fn load_embedded_icon(icon_bytes: &[u8]) -> (icon: Option<Frame>)
    ensures
        icon matches Some(frame) ==> frame@.well_formed(),
        exists|decoded: Result<Raster, Seq<char>>| icon_view(icon) == #[trigger] icon_of(decoded),
{
    let decoded = decode_sniffed(icon_bytes);
    let ghost answer = still_result_view(decoded);
    let icon = icon_from(decoded);
    assert(icon_view(icon) == icon_of(answer));
    icon
}

/// Loads the content of a file: as an animation if the path has the animated
/// extension, as a still image otherwise. On the animated side the outcome is
/// a function of the bytes. On the still side it is what `still_content`
/// gives for the codec's answer, whatever that answer is; a file that could
/// not be read is reported as such on either side.
pub fn load(path: &str, file: Result<Vec<u8>, String>) -> (content: Result<Content, LoadError>)
    ensures
        file matches Err(reason) ==> load_view(content) == Err::<ContentModel, LoadErrorModel>(
            LoadErrorModel::Unreadable(reason@),
        ),
        (content matches Err(LoadError::Unreadable(_))) <==> file is Err,
        kind_of(path@) == ContentKind::Animated ==> load_view(content) == loaded_animation(
            file_view(file),
        ),
        kind_of(path@) == ContentKind::Still ==> !(content matches Ok(Content::Animated(_)))
            && !(content matches Err(LoadError::NoFrames)),
        content matches Ok(c) ==> c@.well_formed(),
        exists|decoded: Result<Raster, Seq<char>>|
            load_view(content) == #[trigger] loaded(path@, file_view(file), decoded),
{
    match classify(path) {
        ContentKind::Animated => {
            let content = load_gif(file);
            assert(load_view(content) == loaded(path@, file_view(file), no_decoding()));
            content
        },
        ContentKind::Still => {
            let content = load_static_image(path, file);
            let ghost answer = choose|decoded: Result<Raster, Seq<char>>|
                load_view(content) == #[trigger] loaded_still(file_view(file), decoded);
            assert(load_view(content) == loaded(path@, file_view(file), answer));
            content
        },
    }
}

} // verus!
