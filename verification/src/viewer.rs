//! What the render loop owns: the current path, what is on display, and the
//! playback of animated content.

use crate::content::{
    all_well_formed, classify, error_text, kind_of, load, load_view, loaded, loaded_animation,
    no_decoding, Animation, Content, ContentKind, ContentModel, LoadError, LoadErrorModel,
};
use crate::frame::{Frame, Raster};
use crate::views::{file_view, optional_file_view, text_view};
use vstd::prelude::*;

verus! {

/// The three states of playback.
#[derive(Clone, Copy, Debug, PartialEq, Eq, Structural)]
pub enum Playback {
    /// Nothing is on display.
    Idle,
    /// One frame is on display and never changes.
    Still,
    /// A frame of an animation is on display.
    Animated,
}

/// What the content area shows.
#[derive(Clone, Copy, Debug, PartialEq, Eq, Structural)]
pub enum Surface {
    /// The error text, in place of any content.
    Error,
    /// The frame on display, scaled into the available space.
    Picture,
    /// A note that the content is still being loaded.
    Loading,
}

/// Mathematical model of the viewer's state.
pub struct ViewerModel {
    /// The path that was asked for last.
    pub path: Seq<char>,
    /// The decoded still frame, if that is what is on display.
    pub still: Option<Raster>,
    /// The text shown in place of content, if loading failed.
    pub error: Option<Seq<char>>,
    /// The natural dimensions of the content on display.
    pub size: Option<(u32, u32)>,
    /// The frames of the animation on display, each with its display time.
    pub frames: Option<Seq<(Raster, nat)>>,
    /// Index of the animation frame on display.
    pub index: nat,
    /// Clock reading at the last frame advance.
    pub last_advance: nat,
    /// Whether an animation is on display.
    pub animated: bool,
}

/// Time that passed between two readings of a monotonic clock; zero if the
/// later reading is the smaller one.
pub open spec fn elapsed(now: nat, since: nat) -> nat {
    if now >= since {
        (now - since) as nat
    } else {
        0
    }
}

impl ViewerModel {
    /// The invariant of the viewer's state: the animated flag is set exactly
    /// when a non-empty frame sequence is present; a still frame and a frame
    /// sequence never coexist; an error replaces all content; the index stays
    /// inside the sequence; and the natural size is that of the content.
    pub open spec fn well_formed(self) -> bool {
        &&& self.animated <==> (self.frames matches Some(frames) && frames.len() > 0)
        &&& !(self.still is Some && self.frames is Some)
        &&& self.error is Some ==> self.still is None && self.frames is None
        &&& self.frames matches Some(frames) ==> {
            &&& frames.len() > 0
            &&& all_well_formed(frames)
            &&& self.index < frames.len()
            &&& self.size == Some(frames[0].0.size())
        }
        &&& self.still matches Some(raster) ==> {
            &&& raster.well_formed()
            &&& self.size == Some(raster.size())
        }
        &&& self.frames is None ==> self.index == 0
        &&& (self.still is None && self.frames is None) ==> self.size is None
    }

    /// The playback state.
    pub open spec fn playback(self) -> Playback {
        if self.frames is Some {
            Playback::Animated
        } else if self.still is Some {
            Playback::Still
        } else {
            Playback::Idle
        }
    }

    /// The raster that belongs on screen: the current frame of the animation,
    /// or the still frame.
    pub open spec fn displayed(self) -> Option<Raster> {
        match self.frames {
            Some(frames) => Some(frames[self.index as int].0),
            None => self.still,
        }
    }

    /// What the content area shows.
    pub open spec fn surface(self) -> Surface {
        if self.error is Some {
            Surface::Error
        } else if self.displayed() is Some && self.size is Some {
            Surface::Picture
        } else {
            Surface::Loading
        }
    }

    /// The state of a viewer that was just started on `path`.
    pub open spec fn initial(path: Seq<char>, now: nat) -> ViewerModel {
        ViewerModel {
            path,
            still: None,
            error: None,
            size: None,
            frames: None,
            index: 0,
            last_advance: now,
            animated: false,
        }
    }

    /// The state after a new path arrived: everything but the clock reading is
    /// reset, whatever was on display before.
    pub open spec fn reset(self, path: Seq<char>) -> ViewerModel {
        ViewerModel::initial(path, self.last_advance)
    }

    /// The state after a load attempt ended with `outcome` at time `now`.
    pub open spec fn shown(self, outcome: Result<ContentModel, LoadErrorModel>, now: nat)
        -> ViewerModel {
        match outcome {
            Ok(ContentModel::Still(raster)) => ViewerModel {
                still: Some(raster),
                size: Some(raster.size()),
                ..self.reset(self.path)
            },
            Ok(ContentModel::Animated(frames)) => ViewerModel {
                size: Some(frames[0].0.size()),
                frames: Some(frames),
                last_advance: now,
                animated: true,
                ..self.reset(self.path)
            },
            Err(error) => ViewerModel {
                error: Some(error_text(error, kind_of(self.path))),
                ..self.reset(self.path)
            },
        }
    }

    /// Whether a tick at time `now` advances the animation: only while an
    /// animation is on display, and only once the current frame has been shown
    /// for its full display time.
    pub open spec fn due(self, now: nat) -> bool {
        self.frames matches Some(frames) && self.index < frames.len() && elapsed(
            now,
            self.last_advance,
        ) >= frames[self.index as int].1
    }

    /// The state after a tick at time `now`: at most one step forward, however
    /// much time has passed.
    pub open spec fn ticked(self, now: nat) -> ViewerModel {
        if self.due(now) {
            ViewerModel {
                index: (((self.index + 1) as int) % (self.frames->0.len() as int)) as nat,
                last_advance: now,
                ..self
            }
        } else {
            self
        }
    }

    /// Whether nothing is on display and nothing has failed, although a path
    /// is set.
    pub open spec fn awaits_content(self) -> bool {
        self.still is None && self.frames is None && self.error is None && self.path.len() > 0
    }

    /// The path that an update will load, given the message it receives: the
    /// new path if there is one, else the current path if it still awaits its
    /// content.
    pub open spec fn load_target(self, message: Option<Seq<char>>) -> Option<Seq<char>> {
        match message {
            Some(path) => Some(path),
            None => if self.awaits_content() {
                Some(self.path)
            } else {
                None
            },
        }
    }

    /// The state after the message, if any, has been taken in.
    pub open spec fn received(self, message: Option<Seq<char>>) -> ViewerModel {
        match message {
            Some(path) => self.reset(path),
            None => self,
        }
    }

    /// The state after the file of the current path was loaded at time
    /// `now`. `decoded` is what the still-image codec made of the bytes; it
    /// counts only where a still image is decoded.
    pub open spec fn load_shown(
        self,
        file: Result<Seq<u8>, Seq<char>>,
        decoded: Result<Raster, Seq<char>>,
        now: nat,
    ) -> ViewerModel {
        self.shown(loaded(self.path, file, decoded), now)
    }

    /// The state after the load step of an update.
    pub open spec fn load_step(
        self,
        message: Option<Seq<char>>,
        file: Option<Result<Seq<u8>, Seq<char>>>,
        decoded: Result<Raster, Seq<char>>,
        now: nat,
    ) -> ViewerModel {
        let taken = self.received(message);
        match (self.load_target(message), file) {
            (Some(_), Some(f)) => taken.load_shown(f, decoded, now),
            _ => taken,
        }
    }

    /// The state after one whole update: take in the message, load if a load
    /// is due and the file is at hand, then tick. `decoded` is what the
    /// still-image codec made of the bytes; it counts only where a still
    /// image is decoded.
    pub open spec fn updated(
        self,
        message: Option<Seq<char>>,
        file: Option<Result<Seq<u8>, Seq<char>>>,
        decoded: Result<Raster, Seq<char>>,
        now: nat,
    ) -> ViewerModel {
        self.load_step(message, file, decoded, now).ticked(now)
    }

    /// Whether an update hands bytes to the still-image codec: a load is due,
    /// the file was read, and the path announces a still image.
    pub open spec fn decodes_still(
        self,
        message: Option<Seq<char>>,
        file: Option<Result<Seq<u8>, Seq<char>>>,
    ) -> bool {
        self.load_target(message) matches Some(path) && file matches Some(Ok(_)) && kind_of(path)
            == ContentKind::Still
    }
}


/// The state that the render loop owns.
pub struct ViewerState {
    image_path: String,
    still: Option<Frame>,
    error_message: Option<String>,
    natural_size: Option<(u32, u32)>,
    frames: Option<Animation>,
    current_frame: usize,
    last_frame_time: u128,
    is_animated: bool,
}

impl View for ViewerState {
    type V = ViewerModel;

    closed spec fn view(&self) -> ViewerModel {
        ViewerModel {
            path: self.image_path@,
            still: match self.still {
                Some(frame) => Some(frame@),
                None => None,
            },
            error: text_view(self.error_message),
            size: self.natural_size,
            frames: match self.frames {
                Some(animation) => Some(animation@),
                None => None,
            },
            index: self.current_frame as nat,
            last_advance: self.last_frame_time as nat,
            animated: self.is_animated,
        }
    }
}

impl ViewerState {
    #[verifier::type_invariant]
    spec fn inv(&self) -> bool {
        self@.well_formed()
    }

    /// A viewer that has `image_path` to show and has not loaded it yet.
    pub fn new(image_path: String, now: u128) -> (state: ViewerState)
        ensures
            state@ == ViewerModel::initial(image_path@, now as nat),
            state@.well_formed(),
    {
        ViewerState {
            image_path,
            still: None,
            error_message: None,
            natural_size: None,
            frames: None,
            current_frame: 0,
            last_frame_time: now,
            is_animated: false,
        }
    }

    /// Takes in a new path: whatever was on display is dropped.
    pub fn receive(&mut self, new_path: String)
        ensures
            final(self)@ == old(self)@.reset(new_path@),
            final(self)@.well_formed(),
    {
        *self = ViewerState {
            image_path: new_path,
            still: None,
            error_message: None,
            natural_size: None,
            frames: None,
            current_frame: 0,
            last_frame_time: self.last_frame_time,
            is_animated: false,
        };
    }

    /// Puts the outcome of a load on display: the content, or the error text
    /// in its place.
    pub fn show(&mut self, outcome: Result<Content, LoadError>, now: u128)
        ensures
            final(self)@ == old(self)@.shown(load_view(outcome), now as nat),
            final(self)@.well_formed(),
    {
        let image_path = self.image_path.clone();
        let last_frame_time: u128 = self.last_frame_time;
        match outcome {
            Ok(Content::Still(frame)) => {
                proof {
                    use_type_invariant(&frame);
                }
                let size: (u32, u32) = frame.dimensions();
                *self = ViewerState {
                    image_path,
                    still: Some(frame),
                    error_message: None,
                    natural_size: Some(size),
                    frames: None,
                    current_frame: 0,
                    last_frame_time,
                    is_animated: false,
                };
            },
            Ok(Content::Animated(animation)) => {
                proof {
                    use_type_invariant(&animation);
                }
                let size: (u32, u32) = animation.dimensions();
                *self = ViewerState {
                    image_path,
                    still: None,
                    error_message: None,
                    natural_size: Some(size),
                    frames: Some(animation),
                    current_frame: 0,
                    last_frame_time: now,
                    is_animated: true,
                };
            },
            Err(error) => {
                let text = error.message(classify(image_path.as_str()));
                *self = ViewerState {
                    image_path,
                    still: None,
                    error_message: Some(text),
                    natural_size: None,
                    frames: None,
                    current_frame: 0,
                    last_frame_time,
                    is_animated: false,
                };
            },
        }
    }

    /// Loads the file of the current path and puts the outcome on display.
    /// `file` holds the bytes of that file, or the reason why they could not
    /// be read. Where the file could not be read, or the path announces an
    /// animation, the new state is a function of the arguments. Where a still
    /// image is decoded, it is what `load_shown` gives for the codec's
    /// answer, whatever that answer is.
    pub fn load_image(&mut self, file: Result<Vec<u8>, String>, now: u128)
        ensures
            final(self)@.well_formed(),
            final(self)@.path == old(self)@.path,
            file matches Err(reason) ==> final(self)@ == old(self)@.shown(
                Err(LoadErrorModel::Unreadable(reason@)),
                now as nat,
            ),
            kind_of(old(self)@.path) == ContentKind::Animated ==> final(self)@ == old(self)@.shown(
                loaded_animation(file_view(file)),
                now as nat,
            ),
            kind_of(old(self)@.path) == ContentKind::Still ==> !final(self)@.animated,
            exists|decoded: Result<Raster, Seq<char>>|
                final(self)@ == #[trigger] old(self)@.load_shown(
                    file_view(file),
                    decoded,
                    now as nat,
                ),
    {
        let ghost before = self@;
        let ghost read = file_view(file);
        let outcome = load(self.image_path.as_str(), file);
        let ghost answer = choose|decoded: Result<Raster, Seq<char>>|
            load_view(outcome) == #[trigger] loaded(before.path, read, decoded);
        self.show(outcome, now);
        assert(self@ == before.load_shown(read, answer, now as nat));
    }

    /// One tick of the playback clock. While an animation is on display and
    /// its current frame has been shown for its full display time, the next
    /// frame comes up, the one after the last being the first. The result
    /// says whether the frame on display changed.
    pub fn tick(&mut self, now: u128) -> (advanced: bool)
        ensures
            final(self)@ == old(self)@.ticked(now as nat),
            advanced == old(self)@.due(now as nat),
            final(self)@.well_formed(),
    {
        proof {
            use_type_invariant(&*self);
        }
        let due = match &self.frames {
            None => None,
            Some(animation) => {
                let passed: u128 = if now >= self.last_frame_time {
                    now - self.last_frame_time
                } else {
                    0
                };
                if passed >= animation.duration(self.current_frame) {
                    let count: usize = animation.len();
                    if self.current_frame + 1 == count {
                        proof {
                            vstd::arithmetic::div_mod::lemma_mod_self_0(count as int);
                        }
                        Some(0usize)
                    } else {
                        proof {
                            vstd::arithmetic::div_mod::lemma_small_mod(
                                (self.current_frame + 1) as nat,
                                count as nat,
                            );
                        }
                        Some(self.current_frame + 1)
                    }
                } else {
                    None
                }
            },
        };
        match due {
            None => false,
            Some(next) => {
                self.current_frame = next;
                self.last_frame_time = now;
                true
            },
        }
    }

    /// The path whose file the next update will load, given the message that
    /// the update will receive.
    pub fn load_target(&self, message: &Option<String>) -> (target: Option<String>)
        ensures
            text_view(target) == self@.load_target(text_view(*message)),
    {
        match message {
            Some(path) => Some(path.clone()),
            None => {
                if self.still.is_none() && self.frames.is_none() && self.error_message.is_none()
                    && !self.image_path.as_str().is_empty() {
                    Some(self.image_path.clone())
                } else {
                    None
                }
            },
        }
    }

    /// One pass of the render loop before painting. `message` is what the
    /// dispatch channel held, if anything; `file` is the outcome of reading
    /// the file named by `load_target`, if that named one; `now` is the
    /// reading of a monotonic clock in nanoseconds. A message resets the
    /// state; the file, where one is due, is loaded; then playback ticks. The
    /// result says whether the picture on display may have changed.
    pub fn update(
        &mut self,
        message: Option<String>,
        file: Option<Result<Vec<u8>, String>>,
        now: u128,
    ) -> (dirty: bool)
        ensures
            final(self)@.well_formed(),
            final(self)@.path == old(self)@.received(text_view(message)).path,
            dirty == (message is Some || (old(self)@.load_target(text_view(message)) is Some
                && file is Some) || old(self)@.due(now as nat)),
            !old(self)@.decodes_still(text_view(message), optional_file_view(file))
                ==> final(self)@ == old(self)@.updated(
                text_view(message),
                optional_file_view(file),
                no_decoding(),
                now as nat,
            ),
            exists|decoded: Result<Raster, Seq<char>>|
                final(self)@ == #[trigger] old(self)@.updated(
                    text_view(message),
                    optional_file_view(file),
                    decoded,
                    now as nat,
                ),
    {
        let ghost before = self@;
        let ghost text = text_view(message);
        let ghost read = optional_file_view(file);
        let ghost mut answer = no_decoding();
        let wanted: bool = self.load_target(&message).is_some();
        let mut dirty: bool = false;
        match message {
            Some(new_path) => {
                self.receive(new_path);
                dirty = true;
            },
            None => {},
        }
        match file {
            Some(f) => {
                if wanted {
                    let ghost taken = self@;
                    let ghost bytes = file_view(f);
                    self.load_image(f, now);
                    proof {
                        answer = choose|decoded: Result<Raster, Seq<char>>|
                            self@ == #[trigger] taken.load_shown(bytes, decoded, now as nat);
                        if !before.decodes_still(text, read) {
                            assert(self@ == taken.load_shown(bytes, no_decoding(), now as nat));
                            answer = no_decoding();
                        }
                    }
                    dirty = true;
                }
            },
            None => {},
        }
        assert(self@ == before.load_step(text, read, answer, now as nat));
        let advanced: bool = self.tick(now);
        assert(self@ == before.updated(text, read, answer, now as nat));
        dirty || advanced
    }

    /// The path that was asked for last.
    pub fn image_path(&self) -> (path: &str)
        ensures
            path@ == self@.path,
    {
        self.image_path.as_str()
    }

    /// The text shown in place of content, if the last load failed.
    pub fn error_message(&self) -> (text: Option<&str>)
        ensures
            text is Some <==> self@.error is Some,
            text matches Some(t) ==> Some(t@) == self@.error,
    {
        match &self.error_message {
            Some(text) => Some(text.as_str()),
            None => None,
        }
    }

    /// The natural dimensions of the content on display.
    pub fn natural_size(&self) -> (size: Option<(u32, u32)>)
        ensures
            size == self@.size,
    {
        self.natural_size
    }

    /// Whether an animation is on display.
    pub fn is_animated(&self) -> (animated: bool)
        ensures
            animated == self@.animated,
            animated == (self@.playback() == Playback::Animated),
    {
        proof {
            use_type_invariant(self);
        }
        self.is_animated
    }

    /// The playback state.
    pub fn playback(&self) -> (state: Playback)
        ensures
            state == self@.playback(),
    {
        if self.frames.is_some() {
            Playback::Animated
        } else if self.still.is_some() {
            Playback::Still
        } else {
            Playback::Idle
        }
    }

    /// Index of the animation frame on display; zero unless an animation is
    /// on display.
    pub fn current_frame(&self) -> (index: usize)
        ensures
            index == self@.index,
    {
        self.current_frame
    }

    /// Clock reading at the last frame advance.
    pub fn last_frame_time(&self) -> (time: u128)
        ensures
            time == self@.last_advance,
    {
        self.last_frame_time
    }

    /// Number of frames of the animation on display; zero if there is none.
    pub fn frame_count(&self) -> (count: usize)
        ensures
            count == match self@.frames {
                Some(frames) => frames.len(),
                None => 0,
            },
    {
        match &self.frames {
            Some(animation) => animation.len(),
            None => 0,
        }
    }

    /// The frame that belongs on screen, for upload to the display surface.
    pub fn displayed_frame(&self) -> (frame: Option<&Frame>)
        ensures
            frame is Some <==> self@.displayed() is Some,
            frame matches Some(f) ==> Some(f@) == self@.displayed(),
    {
        proof {
            use_type_invariant(self);
        }
        match &self.frames {
            Some(animation) => Some(animation.frame(self.current_frame)),
            None => match &self.still {
                Some(frame) => Some(frame),
                None => None,
            },
        }
    }

    /// What the content area shows: the error text if there is one, else the
    /// picture if one is on display, else a note that loading is under way.
    pub fn surface(&self) -> (surface: Surface)
        ensures
            surface == self@.surface(),
    {
        proof {
            use_type_invariant(self);
        }
        if self.error_message.is_some() {
            Surface::Error
        } else if (self.frames.is_some() || self.still.is_some()) && self.natural_size.is_some() {
            Surface::Picture
        } else {
            Surface::Loading
        }
    }
}

/// Every outcome of a load that holds content holds well-formed content,
/// whatever the codec made of the bytes.
pub proof fn lemma_loaded_well_formed(
    path: Seq<char>,
    file: Result<Seq<u8>, Seq<char>>,
    decoded: Result<Raster, Seq<char>>,
)
    ensures
        loaded(path, file, decoded) matches Ok(content) ==> content.well_formed(),
{
}

/// What the still-image codec returns counts only where a still image is
/// decoded: in every other update the new state is the same for any two
/// answers.
pub proof fn lemma_decoding_counts_only_for_stills(
    state: ViewerModel,
    message: Option<Seq<char>>,
    file: Option<Result<Seq<u8>, Seq<char>>>,
    first: Result<Raster, Seq<char>>,
    second: Result<Raster, Seq<char>>,
    now: nat,
)
    requires
        !state.decodes_still(message, file),
    ensures
        state.updated(message, file, first, now) == state.updated(message, file, second, now),
{
}

/// A load on a state that was just reset changes only what it loads. A
/// failure sets the error text and nothing else. A still image sets the frame
/// and the natural size and nothing else; the error stays clear and the index
/// stays zero. An animation sets the frames, the natural size, the animated
/// flag and the time of the last advance and nothing else.
pub proof fn lemma_load_after_reset_changes_only_what_it_loads(
    state: ViewerModel,
    path: Seq<char>,
    error: LoadErrorModel,
    raster: Raster,
    frames: Seq<(Raster, nat)>,
    now: nat,
)
    ensures
        state.reset(path).shown(Err(error), now) == (ViewerModel {
            error: Some(error_text(error, kind_of(path))),
            ..state.reset(path)
        }),
        state.reset(path).shown(Ok(ContentModel::Still(raster)), now) == (ViewerModel {
            still: Some(raster),
            size: Some(raster.size()),
            ..state.reset(path)
        }),
        state.reset(path).shown(Ok(ContentModel::Animated(frames)), now) == (ViewerModel {
            frames: Some(frames),
            size: Some(frames[0].0.size()),
            animated: true,
            last_advance: now,
            ..state.reset(path)
        }),
{
}

/// The invariant of the viewer's state holds initially and is kept by every
/// transition: a new path, the outcome of a load, a tick and a whole update.
pub proof fn lemma_transitions_keep_invariant(
    state: ViewerModel,
    path: Seq<char>,
    message: Option<Seq<char>>,
    file: Option<Result<Seq<u8>, Seq<char>>>,
    decoded: Result<Raster, Seq<char>>,
    outcome: Result<ContentModel, LoadErrorModel>,
    now: nat,
)
    requires
        state.well_formed(),
        outcome matches Ok(content) ==> content.well_formed(),
    ensures
        ViewerModel::initial(path, now).well_formed(),
        state.reset(path).well_formed(),
        state.shown(outcome, now).well_formed(),
        state.ticked(now).well_formed(),
        state.updated(message, file, decoded, now).well_formed(),
{
    let stepped = state.load_step(message, file, decoded, now);
    assert(stepped.well_formed()) by {
        if let (Some(_), Some(f)) = (state.load_target(message), file) {
            lemma_loaded_well_formed(state.received(message).path, f, decoded);
        }
    }
    lemma_tick_steps_once(stepped, now);
    lemma_tick_steps_once(state, now);
}

/// A tick moves playback by at most one frame. If the current frame has been
/// on screen for at least its display time, however much longer, the index
/// moves to the next frame, wrapping after the last, and the clock reading is
/// taken over. Otherwise nothing changes. The frames themselves never change.
pub proof fn lemma_tick_steps_once(state: ViewerModel, now: nat)
    requires
        state.well_formed(),
    ensures
        state.ticked(now).well_formed(),
        state.ticked(now).frames == state.frames,
        state.frames matches Some(frames) ==> {
            let next = state.ticked(now);
            if elapsed(now, state.last_advance) >= frames[state.index as int].1 {
                &&& next.index == if state.index + 1 == frames.len() {
                    0
                } else {
                    state.index + 1
                }
                &&& next.last_advance == now
            } else {
                next == state
            }
        },
        state.frames is None ==> state.ticked(now) == state,
{
    if let Some(frames) = state.frames {
        let count = frames.len() as int;
        if state.index + 1 == count {
            vstd::arithmetic::div_mod::lemma_mod_self_0(count);
        } else {
            vstd::arithmetic::div_mod::lemma_small_mod((state.index + 1) as nat, count as nat);
        }
    }
}

/// A second tick at the same clock reading does not advance again, provided
/// the frame that just came up has a display time above zero: an advance
/// happens exactly once.
pub proof fn lemma_tick_does_not_repeat(state: ViewerModel, now: nat)
    requires
        state.well_formed(),
        state.due(now),
        state.frames->0[state.ticked(now).index as int].1 > 0,
    ensures
        !state.ticked(now).due(now),
        state.ticked(now).ticked(now) == state.ticked(now),
{
    lemma_tick_steps_once(state, now);
}

/// Showing a well-formed still image of dimensions (W, H) leaves the animated
/// flag clear and sets the natural size to exactly (W, H).
pub proof fn lemma_still_keeps_dimensions(state: ViewerModel, raster: Raster, now: nat)
    requires
        raster.well_formed(),
    ensures
        !state.shown(Ok(ContentModel::Still(raster)), now).animated,
        state.shown(Ok(ContentModel::Still(raster)), now).size == Some(
            (raster.width, raster.height),
        ),
        state.shown(Ok(ContentModel::Still(raster)), now).displayed() == Some(raster),
        state.shown(Ok(ContentModel::Still(raster)), now).playback() == Playback::Still,
{
}

/// Loading a file whose path announces a still image, and whose bytes the
/// codec decoded to a well-formed picture of dimensions (W, H), leaves the
/// animated flag clear and sets the natural size to exactly (W, H).
pub proof fn lemma_loaded_still_keeps_dimensions(
    state: ViewerModel,
    bytes: Seq<u8>,
    raster: Raster,
    now: nat,
)
    requires
        kind_of(state.path) == ContentKind::Still,
        raster.well_formed(),
    ensures
        !state.load_shown(Ok(bytes), Ok(raster), now).animated,
        state.load_shown(Ok(bytes), Ok(raster), now).size == Some((raster.width, raster.height)),
        state.load_shown(Ok(bytes), Ok(raster), now).displayed() == Some(raster),
{
}

/// A path taken from the dispatch channel becomes the current path in the
/// same update, whatever was on display and whatever the load yields.
pub proof fn lemma_message_becomes_current_path(
    state: ViewerModel,
    path: Seq<char>,
    file: Option<Result<Seq<u8>, Seq<char>>>,
    decoded: Result<Raster, Seq<char>>,
    now: nat,
)
    ensures
        state.updated(Some(path), file, decoded, now).path == path,
        state.updated(None, file, decoded, now).path == state.path,
{
}

/// Showing an animation starts playback at its first frame, with the clock
/// reading of the load as the time of the last advance.
pub proof fn lemma_animation_starts_at_first_frame(
    state: ViewerModel,
    frames: Seq<(Raster, nat)>,
    now: nat,
)
    requires
        frames.len() > 0,
        all_well_formed(frames),
    ensures
        state.shown(Ok(ContentModel::Animated(frames)), now).animated,
        state.shown(Ok(ContentModel::Animated(frames)), now).index == 0,
        state.shown(Ok(ContentModel::Animated(frames)), now).last_advance == now,
        state.shown(Ok(ContentModel::Animated(frames)), now).frames == Some(frames),
        state.shown(Ok(ContentModel::Animated(frames)), now).playback() == Playback::Animated,
{
}

} // verus!
