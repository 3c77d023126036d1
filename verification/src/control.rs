//! The per-frame state machine of the simulation: what input events do to
//! the state, and which GPU work each frame asks for.
use vstd::prelude::*;

use crate::grid::{spec_update_bindings, update_bindings, Texture, UpdateBindings};

verus! {

/// Frames over which the frame rate is averaged before it is reported.
pub const FPS_REPORT_FRAMES: u32 = 100;

/// Radius, in cells, of the brush that draws live cells along the cursor.
pub const DRAW_RADIUS: u32 = 10;

/// A mouse button, as the windowing layer names it.
#[derive(Clone, Copy, Debug, PartialEq, Eq)]
pub enum MouseButton {
    Left,
    Right,
    Middle,
    Other(u16),
}

/// An input event of the window, with the cursor position of type `P`.
#[derive(Clone, Copy, Debug)]
pub enum InputEvent<P> {
    /// The cursor moved to the given position, in window pixels.
    CursorMoved(P),
    /// A mouse button was pressed (`pressed`) or released.
    MouseInput { button: MouseButton, pressed: bool },
    /// Any other event.
    Other,
}

/// The segment that one frame draws: from the cursor position of the
/// previous frame (if there was one) to the current cursor position.
#[derive(Clone, Copy, Debug)]
pub struct Stroke<P> {
    /// The cursor position now.
    pub cursor: P,
    /// The cursor position at the end of the previous frame.
    pub previous: Option<P>,
}

impl<P: Copy> Stroke<P> {
    /// Where the segment starts: the previous position, or `fallback` when
    /// no frame ran before this one.
    pub fn start_or(&self, fallback: P) -> (start: P)
        ensures
            start == (match self.previous {
                Some(p) => p,
                None => fallback,
            }),
    {
        match self.previous {
            Some(p) => p,
            None => fallback,
        }
    }
}

/// The GPU work, and the report, that one frame asks for.
#[derive(Clone, Copy, Debug)]
pub struct FrameActions<P> {
    /// The frame closes a window of `FPS_REPORT_FRAMES` frames: show the
    /// average frame rate and restart the measurement.
    pub report_fps: bool,
    /// Run one generation update, with these texture bindings.
    pub generation: Option<UpdateBindings>,
    /// Draw live cells along this segment.
    pub stroke: Option<Stroke<P>>,
}

/// The abstract state of the simulation's control logic.
pub struct FrameState<P> {
    /// Generation updates run so far.
    pub generation: nat,
    /// Frames since the frame rate was last reported.
    pub frames: nat,
    /// Whether the left mouse button is held down.
    pub drawing: bool,
    /// The last reported cursor position.
    pub cursor: P,
    /// The cursor position at the end of the last frame, if a frame ran.
    pub previous: Option<P>,
}

impl<P> FrameState<P> {
    /// The state after one input event: a cursor move sets the cursor, the
    /// left button sets whether the user draws, every other event changes
    /// nothing.
    pub open spec fn after_input(self, event: InputEvent<P>) -> FrameState<P> {
        match event {
            InputEvent::CursorMoved(p) => FrameState {
                generation: self.generation,
                frames: self.frames,
                drawing: self.drawing,
                cursor: p,
                previous: self.previous,
            },
            InputEvent::MouseInput { button: MouseButton::Left, pressed } => FrameState {
                generation: self.generation,
                frames: self.frames,
                drawing: pressed,
                cursor: self.cursor,
                previous: self.previous,
            },
            _ => self,
        }
    }

    /// Whether the coming frame closes a frame-rate window.
    pub open spec fn reports_fps(self) -> bool {
        self.frames + 1 == FPS_REPORT_FRAMES
    }

    /// The state after one frame; `update_due` says whether enough time has
    /// passed since the last generation update to run the next one.
    pub open spec fn after_frame(self, update_due: bool) -> FrameState<P> {
        FrameState {
            generation: if update_due { self.generation + 1 } else { self.generation },
            frames: if self.reports_fps() { 0 } else { self.frames + 1 },
            drawing: self.drawing,
            cursor: self.cursor,
            previous: Some(self.cursor),
        }
    }

    /// The work that one frame asks for: the report when the window closes,
    /// the generation update when it is due, with the bindings of the
    /// generation reached so far, and the stroke from the previous cursor
    /// position to the current one while the user draws.
    pub open spec fn frame_actions(self, update_due: bool) -> FrameActions<P> {
        FrameActions {
            report_fps: self.reports_fps(),
            generation: if update_due {
                Some(spec_update_bindings(self.generation as int))
            } else {
                None
            },
            stroke: if self.drawing {
                Some(Stroke { cursor: self.cursor, previous: self.previous })
            } else {
                None
            },
        }
    }
}

/// The control state of the simulation window: the generation count that
/// selects the texture bindings, the frame-rate window, whether the user
/// draws, and the cursor positions of this frame and of the last one.
pub struct GameOfLifeApp<P> {
    count: usize,
    num_frames: u32,
    drawing: bool,
    cursor_pos: P,
    prev_cursor_pos: Option<P>,
}

impl<P> View for GameOfLifeApp<P> {
    type V = FrameState<P>;

    closed spec fn view(&self) -> FrameState<P> {
        FrameState {
            generation: self.count as nat,
            frames: self.num_frames as nat,
            drawing: self.drawing,
            cursor: self.cursor_pos,
            previous: self.prev_cursor_pos,
        }
    }
}

impl<P> GameOfLifeApp<P> {
    #[verifier::type_invariant]
    spec fn frames_in_window(self) -> bool {
        self.num_frames < FPS_REPORT_FRAMES
    }
}

impl<P: Copy> GameOfLifeApp<P> {
    /// The state before the first frame: no generation run, an empty
    /// frame-rate window, not drawing, the cursor at `origin`, no previous
    /// frame.
    pub fn new(origin: P) -> (app: Self)
        ensures
            app@.generation == 0,
            app@.frames == 0,
            !app@.drawing,
            app@.cursor == origin,
            app@.previous is None,
    {
        GameOfLifeApp {
            count: 0,
            num_frames: 0,
            drawing: false,
            cursor_pos: origin,
            prev_cursor_pos: None,
        }
    }

    /// Generation updates run so far.
    pub fn generation(&self) -> (n: usize)
        ensures
            n == self@.generation,
    {
        self.count
    }

    /// Frames since the frame rate was last reported.
    pub fn frames_since_report(&self) -> (n: u32)
        ensures
            n == self@.frames,
            n < FPS_REPORT_FRAMES,
    {
        proof {
            use_type_invariant(self);
        }
        self.num_frames
    }

    /// Whether the left mouse button is held down.
    pub fn is_drawing(&self) -> (b: bool)
        ensures
            b == self@.drawing,
    {
        self.drawing
    }

    /// The last reported cursor position.
    pub fn cursor(&self) -> (p: P)
        ensures
            p == self@.cursor,
    {
        self.cursor_pos
    }

    /// The cursor position at the end of the last frame, if a frame ran.
    pub fn previous_cursor(&self) -> (p: Option<P>)
        ensures
            p == self@.previous,
    {
        self.prev_cursor_pos
    }

    /// Applies one input event of the window.
    pub fn handle_input(&mut self, event: InputEvent<P>)
        ensures
            final(self)@ == old(self)@.after_input(event),
    {
        proof {
            use_type_invariant(&*self);
        }
        match event {
            InputEvent::CursorMoved(p) => {
                self.cursor_pos = p;
            },
            InputEvent::MouseInput { button: MouseButton::Left, pressed } => {
                self.drawing = pressed;
            },
            _ => {},
        }
    }

    /// Counts one generation update and returns the texture bindings that it
    /// runs with.
    pub fn advance_generation(&mut self) -> (bindings: UpdateBindings)
        requires
            old(self)@.generation < usize::MAX,
        ensures
            bindings == spec_update_bindings(old(self)@.generation as int),
            final(self)@ == (FrameState {
                generation: old(self)@.generation + 1,
                ..old(self)@
            }),
    {
        proof {
            use_type_invariant(&*self);
        }
        let bindings = update_bindings(self.count);
        self.count = self.count + 1;
        bindings
    }

    /// Runs the decisions of one frame and returns the work it asks for.
    pub fn frame(&mut self, update_due: bool) -> (actions: FrameActions<P>)
        requires
            update_due ==> old(self)@.generation < usize::MAX,
        ensures
            final(self)@ == old(self)@.after_frame(update_due),
            actions == old(self)@.frame_actions(update_due),
            final(self)@.frames < FPS_REPORT_FRAMES,
    {
        proof {
            use_type_invariant(&*self);
        }
        let frames = self.num_frames + 1;
        let report_fps = frames == FPS_REPORT_FRAMES;
        if report_fps {
            self.num_frames = 0;
        } else {
            self.num_frames = frames;
        }
        let generation = if update_due {
            Some(self.advance_generation())
        } else {
            None
        };
        let stroke = if self.drawing {
            Some(Stroke { cursor: self.cursor_pos, previous: self.prev_cursor_pos })
        } else {
            None
        };
        self.prev_cursor_pos = Some(self.cursor_pos);
        FrameActions { report_fps, generation, stroke }
    }
}

/// Number of frames in `dues` that ran a generation update.
pub open spec fn count_updates(dues: Seq<bool>) -> nat
    decreases dues.len(),
{
    if dues.len() == 0 {
        0
    } else {
        count_updates(dues.drop_last()) + if dues.last() {
            1nat
        } else {
            0nat
        }
    }
}

impl<P> FrameState<P> {
    /// The state after a run of frames, `dues[i]` saying whether the update
    /// was due in frame `i`.
    pub open spec fn after_frames(self, dues: Seq<bool>) -> FrameState<P>
        decreases dues.len(),
    {
        if dues.len() == 0 {
            self
        } else {
            self.after_frames(dues.drop_last()).after_frame(dues.last())
        }
    }

    /// How many frames of the run report the frame rate.
    pub open spec fn reports_during(self, dues: Seq<bool>) -> nat
        decreases dues.len(),
    {
        if dues.len() == 0 {
            0
        } else {
            self.reports_during(dues.drop_last()) + if self.after_frames(
                dues.drop_last(),
            ).reports_fps() {
                1nat
            } else {
                0nat
            }
        }
    }

    /// The state after a run of input events, in order.
    pub open spec fn after_inputs(self, events: Seq<InputEvent<P>>) -> FrameState<P>
        decreases events.len(),
    {
        if events.len() == 0 {
            self
        } else {
            self.after_inputs(events.drop_last()).after_input(events.last())
        }
    }
}

/// Over any run of frames from a state whose frame-rate window is open: the
/// window position is the number of frames so far modulo
/// `FPS_REPORT_FRAMES`, the frame rate is reported once per completed window,
/// the generation count grows by the number of frames in which the update
/// was due, the cursor and the drawing flag are kept, and after at least one
/// frame the previous position is the cursor position.
pub proof fn lemma_frame_run<P>(s: FrameState<P>, dues: Seq<bool>)
    requires
        s.frames < FPS_REPORT_FRAMES,
    ensures
        s.after_frames(dues).frames == (s.frames + dues.len()) % (FPS_REPORT_FRAMES as nat),
        s.reports_during(dues) == (s.frames + dues.len()) / (FPS_REPORT_FRAMES as nat),
        s.after_frames(dues).generation == s.generation + count_updates(dues),
        s.after_frames(dues).drawing == s.drawing,
        s.after_frames(dues).cursor == s.cursor,
        dues.len() > 0 ==> s.after_frames(dues).previous == Some(s.cursor),
    decreases dues.len(),
{
    if dues.len() > 0 {
        lemma_frame_run(s, dues.drop_last());
    }
}

/// Input events never touch the generation count, the frame-rate window or
/// the previous cursor position.
pub proof fn lemma_inputs_keep_counters<P>(s: FrameState<P>, events: Seq<InputEvent<P>>)
    ensures
        s.after_inputs(events).generation == s.generation,
        s.after_inputs(events).frames == s.frames,
        s.after_inputs(events).previous == s.previous,
    decreases events.len(),
{
    if events.len() > 0 {
        lemma_inputs_keep_counters(s, events.drop_last());
    }
}

/// Strokes of consecutive frames join up: whatever input arrives between two
/// frames, the stroke of the second frame starts where the cursor was when
/// the first frame ran, and ends at the cursor position now.
pub proof fn lemma_strokes_join<P>(
    s: FrameState<P>,
    first_due: bool,
    events: Seq<InputEvent<P>>,
    second_due: bool,
)
    ensures
        ({
            let t = s.after_frame(first_due).after_inputs(events);
            t.frame_actions(second_due).stroke matches Some(st) ==> st.previous == Some(s.cursor)
                && st.cursor == t.cursor
        }),
{
    lemma_inputs_keep_counters(s.after_frame(first_due), events);
}

/// A mouse-button event other than the left button leaves the whole state
/// as it was, whether the button goes down or up.
pub proof fn lemma_other_buttons_change_nothing<P>(s: FrameState<P>, button: MouseButton, pressed: bool)
    requires
        button != MouseButton::Left,
    ensures
        s.after_input(InputEvent::MouseInput { button, pressed }) == s,
        s.after_input(InputEvent::MouseInput { button, pressed }).drawing == s.drawing,
{
}

/// The left button sets the drawing flag to whether it is down, and touches
/// nothing else: not the cursor, not the previous position, not the counters.
pub proof fn lemma_left_button_sets_drawing_only<P>(s: FrameState<P>, pressed: bool)
    ensures
        ({
            let t = s.after_input(InputEvent::MouseInput { button: MouseButton::Left, pressed });
            &&& t.drawing == pressed
            &&& t.cursor == s.cursor
            &&& t.previous == s.previous
            &&& t.generation == s.generation
            &&& t.frames == s.frames
        }),
{
}

/// No mouse-button event moves the cursor.
pub proof fn lemma_buttons_keep_cursor<P>(s: FrameState<P>, button: MouseButton, pressed: bool)
    ensures
        s.after_input(InputEvent::MouseInput { button, pressed }).cursor == s.cursor,
{
}

/// A cursor move sets the cursor to the new position and touches nothing
/// else; any other non-button event changes nothing.
pub proof fn lemma_cursor_moves<P>(s: FrameState<P>, p: P)
    ensures
        ({
            let t = s.after_input(InputEvent::CursorMoved(p));
            &&& t.cursor == p
            &&& t.drawing == s.drawing
            &&& t.previous == s.previous
            &&& t.generation == s.generation
            &&& t.frames == s.frames
        }),
        s.after_input(InputEvent::Other) == s,
{
}

/// A frame reports the frame rate exactly when it closes the window of
/// `FPS_REPORT_FRAMES` frames, whether or not the user draws and whether or
/// not an update is due; the window then starts again from zero, and
/// otherwise grows by one.
pub proof fn lemma_frame_reports_every_window<P>(s: FrameState<P>, update_due: bool)
    requires
        s.frames < FPS_REPORT_FRAMES,
    ensures
        s.frame_actions(update_due).report_fps <==> s.frames + 1 == FPS_REPORT_FRAMES,
        s.frame_actions(update_due).report_fps ==> s.after_frame(update_due).frames == 0,
        !s.frame_actions(update_due).report_fps ==> s.after_frame(update_due).frames == s.frames + 1,
        s.after_frame(update_due).frames < FPS_REPORT_FRAMES,
{
}

/// A frame draws exactly when the left button is held, whether or not an
/// update is due, and the stroke goes from the previous position to the
/// current cursor.
pub proof fn lemma_frame_draws_while_drawing<P>(s: FrameState<P>, update_due: bool)
    ensures
        s.frame_actions(update_due).stroke is Some <==> s.drawing,
        s.frame_actions(update_due).stroke matches Some(st) ==> st.cursor == s.cursor
            && st.previous == s.previous,
{
}

/// A frame runs a generation update exactly when one is due, whether or not
/// the user draws; the update binds the canvas at slot 0 when an even number
/// of updates has run so far and at slot 1 when an odd number has, and the
/// count of updates grows by one. The frame keeps the cursor and the drawing
/// flag, and records the cursor as the previous position.
pub proof fn lemma_frame_updates_when_due<P>(s: FrameState<P>, update_due: bool)
    ensures
        s.frame_actions(update_due).generation is Some <==> update_due,
        update_due && s.generation % 2 == 0 ==> s.frame_actions(update_due).generation == Some(
            UpdateBindings { slot0: Texture::Canvas, slot1: Texture::DataIn },
        ),
        update_due && s.generation % 2 == 1 ==> s.frame_actions(update_due).generation == Some(
            UpdateBindings { slot0: Texture::DataIn, slot1: Texture::Canvas },
        ),
        s.after_frame(update_due).generation == s.generation + if update_due {
            1nat
        } else {
            0nat
        },
        s.after_frame(update_due).cursor == s.cursor,
        s.after_frame(update_due).drawing == s.drawing,
        s.after_frame(update_due).previous == Some(s.cursor),
{
}

} // verus!
