use vstd::prelude::*;

verus! {

/// The state of the pointer in a mouse event.
#[derive(Debug, Clone, Copy, PartialEq, Eq, Structural)]
pub enum MouseState {
    Pressed,
    Moved,
    Released,
}

/// The state of a key in a keyboard event.
#[derive(Debug, Clone, Copy, PartialEq, Eq, Structural)]
pub enum KeyboardState {
    Pressed,
    Released,
}

/// The phase of a touch.
#[derive(Debug, Clone, Copy, PartialEq, Eq, Structural)]
pub enum TouchPhase {
    Started,
    Moved,
    Ended,
    Cancelled,
}

/// A window event, with positions already in whole physical pixels.
#[derive(Debug, Clone, Copy, PartialEq, Eq)]
pub enum WindowInput {
    Resized { width: u32, height: u32 },
    ScaleFactorChanged,
    Touch { position: (u32, u32), phase: TouchPhase },
    CursorMoved { position: (u32, u32) },
    MouseInput { pressed: bool },
}

/// An event for the application: the window size to lay out for (the scale
/// factor is added by the caller), or a mouse event at a position.
#[derive(Debug, Clone, Copy, PartialEq, Eq)]
pub enum TrackedEvent {
    Resize { width: u32, height: u32 },
    Mouse { position: (u32, u32), state: MouseState },
}

pub open spec fn touch_state(phase: TouchPhase) -> MouseState {
    match phase {
        TouchPhase::Started => MouseState::Pressed,
        TouchPhase::Moved => MouseState::Moved,
        TouchPhase::Ended => MouseState::Released,
        TouchPhase::Cancelled => MouseState::Released,
    }
}

/// The last known pointer position and window size, from which window events
/// are turned into application events.
#[derive(Debug, Clone, Copy)]
pub struct PointerTracker {
    pub mouse: (u32, u32),
    pub size: (u32, u32),
}

impl PointerTracker {
    /// What an event does to the tracker and which application event it gives.
    pub open spec fn spec_convert(self, event: WindowInput) -> (PointerTracker, Option<TrackedEvent>) {
        match event {
            WindowInput::Resized { width, height } => (
                PointerTracker { size: (width, height), ..self },
                Some(TrackedEvent::Resize { width, height }),
            ),
            WindowInput::ScaleFactorChanged => (
                self,
                Some(TrackedEvent::Resize { width: self.size.0, height: self.size.1 }),
            ),
            WindowInput::Touch { position, phase } => (
                PointerTracker { mouse: position, ..self },
                Some(TrackedEvent::Mouse { position, state: touch_state(phase) }),
            ),
            WindowInput::CursorMoved { position } => if position != self.mouse {
                (
                    PointerTracker { mouse: position, ..self },
                    Some(TrackedEvent::Mouse { position, state: MouseState::Moved }),
                )
            } else {
                (self, None)
            },
            WindowInput::MouseInput { pressed } => (
                self,
                Some(
                    TrackedEvent::Mouse {
                        position: self.mouse,
                        state: if pressed { MouseState::Pressed } else { MouseState::Released },
                    },
                ),
            ),
        }
    }

    /// A tracker that has seen no event.
    pub fn new() -> (r: Self)
        ensures
            r.mouse == (0u32, 0u32),
            r.size == (0u32, 0u32),
    {
        PointerTracker { mouse: (0, 0), size: (0, 0) }
    }

    /// Turn a window event into an application event: a resize records the new
    /// size, a change of scale repeats the last size, a touch moves the pointer
    /// and presses, drags or releases there, a cursor move to a new position
    /// moves the pointer (a move to where it already is gives nothing), and a
    /// button press or release happens where the pointer is.
    pub fn convert(&mut self, event: WindowInput) -> (r: Option<TrackedEvent>)
        ensures
            (*final(self), r) == old(self).spec_convert(event),
    {
        match event {
            WindowInput::Resized { width, height } => {
                self.size = (width, height);
                Some(TrackedEvent::Resize { width, height })
            },
            WindowInput::ScaleFactorChanged => Some(
                TrackedEvent::Resize { width: self.size.0, height: self.size.1 },
            ),
            WindowInput::Touch { position, phase } => {
                self.mouse = position;
                let state = match phase {
                    TouchPhase::Started => MouseState::Pressed,
                    TouchPhase::Moved => MouseState::Moved,
                    TouchPhase::Ended => MouseState::Released,
                    TouchPhase::Cancelled => MouseState::Released,
                };
                Some(TrackedEvent::Mouse { position, state })
            },
            WindowInput::CursorMoved { position } => {
                if position.0 != self.mouse.0 || position.1 != self.mouse.1 {
                    self.mouse = position;
                    Some(TrackedEvent::Mouse { position, state: MouseState::Moved })
                } else {
                    None
                }
            },
            WindowInput::MouseInput { pressed } => {
                let state = if pressed {
                    MouseState::Pressed
                } else {
                    MouseState::Released
                };
                Some(TrackedEvent::Mouse { position: self.mouse, state })
            },
        }
    }
}

impl Default for PointerTracker {
    /// A tracker that has seen no event.
    fn default() -> (r: Self)
        ensures
            r.mouse == (0u32, 0u32),
            r.size == (0u32, 0u32),
    {
        PointerTracker::new()
    }
}

/// Touches held at least this long (in nanoseconds) end as long presses.
pub const LONG_PRESS_NANOS: u128 = 200_000_000;

/// What the pointer did, as the window loop reports it; scrolling is measured
/// in fractional pixels and reported by the caller.
#[derive(Debug, Clone, Copy, PartialEq, Eq, Structural)]
pub enum PointerAction {
    Pressed,
    Moved,
    Released,
    LongPressReleased,
}

/// A window event for the window loop, with positions in whole physical pixels
/// and times in nanoseconds of a monotonic clock.
#[derive(Debug, Clone, Copy, PartialEq, Eq)]
pub enum WindowLoopInput {
    Resized { width: u32, height: u32 },
    ScaleFactorChanged,
    TouchStarted { position: (u32, u32), at: u128 },
    TouchEnded { position: (u32, u32), at: u128 },
    CursorMoved { position: (u32, u32) },
    MouseInput { pressed: bool },
}

/// An event of the window loop for the application.
#[derive(Debug, Clone, Copy, PartialEq, Eq)]
pub enum WindowLoopEvent {
    Resized { width: u32, height: u32 },
    Pointer { position: (u32, u32), action: PointerAction },
}

/// How a touch that started at `start` (if its start was seen) and ended at
/// `at` is released: short touches release, long ones end a long press.
pub open spec fn spec_release(start: Option<u128>, at: u128) -> PointerAction {
    let held: int = match start {
        Some(s) => if at >= s { at - s } else { 0 },
        None => 0,
    };
    if held < LONG_PRESS_NANOS {
        PointerAction::Released
    } else {
        PointerAction::LongPressReleased
    }
}

/// The pointer, window size and touch start that the window loop keeps.
#[derive(Debug, Clone, Copy)]
pub struct WindowTracker {
    pub mouse: (u32, u32),
    pub size: (u32, u32),
    pub touch_start: Option<u128>,
}

impl WindowTracker {
    /// What an event does to the tracker and which application event it gives.
    pub open spec fn spec_handle(self, event: WindowLoopInput) -> (WindowTracker, Option<WindowLoopEvent>) {
        match event {
            WindowLoopInput::Resized { width, height } => (
                WindowTracker { size: (width, height), ..self },
                Some(WindowLoopEvent::Resized { width, height }),
            ),
            WindowLoopInput::ScaleFactorChanged => (
                self,
                Some(WindowLoopEvent::Resized { width: self.size.0, height: self.size.1 }),
            ),
            WindowLoopInput::TouchStarted { position, at } => (
                WindowTracker { touch_start: Some(at), ..self },
                Some(WindowLoopEvent::Pointer { position, action: PointerAction::Pressed }),
            ),
            WindowLoopInput::TouchEnded { position, at } => (
                WindowTracker { touch_start: None, ..self },
                Some(WindowLoopEvent::Pointer { position, action: spec_release(self.touch_start, at) }),
            ),
            WindowLoopInput::CursorMoved { position } => if position.0 != self.mouse.0 && position.1
                != self.mouse.1 {
                (
                    WindowTracker { mouse: position, ..self },
                    Some(WindowLoopEvent::Pointer { position, action: PointerAction::Moved }),
                )
            } else {
                (self, None)
            },
            WindowLoopInput::MouseInput { pressed } => (
                self,
                Some(
                    WindowLoopEvent::Pointer {
                        position: self.mouse,
                        action: if pressed { PointerAction::Pressed } else { PointerAction::Released },
                    },
                ),
            ),
        }
    }

    /// A tracker that has seen no event.
    pub fn new() -> (r: Self)
        ensures
            r.mouse == (0u32, 0u32),
            r.size == (0u32, 0u32),
            r.touch_start is None,
    {
        WindowTracker { mouse: (0, 0), size: (0, 0), touch_start: None }
    }

    /// Handle a window event: a resize records the size, a change of scale
    /// repeats it, a touch start presses and starts the long-press clock, a
    /// touch end releases (a long press after `LONG_PRESS_NANOS`), a cursor
    /// move counts only when both coordinates change, and buttons act where the
    /// pointer is.
    pub fn handle(&mut self, event: WindowLoopInput) -> (r: Option<WindowLoopEvent>)
        ensures
            (*final(self), r) == old(self).spec_handle(event),
    {
        match event {
            WindowLoopInput::Resized { width, height } => {
                self.size = (width, height);
                Some(WindowLoopEvent::Resized { width, height })
            },
            WindowLoopInput::ScaleFactorChanged => Some(
                WindowLoopEvent::Resized { width: self.size.0, height: self.size.1 },
            ),
            WindowLoopInput::TouchStarted { position, at } => {
                self.touch_start = Some(at);
                Some(WindowLoopEvent::Pointer { position, action: PointerAction::Pressed })
            },
            WindowLoopInput::TouchEnded { position, at } => {
                let held: u128 = match self.touch_start {
                    Some(start) => if at >= start {
                        at - start
                    } else {
                        0
                    },
                    None => 0,
                };
                self.touch_start = None;
                let action = if held < LONG_PRESS_NANOS {
                    PointerAction::Released
                } else {
                    PointerAction::LongPressReleased
                };
                Some(WindowLoopEvent::Pointer { position, action })
            },
            WindowLoopInput::CursorMoved { position } => {
                if position.0 != self.mouse.0 && position.1 != self.mouse.1 {
                    self.mouse = position;
                    Some(WindowLoopEvent::Pointer { position, action: PointerAction::Moved })
                } else {
                    None
                }
            },
            WindowLoopInput::MouseInput { pressed } => {
                let action = if pressed {
                    PointerAction::Pressed
                } else {
                    PointerAction::Released
                };
                Some(WindowLoopEvent::Pointer { position: self.mouse, action })
            },
        }
    }
}

/// A window event as the exit check of a window loop reads it: the close
/// button, a key event (whether the key went down, and whether it is the
/// physical Escape key), or anything else.
#[derive(Debug, Clone, Copy, PartialEq, Eq, Structural)]
pub enum ExitInput {
    CloseRequested,
    Key { pressed: bool, escape: bool },
    Other,
}

/// Whether the window loop stops on this event (`WinitApp::window_event`): on
/// the close button and on pressing Escape; releasing Escape, other keys and
/// other events go on to the application.
pub fn requests_exit(event: ExitInput) -> (r: bool)
    ensures
        r == (event == ExitInput::CloseRequested || event == (ExitInput::Key { pressed: true, escape: true })),
{
    match event {
        ExitInput::CloseRequested => true,
        ExitInput::Key { pressed, escape } => pressed && escape,
        ExitInput::Other => false,
    }
}

/// Which child of a component a pointer event goes to, given for each child
/// (in drawing order) whether the pointer lies inside it: the last such child,
/// the one drawn on top. Every other child gets the event without a position.
pub open spec fn is_topmost_hit(hits: Seq<bool>, i: int) -> bool {
    &&& 0 <= i < hits.len()
    &&& hits[i]
    &&& forall|j: int| i < j < hits.len() ==> !#[trigger] hits[j]
}

/// See `is_topmost_hit`; `None` when the pointer lies inside no child.
pub fn topmost_hit(hits: &Vec<bool>) -> (r: Option<usize>)
    ensures
        r matches Some(i) ==> is_topmost_hit(hits@, i as int),
        r is None <==> forall|j: int| 0 <= j < hits@.len() ==> !#[trigger] hits@[j],
{
    let mut i: usize = hits.len();
    while i > 0
        invariant
            i <= hits@.len(),
            forall|j: int| i <= j < hits@.len() ==> !#[trigger] hits@[j],
        decreases i,
    {
        i = i - 1;
        if hits[i] {
            return Some(i);
        }
    }
    None
}

/// At most one child is handed the pointer: the topmost hit is unique.
pub proof fn lemma_topmost_hit_unique(hits: Seq<bool>, i: int, k: int)
    requires
        is_topmost_hit(hits, i),
        is_topmost_hit(hits, k),
    ensures
        i == k,
{
    if i < k {
        assert(!hits[k]);
    } else if k < i {
        assert(!hits[i]);
    }
}

/// A touch ended sooner than `LONG_PRESS_NANOS` after it started is a plain
/// release; one ended later is a long press.
pub proof fn lemma_touch_release_by_duration(t: WindowTracker, position: (u32, u32), start: u128, end: u128)
    requires
        start <= end,
    ensures
        ({
            let started = t.spec_handle(WindowLoopInput::TouchStarted { position, at: start }).0;
            let ended = started.spec_handle(WindowLoopInput::TouchEnded { position, at: end });
            &&& end - start < LONG_PRESS_NANOS ==> ended.1 == Some(
                WindowLoopEvent::Pointer { position, action: PointerAction::Released },
            )
            &&& end - start >= LONG_PRESS_NANOS ==> ended.1 == Some(
                WindowLoopEvent::Pointer { position, action: PointerAction::LongPressReleased },
            )
            &&& ended.0.touch_start is None
        }),
{
}

/// A cursor move along one axis only is not reported.
pub proof fn lemma_single_axis_move_is_silent(t: WindowTracker, position: (u32, u32))
    requires
        position.0 == t.mouse.0 || position.1 == t.mouse.1,
    ensures
        t.spec_handle(WindowLoopInput::CursorMoved { position }) == (t, None::<WindowLoopEvent>),
{
}

/// Every mouse event happens at the position the tracker holds afterwards:
/// presses and releases land where the pointer last moved to.
pub proof fn lemma_mouse_events_at_pointer(t: PointerTracker, event: WindowInput)
    ensures
        t.spec_convert(event).1 matches Some(TrackedEvent::Mouse { position, state }) ==> position
            == t.spec_convert(event).0.mouse,
{
}

/// A repeated cursor move gives nothing the second time.
pub proof fn lemma_repeated_move_is_silent(t: PointerTracker, position: (u32, u32))
    ensures
        t.spec_convert(WindowInput::CursorMoved { position }).0.spec_convert(
            WindowInput::CursorMoved { position },
        ).1 is None,
{
}

/// After a resize, a change of scale reports the size of that resize.
pub proof fn lemma_scale_change_repeats_size(t: PointerTracker, width: u32, height: u32)
    ensures
        t.spec_convert(WindowInput::Resized { width, height }).0.spec_convert(
            WindowInput::ScaleFactorChanged,
        ).1 == Some(TrackedEvent::Resize { width, height }),
{
}

/// A mouse button acts where the window loop's pointer is: pressing reports a
/// press and releasing a release there, and the tracker stays as it was.
pub proof fn lemma_window_buttons(t: WindowTracker, pressed: bool)
    ensures
        pressed ==> t.spec_handle(WindowLoopInput::MouseInput { pressed }) == (
            t,
            Some(WindowLoopEvent::Pointer { position: t.mouse, action: PointerAction::Pressed }),
        ),
        !pressed ==> t.spec_handle(WindowLoopInput::MouseInput { pressed }) == (
            t,
            Some(WindowLoopEvent::Pointer { position: t.mouse, action: PointerAction::Released }),
        ),
{
}

/// A resize is reported with its size and remembered; a later change of scale
/// reports that size again. Neither touches the pointer or a touch in progress.
pub proof fn lemma_window_resize(t: WindowTracker, width: u32, height: u32)
    ensures
        t.spec_handle(WindowLoopInput::Resized { width, height }).1 == Some(
            WindowLoopEvent::Resized { width, height },
        ),
        t.spec_handle(WindowLoopInput::Resized { width, height }).0.size == (width, height),
        t.spec_handle(WindowLoopInput::Resized { width, height }).0.mouse == t.mouse,
        t.spec_handle(WindowLoopInput::Resized { width, height }).0.touch_start == t.touch_start,
        t.spec_handle(WindowLoopInput::Resized { width, height }).0.spec_handle(
            WindowLoopInput::ScaleFactorChanged,
        ).1 == Some(WindowLoopEvent::Resized { width, height }),
        t.spec_handle(WindowLoopInput::ScaleFactorChanged).0 == t,
{
}

/// A touch presses where it starts and starts the long-press clock; a touch
/// that ends without a seen start is a plain release where it ends.
pub proof fn lemma_window_touches(t: WindowTracker, position: (u32, u32), at: u128)
    ensures
        t.spec_handle(WindowLoopInput::TouchStarted { position, at }).1 == Some(
            WindowLoopEvent::Pointer { position, action: PointerAction::Pressed },
        ),
        t.spec_handle(WindowLoopInput::TouchStarted { position, at }).0.touch_start == Some(at),
        t.touch_start is None ==> t.spec_handle(WindowLoopInput::TouchEnded { position, at }).1 == Some(
            WindowLoopEvent::Pointer { position, action: PointerAction::Released },
        ),
        t.spec_handle(WindowLoopInput::TouchEnded { position, at }).0.touch_start is None,
{
}

/// A cursor move that changes both coordinates moves the pointer there and is
/// reported as a move to that position.
pub proof fn lemma_window_cursor_moves(t: WindowTracker, position: (u32, u32))
    requires
        position.0 != t.mouse.0,
        position.1 != t.mouse.1,
    ensures
        t.spec_handle(WindowLoopInput::CursorMoved { position }).1 == Some(
            WindowLoopEvent::Pointer { position, action: PointerAction::Moved },
        ),
        t.spec_handle(WindowLoopInput::CursorMoved { position }).0.mouse == position,
{
}

/// A mouse button acts where the pointer is: pressing reports a press and
/// releasing a release there, and the tracker stays as it was.
pub proof fn lemma_pointer_buttons(t: PointerTracker, pressed: bool)
    ensures
        pressed ==> t.spec_convert(WindowInput::MouseInput { pressed }) == (
            t,
            Some(TrackedEvent::Mouse { position: t.mouse, state: MouseState::Pressed }),
        ),
        !pressed ==> t.spec_convert(WindowInput::MouseInput { pressed }) == (
            t,
            Some(TrackedEvent::Mouse { position: t.mouse, state: MouseState::Released }),
        ),
{
}

/// A touch moves the pointer to where it is and presses when it starts, drags
/// while it moves and releases when it ends or is cancelled.
pub proof fn lemma_pointer_touches(t: PointerTracker, position: (u32, u32), phase: TouchPhase)
    ensures
        t.spec_convert(WindowInput::Touch { position, phase }).0.mouse == position,
        t.spec_convert(WindowInput::Touch { position, phase }).0.size == t.size,
        phase == TouchPhase::Started ==> t.spec_convert(WindowInput::Touch { position, phase }).1 == Some(
            TrackedEvent::Mouse { position, state: MouseState::Pressed },
        ),
        phase == TouchPhase::Moved ==> t.spec_convert(WindowInput::Touch { position, phase }).1 == Some(
            TrackedEvent::Mouse { position, state: MouseState::Moved },
        ),
        (phase == TouchPhase::Ended || phase == TouchPhase::Cancelled) ==> t.spec_convert(
            WindowInput::Touch { position, phase },
        ).1 == Some(TrackedEvent::Mouse { position, state: MouseState::Released }),
{
}

/// A cursor move to a new position moves the pointer there and is reported; a
/// resize is reported with its size and remembered.
pub proof fn lemma_pointer_moves_and_resizes(t: PointerTracker, position: (u32, u32), width: u32, height: u32)
    ensures
        position != t.mouse ==> t.spec_convert(WindowInput::CursorMoved { position }) == (
            PointerTracker { mouse: position, size: t.size },
            Some(TrackedEvent::Mouse { position, state: MouseState::Moved }),
        ),
        t.spec_convert(WindowInput::Resized { width, height }) == (
            PointerTracker { mouse: t.mouse, size: (width, height) },
            Some(TrackedEvent::Resize { width, height }),
        ),
{
}

} // verus!
