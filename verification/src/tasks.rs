use vstd::prelude::*;

verus! {

/// The status code a handle sends to resume its thread.
pub const RESUME_CODE: u8 = 0;

/// The status code a handle sends to pause its thread.
pub const PAUSE_CODE: u8 = 1;

/// The status code a handle sends to close its thread.
pub const CLOSE_CODE: u8 = 2;

/// A request from a thread's handle.
#[derive(Debug, Clone, Copy, PartialEq, Eq, Structural)]
pub enum ThreadCommand {
    Resume,
    Pause,
    Close,
}

impl ThreadCommand {
    pub open spec fn spec_code(self) -> u8 {
        match self {
            ThreadCommand::Resume => RESUME_CODE,
            ThreadCommand::Pause => PAUSE_CODE,
            ThreadCommand::Close => CLOSE_CODE,
        }
    }

    /// The status code sent over the channel for this command.
    pub fn code(&self) -> (r: u8)
        ensures
            r == self.spec_code(),
    {
        match self {
            ThreadCommand::Resume => RESUME_CODE,
            ThreadCommand::Pause => PAUSE_CODE,
            ThreadCommand::Close => CLOSE_CODE,
        }
    }
}

/// Whether a worker loop is ticking, paused, or has stopped.
#[derive(Debug, Clone, Copy, PartialEq, Eq, Structural)]
pub enum LoopState {
    Running,
    Paused,
    Stopped,
}

/// What polling the status channel gave: a code, nothing yet, or a closed channel.
/// A paused loop waits for a message, so it never sees `Empty`.
#[derive(Debug, Clone, Copy, PartialEq, Eq, Structural)]
pub enum Poll {
    Received(u8),
    Empty,
    Disconnected,
}

/// What a worker loop does next.
#[derive(Debug, Clone, Copy, PartialEq, Eq, Structural)]
pub enum LoopAction {
    /// Run the due tasks, then report how that went.
    RunTasks,
    /// Sleep one tick and poll again.
    Sleep,
    /// Leave the loop.
    Exit,
}

/// The decision of a task thread (`Thread::async_loop`) on one poll of its
/// status channel. While running, a resume or a pause code leaves it running
/// (this loop never enters the paused state by itself), an empty channel runs
/// the tasks, anything else stops it. While paused, resume runs again, pause
/// stays paused, anything else stops it.
pub open spec fn spec_thread_step(state: LoopState, poll: Poll) -> (LoopState, LoopAction) {
    match state {
        LoopState::Running => match poll {
            Poll::Received(c) => if c == RESUME_CODE || c == PAUSE_CODE {
                (LoopState::Running, LoopAction::Sleep)
            } else {
                (LoopState::Stopped, LoopAction::Exit)
            },
            Poll::Empty => (LoopState::Running, LoopAction::RunTasks),
            Poll::Disconnected => (LoopState::Stopped, LoopAction::Exit),
        },
        LoopState::Paused => match poll {
            Poll::Received(c) => if c == RESUME_CODE {
                (LoopState::Running, LoopAction::Sleep)
            } else if c == PAUSE_CODE {
                (LoopState::Paused, LoopAction::Sleep)
            } else {
                (LoopState::Stopped, LoopAction::Exit)
            },
            _ => (LoopState::Stopped, LoopAction::Exit),
        },
        LoopState::Stopped => (LoopState::Stopped, LoopAction::Exit),
    }
}

/// See `spec_thread_step`.
pub fn thread_step(state: LoopState, poll: Poll) -> (r: (LoopState, LoopAction))
    requires
        !(state == LoopState::Paused && poll == Poll::Empty),
    ensures
        r == spec_thread_step(state, poll),
{
    match state {
        LoopState::Running => match poll {
            Poll::Received(c) => if c == RESUME_CODE || c == PAUSE_CODE {
                (LoopState::Running, LoopAction::Sleep)
            } else {
                (LoopState::Stopped, LoopAction::Exit)
            },
            Poll::Empty => (LoopState::Running, LoopAction::RunTasks),
            Poll::Disconnected => (LoopState::Stopped, LoopAction::Exit),
        },
        LoopState::Paused => match poll {
            Poll::Received(c) => if c == RESUME_CODE {
                (LoopState::Running, LoopAction::Sleep)
            } else if c == PAUSE_CODE {
                (LoopState::Paused, LoopAction::Sleep)
            } else {
                (LoopState::Stopped, LoopAction::Exit)
            },
            _ => (LoopState::Stopped, LoopAction::Exit),
        },
        LoopState::Stopped => (LoopState::Stopped, LoopAction::Exit),
    }
}

/// The decision of a task thread after running its tasks: it goes on when
/// every result was delivered and stops when the result channel was closed.
pub fn thread_after_tasks(delivered: bool) -> (r: (LoopState, LoopAction))
    ensures
        r == (if delivered {
            (LoopState::Running, LoopAction::Sleep)
        } else {
            (LoopState::Stopped, LoopAction::Exit)
        }),
{
    if delivered {
        (LoopState::Running, LoopAction::Sleep)
    } else {
        (LoopState::Stopped, LoopAction::Exit)
    }
}

/// The decision of the runtime's active task thread (`Runtime::thread`) on
/// one poll: resume runs, pause pauses, an empty channel while running ticks
/// the tasks, anything else stops it.
pub open spec fn spec_runtime_step(state: LoopState, poll: Poll) -> (LoopState, LoopAction) {
    match state {
        LoopState::Running => match poll {
            Poll::Received(c) => if c == RESUME_CODE {
                (LoopState::Running, LoopAction::Sleep)
            } else if c == PAUSE_CODE {
                (LoopState::Paused, LoopAction::Sleep)
            } else {
                (LoopState::Stopped, LoopAction::Exit)
            },
            Poll::Empty => (LoopState::Running, LoopAction::RunTasks),
            Poll::Disconnected => (LoopState::Stopped, LoopAction::Exit),
        },
        LoopState::Paused => match poll {
            Poll::Received(c) => if c == RESUME_CODE {
                (LoopState::Running, LoopAction::Sleep)
            } else if c == PAUSE_CODE {
                (LoopState::Paused, LoopAction::Sleep)
            } else {
                (LoopState::Stopped, LoopAction::Exit)
            },
            _ => (LoopState::Stopped, LoopAction::Exit),
        },
        LoopState::Stopped => (LoopState::Stopped, LoopAction::Exit),
    }
}

/// See `spec_runtime_step`.
pub fn runtime_step(state: LoopState, poll: Poll) -> (r: (LoopState, LoopAction))
    requires
        !(state == LoopState::Paused && poll == Poll::Empty),
    ensures
        r == spec_runtime_step(state, poll),
{
    match state {
        LoopState::Running => match poll {
            Poll::Received(c) => if c == RESUME_CODE {
                (LoopState::Running, LoopAction::Sleep)
            } else if c == PAUSE_CODE {
                (LoopState::Paused, LoopAction::Sleep)
            } else {
                (LoopState::Stopped, LoopAction::Exit)
            },
            Poll::Empty => (LoopState::Running, LoopAction::RunTasks),
            Poll::Disconnected => (LoopState::Stopped, LoopAction::Exit),
        },
        LoopState::Paused => match poll {
            Poll::Received(c) => if c == RESUME_CODE {
                (LoopState::Running, LoopAction::Sleep)
            } else if c == PAUSE_CODE {
                (LoopState::Paused, LoopAction::Sleep)
            } else {
                (LoopState::Stopped, LoopAction::Exit)
            },
            _ => (LoopState::Stopped, LoopAction::Exit),
        },
        LoopState::Stopped => (LoopState::Stopped, LoopAction::Exit),
    }
}

/// What polling a pause-toggle channel gave: a status, nothing yet, or a
/// closed channel. A paused loop waits for a message, so it never sees `Empty`.
#[derive(Debug, Clone, Copy, PartialEq, Eq, Structural)]
pub enum TogglePoll {
    Received(bool),
    Empty,
    Disconnected,
}

/// The decision of an application's async loop (`RuntimeApp::async_loop`) on
/// one poll of its status channel, where `true` toggles between running and
/// paused and `false` stops the loop. While running, an empty channel runs the
/// tasks; while paused, only `true` goes on; a closed channel always stops it.
pub open spec fn spec_toggle_step(state: LoopState, poll: TogglePoll) -> (LoopState, LoopAction) {
    match state {
        LoopState::Running => match poll {
            TogglePoll::Received(true) => (LoopState::Paused, LoopAction::Sleep),
            TogglePoll::Empty => (LoopState::Running, LoopAction::RunTasks),
            _ => (LoopState::Stopped, LoopAction::Exit),
        },
        LoopState::Paused => match poll {
            TogglePoll::Received(true) => (LoopState::Running, LoopAction::Sleep),
            _ => (LoopState::Stopped, LoopAction::Exit),
        },
        LoopState::Stopped => (LoopState::Stopped, LoopAction::Exit),
    }
}

/// See `spec_toggle_step`.
pub fn toggle_step(state: LoopState, poll: TogglePoll) -> (r: (LoopState, LoopAction))
    requires
        !(state == LoopState::Paused && poll == TogglePoll::Empty),
    ensures
        r == spec_toggle_step(state, poll),
{
    match state {
        LoopState::Running => match poll {
            TogglePoll::Received(true) => (LoopState::Paused, LoopAction::Sleep),
            TogglePoll::Empty => (LoopState::Running, LoopAction::RunTasks),
            _ => (LoopState::Stopped, LoopAction::Exit),
        },
        LoopState::Paused => match poll {
            TogglePoll::Received(true) => (LoopState::Running, LoopAction::Sleep),
            _ => (LoopState::Stopped, LoopAction::Exit),
        },
        LoopState::Stopped => (LoopState::Stopped, LoopAction::Exit),
    }
}

/// The longest span a `Duration` holds, in nanoseconds.
pub const MAX_DURATION_NANOS: u128 = 18_446_744_073_709_551_615_999_999_999;

/// Whether a scheduled task runs on this pass of the scheduler
/// (`TaskManager::process_async`): its deadline, in nanoseconds since the
/// scheduler started, lies before `elapsed`.
pub fn deadline_passed(deadline: u128, elapsed: u128) -> (r: bool)
    ensures
        r == (deadline < elapsed),
{
    deadline < elapsed
}

/// The next deadline of a task that just ran at `elapsed` and asked to run
/// again after `again` nanoseconds, if it asked at all; a task that did not ask
/// leaves the schedule.
pub fn next_deadline(elapsed: u128, again: Option<u128>) -> (r: Option<u128>)
    requires
        elapsed <= MAX_DURATION_NANOS,
        again matches Some(d) ==> d <= MAX_DURATION_NANOS && elapsed + d <= MAX_DURATION_NANOS,
    ensures
        r == (match again {
            Some(d) => Some((elapsed + d) as u128),
            None => None::<u128>,
        }),
{
    match again {
        Some(d) => Some(elapsed + d),
        None => None,
    }
}

/// Toggling twice brings a live async loop back to where it was: `true` pauses
/// a running loop and resumes a paused one, and `false` stops either.
pub proof fn lemma_toggle_twice(state: LoopState)
    requires
        state != LoopState::Stopped,
    ensures
        spec_toggle_step(spec_toggle_step(state, TogglePoll::Received(true)).0, TogglePoll::Received(true)).0
            == state,
        spec_toggle_step(state, TogglePoll::Received(true)).0 != state,
        spec_toggle_step(state, TogglePoll::Received(false)) == (LoopState::Stopped, LoopAction::Exit),
{
}

/// A task is due once more time than its interval has passed since its last
/// run; a task without an interval never runs.
pub open spec fn spec_task_due(interval: Option<u128>, elapsed: u128) -> bool {
    match interval {
        Some(d) => elapsed > d,
        None => false,
    }
}

/// Whether a task runs on this tick, given its interval (none for a task that
/// never runs) and the nanoseconds since its last run.
pub fn task_due(interval: Option<u128>, elapsed: u128) -> (r: bool)
    ensures
        r == spec_task_due(interval, elapsed),
{
    match interval {
        Some(d) => elapsed > d,
        None => false,
    }
}

/// Closing always stops a worker loop, running or paused.
pub proof fn lemma_close_stops(state: LoopState)
    requires
        state != LoopState::Stopped,
    ensures
        spec_thread_step(state, Poll::Received(ThreadCommand::Close.spec_code())).0 == LoopState::Stopped,
        spec_runtime_step(state, Poll::Received(ThreadCommand::Close.spec_code())).0 == LoopState::Stopped,
        spec_thread_step(state, Poll::Received(ThreadCommand::Close.spec_code())).1 == LoopAction::Exit,
        spec_runtime_step(state, Poll::Received(ThreadCommand::Close.spec_code())).1 == LoopAction::Exit,
{
}

/// Resuming always leaves a live worker loop running.
pub proof fn lemma_resume_runs(state: LoopState)
    requires
        state != LoopState::Stopped,
    ensures
        spec_thread_step(state, Poll::Received(ThreadCommand::Resume.spec_code())).0 == LoopState::Running,
        spec_runtime_step(state, Poll::Received(ThreadCommand::Resume.spec_code())).0 == LoopState::Running,
{
}

/// Pausing the runtime's active thread pauses it, and a paused thread runs no
/// tasks until it is resumed.
pub proof fn lemma_runtime_pause_holds(state: LoopState, poll: Poll)
    requires
        state != LoopState::Stopped,
        poll != Poll::Empty,
        poll != Poll::Received(ThreadCommand::Resume.spec_code()),
    ensures
        spec_runtime_step(state, Poll::Received(ThreadCommand::Pause.spec_code())).0 == LoopState::Paused,
        spec_runtime_step(LoopState::Paused, poll).1 != LoopAction::RunTasks,
        spec_runtime_step(LoopState::Paused, poll).0 != LoopState::Running,
{
}

/// A stopped loop stays stopped.
pub proof fn lemma_stopped_is_final(poll: Poll)
    ensures
        spec_thread_step(LoopState::Stopped, poll) == (LoopState::Stopped, LoopAction::Exit),
        spec_runtime_step(LoopState::Stopped, poll) == (LoopState::Stopped, LoopAction::Exit),
{
}

/// The codes of distinct commands differ, so a loop can tell them apart.
pub proof fn lemma_codes_distinct(a: ThreadCommand, b: ThreadCommand)
    requires
        a != b,
    ensures
        a.spec_code() != b.spec_code(),
{
}

/// A closed status channel stops every worker loop from any live state: the
/// handle that steered it is gone.
pub proof fn lemma_disconnected_stops(state: LoopState)
    requires
        state != LoopState::Stopped,
    ensures
        spec_runtime_step(state, Poll::Disconnected) == (LoopState::Stopped, LoopAction::Exit),
        spec_thread_step(state, Poll::Disconnected) == (LoopState::Stopped, LoopAction::Exit),
        spec_toggle_step(state, TogglePoll::Disconnected) == (LoopState::Stopped, LoopAction::Exit),
{
}

/// A running loop with no message waiting runs its tasks and goes on running.
pub proof fn lemma_empty_runs_tasks()
    ensures
        spec_runtime_step(LoopState::Running, Poll::Empty) == (LoopState::Running, LoopAction::RunTasks),
        spec_thread_step(LoopState::Running, Poll::Empty) == (LoopState::Running, LoopAction::RunTasks),
        spec_toggle_step(LoopState::Running, TogglePoll::Empty) == (LoopState::Running, LoopAction::RunTasks),
{
}

/// A status code that is neither resume nor pause stops a live loop.
pub proof fn lemma_unknown_code_stops(state: LoopState, code: u8)
    requires
        state != LoopState::Stopped,
        code != RESUME_CODE,
        code != PAUSE_CODE,
    ensures
        spec_runtime_step(state, Poll::Received(code)) == (LoopState::Stopped, LoopAction::Exit),
        spec_thread_step(state, Poll::Received(code)) == (LoopState::Stopped, LoopAction::Exit),
{
}

/// Resume and pause codes keep a live loop alive without running tasks on that
/// poll: the runtime's thread moves to running or paused as asked; a paused
/// task thread does too, while a running task thread stays running on either.
pub proof fn lemma_resume_and_pause_codes(state: LoopState)
    requires
        state != LoopState::Stopped,
    ensures
        spec_runtime_step(state, Poll::Received(RESUME_CODE)) == (LoopState::Running, LoopAction::Sleep),
        spec_runtime_step(state, Poll::Received(PAUSE_CODE)) == (LoopState::Paused, LoopAction::Sleep),
        spec_thread_step(state, Poll::Received(RESUME_CODE)) == (LoopState::Running, LoopAction::Sleep),
        spec_thread_step(state, Poll::Received(PAUSE_CODE)) == (state, LoopAction::Sleep),
{
}

} // verus!
