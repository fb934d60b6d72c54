//! A linked image as a callable function, and the course of one call of it.
//!
//! A call acquires executable memory, copies the image into it, invokes it,
//! and releases the memory before it hands the result on. The memory and the
//! invocation are the caller's business; which of them comes next is decided here.

use vstd::prelude::*;
use vstd::string::StringExecFns;

verus! {

/// A linked image, to be called as a native function of type `T`.
#[derive(Debug, Clone, PartialEq, Eq, PartialOrd, Ord)]
pub struct JitFunction<T> {
    pub code: Vec<u8>,
    tmp: Vec<T>,
}

impl<T> View for JitFunction<T> {
    type V = Seq<u8>;

    closed spec fn view(&self) -> Seq<u8> {
        self.code@
    }
}

/// Why a call did not take place.
#[derive(Debug, Clone, Copy, PartialEq, Eq, Structural)]
pub enum CallError {
    /// No executable memory could be had.
    AllocationFailed,
}

impl CallError {
    /// The message for this error.
    pub fn message(&self) -> (text: String)
        ensures
            text@ == "Error allocating memory"@,
    {
        String::from_str("Error allocating memory")
    }
}

/// Where a call stands.
#[derive(Debug, Clone, Copy, PartialEq, Eq, Structural)]
pub enum Stage {
    /// No call is under way, and no memory is held.
    Idle,
    /// Memory has been asked for.
    Acquiring,
    /// Memory is held, and the image is being copied into it.
    Loading,
    /// The image is being executed.
    Running,
    /// The image has returned, and the memory is being released.
    Releasing,
}

/// What the caller reports.
#[derive(Debug, Clone, Copy, PartialEq, Eq, Structural)]
pub enum Event {
    /// A call is wanted.
    Begin,
    /// The memory asked for is there.
    Acquired,
    /// The memory asked for was refused.
    Refused,
    /// The image has been copied.
    Loaded,
    /// The image has returned.
    Returned,
    /// The memory has been released.
    Released,
}

/// What the caller is to do next.
#[derive(Debug, Clone, Copy, PartialEq, Eq, Structural)]
pub enum Action {
    /// Acquire writable and executable memory of this many bytes.
    Acquire(usize),
    /// Copy the image to the start of the memory.
    Load,
    /// Call the start of the memory as a function.
    Invoke,
    /// Release the memory.
    Release,
    /// Hand the result of the invocation on: the call is over.
    Finish,
    /// Give the call up with this error: nothing was copied or invoked.
    Fail(CallError),
    /// The event does not belong here: nothing has changed.
    Ignore,
}

/// The stage after `event`, and what is to be done.
pub open spec fn step_of(stage: Stage, size: usize, event: Event) -> (Stage, Action) {
    match (stage, event) {
        (Stage::Idle, Event::Begin) => (Stage::Acquiring, Action::Acquire(size)),
        (Stage::Acquiring, Event::Acquired) => (Stage::Loading, Action::Load),
        (Stage::Acquiring, Event::Refused) => (
            Stage::Idle,
            Action::Fail(CallError::AllocationFailed),
        ),
        (Stage::Loading, Event::Loaded) => (Stage::Running, Action::Invoke),
        (Stage::Running, Event::Returned) => (Stage::Releasing, Action::Release),
        (Stage::Releasing, Event::Released) => (Stage::Idle, Action::Finish),
        _ => (stage, Action::Ignore),
    }
}

/// The stage after the events `events`, one after another, from `stage` on.
pub open spec fn stage_after(stage: Stage, size: usize, events: Seq<Event>) -> Stage
    decreases events.len(),
{
    if events.len() == 0 {
        stage
    } else {
        step_of(stage_after(stage, size, events.drop_last()), size, events.last()).0
    }
}

/// How many regions of memory are held at `stage`.
pub open spec fn held(stage: Stage) -> int {
    match stage {
        Stage::Idle => 0,
        Stage::Acquiring => 0,
        Stage::Loading => 1,
        Stage::Running => 1,
        Stage::Releasing => 1,
    }
}

/// How many regions were handed over in answer to an `Acquire`.
pub open spec fn acquired(stage: Stage, size: usize, events: Seq<Event>) -> int
    decreases events.len(),
{
    if events.len() == 0 {
        0
    } else {
        let before = stage_after(stage, size, events.drop_last());
        acquired(stage, size, events.drop_last()) + if before == Stage::Acquiring && events.last()
            == Event::Acquired {
            1int
        } else {
            0int
        }
    }
}

/// How many regions were released in answer to a `Release`.
pub open spec fn released(stage: Stage, size: usize, events: Seq<Event>) -> int
    decreases events.len(),
{
    if events.len() == 0 {
        0
    } else {
        let before = stage_after(stage, size, events.drop_last());
        released(stage, size, events.drop_last()) + if before == Stage::Releasing && events.last()
            == Event::Released {
            1int
        } else {
            0int
        }
    }
}

/// The course of the calls of one function: at most one is under way.
#[derive(Debug, Clone, Copy, PartialEq, Eq, Structural)]
pub struct Invocation {
    pub stage: Stage,
    pub size: usize,
}

impl Invocation {
    /// Takes `event` in: moves to the next stage and says what is to be done.
    pub fn step(&mut self, event: Event) -> (action: Action)
        ensures
            final(self).size == old(self).size,
            (final(self).stage, action) == step_of(old(self).stage, old(self).size, event),
    {
        let (stage, action) = match (self.stage, event) {
            (Stage::Idle, Event::Begin) => (Stage::Acquiring, Action::Acquire(self.size)),
            (Stage::Acquiring, Event::Acquired) => (Stage::Loading, Action::Load),
            (Stage::Acquiring, Event::Refused) => (
                Stage::Idle,
                Action::Fail(CallError::AllocationFailed),
            ),
            (Stage::Loading, Event::Loaded) => (Stage::Running, Action::Invoke),
            (Stage::Running, Event::Returned) => (Stage::Releasing, Action::Release),
            (Stage::Releasing, Event::Released) => (Stage::Idle, Action::Finish),
            _ => (self.stage, Action::Ignore),
        };
        self.stage = stage;
        action
    }
}

impl<T> JitFunction<T> {
    /// The function that `code` holds.
    pub fn new(code: Vec<u8>) -> (func: Self)
        ensures
            func@ == code@,
    {
        Self { code, tmp: Vec::new() }
    }

    /// The bytes of the image.
    pub fn code(&self) -> (code: &Vec<u8>)
        ensures
            code@ == self@,
    {
        &self.code
    }

    /// The course of the calls of this function, with none under way: each will
    /// ask for as many bytes of memory as the image has.
    pub fn invocation(&self) -> (course: Invocation)
        ensures
            course.stage == Stage::Idle,
            course.size == self@.len(),
    {
        Invocation { stage: Stage::Idle, size: self.code.len() }
    }
}

/// Whatever the caller reports, in whatever order: the regions handed over less
/// the regions released are the regions held, one at most. So regions are
/// acquired and released in turn, and whenever no call is under way, as many
/// were released as were acquired.
pub proof fn law_memory_is_balanced(size: usize, events: Seq<Event>)
    ensures
        acquired(Stage::Idle, size, events) - released(Stage::Idle, size, events) == held(
            stage_after(Stage::Idle, size, events),
        ),
        0 <= acquired(Stage::Idle, size, events) - released(Stage::Idle, size, events) <= 1,
        stage_after(Stage::Idle, size, events) == Stage::Idle ==> acquired(
            Stage::Idle,
            size,
            events,
        ) == released(Stage::Idle, size, events),
    decreases events.len(),
{
    if events.len() > 0 {
        law_memory_is_balanced(size, events.drop_last());
    }
}

/// The image is invoked only while memory is held into which it has been copied,
/// and a result is handed on only when that memory has been released: `Invoke`
/// answers `Loaded` alone, and `Finish` answers `Released` alone.
pub proof fn law_order_of_a_call(stage: Stage, size: usize, event: Event)
    ensures
        step_of(stage, size, event).1 == Action::Invoke ==> stage == Stage::Loading && event
            == Event::Loaded && held(step_of(stage, size, event).0) == 1,
        step_of(stage, size, event).1 == Action::Finish ==> stage == Stage::Releasing && event
            == Event::Released && held(step_of(stage, size, event).0) == 0,
        step_of(stage, size, event).1 == Action::Load ==> stage == Stage::Acquiring && event
            == Event::Acquired,
        step_of(stage, size, event).1 is Fail ==> stage == Stage::Acquiring && event
            == Event::Refused && held(step_of(stage, size, event).0) == 0,
{
}

} // verus!
