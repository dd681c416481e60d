use vstd::prelude::*;

verus! {

/// Error returned by a non-blocking drain of the event queue.
///
/// `Empty` is the expected, non-fatal signal that no event is currently
/// queued; callers treat it as ordinary loop control. `Disconnected`
/// signals that the sending half of the queue no longer exists and the
/// mediator is being torn down; since a mediator owns both halves of its
/// queue for its whole life, `next` never produces it, and its contract
/// says so.
#[derive(Clone, Copy, Debug, PartialEq, Eq, Structural)]
pub enum TryRecvError {
    Empty,
    Disconnected,
}

/// Construction-time error of the dependency-aware builder: `build` was
/// called although no dependency had been supplied.
#[derive(Clone, Copy, Debug, PartialEq, Eq, Structural)]
pub struct NoCxAvailable;

} // verus!
