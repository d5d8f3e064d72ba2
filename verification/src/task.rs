use vstd::prelude::*;

verus! {

/// The kind of a task in a drone's task list, without its parameters
/// (target altitude or target position).
#[derive(Debug, Clone, Copy, PartialEq, Eq, Structural)]
pub enum TaskKind {
    Takeoff,
    Hold,
    FlyTo,
    ReturnHome,
    Land,
}

} // verus!
