use vstd::prelude::*;

verus! {

/// What the interface asks of the simulation worker.
#[derive(Debug, Clone, Copy, PartialEq, Eq, Structural)]
pub enum SimulationCommand {
    Pause,
    Resume,
    Shutdown,
}

/// What the simulation worker reports: a fresh fleet snapshot, or the end of
/// the simulation.
pub enum SimulationEvent<F> {
    Snapshot(F),
    Finished,
}

/// What the simulation worker asks of one drone worker: fly one tick of the
/// given length, or stop.
pub enum DroneCommand<D> {
    Tick(D),
    Shutdown,
}

/// What a drone worker reports after a tick: its state (and, with
/// `Finished`, that it is done), or the error that stopped it.
pub enum DroneEvent<S> {
    Telemetry { sequence_number: u64, snapshot: S, current_task_index: usize },
    Finished { sequence_number: u64, snapshot: S, current_task_index: usize },
    Failed(String),
}

} // verus!
