use vstd::prelude::*;

use crate::commands::DroneEvent;

verus! {

/// What waiting for an interface command until the next tick is due gave.
#[derive(Debug, Clone, Copy, PartialEq, Eq, Structural)]
pub enum CommandReceipt {
    Pause,
    Resume,
    Shutdown,
    /// The interface dropped its end of the command channel.
    Disconnected,
    /// No command came before the next tick was due.
    Timeout,
}

/// What the simulation worker does next.
#[derive(Debug, Clone, Copy, PartialEq, Eq, Structural)]
pub enum WorkerStep {
    /// Send the fleet snapshot, waiting for room; stop if nobody listens.
    PublishSnapshot,
    /// Send the fleet snapshot if there is room; stop only if nobody listens.
    OfferSnapshot,
    /// Stop: shut the drone workers down and end.
    Stop,
    /// Paused: let the tick pass without ticking the drones.
    SkipTick,
    /// Tick the drones.
    Tick,
}

/// What the simulation worker does after ticking the drones.
#[derive(Debug, Clone, Copy, PartialEq, Eq, Structural)]
pub enum AfterTick {
    /// Send the final snapshot, waiting for room, then report the end and stop.
    PublishFinalAndFinish,
    /// Send the snapshot if there is room, and carry on.
    OfferSnapshot,
}

/// Whether the worker is paused after `receipt`, having been paused before
/// when `paused`.
pub open spec fn paused_after(paused: bool, receipt: CommandReceipt) -> bool {
    match receipt {
        CommandReceipt::Pause => true,
        CommandReceipt::Resume => false,
        _ => paused,
    }
}

/// What the worker does on `receipt`, having been paused when `paused`.
pub open spec fn step_for(paused: bool, receipt: CommandReceipt) -> WorkerStep {
    match receipt {
        CommandReceipt::Pause => WorkerStep::PublishSnapshot,
        CommandReceipt::Resume => WorkerStep::OfferSnapshot,
        CommandReceipt::Shutdown | CommandReceipt::Disconnected => WorkerStep::Stop,
        CommandReceipt::Timeout => if paused {
            WorkerStep::SkipTick
        } else {
            WorkerStep::Tick
        },
    }
}

/// Law: a paused worker lets every due tick pass until it is resumed, and
/// ticks again once resumed; shutting down, or losing the interface, stops it
/// whether paused or not.
pub proof fn law_pause_and_resume(paused: bool)
    ensures
        step_for(paused_after(paused, CommandReceipt::Pause), CommandReceipt::Timeout) == WorkerStep::SkipTick,
        paused_after(paused_after(paused, CommandReceipt::Pause), CommandReceipt::Timeout),
        step_for(paused_after(paused, CommandReceipt::Resume), CommandReceipt::Timeout) == WorkerStep::Tick,
        step_for(paused, CommandReceipt::Shutdown) == WorkerStep::Stop,
        step_for(paused, CommandReceipt::Disconnected) == WorkerStep::Stop,
{
}

/// Law: what each receipt makes the worker do. A pause is confirmed with a
/// snapshot that is sure to arrive, a resume with one that may be dropped; a
/// shutdown or a lost interface stops the worker whether paused or not; a
/// due tick ticks the drones unless the worker is paused, and only a due tick
/// does.
pub proof fn law_worker_steps(paused: bool, receipt: CommandReceipt)
    ensures
        step_for(paused, CommandReceipt::Pause) == WorkerStep::PublishSnapshot,
        step_for(paused, CommandReceipt::Resume) == WorkerStep::OfferSnapshot,
        step_for(paused, CommandReceipt::Shutdown) == WorkerStep::Stop,
        step_for(paused, CommandReceipt::Disconnected) == WorkerStep::Stop,
        step_for(paused, receipt) == WorkerStep::Tick ==> receipt == CommandReceipt::Timeout && !paused,
        step_for(paused, receipt) == WorkerStep::SkipTick ==> receipt == CommandReceipt::Timeout && paused,
        step_for(paused, receipt) == WorkerStep::Stop ==> receipt == CommandReceipt::Shutdown || receipt
            == CommandReceipt::Disconnected,
{
}

/// The pause state after a run of receipts, starting from `paused`.
pub open spec fn paused_after_all(paused: bool, receipts: Seq<CommandReceipt>) -> bool
    decreases receipts.len(),
{
    if receipts.len() == 0 {
        paused
    } else {
        paused_after(paused_after_all(paused, receipts.drop_last()), receipts.last())
    }
}

/// Law: only pausing and resuming change whether the worker is paused:
/// pausing always pauses it, resuming always resumes it, and any other
/// receipt (a due tick, a shutdown, a lost interface) leaves it as it was.
/// On a due tick the worker ticks the drones exactly when it is not paused.
pub proof fn law_only_pause_and_resume_change_the_pause(paused: bool, receipt: CommandReceipt)
    ensures
        paused_after(paused, CommandReceipt::Pause),
        !paused_after(paused, CommandReceipt::Resume),
        receipt != CommandReceipt::Pause && receipt != CommandReceipt::Resume ==> paused_after(paused, receipt)
            == paused,
        (step_for(paused, CommandReceipt::Timeout) == WorkerStep::Tick) == !paused,
        (step_for(paused, CommandReceipt::Timeout) == WorkerStep::SkipTick) == paused,
{
}

/// Law: a run of receipts without a pause or a resume leaves the pause state
/// as it was; so a running worker ticks the drones on every due tick of such
/// a run, and a paused one lets every one of them pass.
pub proof fn law_pause_state_persists(paused: bool, receipts: Seq<CommandReceipt>)
    requires
        forall|i: int|
            0 <= i < receipts.len() ==> #[trigger] receipts[i] != CommandReceipt::Pause && receipts[i]
                != CommandReceipt::Resume,
    ensures
        paused_after_all(paused, receipts) == paused,
        forall|i: int|
            0 <= i < receipts.len() && receipts[i] == CommandReceipt::Timeout ==> #[trigger] step_for(
                paused_after_all(paused, receipts.take(i)),
                receipts[i],
            ) == if paused {
                WorkerStep::SkipTick
            } else {
                WorkerStep::Tick
            },
    decreases receipts.len(),
{
    if receipts.len() > 0 {
        let rest = receipts.drop_last();
        law_pause_state_persists(paused, rest);
        assert(receipts.last() == receipts[receipts.len() - 1]);
        assert forall|i: int|
            0 <= i < receipts.len() && receipts[i] == CommandReceipt::Timeout implies #[trigger] step_for(
                paused_after_all(paused, receipts.take(i)),
                receipts[i],
            ) == if paused {
                WorkerStep::SkipTick
            } else {
                WorkerStep::Tick
            } by {
            if i < receipts.len() - 1 {
                assert(receipts.take(i) == rest.take(i));
                assert(rest[i] == receipts[i]);
            } else {
                assert(receipts.take(i) == rest);
            }
        }
    }
}

/// The pause state of the simulation worker.
pub struct SimulationControl {
    pub paused: bool,
}

impl SimulationControl {
    pub fn new(paused: bool) -> (control: Self)
        ensures
            control.paused == paused,
    {
        SimulationControl { paused }
    }

    /// Decides what to do with an interface command: pausing is confirmed
    /// with a snapshot that is sure to arrive, resuming with one that may be
    /// dropped when the interface lags; shutdown or a closed channel stops the
    /// worker; when no command came the drones are ticked unless paused.
    pub fn on_receipt(&mut self, receipt: CommandReceipt) -> (step: WorkerStep)
        ensures
            final(self).paused == paused_after(old(self).paused, receipt),
            step == step_for(old(self).paused, receipt),
    {
        match receipt {
            CommandReceipt::Pause => {
                self.paused = true;
                WorkerStep::PublishSnapshot
            },
            CommandReceipt::Resume => {
                self.paused = false;
                WorkerStep::OfferSnapshot
            },
            CommandReceipt::Shutdown | CommandReceipt::Disconnected => WorkerStep::Stop,
            CommandReceipt::Timeout => {
                if self.paused {
                    WorkerStep::SkipTick
                } else {
                    WorkerStep::Tick
                }
            },
        }
    }
}

/// What the worker does after ticking the drones, given whether the fleet is
/// now finished.
pub open spec fn after_tick_step(fleet_finished: bool) -> AfterTick {
    if fleet_finished {
        AfterTick::PublishFinalAndFinish
    } else {
        AfterTick::OfferSnapshot
    }
}

/// Law: the end is reported just when the fleet has finished, and then only
/// after its last snapshot was published in a way that is sure to arrive;
/// while the fleet flies on, snapshots are only offered, so a lagging
/// interface never holds the worker up.
pub proof fn law_finish_is_reported_after_last_snapshot(fleet_finished: bool)
    ensures
        (after_tick_step(fleet_finished) == AfterTick::PublishFinalAndFinish) == fleet_finished,
        (after_tick_step(fleet_finished) == AfterTick::OfferSnapshot) == !fleet_finished,
{
}

/// After a tick, a finished fleet's last snapshot must arrive before the end
/// is reported; otherwise a snapshot is offered.
pub fn after_tick(fleet_finished: bool) -> (step: AfterTick)
    ensures
        step == after_tick_step(fleet_finished),
{
    if fleet_finished {
        AfterTick::PublishFinalAndFinish
    } else {
        AfterTick::OfferSnapshot
    }
}

/// The report of a drone after a tick: `Finished` for a finished drone,
/// `Telemetry` otherwise, with its tick count, snapshot and task index.
pub open spec fn report_for<S>(sequence_number: u64, snapshot: S, current_task_index: usize, finished: bool) -> DroneEvent<S> {
    if finished {
        DroneEvent::Finished { sequence_number, snapshot, current_task_index }
    } else {
        DroneEvent::Telemetry { sequence_number, snapshot, current_task_index }
    }
}

/// What a drone worker answers to the outcome of one tick: the report it
/// sends and whether it stops.
pub open spec fn reply_for<S>(outcome: Result<(u64, S, usize, bool), String>) -> (DroneEvent<S>, bool) {
    match outcome {
        Err(error) => (DroneEvent::Failed(error), true),
        Ok((sequence_number, snapshot, current_task_index, finished)) => (
            report_for(sequence_number, snapshot, current_task_index, finished),
            finished,
        ),
    }
}

/// Law: every tick outcome gets exactly one report. A failed tick is
/// reported with its error and stops the worker. A tick that went through is
/// reported with the drone's tick count, snapshot and task index, as finished
/// exactly when the drone has finished, and the worker stops exactly then.
pub proof fn law_one_report_per_tick<S>(outcome: Result<(u64, S, usize, bool), String>)
    ensures
        outcome matches Err(error) ==> reply_for(outcome) == (DroneEvent::<S>::Failed(error), true),
        outcome matches Ok((sequence_number, snapshot, current_task_index, finished)) ==> {
            &&& reply_for(outcome).1 == finished
            &&& match reply_for(outcome).0 {
                DroneEvent::Finished { sequence_number: s, snapshot: d, current_task_index: i } => finished
                    && s == sequence_number && d == snapshot && i == current_task_index,
                DroneEvent::Telemetry { sequence_number: s, snapshot: d, current_task_index: i } => !finished
                    && s == sequence_number && d == snapshot && i == current_task_index,
                DroneEvent::Failed(_) => false,
            }
        },
{
}

/// The report a drone worker sends after a tick: a finished drone reports
/// that it is done, any other one its telemetry.
pub fn drone_report<S>(sequence_number: u64, snapshot: S, current_task_index: usize, finished: bool) -> (event:
    DroneEvent<S>)
    ensures
        event == report_for(sequence_number, snapshot, current_task_index, finished),
{
    if finished {
        DroneEvent::Finished { sequence_number, snapshot, current_task_index }
    } else {
        DroneEvent::Telemetry { sequence_number, snapshot, current_task_index }
    }
}

/// What a drone worker does with the outcome of one tick: a tick that failed
/// with message `error` is reported as a failure and the worker stops; a tick
/// that went through is reported as `drone_report` says (from the tick count,
/// the drone's snapshot, its task index and whether it has finished), and the
/// worker stops just when the drone has finished. Returns the report and
/// whether to stop; every accepted tick gives exactly one report.
pub fn drone_worker_reply<S>(outcome: Result<(u64, S, usize, bool), String>) -> (reply: (DroneEvent<S>, bool))
    ensures
        reply == reply_for(outcome),
{
    match outcome {
        Err(error) => (DroneEvent::Failed(error), true),
        Ok((sequence_number, snapshot, current_task_index, finished)) => (
            drone_report(sequence_number, snapshot, current_task_index, finished),
            finished,
        ),
    }
}

} // verus!
