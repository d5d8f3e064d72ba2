use vstd::prelude::*;

use crate::commands::{DroneCommand, DroneEvent};

verus! {

/// The coordinator's record of one mission drone: the latest state the drone
/// reported (`drone`), its task list, the sequence number of that report,
/// how many ticks are owed to it, the task it is on, and why it failed, if it did.
#[derive(Debug, Clone)]
pub struct MissionDroneSnapshot<S, T> {
    pub drone: S,
    pub tasks: Vec<T>,
    pub sequence_number: u64,
    pub pending_ticks: u64,
    pub current_task_index: usize,
    pub failure: Option<String>,
}

/// The failure recorded when a drone worker can no longer be reached.
pub open spec fn disconnected_text() -> Seq<char> {
    "drone worker disconnected"@
}

impl<S, T> MissionDroneSnapshot<S, T> {
    /// The record of a drone that has not reported yet.
    pub fn new(drone: S, tasks: Vec<T>, current_task_index: usize) -> (snapshot: Self)
        ensures
            snapshot.drone == drone,
            snapshot.tasks == tasks,
            snapshot.sequence_number == 0,
            snapshot.pending_ticks == 0,
            snapshot.current_task_index == current_task_index,
            snapshot.failure is None,
    {
        MissionDroneSnapshot {
            drone,
            tasks,
            sequence_number: 0,
            pending_ticks: 0,
            current_task_index,
            failure: None,
        }
    }
}

/// Takes in a drone report unless it is older than, or as old as, the one
/// already recorded: reports can arrive late, and a late one must not
/// replace a newer state.
pub fn apply_drone_snapshot<S, T>(
    current_drone: &mut MissionDroneSnapshot<S, T>,
    finished: &mut bool,
    sequence_number: u64,
    drone_snapshot: S,
    current_task_index: usize,
    is_finished: bool,
)
    ensures
        final(current_drone).sequence_number >= old(current_drone).sequence_number,
        sequence_number <= old(current_drone).sequence_number ==> *final(current_drone) == *old(
            current_drone,
        ) && *final(finished) == *old(finished),
        sequence_number > old(current_drone).sequence_number ==> *final(current_drone) == (
        MissionDroneSnapshot {
            sequence_number,
            drone: drone_snapshot,
            current_task_index,
            ..*old(current_drone)
        }) && *final(finished) == is_finished,
{
    if sequence_number <= current_drone.sequence_number {
        return ;
    }
    current_drone.sequence_number = sequence_number;
    current_drone.drone = drone_snapshot;
    current_drone.current_task_index = current_task_index;
    *finished = is_finished;
}

/// What polling a drone worker's report channel gave.
pub enum DroneReceipt<S> {
    Received(DroneEvent<S>),
    Empty,
    Disconnected,
}

/// What recording receipt `receipt` does to a drone record `pre` and its
/// finished flag `pre_finished`, giving `post` and `post_finished`: a report is
/// taken in unless it is not newer than the one recorded (a telemetry report
/// clears the finished flag, a finished report sets it), a failure report or a
/// lost worker marks the drone as failed, and an empty channel changes nothing.
pub open spec fn records<S, T>(
    pre: MissionDroneSnapshot<S, T>,
    pre_finished: bool,
    receipt: DroneReceipt<S>,
    post: MissionDroneSnapshot<S, T>,
    post_finished: bool,
) -> bool {
    match receipt {
        DroneReceipt::Received(DroneEvent::Telemetry { sequence_number, snapshot, current_task_index }) =>
            if sequence_number <= pre.sequence_number {
            post == pre && post_finished == pre_finished
        } else {
            post == (MissionDroneSnapshot { sequence_number, drone: snapshot, current_task_index, ..pre })
                && post_finished == false
        },
        DroneReceipt::Received(DroneEvent::Finished { sequence_number, snapshot, current_task_index }) =>
            if sequence_number <= pre.sequence_number {
            post == pre && post_finished == pre_finished
        } else {
            post == (MissionDroneSnapshot { sequence_number, drone: snapshot, current_task_index, ..pre })
                && post_finished == true
        },
        DroneReceipt::Received(DroneEvent::Failed(error)) => post == (MissionDroneSnapshot {
            failure: Some(error),
            ..pre
        }) && post_finished == pre_finished,
        DroneReceipt::Empty => post == pre && post_finished == pre_finished,
        DroneReceipt::Disconnected => {
            &&& post.failure matches Some(text) && text@ == disconnected_text()
            &&& post == (MissionDroneSnapshot { failure: post.failure, ..pre })
            &&& post_finished == pre_finished
        },
    }
}

/// Law: a report newer than the recorded one is taken in whole: its
/// sequence number, its drone snapshot and its task index replace the
/// recorded ones, and the drone counts as finished exactly when the report
/// says it is; the task list, owed ticks and failure stay as they were. A
/// report that is not newer changes nothing.
pub proof fn law_newer_report_is_taken<S, T>(
    pre: MissionDroneSnapshot<S, T>,
    pre_finished: bool,
    sequence_number: u64,
    snapshot: S,
    current_task_index: usize,
    done: bool,
    post: MissionDroneSnapshot<S, T>,
    post_finished: bool,
)
    requires
        records(
            pre,
            pre_finished,
            DroneReceipt::Received(
                if done {
                    DroneEvent::Finished { sequence_number, snapshot, current_task_index }
                } else {
                    DroneEvent::Telemetry { sequence_number, snapshot, current_task_index }
                },
            ),
            post,
            post_finished,
        ),
    ensures
        sequence_number > pre.sequence_number ==> {
            &&& post.sequence_number == sequence_number
            &&& post.drone == snapshot
            &&& post.current_task_index == current_task_index
            &&& post_finished == done
            &&& post.tasks == pre.tasks
            &&& post.pending_ticks == pre.pending_ticks
            &&& post.failure == pre.failure
        },
        sequence_number <= pre.sequence_number ==> post == pre && post_finished == pre_finished,
{
}

/// Law: a failure report marks the drone as failed with the reported error,
/// and a lost report channel with the disconnect message; neither touches
/// anything else, and an empty channel changes nothing.
pub proof fn law_failure_reports_are_recorded<S, T>(
    pre: MissionDroneSnapshot<S, T>,
    pre_finished: bool,
    receipt: DroneReceipt<S>,
    post: MissionDroneSnapshot<S, T>,
    post_finished: bool,
)
    requires
        records(pre, pre_finished, receipt, post, post_finished),
    ensures
        receipt matches DroneReceipt::Received(DroneEvent::Failed(error)) ==> post.failure == Some(error),
        receipt is Disconnected ==> (post.failure matches Some(text) && text@ == "drone worker disconnected"@),
        (receipt matches DroneReceipt::Received(DroneEvent::Failed(_))) || receipt is Disconnected ==> {
            &&& post.sequence_number == pre.sequence_number
            &&& post.drone == pre.drone
            &&& post.current_task_index == pre.current_task_index
            &&& post.tasks == pre.tasks
            &&& post.pending_ticks == pre.pending_ticks
            &&& post_finished == pre_finished
        },
        receipt is Empty ==> post == pre && post_finished == pre_finished,
{
}

/// Records what polling a drone worker gave; see `records`.
pub fn record_drone_receipt<S, T>(
    current_drone: &mut MissionDroneSnapshot<S, T>,
    finished: &mut bool,
    receipt: DroneReceipt<S>,
)
    ensures
        records(*old(current_drone), *old(finished), receipt, *final(current_drone), *final(finished)),
        final(current_drone).sequence_number >= old(current_drone).sequence_number,
        final(current_drone).tasks == old(current_drone).tasks,
        final(current_drone).pending_ticks == old(current_drone).pending_ticks,
        old(current_drone).failure is Some ==> final(current_drone).failure is Some,
{
    match receipt {
        DroneReceipt::Received(DroneEvent::Telemetry { sequence_number, snapshot, current_task_index }) => {
            apply_drone_snapshot(
                current_drone,
                finished,
                sequence_number,
                snapshot,
                current_task_index,
                false,
            );
        },
        DroneReceipt::Received(DroneEvent::Finished { sequence_number, snapshot, current_task_index }) => {
            apply_drone_snapshot(
                current_drone,
                finished,
                sequence_number,
                snapshot,
                current_task_index,
                true,
            );
        },
        DroneReceipt::Received(DroneEvent::Failed(error)) => {
            current_drone.failure = Some(error);
        },
        DroneReceipt::Empty => {},
        DroneReceipt::Disconnected => {
            current_drone.failure = Some(String::from_str("drone worker disconnected"));
        },
    }
}

/// What offering a command to a drone worker without waiting gave.
#[derive(Debug, Clone, Copy, PartialEq, Eq, Structural)]
pub enum SendOutcome {
    Sent,
    Full,
    Disconnected,
}

/// Records what handing one owed tick to a drone worker gave: a delivered
/// tick is no longer owed; a full channel keeps it owed; a closed channel
/// marks the drone as failed. Returns whether another owed tick may be
/// offered now, which is so only after a delivery.
pub fn note_send_outcome<S, T>(current_drone: &mut MissionDroneSnapshot<S, T>, outcome: SendOutcome) -> (more: bool)
    requires
        old(current_drone).pending_ticks > 0,
    ensures
        more == (outcome == SendOutcome::Sent),
        outcome == SendOutcome::Sent ==> *final(current_drone) == (MissionDroneSnapshot {
            pending_ticks: (old(current_drone).pending_ticks - 1) as u64,
            ..*old(current_drone)
        }),
        outcome == SendOutcome::Full ==> *final(current_drone) == *old(current_drone),
        outcome == SendOutcome::Disconnected ==> {
            &&& final(current_drone).failure matches Some(text) && text@ == disconnected_text()
            &&& *final(current_drone) == (MissionDroneSnapshot {
                failure: final(current_drone).failure,
                ..*old(current_drone)
            })
        },
{
    match outcome {
        SendOutcome::Sent => {
            current_drone.pending_ticks = current_drone.pending_ticks - 1;
            true
        },
        SendOutcome::Full => false,
        SendOutcome::Disconnected => {
            current_drone.failure = Some(String::from_str("drone worker disconnected"));
            false
        },
    }
}

/// The ticks owed to a drone that are handed over in one scheduling round
/// whose offers got the outcomes `outs`, in order: the round owes one more
/// tick than `pre` did, offers owed ticks until one is refused or none is
/// owed any more, so every outcome but the last is a delivery; delivered
/// ticks are no longer owed, and a closed channel (the last outcome) marks
/// the drone as failed. Nothing else about the record changes.
pub open spec fn scheduled<S, T>(
    pre: MissionDroneSnapshot<S, T>,
    post: MissionDroneSnapshot<S, T>,
    outs: Seq<SendOutcome>,
) -> bool {
    let owed = pre.pending_ticks + 1;
    let last = outs.last();
    let delivered = if last == SendOutcome::Sent {
        outs.len() as int
    } else {
        outs.len() - 1
    };
    &&& 1 <= outs.len() <= owed
    &&& forall|k: int| 0 <= k < outs.len() - 1 ==> #[trigger] outs[k] == SendOutcome::Sent
    &&& last == SendOutcome::Sent ==> outs.len() == owed
    &&& post.pending_ticks == owed - delivered
    &&& post.drone == pre.drone
    &&& post.tasks == pre.tasks
    &&& post.sequence_number == pre.sequence_number
    &&& post.current_task_index == pre.current_task_index
    &&& if last == SendOutcome::Disconnected {
        post.failure matches Some(text) && text@ == disconnected_text()
    } else {
        post.failure == pre.failure
    }
}

/// Law: a scheduling round offers at least one tick and never more than are
/// owed (one more than before). When every offer is delivered, nothing is
/// owed afterwards; when the last offer is refused, the ticks delivered before
/// it (all offers but the last) are no longer owed and the rest stay owed, so
/// at least one is. A full channel leaves the failure as it was, a closed one
/// marks the drone as failed with the disconnect message. The drone's report
/// and task list are untouched.
pub proof fn law_scheduling_settles_owed_ticks<S, T>(
    pre: MissionDroneSnapshot<S, T>,
    post: MissionDroneSnapshot<S, T>,
    outs: Seq<SendOutcome>,
)
    requires
        scheduled(pre, post, outs),
    ensures
        1 <= outs.len() <= pre.pending_ticks + 1,
        forall|k: int| 0 <= k < outs.len() - 1 ==> #[trigger] outs[k] == SendOutcome::Sent,
        outs.last() == SendOutcome::Sent ==> post.pending_ticks == 0 && post.failure == pre.failure,
        outs.last() != SendOutcome::Sent ==> post.pending_ticks == pre.pending_ticks + 1 - (outs.len() - 1)
            && post.pending_ticks >= 1,
        outs.last() == SendOutcome::Full ==> post.failure == pre.failure,
        outs.last() == SendOutcome::Disconnected ==> (post.failure matches Some(text) && text@
            == "drone worker disconnected"@),
        post.drone == pre.drone && post.tasks == pre.tasks && post.sequence_number == pre.sequence_number
            && post.current_task_index == pre.current_task_index,
{
}

/// Law: a fleet is done exactly when it has at least one drone and no drone
/// is still active; an empty fleet is never done, and one active drone keeps
/// the whole fleet going.
pub proof fn law_fleet_done_when_no_drone_is_active<S, T>(
    finished: Seq<bool>,
    drones: Seq<MissionDroneSnapshot<S, T>>,
    i: int,
)
    requires
        finished.len() == drones.len(),
    ensures
        finished.len() == 0 ==> !fleet_done(finished, drones),
        0 <= i < finished.len() && active(drones[i], finished[i]) ==> !fleet_done(finished, drones),
        finished.len() > 0 && (forall|j: int| 0 <= j < finished.len() ==> !active(#[trigger] drones[j], finished[j]))
            ==> fleet_done(finished, drones),
{
    if finished.len() > 0 && (forall|j: int| 0 <= j < finished.len() ==> !active(#[trigger] drones[j], finished[j])) {
        assert forall|j: int| 0 <= j < finished.len() implies #[trigger] finished[j] || drones[j].failure is Some by {
            assert(!active(drones[j], finished[j]));
        }
    }
    if 0 <= i < finished.len() && active(drones[i], finished[i]) {
        assert(!(finished[i] || drones[i].failure is Some));
    }
}

/// Owes the drone one more tick and hands over as many owed ticks as its
/// command channel takes without waiting (see `scheduled`). Every offer is a
/// tick of length `delta_time`, and `send` gave each of the outcomes.
pub fn schedule_drone_tick<S, T, D: Copy, F: Fn(DroneCommand<D>) -> SendOutcome>(
    current_drone: &mut MissionDroneSnapshot<S, T>,
    delta_time: D,
    send: F,
)
    requires
        old(current_drone).pending_ticks < u64::MAX,
        forall|command: DroneCommand<D>| send.requires((command,)),
    ensures
        exists|outs: Seq<SendOutcome>|
            #[trigger] scheduled(*old(current_drone), *final(current_drone), outs) && forall|k: int|
                0 <= k < outs.len() ==> send.ensures((DroneCommand::Tick(delta_time),), #[trigger] outs[k]),
{
    let ghost pre = *current_drone;
    current_drone.pending_ticks = current_drone.pending_ticks + 1;
    let ghost owed = current_drone.pending_ticks;
    let ghost mut outs: Seq<SendOutcome> = Seq::empty();
    while current_drone.pending_ticks > 0
        invariant_except_break
            current_drone.pending_ticks == owed - outs.len(),
            current_drone.failure == pre.failure,
            forall|k: int| 0 <= k < outs.len() ==> #[trigger] outs[k] == SendOutcome::Sent,
        invariant
            forall|command: DroneCommand<D>| send.requires((command,)),
            owed == pre.pending_ticks + 1,
            current_drone.drone == pre.drone,
            current_drone.tasks == pre.tasks,
            current_drone.sequence_number == pre.sequence_number,
            current_drone.current_task_index == pre.current_task_index,
            forall|k: int|
                0 <= k < outs.len() ==> send.ensures((DroneCommand::Tick(delta_time),), #[trigger] outs[k]),
        ensures
            scheduled(pre, *current_drone, outs),
        decreases current_drone.pending_ticks,
    {
        let outcome = send(DroneCommand::Tick(delta_time));
        proof {
            outs = outs.push(outcome);
        }
        if !note_send_outcome(current_drone, outcome) {
            break;
        }
    }
}

/// The fleet is done when it has drones and each of them has either finished
/// its mission or failed.
pub open spec fn fleet_done<S, T>(finished: Seq<bool>, drones: Seq<MissionDroneSnapshot<S, T>>) -> bool {
    finished.len() > 0 && forall|i: int|
        0 <= i < finished.len() ==> #[trigger] finished[i] || drones[i].failure is Some
}

/// Whether the fleet is done; see `fleet_done`.
pub fn fleet_finished<S, T>(finished: &[bool], drones: &[MissionDroneSnapshot<S, T>]) -> (done: bool)
    requires
        finished@.len() <= drones@.len(),
    ensures
        done == fleet_done(finished@, drones@),
{
    if finished.len() == 0 {
        return false;
    }
    let mut i: usize = 0;
    while i < finished.len()
        invariant
            i <= finished@.len(),
            finished@.len() <= drones@.len(),
            forall|j: int| 0 <= j < i ==> #[trigger] finished@[j] || drones@[j].failure is Some,
        decreases finished@.len() - i,
    {
        if !finished[i] && drones[i].failure.is_none() {
            return false;
        }
        i = i + 1;
    }
    true
}

/// A drone that has neither finished nor failed.
pub open spec fn active<S, T>(drone: MissionDroneSnapshot<S, T>, finished: bool) -> bool {
    !finished && drone.failure is None
}

/// Polling in one round: a drone that is active has the receipt `receipt`
/// recorded as `records` says; any other drone is not polled and stays as it
/// was.
pub open spec fn polls<S, T>(
    pre: MissionDroneSnapshot<S, T>,
    pre_finished: bool,
    receipt: DroneReceipt<S>,
    post: MissionDroneSnapshot<S, T>,
    post_finished: bool,
) -> bool {
    if active(pre, pre_finished) {
        records(pre, pre_finished, receipt, post, post_finished)
    } else {
        post == pre && post_finished == pre_finished
    }
}

/// Ticking in one round: a drone that is active after polling is scheduled
/// a tick as `scheduled` says, with outcomes `outs`; any other drone is
/// offered nothing and stays as it was.
pub open spec fn ticks<S, T>(
    pre: MissionDroneSnapshot<S, T>,
    finished: bool,
    post: MissionDroneSnapshot<S, T>,
    outs: Seq<SendOutcome>,
) -> bool {
    if active(pre, finished) {
        scheduled(pre, post, outs)
    } else {
        post == pre && outs.len() == 0
    }
}

/// One round for a drone that was active when the round began: polling it
/// gave receipt `receipt`, recorded as `records` says (giving `polled`);
/// then it is ticked as `ticks` says, so a drone that finished or failed on
/// what it reported gets no tick. Ticking never touches the finished flag.
pub open spec fn fleet_round<S, T>(
    pre: MissionDroneSnapshot<S, T>,
    pre_finished: bool,
    receipt: DroneReceipt<S>,
    polled: MissionDroneSnapshot<S, T>,
    post: MissionDroneSnapshot<S, T>,
    post_finished: bool,
    outs: Seq<SendOutcome>,
) -> bool {
    &&& records(pre, pre_finished, receipt, polled, post_finished)
    &&& ticks(polled, post_finished, post, outs)
}

/// Law: in a round, a drone that had not failed fails only on a failure
/// report, on a lost report channel, or when its command channel turns out
/// closed (the last offer of its tick).
pub proof fn law_failures_have_a_cause<S, T>(
    pre: MissionDroneSnapshot<S, T>,
    pre_finished: bool,
    receipt: DroneReceipt<S>,
    polled: MissionDroneSnapshot<S, T>,
    post: MissionDroneSnapshot<S, T>,
    post_finished: bool,
    outs: Seq<SendOutcome>,
)
    requires
        fleet_round(pre, pre_finished, receipt, polled, post, post_finished, outs),
        pre.failure is None,
        post.failure is Some,
    ensures
        receipt matches DroneReceipt::Received(DroneEvent::Failed(_))
            || receipt is Disconnected
            || (outs.len() > 0 && outs.last() == SendOutcome::Disconnected),
{
}

/// Law: in a round, a drone becomes finished only on a finished report newer
/// than the one it had, and a drone that finishes is offered no tick.
pub proof fn law_finishing_needs_a_newer_report<S, T>(
    pre: MissionDroneSnapshot<S, T>,
    pre_finished: bool,
    receipt: DroneReceipt<S>,
    polled: MissionDroneSnapshot<S, T>,
    post: MissionDroneSnapshot<S, T>,
    post_finished: bool,
    outs: Seq<SendOutcome>,
)
    requires
        fleet_round(pre, pre_finished, receipt, polled, post, post_finished, outs),
        !pre_finished,
        post_finished,
    ensures
        receipt matches DroneReceipt::Received(DroneEvent::Finished { sequence_number, .. })
            && sequence_number > pre.sequence_number,
        outs.len() == 0,
        post == polled,
{
}

/// Law: a round in which polling finds nothing leaves the drone's report and
/// finished flag as they were; only its owed ticks can change, and its
/// failure, just when its command channel is closed.
pub proof fn law_quiet_round_only_ticks<S, T>(
    pre: MissionDroneSnapshot<S, T>,
    pre_finished: bool,
    polled: MissionDroneSnapshot<S, T>,
    post: MissionDroneSnapshot<S, T>,
    post_finished: bool,
    outs: Seq<SendOutcome>,
)
    requires
        fleet_round(pre, pre_finished, DroneReceipt::Empty, polled, post, post_finished, outs),
        active(pre, pre_finished),
    ensures
        post_finished == pre_finished,
        post.drone == pre.drone,
        post.sequence_number == pre.sequence_number,
        post.current_task_index == pre.current_task_index,
        post.tasks == pre.tasks,
        (post.failure is Some) == (outs.last() == SendOutcome::Disconnected),
{
}

/// One coordination round over the fleet: every drone that has neither
/// finished nor failed has its report channel polled (`receive`) and the
/// result recorded; then every drone that still has neither finished nor
/// failed is owed one more tick, handed over through `send` (see
/// `fleet_round`). Finished or failed drones are left alone. Returns whether
/// the fleet is done (see `fleet_done`).
pub fn tick_fleet<
    S,
    T,
    D: Copy,
    R: Fn(usize) -> DroneReceipt<S>,
    W: Fn(usize, DroneCommand<D>) -> SendOutcome,
>(
    drones: &mut Vec<MissionDroneSnapshot<S, T>>,
    finished: &mut Vec<bool>,
    delta_time: D,
    receive: R,
    send: W,
) -> (done: bool)
    requires
        old(finished)@.len() == old(drones)@.len(),
        forall|i: int| 0 <= i < old(drones)@.len() ==> #[trigger] old(drones)@[i].pending_ticks < u64::MAX,
        forall|i: usize| receive.requires((i,)),
        forall|i: usize, command: DroneCommand<D>| send.requires((i, command)),
    ensures
        final(drones)@.len() == old(drones)@.len(),
        final(finished)@.len() == old(finished)@.len(),
        done == fleet_done(final(finished)@, final(drones)@),
        forall|i: int|
            0 <= i < old(drones)@.len() && !active(#[trigger] old(drones)@[i], old(finished)@[i])
                ==> final(drones)@[i] == old(drones)@[i] && final(finished)@[i] == old(finished)@[i],
        forall|i: int|
            0 <= i < old(drones)@.len() && active(#[trigger] old(drones)@[i], old(finished)@[i])
                ==> exists|receipt: DroneReceipt<S>, polled: MissionDroneSnapshot<S, T>, outs: Seq<SendOutcome>|
                #[trigger] fleet_round(
                    old(drones)@[i],
                    old(finished)@[i],
                    receipt,
                    polled,
                    final(drones)@[i],
                    final(finished)@[i],
                    outs,
                ) && receive.ensures((i as usize,), receipt) && forall|k: int|
                    0 <= k < outs.len() ==> send.ensures(
                        (i as usize, DroneCommand::Tick(delta_time)),
                        #[trigger] outs[k],
                    ),
{
    let n = drones.len();
    let ghost start = drones@;
    let ghost start_finished = finished@;
    let ghost mut receipts: Seq<DroneReceipt<S>> = Seq::empty();
    let mut i: usize = 0;
    while i < n
        invariant
            n == drones@.len(),
            n == finished@.len(),
            start == old(drones)@,
            start_finished == old(finished)@,
            n == start.len(),
            i <= n,
            receipts.len() == i,
            forall|j: usize| receive.requires((j,)),
            forall|j: int|
                0 <= j < i ==> polls(start[j], start_finished[j], #[trigger] receipts[j], drones@[j], finished@[j]),
            forall|j: int|
                0 <= j < i && active(start[j], start_finished[j]) ==> receive.ensures(
                    (j as usize,),
                    #[trigger] receipts[j],
                ),
            forall|j: int| i <= j < n ==> (drones@[j] == #[trigger] start[j] && finished@[j] == start_finished[j]),
        decreases n - i,
    {
        let ghost before_drones = drones@;
        let ghost before_finished = finished@;
        let ghost before_receipts = receipts;
        assert(drones@[i as int] == start[i as int]);
        if !finished[i] && drones[i].failure.is_none() {
            let receipt = receive(i);
            let ghost copied = receipt;
            let mut flag = finished[i];
            record_drone_receipt(&mut drones[i], &mut flag, receipt);
            finished.set(i, flag);
            proof {
                receipts = receipts.push(copied);
            }
            assert(receive.ensures(((i as int) as usize,), receipts[i as int]));
        } else {
            proof {
                receipts = receipts.push(DroneReceipt::Empty);
            }
        }
        assert(polls(start[i as int], start_finished[i as int], receipts[i as int], drones@[i as int], finished@[i as int]));
        assert forall|j: int| 0 <= j < i + 1 implies polls(
            start[j],
            start_finished[j],
            #[trigger] receipts[j],
            drones@[j],
            finished@[j],
        ) && (active(start[j], start_finished[j]) ==> receive.ensures((j as usize,), receipts[j])) by {
            if j < i {
                assert(receipts[j] == before_receipts[j]);
                assert(drones@[j] == before_drones[j]);
                assert(finished@[j] == before_finished[j]);
            }
        }
        i = i + 1;
        assert forall|j: int| i <= j < n implies (drones@[j] == #[trigger] start[j] && finished@[j]
            == start_finished[j]) by {
            assert(drones@[j] == before_drones[j]);
            assert(finished@[j] == before_finished[j]);
        }
    }
    let ghost polled = drones@;
    let ghost polled_finished = finished@;
    assert forall|j: int| 0 <= j < n implies #[trigger] polled[j].pending_ticks == start[j].pending_ticks by {
        assert(polls(start[j], start_finished[j], receipts[j], drones@[j], finished@[j]));
    }
    let ghost mut outcomes: Seq<Seq<SendOutcome>> = Seq::empty();
    let mut i: usize = 0;
    while i < n
        invariant
            n == drones@.len(),
            n == finished@.len(),
            n == polled.len(),
            n == start.len(),
            finished@ == polled_finished,
            i <= n,
            outcomes.len() == i,
            forall|j: usize, command: DroneCommand<D>| send.requires((j, command)),
            forall|j: int| 0 <= j < n ==> #[trigger] polled[j].pending_ticks == start[j].pending_ticks,
            forall|j: int| 0 <= j < n ==> #[trigger] start[j].pending_ticks < u64::MAX,
            forall|j: int|
                0 <= j < i ==> ticks(polled[j], polled_finished[j], drones@[j], #[trigger] outcomes[j]),
            forall|j: int, k: int|
                0 <= j < i && 0 <= k < outcomes[j].len() ==> send.ensures(
                    (j as usize, DroneCommand::Tick(delta_time)),
                    #[trigger] outcomes[j][k],
                ),
            forall|j: int| i <= j < n ==> drones@[j] == #[trigger] polled[j],
        decreases n - i,
    {
        let ghost before_drones = drones@;
        let ghost before_outcomes = outcomes;
        assert(drones@[i as int] == polled[i as int]);
        if !finished[i] && drones[i].failure.is_none() {
            assert(start[i as int].pending_ticks < u64::MAX);
            let index = i;
            let sender = &send;
            let tick = move |command: DroneCommand<D>| -> (outcome: SendOutcome)
                requires
                    sender.requires((index, command)),
                ensures
                    sender.ensures((index, command), outcome),
                { sender(index, command) };
            schedule_drone_tick(&mut drones[i], delta_time, tick);
            let ghost outs = choose|outs: Seq<SendOutcome>|
                #[trigger] scheduled(polled[i as int], drones@[i as int], outs) && forall|k: int|
                    0 <= k < outs.len() ==> tick.ensures((DroneCommand::Tick(delta_time),), #[trigger] outs[k]);
            proof {
                outcomes = outcomes.push(outs);
            }
            assert forall|k: int| 0 <= k < outcomes[i as int].len() implies send.ensures(
                ((i as int) as usize, DroneCommand::Tick(delta_time)),
                #[trigger] outcomes[i as int][k],
            ) by {
                assert(outcomes[i as int] == outs);
                assert(tick.ensures((DroneCommand::Tick(delta_time),), outs[k]));
            }
        } else {
            proof {
                outcomes = outcomes.push(Seq::empty());
            }
        }
        assert(ticks(polled[i as int], polled_finished[i as int], drones@[i as int], outcomes[i as int]));
        assert forall|j: int| 0 <= j < i + 1 implies ticks(
            polled[j],
            polled_finished[j],
            drones@[j],
            #[trigger] outcomes[j],
        ) by {
            if j < i {
                assert(outcomes[j] == before_outcomes[j]);
                assert(drones@[j] == before_drones[j]);
            }
        }
        assert forall|j: int, k: int| 0 <= j < i + 1 && 0 <= k < outcomes[j].len() implies send.ensures(
            (j as usize, DroneCommand::Tick(delta_time)),
            #[trigger] outcomes[j][k],
        ) by {
            if j < i {
                assert(outcomes[j] == before_outcomes[j]);
                assert(before_outcomes[j][k] == outcomes[j][k]);
            }
        }
        assert forall|j: int| i + 1 <= j < n implies drones@[j] == #[trigger] polled[j] by {
            assert(drones@[j] == before_drones[j]);
        }
        i = i + 1;
    }
    assert forall|i: int|
        0 <= i < start.len() && active(#[trigger] start[i], start_finished[i]) implies exists|
        receipt: DroneReceipt<S>,
        mid: MissionDroneSnapshot<S, T>,
        outs: Seq<SendOutcome>,
    |
        #[trigger] fleet_round(start[i], start_finished[i], receipt, mid, drones@[i], finished@[i], outs)
            && receive.ensures((i as usize,), receipt) && forall|k: int|
            0 <= k < outs.len() ==> send.ensures((i as usize, DroneCommand::Tick(delta_time)), #[trigger] outs[k]) by {
        assert(polls(start[i], start_finished[i], receipts[i], polled[i], polled_finished[i]));
        assert(ticks(polled[i], polled_finished[i], drones@[i], outcomes[i]));
        assert(receive.ensures((i as usize,), receipts[i]));
        assert forall|k: int| 0 <= k < outcomes[i].len() implies send.ensures(
            (i as usize, DroneCommand::Tick(delta_time)),
            #[trigger] outcomes[i][k],
        ) by {}
        assert(fleet_round(
            start[i],
            start_finished[i],
            receipts[i],
            polled[i],
            drones@[i],
            finished@[i],
            outcomes[i],
        ));
    }
    assert forall|i: int|
        0 <= i < start.len() && !active(#[trigger] start[i], start_finished[i]) implies drones@[i] == start[i]
        && finished@[i] == start_finished[i] by {
        assert(polls(start[i], start_finished[i], receipts[i], polled[i], polled_finished[i]));
        assert(ticks(polled[i], polled_finished[i], drones@[i], outcomes[i]));
    }
    fleet_finished(finished.as_slice(), drones.as_slice())
}

} // verus!
