use std::sync::mpsc::{self, TrySendError};

use aeris::commands::{DroneCommand, DroneEvent};
use aeris::fleet::{
    apply_drone_snapshot, fleet_finished, note_send_outcome, record_drone_receipt,
    schedule_drone_tick, tick_fleet,
    DroneReceipt, MissionDroneSnapshot, SendOutcome,
};

#[derive(Debug, Clone, PartialEq)]
struct Telemetry {
    altitude: f32,
}

fn mission_drone_snapshot() -> MissionDroneSnapshot<Telemetry, u8> {
    MissionDroneSnapshot::new(Telemetry { altitude: 0.0 }, vec![], 0)
}

fn try_send(
    sender: &mpsc::SyncSender<DroneCommand<f32>>,
    command: DroneCommand<f32>,
) -> SendOutcome {
    match sender.try_send(command) {
        Ok(()) => SendOutcome::Sent,
        Err(TrySendError::Full(_)) => SendOutcome::Full,
        Err(TrySendError::Disconnected(_)) => SendOutcome::Disconnected,
    }
}

#[test]
fn stale_snapshot_does_not_replace_newer_snapshot() {
    let mut current_drone = mission_drone_snapshot();
    let mut newer_snapshot = current_drone.drone.clone();
    newer_snapshot.altitude = 2.0;
    let mut finished = false;

    apply_drone_snapshot(&mut current_drone, &mut finished, 2, newer_snapshot, 2, true);

    let mut stale_snapshot = current_drone.drone.clone();
    stale_snapshot.altitude = 1.0;
    apply_drone_snapshot(&mut current_drone, &mut finished, 1, stale_snapshot, 1, false);

    assert_eq!(current_drone.sequence_number, 2);
    assert_eq!(current_drone.drone.altitude, 2.0);
    assert_eq!(current_drone.current_task_index, 2);
    assert!(finished);
}

#[test]
fn pending_ticks_are_sent_when_channel_capacity_recovers() {
    let mut current_drone = mission_drone_snapshot();
    let (sender, receiver) = mpsc::sync_channel(2);

    for _ in 0..3 {
        schedule_drone_tick(&mut current_drone, 0.1, |command| try_send(&sender, command));
    }

    assert_eq!(current_drone.pending_ticks, 1);

    receiver.recv().unwrap();
    receiver.recv().unwrap();

    schedule_drone_tick(&mut current_drone, 0.1, |command| try_send(&sender, command));

    assert_eq!(current_drone.pending_ticks, 0);

    for _ in 0..2 {
        let DroneCommand::Tick(delta_time) = receiver.recv().unwrap() else {
            panic!("expected tick command");
        };
        assert_eq!(delta_time, 0.1);
    }
}

#[test]
fn closed_command_channel_marks_drone_failed() {
    let mut current_drone = mission_drone_snapshot();
    let (sender, receiver) = mpsc::sync_channel::<DroneCommand<f32>>(2);
    drop(receiver);

    schedule_drone_tick(&mut current_drone, 0.1, |command| try_send(&sender, command));

    assert_eq!(current_drone.pending_ticks, 1);
    assert_eq!(
        current_drone.failure.as_deref(),
        Some("drone worker disconnected")
    );
}

#[test]
fn receipts_update_the_record() {
    let mut current_drone = mission_drone_snapshot();
    let mut finished = false;

    record_drone_receipt(&mut current_drone, &mut finished, DroneReceipt::Empty);
    assert_eq!(current_drone.sequence_number, 0);

    record_drone_receipt(
        &mut current_drone,
        &mut finished,
        DroneReceipt::Received(DroneEvent::Telemetry {
            sequence_number: 1,
            snapshot: Telemetry { altitude: 3.0 },
            current_task_index: 0,
        }),
    );
    assert_eq!(current_drone.drone.altitude, 3.0);
    assert!(!finished);

    record_drone_receipt(
        &mut current_drone,
        &mut finished,
        DroneReceipt::Received(DroneEvent::Finished {
            sequence_number: 2,
            snapshot: Telemetry { altitude: 0.0 },
            current_task_index: 1,
        }),
    );
    assert!(finished);
    assert_eq!(current_drone.current_task_index, 1);

    record_drone_receipt(
        &mut current_drone,
        &mut finished,
        DroneReceipt::Received(DroneEvent::Failed("boom".to_string())),
    );
    assert_eq!(current_drone.failure.as_deref(), Some("boom"));

    let mut lost = mission_drone_snapshot();
    record_drone_receipt(&mut lost, &mut finished, DroneReceipt::Disconnected);
    assert_eq!(lost.failure.as_deref(), Some("drone worker disconnected"));
}

#[test]
fn fleet_is_finished_when_every_drone_finished_or_failed() {
    let healthy = mission_drone_snapshot();
    let mut failed = mission_drone_snapshot();
    failed.failure = Some("failed".to_string());
    let drones = vec![healthy, failed];

    assert!(!fleet_finished(&[], &drones));
    assert!(!fleet_finished(&[false, false], &drones));
    assert!(fleet_finished(&[true, false], &drones));
}

#[test]
fn send_outcomes_settle_owed_ticks() {
    let mut current_drone = mission_drone_snapshot();
    current_drone.pending_ticks = 2;

    assert!(note_send_outcome(&mut current_drone, SendOutcome::Sent));
    assert_eq!(current_drone.pending_ticks, 1);

    assert!(!note_send_outcome(&mut current_drone, SendOutcome::Full));
    assert_eq!(current_drone.pending_ticks, 1);
    assert!(current_drone.failure.is_none());

    assert!(!note_send_outcome(&mut current_drone, SendOutcome::Disconnected));
    assert_eq!(current_drone.pending_ticks, 1);
    assert_eq!(
        current_drone.failure.as_deref(),
        Some("drone worker disconnected")
    );
}

#[test]
fn failed_drone_is_left_alone_and_healthy_drone_ticked() {
    let mut failed = mission_drone_snapshot();
    failed.failure = Some("failed".to_string());
    let mut drones = vec![failed, mission_drone_snapshot()];
    let mut finished = vec![false, false];
    let (sender, receiver) = mpsc::sync_channel(8);

    let done = tick_fleet(
        &mut drones,
        &mut finished,
        0.1f32,
        |index| {
            assert_eq!(index, 1);
            DroneReceipt::Received(DroneEvent::Telemetry {
                sequence_number: 1,
                snapshot: Telemetry { altitude: 5.0 },
                current_task_index: 0,
            })
        },
        |index, command| {
            assert_eq!(index, 1);
            try_send(&sender, command)
        },
    );

    assert!(!done);
    assert_eq!(drones[0].sequence_number, 0);
    assert_eq!(drones[0].pending_ticks, 0);
    assert_eq!(drones[1].drone.altitude, 5.0);
    assert_eq!(drones[1].pending_ticks, 0);
    assert!(matches!(receiver.try_recv(), Ok(DroneCommand::Tick(_))));
}

#[test]
fn fleet_round_reports_completion() {
    let mut drones = vec![mission_drone_snapshot()];
    let mut finished = vec![false];

    let done = tick_fleet(
        &mut drones,
        &mut finished,
        0.1f32,
        |_| {
            DroneReceipt::Received(DroneEvent::Finished {
                sequence_number: 4,
                snapshot: Telemetry { altitude: 0.0 },
                current_task_index: 2,
            })
        },
        |_, _| SendOutcome::Sent,
    );

    assert!(done);
    assert!(finished[0]);
    assert_eq!(drones[0].pending_ticks, 0);
    assert_eq!(drones[0].current_task_index, 2);
}

#[test]
fn failure_report_marks_drone_failed_and_skips_its_tick() {
    let mut drones = vec![mission_drone_snapshot(), mission_drone_snapshot()];
    let mut finished = vec![false, false];
    let (sender, receiver) = mpsc::sync_channel(8);

    let done = tick_fleet(
        &mut drones,
        &mut finished,
        0.1f32,
        |index| {
            if index == 0 {
                DroneReceipt::Received(DroneEvent::Failed("motor fault".to_string()))
            } else {
                DroneReceipt::Received(DroneEvent::Telemetry {
                    sequence_number: 1,
                    snapshot: Telemetry { altitude: 3.0 },
                    current_task_index: 0,
                })
            }
        },
        |index, command| {
            assert_eq!(index, 1);
            try_send(&sender, command)
        },
    );

    assert!(!done);
    assert_eq!(drones[0].failure.as_deref(), Some("motor fault"));
    assert_eq!(drones[0].pending_ticks, 0);
    assert!(!finished[0]);
    assert_eq!(drones[1].failure, None);
    assert_eq!(drones[1].drone.altitude, 3.0);
    assert!(matches!(receiver.try_recv(), Ok(DroneCommand::Tick(_))));
    assert!(receiver.try_recv().is_err());
}

#[test]
fn lost_report_channel_marks_drone_failed() {
    let mut drones = vec![mission_drone_snapshot()];
    let mut finished = vec![false];

    let done = tick_fleet(
        &mut drones,
        &mut finished,
        0.1f32,
        |_| DroneReceipt::Disconnected,
        |_, _| panic!("a failed drone gets no tick"),
    );

    assert!(done);
    assert_eq!(
        drones[0].failure.as_deref(),
        Some("drone worker disconnected")
    );
}

#[test]
fn round_without_reports_only_ticks() {
    let mut drones = vec![mission_drone_snapshot()];
    let mut finished = vec![false];
    let (sender, receiver) = mpsc::sync_channel(1);

    let done = tick_fleet(
        &mut drones,
        &mut finished,
        0.1f32,
        |_| DroneReceipt::Empty,
        |_, command| try_send(&sender, command),
    );

    assert!(!done);
    assert!(!finished[0]);
    assert_eq!(drones[0].failure, None);
    assert_eq!(drones[0].sequence_number, 0);
    assert_eq!(drones[0].pending_ticks, 0);

    let done = tick_fleet(
        &mut drones,
        &mut finished,
        0.1f32,
        |_| DroneReceipt::Empty,
        |_, command| try_send(&sender, command),
    );

    assert!(!done);
    assert_eq!(drones[0].pending_ticks, 1);
    assert!(matches!(receiver.try_recv(), Ok(DroneCommand::Tick(_))));
    assert!(receiver.try_recv().is_err());
}

#[test]
fn finished_drone_is_not_polled_again() {
    let mut drones = vec![mission_drone_snapshot()];
    let mut finished = vec![true];

    let done = tick_fleet(
        &mut drones,
        &mut finished,
        0.1f32,
        |_| panic!("a finished drone is not polled"),
        |_, _| panic!("a finished drone gets no tick"),
    );

    assert!(done);
    assert_eq!(drones[0].pending_ticks, 0);
}

#[test]
fn scheduling_owes_one_tick_and_sends_what_fits() {
    let mut current_drone = mission_drone_snapshot();
    current_drone.pending_ticks = 2;
    let (sender, receiver) = mpsc::sync_channel(2);

    schedule_drone_tick(&mut current_drone, 0.5f32, |command| try_send(&sender, command));

    assert_eq!(current_drone.pending_ticks, 1);
    assert_eq!(current_drone.failure, None);
    assert!(matches!(receiver.try_recv(), Ok(DroneCommand::Tick(t)) if t == 0.5));
    assert!(matches!(receiver.try_recv(), Ok(DroneCommand::Tick(t)) if t == 0.5));
    assert!(receiver.try_recv().is_err());
}
