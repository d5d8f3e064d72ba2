use aeris::control::{after_tick, drone_report, drone_worker_reply, AfterTick, CommandReceipt, SimulationControl, WorkerStep};
use aeris::commands::DroneEvent;
use aeris::state::{ConnectionStatus, FlightMode};
use aeris::task::TaskKind;
use aeris::ui::{
    format_task, mission_options, phase_tone, signal_bar, HomeAction, Key, Navigator, PhaseTone,
    SessionAction, TaskMarker, UiState, MISSION_COUNT, task_queue_rows,
};
use aeris::state::{connection_status_name, flight_mode_name};
use aeris::text::{is_blank, is_white_space};

#[test]
fn signal_bar_shows_link_strength() {
    assert_eq!(signal_bar(&ConnectionStatus::Connected), "▁▃▅▇");
    assert_eq!(signal_bar(&ConnectionStatus::Connecting), "▁▃▅░");
    assert_eq!(signal_bar(&ConnectionStatus::Disconnected), "▁░░░");
    assert_eq!(signal_bar(&ConnectionStatus::Lost), "░░░░");
}

#[test]
fn task_labels() {
    assert_eq!(format_task(Some(TaskKind::Takeoff)), "TAKEOFF");
    assert_eq!(format_task(Some(TaskKind::FlyTo)), "FLY TO");
    assert_eq!(format_task(Some(TaskKind::ReturnHome)), "RETURN HOME");
    assert_eq!(format_task(Some(TaskKind::Land)), "LAND");
    assert_eq!(format_task(Some(TaskKind::Hold)), "HOLD");
    assert_eq!(format_task(None), "IDLE");
}

#[test]
fn phase_tones() {
    assert_eq!(phase_tone(FlightMode::Landing), PhaseTone::Caution);
    assert_eq!(phase_tone(FlightMode::ReturnToHome), PhaseTone::Caution);
    assert_eq!(phase_tone(FlightMode::Idle), PhaseTone::Muted);
    assert_eq!(phase_tone(FlightMode::Mission), PhaseTone::Accent);
}

#[test]
fn state_names() {
    assert_eq!(flight_mode_name(FlightMode::ReturnToHome), "ReturnToHome");
    assert_eq!(connection_status_name(ConnectionStatus::Lost), "Lost");
}

#[test]
fn missions_on_the_start_screen() {
    let options = mission_options();
    assert_eq!(options.len(), MISSION_COUNT);
    assert_eq!(options[0].name, "Recon Alpha");
    assert_eq!(options[1].path, "configs/mission_failure.toml");
    assert_eq!(options[2].description, "Five-minute endurance mission");
}

#[test]
fn drone_selection_stays_in_the_list() {
    let mut state = UiState::new();
    assert_eq!(state.selected_drone(), Some(0));

    state.previous_drone();
    assert_eq!(state.selected_drone(), Some(0));

    state.next_drone(0);
    assert_eq!(state.selected_drone(), Some(0));

    state.next_drone(2);
    assert_eq!(state.selected_drone(), Some(1));
    state.next_drone(2);
    assert_eq!(state.selected_drone(), Some(1));

    state.previous_drone();
    assert_eq!(state.selected_drone(), Some(0));
}

#[test]
fn start_screen_keys() {
    let mut navigator = Navigator::new();

    assert_eq!(navigator.home_key(Key::Up), HomeAction::Nothing);
    assert_eq!(navigator.selected_mission, 0);

    for _ in 0..5 {
        navigator.home_key(Key::Down);
    }
    assert_eq!(navigator.selected_mission, MISSION_COUNT - 1);

    assert_eq!(
        navigator.home_key(Key::Enter),
        HomeAction::StartMission(MISSION_COUNT - 1)
    );
    assert!(!navigator.should_quit);

    navigator.home_key(Key::Char('q'));
    assert!(navigator.should_quit);
}

#[test]
fn simulation_keys() {
    let mut navigator = Navigator::new();

    assert_eq!(navigator.session_key(Key::Char(' '), false), SessionAction::Pause);
    assert_eq!(navigator.session_key(Key::Char(' '), true), SessionAction::Resume);
    assert_eq!(navigator.session_key(Key::Up, false), SessionAction::PreviousDrone);
    assert_eq!(navigator.session_key(Key::Down, false), SessionAction::NextDrone);
    assert_eq!(navigator.session_key(Key::Esc, false), SessionAction::StopMission);
    assert!(!navigator.should_quit);
    assert_eq!(navigator.session_key(Key::Char('q'), false), SessionAction::StopMission);
    assert!(navigator.should_quit);
}

#[test]
fn worker_pauses_and_resumes() {
    let mut control = SimulationControl::new(false);

    assert_eq!(control.on_receipt(CommandReceipt::Timeout), WorkerStep::Tick);
    assert_eq!(control.on_receipt(CommandReceipt::Pause), WorkerStep::PublishSnapshot);
    assert_eq!(control.on_receipt(CommandReceipt::Timeout), WorkerStep::SkipTick);
    assert_eq!(control.on_receipt(CommandReceipt::Resume), WorkerStep::OfferSnapshot);
    assert_eq!(control.on_receipt(CommandReceipt::Timeout), WorkerStep::Tick);
    assert_eq!(control.on_receipt(CommandReceipt::Shutdown), WorkerStep::Stop);
    assert_eq!(control.on_receipt(CommandReceipt::Disconnected), WorkerStep::Stop);
}

#[test]
fn finished_fleet_publishes_its_last_snapshot() {
    assert_eq!(after_tick(true), AfterTick::PublishFinalAndFinish);
    assert_eq!(after_tick(false), AfterTick::OfferSnapshot);

    assert!(matches!(
        drone_report(3, "s", 1, true),
        DroneEvent::Finished { sequence_number: 3, snapshot: "s", current_task_index: 1 }
    ));
    assert!(matches!(
        drone_report(4, "s", 0, false),
        DroneEvent::Telemetry { sequence_number: 4, .. }
    ));
}

#[test]
fn blank_texts() {
    assert!(is_blank(""));
    assert!(is_blank(" \t\u{3000}\n"));
    assert!(!is_blank(" a "));
}

#[test]
fn white_space_characters() {
    for c in ['\t', '\n', '\u{b}', '\u{c}', '\r', ' ', '\u{85}', '\u{a0}', '\u{1680}', '\u{2000}', '\u{200a}', '\u{2028}', '\u{2029}', '\u{202f}', '\u{205f}', '\u{3000}'] {
        assert!(is_white_space(c), "{:?}", c);
        assert!(c.is_whitespace());
    }
    for c in ['a', '0', '\u{8}', '\u{e}', '\u{200b}', '\u{feff}', '\u{180e}'] {
        assert!(!is_white_space(c), "{:?}", c);
        assert!(!c.is_whitespace());
    }
    assert!(is_blank("\u{85}\u{a0}"));
    assert!(!is_blank("\u{200b}"));
}

#[test]
fn drone_worker_replies() {
    let (event, stop) = drone_worker_reply::<&str>(Err("battery depleted".to_string()));
    assert!(stop);
    assert!(matches!(event, DroneEvent::Failed(ref e) if e == "battery depleted"));

    let (event, stop) = drone_worker_reply(Ok((3, "s", 1, false)));
    assert!(!stop);
    assert!(matches!(
        event,
        DroneEvent::Telemetry { sequence_number: 3, snapshot: "s", current_task_index: 1 }
    ));

    let (event, stop) = drone_worker_reply(Ok((9, "s", 2, true)));
    assert!(stop);
    assert!(matches!(
        event,
        DroneEvent::Finished { sequence_number: 9, snapshot: "s", current_task_index: 2 }
    ));
}

#[test]
fn task_queue_window() {
    let rows = task_queue_rows(6, 0, false);
    assert_eq!(
        rows,
        vec![
            (0, TaskMarker::Active),
            (1, TaskMarker::Pending),
            (2, TaskMarker::Pending),
            (3, TaskMarker::Pending),
        ]
    );

    let rows = task_queue_rows(6, 3, false);
    assert_eq!(
        rows,
        vec![
            (2, TaskMarker::Completed),
            (3, TaskMarker::Active),
            (4, TaskMarker::Pending),
            (5, TaskMarker::Pending),
        ]
    );

    let rows = task_queue_rows(3, 2, true);
    assert_eq!(rows, vec![(1, TaskMarker::Completed), (2, TaskMarker::Completed)]);

    assert!(task_queue_rows(0, 0, false).is_empty());
}
