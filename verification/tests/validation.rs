use aeris::errors::{AerisError, MissionIssue};
use aeris::state::FlightMode;
use aeris::task::TaskKind;
use aeris::validator::{find_drone_type, GroupPlan, MissionPlan, MissionValidator, PlannedTask};

struct TaskSpec {
    kind: TaskKind,
    target_altitude: f32,
}

const SCOUT_MAX_ALTITUDE: f32 = 120.0;

fn drone_types() -> Vec<String> {
    vec!["scout".to_string()]
}

fn takeoff(target_altitude: f32) -> TaskSpec {
    TaskSpec {
        kind: TaskKind::Takeoff,
        target_altitude,
    }
}

fn task(kind: TaskKind) -> TaskSpec {
    TaskSpec {
        kind,
        target_altitude: 0.0,
    }
}

fn planned(spec: &TaskSpec) -> PlannedTask {
    match spec.kind {
        TaskKind::Takeoff => PlannedTask::Takeoff {
            fits: vec![
                spec.target_altitude.is_finite()
                    && spec.target_altitude > 0.0
                    && spec.target_altitude <= SCOUT_MAX_ALTITUDE,
            ],
        },
        TaskKind::Hold => PlannedTask::Hold,
        TaskKind::FlyTo => PlannedTask::FlyTo,
        TaskKind::ReturnHome => PlannedTask::ReturnHome,
        TaskKind::Land => PlannedTask::Land,
    }
}

fn mission(tasks: Vec<TaskSpec>) -> MissionPlan {
    MissionPlan {
        name: "test".to_string(),
        groups: vec![GroupPlan {
            drone_type: "scout".to_string(),
            drone_count: 1,
            tasks: tasks.iter().map(planned).collect(),
        }],
    }
}

#[test]
fn accepts_valid_task_transitions() {
    let mission = mission(vec![
        takeoff(50.0),
        task(TaskKind::Hold),
        task(TaskKind::ReturnHome),
        task(TaskKind::Land),
    ]);

    assert!(MissionValidator::validate(&mission, &drone_types()).is_ok());
}

#[test]
fn rejects_invalid_task_transition() {
    let mission = mission(vec![task(TaskKind::Land)]);

    assert!(matches!(
        MissionValidator::validate(&mission, &drone_types()),
        Err(AerisError::InvalidMission(_))
    ));
}

#[test]
fn rejects_altitude_above_drone_limit() {
    let mission = mission(vec![takeoff(121.0)]);

    assert!(matches!(
        MissionValidator::validate(&mission, &drone_types()),
        Err(AerisError::InvalidMission(_))
    ));
}

#[test]
fn rejects_blank_mission_name() {
    let mut mission = mission(vec![takeoff(10.0)]);
    mission.name = " \t\n".to_string();

    assert!(matches!(
        MissionValidator::validate(&mission, &drone_types()),
        Err(AerisError::InvalidMission(MissionIssue::EmptyName))
    ));
}

#[test]
fn rejects_mission_without_groups() {
    let mission = MissionPlan {
        name: "test".to_string(),
        groups: vec![],
    };

    assert!(matches!(
        MissionValidator::validate(&mission, &drone_types()),
        Err(AerisError::InvalidMission(MissionIssue::NoGroups))
    ));
}

#[test]
fn rejects_group_without_drones_or_tasks() {
    let mut without_drones = mission(vec![takeoff(10.0)]);
    without_drones.groups[0].drone_count = 0;
    assert!(matches!(
        MissionValidator::validate(&without_drones, &drone_types()),
        Err(AerisError::InvalidMission(MissionIssue::NoDrones { group_index: 0, group }))
            if group == "scout"
    ));

    let without_tasks = mission(vec![]);
    assert!(matches!(
        MissionValidator::validate(&without_tasks, &drone_types()),
        Err(AerisError::InvalidMission(MissionIssue::NoTasks { group_index: 0, group }))
            if group == "scout"
    ));
}

#[test]
fn rejects_unknown_drone_type() {
    let mut mission = mission(vec![takeoff(10.0)]);
    mission.groups[0].drone_type = "hauler".to_string();

    assert!(matches!(
        MissionValidator::validate(&mission, &drone_types()),
        Err(AerisError::DroneTypeNotFound(name)) if name == "hauler"
    ));
}

#[test]
fn reports_where_the_task_list_breaks() {
    let mission = mission(vec![
        takeoff(10.0),
        task(TaskKind::Hold),
        task(TaskKind::Land),
        task(TaskKind::Hold),
    ]);

    assert!(matches!(
        MissionValidator::validate(&mission, &drone_types()),
        Err(AerisError::InvalidMission(MissionIssue::InvalidTransition {
            group_index: 0,
            task_index: 3,
            task: TaskKind::Hold,
            mode: FlightMode::Idle,
            ..
        }))
    ));
}

#[test]
fn rejects_fly_to_tasks_and_a_second_takeoff() {
    let fly_to = mission(vec![takeoff(10.0), task(TaskKind::FlyTo)]);
    assert!(matches!(
        MissionValidator::validate(&fly_to, &drone_types()),
        Err(AerisError::InvalidMission(MissionIssue::InvalidTransition {
            task_index: 1,
            task: TaskKind::FlyTo,
            mode: FlightMode::Hold,
            ..
        }))
    ));

    let twice = mission(vec![takeoff(10.0), takeoff(20.0)]);
    assert!(MissionValidator::validate(&twice, &drone_types()).is_err());
}

#[test]
fn altitude_error_names_the_task() {
    let mission = mission(vec![takeoff(0.0)]);

    assert!(matches!(
        MissionValidator::validate(&mission, &drone_types()),
        Err(AerisError::InvalidMission(MissionIssue::InvalidTargetAltitude {
            group_index: 0,
            task_index: 0,
            ..
        }))
    ));
}

#[test]
fn finds_the_first_matching_drone_type() {
    let names = vec!["a".to_string(), "b".to_string(), "b".to_string()];
    assert_eq!(find_drone_type(&names, &"b".to_string()), Some(1));
    assert_eq!(find_drone_type(&names, &"c".to_string()), None);
}
