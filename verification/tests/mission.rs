use aeris::drone::Drone;
use aeris::errors::AerisError;
use aeris::mission::{Mission, MissionDrone, Simulation};
use aeris::setup::{build_simulation, failure_index, CatalogEntry, DroneGroup};
use aeris::state::{ConnectionStatus, FlightMode};

type TestDrone = Drone<(f64, f64), f32, u8, &'static str>;

fn drone(name: &str) -> TestDrone {
    Drone::new(name.to_string(), (0.0, 0.0), 0.0, 0.0, 100.0, "test")
}

#[test]
fn mission_drone_starts_on_its_first_task() {
    let mission_drone = MissionDrone::new(drone("a"), vec![1, 2, 3]);

    assert_eq!(mission_drone.current_task_index(), 0);
    assert_eq!(mission_drone.drone().current_task(), Some(&1));
    assert_eq!(mission_drone.tasks(), &[1, 2, 3]);
    assert_eq!(mission_drone.tick_count(), 0);
    assert!(!mission_drone.is_finished());
}

#[test]
fn sequencer_moves_on_when_the_drone_drops_its_task() {
    let mut mission_drone = MissionDrone::new(drone("a"), vec![1, 2]);

    mission_drone.begin_tick().unwrap();
    mission_drone.complete_tick();
    assert_eq!(mission_drone.current_task_index(), 0);

    mission_drone.drone_mut().assign_task(None);
    mission_drone.complete_tick();
    assert_eq!(mission_drone.current_task_index(), 1);
    assert_eq!(mission_drone.drone().current_task(), Some(&2));

    mission_drone.drone_mut().assign_task(None);
    mission_drone.complete_tick();
    assert_eq!(mission_drone.current_task_index(), 1);
    assert!(mission_drone.drone().current_task().is_none());
    assert!(mission_drone.is_finished());
}

#[test]
fn finished_when_last_task_done_and_idle() {
    let mut mission_drone = MissionDrone::new(drone("a"), vec![7]);
    mission_drone.drone_mut().assign_task(None);

    assert!(mission_drone.is_finished());
    mission_drone.complete_tick();
    assert_eq!(mission_drone.current_task_index(), 0);
}

#[test]
fn injected_failure_fires_on_its_tick() {
    let mut mission_drone = MissionDrone::new(drone("unit-7"), vec![1]);
    mission_drone.fail_after(2);

    assert!(mission_drone.begin_tick().is_ok());
    assert!(matches!(
        mission_drone.begin_tick(),
        Err(AerisError::SimulatedDroneFailure(name)) if name == "unit-7"
    ));
    assert_eq!(mission_drone.tick_count(), 2);
    assert!(mission_drone.begin_tick().is_ok());
}

#[test]
fn starting_a_mission_connects_and_arms_idle_drones() {
    let mut mission = Mission::new(
        "test".to_string(),
        vec![
            MissionDrone::new(drone("a"), vec![]),
            MissionDrone::new(drone("b"), vec![]),
        ],
    );

    mission.start().unwrap();
    mission.start().unwrap();

    for mission_drone in mission.mission_drones() {
        assert_eq!(
            mission_drone.drone().connection_status(),
            ConnectionStatus::Connected
        );
        assert_eq!(mission_drone.drone().flight_mode(), FlightMode::Armed);
    }
    assert_eq!(mission.name(), "test");
}

#[test]
fn simulation_hands_out_drones_mission_by_mission() {
    let mut simulation = Simulation::new();
    simulation.add_mission(Mission::new(
        "first".to_string(),
        vec![
            MissionDrone::new(drone("a"), vec![]),
            MissionDrone::new(drone("b"), vec![]),
        ],
    ));
    simulation.add_mission(Mission::new(
        "second".to_string(),
        vec![MissionDrone::new(drone("c"), vec![])],
    ));

    assert_eq!(simulation.missions().len(), 2);
    let names = simulation
        .into_mission_drones()
        .iter()
        .map(|mission_drone| mission_drone.drone().name().to_string())
        .collect::<Vec<_>>();
    assert_eq!(names, vec!["a", "b", "c"]);
}

fn catalog() -> Vec<CatalogEntry<f32, &'static str>> {
    vec![CatalogEntry {
        name: "scout".to_string(),
        battery_capacity: 80.0,
        config: "scout config",
    }]
}

fn group(drone_type: &str, names: &[&str]) -> DroneGroup<(f64, f64), u8> {
    DroneGroup {
        drone_type: drone_type.to_string(),
        drone_names: names.iter().map(|name| name.to_string()).collect(),
        home_position: (1.0, 2.0),
        tasks: vec![5, 6],
    }
}

#[test]
fn builds_one_armed_drone_per_name() {
    let simulation = build_simulation(
        &"patrol".to_string(),
        false,
        &vec![group("scout", &["a", "b"]), group("scout", &["c"])],
        &catalog(),
        0.0,
    )
    .unwrap();

    let mission = &simulation.missions()[0];
    assert_eq!(mission.name(), "patrol");
    let drones = mission.mission_drones();
    assert_eq!(drones.len(), 3);
    for (mission_drone, name) in drones.iter().zip(["a", "b", "c"]) {
        let drone = mission_drone.drone();
        assert_eq!(drone.name(), name);
        assert_eq!(drone.coordinates(), &(1.0, 2.0));
        assert_eq!(drone.battery_charge(), 80.0);
        assert_eq!(*drone.config(), "scout config");
        assert_eq!(drone.connection_status(), ConnectionStatus::Connected);
        assert_eq!(drone.flight_mode(), FlightMode::Armed);
        assert_eq!(drone.current_task(), Some(&5));
    }
}

#[test]
fn build_reports_unknown_drone_type() {
    let result = build_simulation(
        &"patrol".to_string(),
        false,
        &vec![group("scout", &["a"]), group("hauler", &["b"])],
        &catalog(),
        0.0,
    );

    assert!(matches!(result, Err(AerisError::DroneTypeNotFound(name)) if name == "hauler"));
}

#[test]
fn failure_mission_fails_exactly_one_drone() {
    let simulation = build_simulation(
        &"faulty".to_string(),
        true,
        &vec![group("scout", &["a", "b", "c", "d"])],
        &catalog(),
        0.0,
    )
    .unwrap();
    let drones = simulation.into_mission_drones();
    let picked = failure_index(drones[0].drone().id(), drones.len());

    let mut failing = Vec::new();
    for (index, mut mission_drone) in drones.into_iter().enumerate() {
        let mut failed_at = None;
        for tick in 1..=12u64 {
            if mission_drone.begin_tick().is_err() {
                failed_at = Some(tick);
                break;
            }
        }
        if let Some(tick) = failed_at {
            assert_eq!(tick, 10);
            failing.push(index);
        }
    }
    assert_eq!(failing, vec![picked]);
}

#[test]
fn failure_index_uses_the_low_word_of_the_identifier() {
    assert_eq!(failure_index(7, 4), 3);
    assert_eq!(failure_index((1u128 << 64) + 5, 4), 1);
}
