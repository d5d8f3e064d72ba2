use aeris::drone::Drone;
use aeris::errors::AerisError;
use aeris::state::{ConnectionStatus, FlightMode};
use aeris::task::TaskKind;

const METERS_PER_LATITUDE_DEGREE: f64 = 111_320.0;

#[derive(Debug, Clone, Copy, PartialEq)]
struct Coordinates {
    latitude: f64,
    longitude: f64,
}

fn at(latitude: f64, longitude: f64) -> Coordinates {
    Coordinates {
        latitude,
        longitude,
    }
}

#[derive(Debug, Clone, Copy, PartialEq)]
enum Task {
    Takeoff { target_altitude: f32 },
    FlyTo { target: Coordinates },
    ReturnHome,
    Land,
}

#[derive(Debug, Clone, PartialEq)]
struct Config {
    max_speed: f32,
    climb_speed: f32,
    descent_speed: f32,
    battery_capacity: f32,
    consumption_per_second: f32,
}

type TestDrone = Drone<Coordinates, f32, Task, Config>;

fn drone_at(altitude: f32) -> TestDrone {
    Drone::new(
        "DR-TEST-01".to_string(),
        at(0.0, 0.0),
        altitude,
        0.0,
        100.0,
        Config {
            max_speed: 10.0,
            climb_speed: 1.0,
            descent_speed: 1.0,
            battery_capacity: 100.0,
            consumption_per_second: 0.0,
        },
    )
}

fn battery_percentage(drone: &TestDrone) -> f32 {
    (drone.battery_charge() / drone.config().battery_capacity * 100.0).clamp(0.0, 100.0)
}

/// The simulator's flight physics around the library's step decisions.
fn tick(drone: &mut TestDrone, delta_time: f32) -> Result<(), AerisError> {
    let consumed = drone.config().consumption_per_second * delta_time;
    let charge = (drone.battery_charge() - consumed).max(0.0);
    drone.set_battery_charge(charge);
    if charge <= 0.0 {
        drone.set_speed(0.0);
        drone.lose_power();
    }
    if drone.battery_charge() == 0.0 {
        return Ok(());
    }

    match drone.current_task().cloned() {
        Some(Task::Takeoff { target_altitude }) => {
            drone.begin_task_step(TaskKind::Takeoff, false)?;
            let altitude = drone.altitude() + delta_time * drone.config().climb_speed;
            drone.set_altitude(altitude);
            let reached = altitude >= target_altitude;
            if reached {
                drone.set_altitude(target_altitude);
            }
            drone.finish_task_step(TaskKind::Takeoff, false, reached)
        }
        Some(Task::FlyTo { target }) => {
            let returning_home = target == *drone.home_position();
            drone.begin_task_step(TaskKind::FlyTo, returning_home)?;
            let speed = drone.config().max_speed;
            drone.set_speed(speed);
            let current = *drone.coordinates();
            let latitude_delta = target.latitude - current.latitude;
            let longitude_delta = target.longitude - current.longitude;
            let mean_latitude = (current.latitude + target.latitude) / 2.0;
            let remaining = (latitude_delta * METERS_PER_LATITUDE_DEGREE).hypot(
                longitude_delta * METERS_PER_LATITUDE_DEGREE * mean_latitude.to_radians().cos(),
            );
            let movement = f64::from(speed * delta_time);
            if remaining <= movement {
                drone.set_coordinates(target);
                drone.set_speed(0.0);
                return drone.finish_task_step(TaskKind::FlyTo, returning_home, true);
            }
            let ratio = movement / remaining;
            drone.set_coordinates(at(
                current.latitude + latitude_delta * ratio,
                current.longitude + longitude_delta * ratio,
            ));
            Ok(())
        }
        Some(Task::ReturnHome) => drone.begin_task_step(TaskKind::ReturnHome, false),
        Some(Task::Land) => {
            drone.begin_task_step(TaskKind::Land, false)?;
            let altitude = drone.altitude() - delta_time * drone.config().descent_speed;
            drone.set_altitude(altitude);
            let reached = altitude <= 0.0;
            if reached {
                drone.set_altitude(0.0);
            }
            drone.finish_task_step(TaskKind::Land, false, reached)
        }
        None => Ok(()),
    }
}

#[test]
fn takeoff_reaches_target_and_holds() {
    let mut drone = drone_at(0.0);
    drone.connect().unwrap();
    drone.arm().unwrap();
    drone.assign_task(Some(Task::Takeoff {
        target_altitude: 10.0,
    }));

    tick(&mut drone, 10.0).unwrap();

    assert_eq!(drone.altitude(), 10.0);
    assert_eq!(drone.flight_mode(), FlightMode::Hold);
    assert!(drone.current_task().is_none());
}

#[test]
fn return_home_changes_mode_and_clears_task() {
    let mut drone = drone_at(10.0);
    drone.connect().unwrap();
    drone.arm().unwrap();
    drone.takeoff().unwrap();
    drone.hold().unwrap();
    drone.assign_task(Some(Task::ReturnHome));

    tick(&mut drone, 1.0).unwrap();

    assert_eq!(drone.flight_mode(), FlightMode::ReturnToHome);
    assert!(drone.current_task().is_none());
}

#[test]
fn fly_to_home_uses_return_to_home_mode() {
    let mut drone = drone_at(10.0);
    drone.set_coordinates(at(0.0, 0.001));
    drone.connect().unwrap();
    drone.arm().unwrap();
    drone.takeoff().unwrap();
    drone.hold().unwrap();

    let home_position = *drone.home_position();
    drone.assign_task(Some(Task::FlyTo {
        target: home_position,
    }));

    tick(&mut drone, 0.1).unwrap();

    assert_eq!(drone.flight_mode(), FlightMode::ReturnToHome);
    assert!(drone.current_task().is_some());
}

#[test]
fn landing_reaches_ground_and_becomes_idle() {
    let mut drone = drone_at(10.0);
    drone.connect().unwrap();
    drone.arm().unwrap();
    drone.takeoff().unwrap();
    drone.hold().unwrap();
    drone.return_home().unwrap();
    drone.assign_task(Some(Task::Land));

    tick(&mut drone, 10.0).unwrap();

    assert_eq!(drone.altitude(), 0.0);
    assert_eq!(drone.flight_mode(), FlightMode::Idle);
    assert!(drone.current_task().is_none());
}

#[test]
fn depleted_battery_stops_drone_and_loses_connection() {
    let mut drone: TestDrone = Drone::new(
        "DR-TEST-01".to_string(),
        at(0.0, 0.0),
        10.0,
        10.0,
        100.0,
        Config {
            max_speed: 10.0,
            climb_speed: 1.0,
            descent_speed: 1.0,
            battery_capacity: 100.0,
            consumption_per_second: 60.0,
        },
    );
    drone.assign_task(Some(Task::Land));

    tick(&mut drone, 2.0).unwrap();

    assert_eq!(battery_percentage(&drone), 0.0);
    assert_eq!(drone.speed(), 0.0);
    assert_eq!(drone.connection_status(), ConnectionStatus::Lost);
    assert!(drone.current_task().is_none());
}

#[test]
fn fly_to_uses_max_speed_and_stops_at_target() {
    let mut drone = drone_at(10.0);
    drone.connect().unwrap();
    drone.arm().unwrap();
    drone.takeoff().unwrap();
    drone.hold().unwrap();

    let target = at(0.0, 0.001);
    drone.assign_task(Some(Task::FlyTo { target }));

    tick(&mut drone, 0.1).unwrap();

    assert_eq!(drone.speed(), 10.0);
    assert_ne!(drone.coordinates(), &target);
    assert_eq!(drone.flight_mode(), FlightMode::Mission);

    tick(&mut drone, 20.0).unwrap();

    assert_eq!(drone.speed(), 0.0);
    assert_eq!(drone.coordinates(), &target);
    assert_eq!(drone.flight_mode(), FlightMode::Hold);
}

#[test]
fn return_home_task_from_the_ground_is_refused() {
    let mut drone = drone_at(0.0);
    drone.connect().unwrap();
    drone.arm().unwrap();
    drone.assign_task(Some(Task::ReturnHome));

    assert!(matches!(
        tick(&mut drone, 1.0),
        Err(AerisError::InvalidFlightModeTransition { from, to })
            if from == "Armed" && to == "ReturnHome"
    ));
    assert!(drone.current_task().is_some());
    assert_eq!(drone.flight_mode(), FlightMode::Armed);
}

#[test]
fn unfinished_steps_change_nothing() {
    let mut drone = drone_at(5.0);
    drone.connect().unwrap();
    drone.arm().unwrap();
    drone.takeoff().unwrap();
    drone.assign_task(Some(Task::Takeoff {
        target_altitude: 10.0,
    }));

    drone.finish_task_step(TaskKind::Takeoff, false, false).unwrap();
    assert_eq!(drone.flight_mode(), FlightMode::Takeoff);
    assert!(drone.current_task().is_some());
}
