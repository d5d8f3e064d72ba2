use vstd::prelude::*;

use crate::errors::{AerisError, AerisErrorView};
use crate::ids::new_drone_id;
use crate::state::{
    connection_status_name, connection_status_text, flight_mode_name, flight_mode_text,
    ConnectionStatus, FlightMode,
};
use crate::task::TaskKind;

verus! {

/// A simulated drone.
///
/// The drone owns its link state, its flight mode and its current task; these
/// change only through the commands below. Position (`P`), scalar quantities
/// such as altitude, speed and charge (`A`), the task (`T`) and the airframe
/// configuration (`C`) are carried as values: the drone copies and stores them,
/// and flight physics elsewhere computes them.
pub struct Drone<P, A, T, C> {
    id: u128,
    name: String,
    coordinates: P,
    home_position: P,
    flight_start_position: P,
    altitude: A,
    flight_start_altitude: A,
    speed: A,
    battery_charge: A,
    connection_status: ConnectionStatus,
    flight_mode: FlightMode,
    config: C,
    current_task: Option<T>,
}

/// The whole state of a `Drone`, as a mathematical value.
pub ghost struct DroneView<P, A, T, C> {
    pub id: u128,
    pub name: Seq<char>,
    pub coordinates: P,
    pub home_position: P,
    pub flight_start_position: P,
    pub altitude: A,
    pub flight_start_altitude: A,
    pub speed: A,
    pub battery_charge: A,
    pub connection_status: ConnectionStatus,
    pub flight_mode: FlightMode,
    pub config: C,
    pub current_task: Option<T>,
}

impl<P, A, T, C> DroneView<P, A, T, C> {
    pub open spec fn with_mode(self, mode: FlightMode) -> Self {
        DroneView { flight_mode: mode, ..self }
    }

    pub open spec fn with_link(self, status: ConnectionStatus) -> Self {
        DroneView { connection_status: status, ..self }
    }

    pub open spec fn with_task(self, task: Option<T>) -> Self {
        DroneView { current_task: task, ..self }
    }
}

impl<P, A, T, C> View for Drone<P, A, T, C> {
    type V = DroneView<P, A, T, C>;

    closed spec fn view(&self) -> DroneView<P, A, T, C> {
        DroneView {
            id: self.id,
            name: self.name@,
            coordinates: self.coordinates,
            home_position: self.home_position,
            flight_start_position: self.flight_start_position,
            altitude: self.altitude,
            flight_start_altitude: self.flight_start_altitude,
            speed: self.speed,
            battery_charge: self.battery_charge,
            connection_status: self.connection_status,
            flight_mode: self.flight_mode,
            config: self.config,
            current_task: self.current_task,
        }
    }
}

/// The flight-mode changes that a command may make: whether a drone in mode
/// `from` may be commanded into mode `to`. `Idle` is never commanded; a drone
/// becomes idle by touching down at the end of a landing.
pub open spec fn can_enter(to: FlightMode, from: FlightMode) -> bool {
    match to {
        FlightMode::Armed => from == FlightMode::Idle,
        FlightMode::Takeoff => from == FlightMode::Armed,
        FlightMode::Hold => from == FlightMode::Takeoff || from == FlightMode::Mission,
        FlightMode::Mission => from == FlightMode::Takeoff || from == FlightMode::Hold,
        FlightMode::ReturnToHome => from == FlightMode::Hold || from == FlightMode::Mission,
        FlightMode::Landing => from == FlightMode::ReturnToHome || from == FlightMode::Hold,
        FlightMode::Emergency => true,
        FlightMode::Idle => false,
    }
}

/// The name of the target mode as it appears in a refused-transition error.
pub open spec fn target_label(to: FlightMode) -> Seq<char> {
    match to {
        FlightMode::ReturnToHome => "ReturnHome"@,
        _ => flight_mode_text(to),
    }
}

/// The error that reports a refused change from mode `from` into mode `to`.
pub open spec fn transition_error(from: FlightMode, to: FlightMode) -> AerisErrorView {
    AerisErrorView::InvalidFlightModeTransition { from: flight_mode_text(from), to: target_label(to) }
}

/// Outcome of commanding the drone into mode `to`: the change is made when the
/// flight-mode machine allows it, and otherwise refused with nothing changed.
pub open spec fn commanded<P, A, T, C>(
    pre: DroneView<P, A, T, C>,
    post: DroneView<P, A, T, C>,
    result: Result<(), AerisError>,
    to: FlightMode,
) -> bool {
    if can_enter(to, pre.flight_mode) {
        result is Ok && post == pre.with_mode(to)
    } else {
        post == pre && match result {
            Ok(_) => false,
            Err(e) => e@ == transition_error(pre.flight_mode, to),
        }
    }
}

/// The mode change that starting a step of a task of kind `kind` asks for, if
/// any. `returning_home` tells whether the target of a `FlyTo` task is the home
/// position.
pub open spec fn step_start_target(mode: FlightMode, kind: TaskKind, returning_home: bool) -> Option<
    FlightMode,
> {
    match kind {
        TaskKind::Takeoff => if mode == FlightMode::Armed {
            Some(FlightMode::Takeoff)
        } else {
            None
        },
        TaskKind::FlyTo => if returning_home {
            if mode != FlightMode::ReturnToHome {
                Some(FlightMode::ReturnToHome)
            } else {
                None
            }
        } else if mode != FlightMode::Mission {
            Some(FlightMode::Mission)
        } else {
            None
        },
        TaskKind::ReturnHome => Some(FlightMode::ReturnToHome),
        TaskKind::Land => if mode == FlightMode::Hold || mode == FlightMode::ReturnToHome {
            Some(FlightMode::Landing)
        } else {
            None
        },
        TaskKind::Hold => None,
    }
}

/// Outcome of starting a step of a task of kind `kind` on drone `pre`: the
/// mode change that `step_start_target` asks for is commanded (a return-home
/// task that goes through is then done); when none is asked for, nothing
/// changes.
pub open spec fn step_started<P, A, T, C>(
    pre: DroneView<P, A, T, C>,
    post: DroneView<P, A, T, C>,
    result: Result<(), AerisError>,
    kind: TaskKind,
    returning_home: bool,
) -> bool {
    match step_start_target(pre.flight_mode, kind, returning_home) {
        None => result is Ok && post == pre,
        Some(to) => if kind == TaskKind::ReturnHome && can_enter(to, pre.flight_mode) {
            result is Ok && post == pre.with_mode(to).with_task(None)
        } else {
            commanded(pre, post, result, to)
        },
    }
}

/// Outcome of finishing a step of a task of kind `kind` on drone `pre`, given
/// whether the drone `reached` the task's target: a finished takeoff or
/// fly-to task is dropped and the drone commanded to hold (not after flying
/// home), a finished landing leaves the drone idle without a task, and
/// nothing happens otherwise.
pub open spec fn step_finished<P, A, T, C>(
    pre: DroneView<P, A, T, C>,
    post: DroneView<P, A, T, C>,
    result: Result<(), AerisError>,
    kind: TaskKind,
    returning_home: bool,
    reached: bool,
) -> bool {
    if !reached || kind == TaskKind::Hold || kind == TaskKind::ReturnHome {
        result is Ok && post == pre
    } else if kind == TaskKind::Land {
        result is Ok && post == pre.with_mode(FlightMode::Idle).with_task(None)
    } else if kind == TaskKind::FlyTo && returning_home {
        result is Ok && post == pre.with_task(None)
    } else {
        commanded(pre.with_task(None), post, result, FlightMode::Hold)
    }
}

/// Outcome of arming drone `pre`: refused, with nothing changed, while the
/// link is not up; otherwise the command to enter `Armed`.
pub open spec fn armed<P, A, T, C>(
    pre: DroneView<P, A, T, C>,
    post: DroneView<P, A, T, C>,
    result: Result<(), AerisError>,
) -> bool {
    if pre.connection_status != ConnectionStatus::Connected {
        &&& post == pre
        &&& result matches Err(e) && e@ == (AerisErrorView::UnexeptbleState {
            action: "arm"@,
            state: connection_status_text(pre.connection_status),
        })
    } else {
        commanded(pre, post, result, FlightMode::Armed)
    }
}

impl<P: Copy, A: Copy, T, C> Drone<P, A, T, C> {
    /// A new drone at its home position, disconnected, idle and without a task.
    pub fn new(name: String, home_position: P, altitude: A, speed: A, battery_charge: A, config: C) -> (drone: Self)
        ensures
            drone@.name == name@,
            drone@.coordinates == home_position,
            drone@.home_position == home_position,
            drone@.flight_start_position == home_position,
            drone@.altitude == altitude,
            drone@.flight_start_altitude == altitude,
            drone@.speed == speed,
            drone@.battery_charge == battery_charge,
            drone@.connection_status == ConnectionStatus::Disconnected,
            drone@.flight_mode == FlightMode::Idle,
            drone@.config == config,
            drone@.current_task is None,
            (drone@.id >> 76u128) & 0xfu128 == 4,
            (drone@.id >> 62u128) & 0x3u128 == 2,
    {
        Drone {
            id: new_drone_id(),
            name,
            coordinates: home_position,
            home_position,
            flight_start_position: home_position,
            altitude,
            flight_start_altitude: altitude,
            speed,
            battery_charge,
            connection_status: ConnectionStatus::Disconnected,
            flight_mode: FlightMode::Idle,
            config,
            current_task: None,
        }
    }

    pub fn id(&self) -> (id: u128)
        ensures
            id == self@.id,
    {
        self.id
    }

    pub fn name(&self) -> (name: &str)
        ensures
            name@ == self@.name,
    {
        self.name.as_str()
    }

    pub fn altitude(&self) -> (altitude: A)
        ensures
            altitude == self@.altitude,
    {
        self.altitude
    }

    pub fn flight_start_altitude(&self) -> (altitude: A)
        ensures
            altitude == self@.flight_start_altitude,
    {
        self.flight_start_altitude
    }

    pub fn speed(&self) -> (speed: A)
        ensures
            speed == self@.speed,
    {
        self.speed
    }

    pub fn battery_charge(&self) -> (charge: A)
        ensures
            charge == self@.battery_charge,
    {
        self.battery_charge
    }

    pub fn coordinates(&self) -> (position: &P)
        ensures
            *position == self@.coordinates,
    {
        &self.coordinates
    }

    pub fn home_position(&self) -> (position: &P)
        ensures
            *position == self@.home_position,
    {
        &self.home_position
    }

    pub fn flight_start_position(&self) -> (position: &P)
        ensures
            *position == self@.flight_start_position,
    {
        &self.flight_start_position
    }

    pub fn flight_mode(&self) -> (mode: FlightMode)
        ensures
            mode == self@.flight_mode,
    {
        self.flight_mode
    }

    pub fn connection_status(&self) -> (status: ConnectionStatus)
        ensures
            status == self@.connection_status,
    {
        self.connection_status
    }

    pub fn config(&self) -> (config: &C)
        ensures
            *config == self@.config,
    {
        &self.config
    }

    pub fn current_task(&self) -> (task: Option<&T>)
        ensures
            task is Some <==> self@.current_task is Some,
            task is Some ==> *task.unwrap() == self@.current_task.unwrap(),
    {
        self.current_task.as_ref()
    }

    /// Brings the link up. A drone that is already connecting cannot be asked
    /// again; one that is connected stays connected.
    pub fn connect(&mut self) -> (result: Result<(), AerisError>)
        ensures
            old(self)@.connection_status == ConnectionStatus::Connecting ==> {
                &&& final(self)@ == old(self)@
                &&& result matches Err(e) && e@ == (AerisErrorView::UnexeptbleState {
                    action: "connect"@,
                    state: "Connecting"@,
                })
            },
            old(self)@.connection_status != ConnectionStatus::Connecting ==> {
                &&& result is Ok
                &&& final(self)@ == old(self)@.with_link(ConnectionStatus::Connected)
            },
    {
        match self.connection_status {
            ConnectionStatus::Connecting => Err(
                AerisError::UnexeptbleState {
                    action: String::from_str("connect"),
                    state: connection_status_name(self.connection_status),
                },
            ),
            ConnectionStatus::Connected => Ok(()),
            ConnectionStatus::Disconnected | ConnectionStatus::Lost => {
                self.connection_status = ConnectionStatus::Connected;
                Ok(())
            },
        }
    }

    /// Makes `new_task` the current task. Assigning a task also marks where
    /// and at what altitude the drone starts working on it.
    pub fn assign_task(&mut self, new_task: Option<T>)
        ensures
            new_task is Some ==> final(self)@ == (DroneView {
                flight_start_position: old(self)@.coordinates,
                flight_start_altitude: old(self)@.altitude,
                current_task: new_task,
                ..old(self)@
            }),
            new_task is None ==> final(self)@ == old(self)@.with_task(None),
    {
        if new_task.is_some() {
            self.flight_start_position = self.coordinates;
            self.flight_start_altitude = self.altitude;
        }
        self.current_task = new_task;
    }

    /// Commands the drone into mode `to`, as far as the flight-mode machine allows.
    fn command(&mut self, to: FlightMode) -> (result: Result<(), AerisError>)
        ensures
            commanded(old(self)@, final(self)@, result, to),
    {
        let allowed = match to {
            FlightMode::Armed => self.flight_mode == FlightMode::Idle,
            FlightMode::Takeoff => self.flight_mode == FlightMode::Armed,
            FlightMode::Hold => self.flight_mode == FlightMode::Takeoff || self.flight_mode
                == FlightMode::Mission,
            FlightMode::Mission => self.flight_mode == FlightMode::Takeoff || self.flight_mode
                == FlightMode::Hold,
            FlightMode::ReturnToHome => self.flight_mode == FlightMode::Hold || self.flight_mode
                == FlightMode::Mission,
            FlightMode::Landing => self.flight_mode == FlightMode::ReturnToHome
                || self.flight_mode == FlightMode::Hold,
            FlightMode::Emergency => true,
            FlightMode::Idle => false,
        };
        if !allowed {
            let label = match to {
                FlightMode::ReturnToHome => String::from_str("ReturnHome"),
                _ => flight_mode_name(to),
            };
            return Err(
                AerisError::InvalidFlightModeTransition {
                    from: flight_mode_name(self.flight_mode),
                    to: label,
                },
            );
        }
        self.flight_mode = to;
        Ok(())
    }

    /// Arms a connected, idle drone.
    pub fn arm(&mut self) -> (result: Result<(), AerisError>)
        ensures
            armed(old(self)@, final(self)@, result),
    {
        if self.connection_status != ConnectionStatus::Connected {
            return Err(
                AerisError::UnexeptbleState {
                    action: String::from_str("arm"),
                    state: connection_status_name(self.connection_status),
                },
            );
        }
        self.command(FlightMode::Armed)
    }

    /// Takes off from armed.
    pub fn takeoff(&mut self) -> (result: Result<(), AerisError>)
        ensures
            commanded(old(self)@, final(self)@, result, FlightMode::Takeoff),
    {
        self.command(FlightMode::Takeoff)
    }

    /// Holds position after a takeoff or during a mission.
    pub fn hold(&mut self) -> (result: Result<(), AerisError>)
        ensures
            commanded(old(self)@, final(self)@, result, FlightMode::Hold),
    {
        self.command(FlightMode::Hold)
    }

    /// Starts flying a mission leg after a takeoff or from a hold.
    pub fn start_mission(&mut self) -> (result: Result<(), AerisError>)
        ensures
            commanded(old(self)@, final(self)@, result, FlightMode::Mission),
    {
        self.command(FlightMode::Mission)
    }

    /// Heads home from a hold or during a mission.
    pub fn return_home(&mut self) -> (result: Result<(), AerisError>)
        ensures
            commanded(old(self)@, final(self)@, result, FlightMode::ReturnToHome),
    {
        self.command(FlightMode::ReturnToHome)
    }

    /// Starts landing from a hold or on the way home.
    pub fn land(&mut self) -> (result: Result<(), AerisError>)
        ensures
            commanded(old(self)@, final(self)@, result, FlightMode::Landing),
    {
        self.command(FlightMode::Landing)
    }

    /// Switches to emergency mode, from any mode.
    pub fn emergency(&mut self) -> (result: Result<(), AerisError>)
        ensures
            result is Ok,
            final(self)@ == old(self)@.with_mode(FlightMode::Emergency),
    {
        self.command(FlightMode::Emergency)
    }

    /// Moves the drone to `position`.
    pub fn set_coordinates(&mut self, position: P)
        ensures
            final(self)@ == (DroneView { coordinates: position, ..old(self)@ }),
    {
        self.coordinates = position;
    }

    /// Sets the altitude.
    pub fn set_altitude(&mut self, altitude: A)
        ensures
            final(self)@ == (DroneView { altitude, ..old(self)@ }),
    {
        self.altitude = altitude;
    }

    /// Sets the ground speed.
    pub fn set_speed(&mut self, speed: A)
        ensures
            final(self)@ == (DroneView { speed, ..old(self)@ }),
    {
        self.speed = speed;
    }

    /// Sets the remaining battery charge.
    pub fn set_battery_charge(&mut self, charge: A)
        ensures
            final(self)@ == (DroneView { battery_charge: charge, ..old(self)@ }),
    {
        self.battery_charge = charge;
    }

    /// A drone whose battery is empty drops its task and loses its link.
    pub fn lose_power(&mut self)
        ensures
            final(self)@ == old(self)@.with_task(None).with_link(ConnectionStatus::Lost),
    {
        self.current_task = None;
        self.connection_status = ConnectionStatus::Lost;
    }

    /// The mode changes that working on a task of kind `kind` calls for before
    /// the drone moves in this step: a takeoff task takes an armed drone off,
    /// a fly-to task starts a mission leg (or, when its target is the home
    /// position, the way home), a return-home task sends the drone home and is
    /// then done, and a landing task starts the landing from a hold or on the
    /// way home.
    pub fn begin_task_step(&mut self, kind: TaskKind, returning_home: bool) -> (result: Result<(), AerisError>)
        ensures
            step_started(old(self)@, final(self)@, result, kind, returning_home),
    {
        match kind {
            TaskKind::Takeoff => {
                if self.flight_mode == FlightMode::Armed {
                    self.takeoff()
                } else {
                    Ok(())
                }
            },
            TaskKind::FlyTo => {
                if returning_home {
                    if self.flight_mode != FlightMode::ReturnToHome {
                        self.return_home()
                    } else {
                        Ok(())
                    }
                } else if self.flight_mode != FlightMode::Mission {
                    self.start_mission()
                } else {
                    Ok(())
                }
            },
            TaskKind::ReturnHome => {
                self.return_home()?;
                self.current_task = None;
                Ok(())
            },
            TaskKind::Land => {
                if self.flight_mode == FlightMode::Hold || self.flight_mode
                    == FlightMode::ReturnToHome {
                    self.land()
                } else {
                    Ok(())
                }
            },
            TaskKind::Hold => Ok(()),
        }
    }

    /// What happens after the drone moved in this step, given whether it
    /// `reached` the target of its task: a finished takeoff or fly-to task is
    /// dropped and the drone holds (except after flying to its home position),
    /// and a finished landing leaves the drone idle on the ground without a task.
    pub fn finish_task_step(&mut self, kind: TaskKind, returning_home: bool, reached: bool) -> (result:
        Result<(), AerisError>)
        ensures
            step_finished(old(self)@, final(self)@, result, kind, returning_home, reached),
    {
        if !reached {
            return Ok(());
        }
        match kind {
            TaskKind::Takeoff => {
                self.current_task = None;
                self.hold()
            },
            TaskKind::FlyTo => {
                self.current_task = None;
                if !returning_home {
                    self.hold()
                } else {
                    Ok(())
                }
            },
            TaskKind::Land => {
                self.flight_mode = FlightMode::Idle;
                self.current_task = None;
                Ok(())
            },
            TaskKind::Hold | TaskKind::ReturnHome => Ok(()),
        }
    }
}

/// Law: a refused command changes nothing about the drone.
pub proof fn law_refused_command_changes_nothing<P, A, T, C>(
    pre: DroneView<P, A, T, C>,
    post: DroneView<P, A, T, C>,
    result: Result<(), AerisError>,
    to: FlightMode,
)
    requires
        commanded(pre, post, result, to),
        result is Err,
    ensures
        post == pre,
{
}

/// Law: a command that goes through changes the flight mode and nothing else.
pub proof fn law_accepted_command_changes_only_the_mode<P, A, T, C>(
    pre: DroneView<P, A, T, C>,
    post: DroneView<P, A, T, C>,
    result: Result<(), AerisError>,
    to: FlightMode,
)
    requires
        commanded(pre, post, result, to),
        result is Ok,
    ensures
        post == pre.with_mode(to),
        can_enter(to, pre.flight_mode),
{
}

/// Law: the normal flight goes idle, armed, takeoff, hold, mission, home,
/// landing, and each of these steps is allowed; an emergency can be declared
/// in every mode, and no command makes a drone idle.
pub proof fn law_flight_mode_machine(from: FlightMode)
    ensures
        can_enter(FlightMode::Armed, FlightMode::Idle),
        can_enter(FlightMode::Takeoff, FlightMode::Armed),
        can_enter(FlightMode::Hold, FlightMode::Takeoff),
        can_enter(FlightMode::Mission, FlightMode::Hold),
        can_enter(FlightMode::ReturnToHome, FlightMode::Mission),
        can_enter(FlightMode::Landing, FlightMode::ReturnToHome),
        can_enter(FlightMode::Emergency, from),
        !can_enter(FlightMode::Idle, from),
{
}

/// Law: a drone on the ground leaves it only by being armed and then taking
/// off: an idle drone can only be armed (or declared in emergency), and an
/// armed one can only take off (or be declared in emergency).
pub proof fn law_ground_exits(to: FlightMode)
    ensures
        can_enter(to, FlightMode::Idle) ==> to == FlightMode::Armed || to == FlightMode::Emergency,
        can_enter(to, FlightMode::Armed) ==> to == FlightMode::Takeoff || to == FlightMode::Emergency,
{
}

/// Law: bringing the link up is idempotent: a second successful connect
/// changes nothing.
pub proof fn law_connect_is_idempotent<P, A, T, C>(pre: DroneView<P, A, T, C>)
    ensures
        pre.with_link(ConnectionStatus::Connected).with_link(ConnectionStatus::Connected) == pre.with_link(
            ConnectionStatus::Connected,
        ),
        pre.connection_status == ConnectionStatus::Connected ==> pre.with_link(ConnectionStatus::Connected)
            == pre,
{
}

/// Law: the whole flight-mode machine, mode by mode. An emergency can be
/// declared from any mode. Otherwise an idle drone can only be armed; an
/// armed one can only take off; after a takeoff the drone may hold or start a
/// mission; from a hold it may start a mission, head home or land; during a
/// mission it may hold or head home; on the way home it may only land. No
/// command makes a drone idle, and no other change is allowed.
pub proof fn law_flight_mode_table(to: FlightMode, from: FlightMode)
    ensures
        can_enter(to, from) <==> {
            ||| to == FlightMode::Emergency
            ||| from == FlightMode::Idle && to == FlightMode::Armed
            ||| from == FlightMode::Armed && to == FlightMode::Takeoff
            ||| from == FlightMode::Takeoff && (to == FlightMode::Hold || to == FlightMode::Mission)
            ||| from == FlightMode::Hold && (to == FlightMode::Mission || to == FlightMode::ReturnToHome
                || to == FlightMode::Landing)
            ||| from == FlightMode::Mission && (to == FlightMode::Hold || to == FlightMode::ReturnToHome)
            ||| from == FlightMode::ReturnToHome && to == FlightMode::Landing
        },
{
}

/// Law: landing is accepted exactly from a hold or on the way home, and an
/// accepted landing leaves the drone in `Landing`; a refused one names the
/// mode it was refused from.
pub proof fn law_landing_from_hold_or_home<P, A, T, C>(
    pre: DroneView<P, A, T, C>,
    post: DroneView<P, A, T, C>,
    result: Result<(), AerisError>,
)
    requires
        commanded(pre, post, result, FlightMode::Landing),
    ensures
        result is Ok <==> (pre.flight_mode == FlightMode::Hold || pre.flight_mode == FlightMode::ReturnToHome),
        result is Ok ==> post.flight_mode == FlightMode::Landing,
        result is Err ==> post.flight_mode == pre.flight_mode,
{
}

/// Law: what starting a step of each kind of task does to the flight mode.
/// A landing task starts the landing from a hold or on the way home and
/// leaves any other mode alone; a takeoff task takes an armed drone off; a
/// fly-to task away from home starts a mission leg after a takeoff or from a
/// hold, and one to the home position heads home from a hold or a mission; a
/// return-home task from a hold or a mission heads home and is done; a hold
/// task changes nothing.
pub proof fn law_task_step_modes<P, A, T, C>(
    pre: DroneView<P, A, T, C>,
    post: DroneView<P, A, T, C>,
    result: Result<(), AerisError>,
    kind: TaskKind,
    returning_home: bool,
)
    requires
        step_started(pre, post, result, kind, returning_home),
    ensures
        kind == TaskKind::Land && (pre.flight_mode == FlightMode::Hold || pre.flight_mode
            == FlightMode::ReturnToHome) ==> result is Ok && post == pre.with_mode(FlightMode::Landing),
        kind == TaskKind::Land && pre.flight_mode != FlightMode::Hold && pre.flight_mode
            != FlightMode::ReturnToHome ==> result is Ok && post == pre,
        kind == TaskKind::Takeoff && pre.flight_mode == FlightMode::Armed ==> result is Ok && post
            == pre.with_mode(FlightMode::Takeoff),
        kind == TaskKind::Takeoff && pre.flight_mode != FlightMode::Armed ==> result is Ok && post == pre,
        kind == TaskKind::FlyTo && !returning_home && (pre.flight_mode == FlightMode::Takeoff
            || pre.flight_mode == FlightMode::Hold) ==> result is Ok && post == pre.with_mode(
            FlightMode::Mission,
        ),
        kind == TaskKind::FlyTo && !returning_home && pre.flight_mode == FlightMode::Mission ==> result is Ok
            && post == pre,
        kind == TaskKind::FlyTo && returning_home && (pre.flight_mode == FlightMode::Hold
            || pre.flight_mode == FlightMode::Mission) ==> result is Ok && post == pre.with_mode(
            FlightMode::ReturnToHome,
        ),
        kind == TaskKind::FlyTo && returning_home && pre.flight_mode == FlightMode::ReturnToHome
            ==> result is Ok && post == pre,
        kind == TaskKind::ReturnHome && (pre.flight_mode == FlightMode::Hold || pre.flight_mode
            == FlightMode::Mission) ==> result is Ok && post == pre.with_mode(
            FlightMode::ReturnToHome,
        ).with_task(None),
        kind == TaskKind::Hold ==> result is Ok && post == pre,
        result is Err ==> post == pre,
{
}

/// Law: arming goes through exactly for a connected, idle drone, and then
/// only the mode changes, to `Armed`; otherwise nothing changes.
pub proof fn law_arming_needs_link_and_ground<P, A, T, C>(
    pre: DroneView<P, A, T, C>,
    post: DroneView<P, A, T, C>,
    result: Result<(), AerisError>,
)
    requires
        armed(pre, post, result),
    ensures
        result is Ok <==> (pre.connection_status == ConnectionStatus::Connected && pre.flight_mode
            == FlightMode::Idle),
        result is Ok ==> post == pre.with_mode(FlightMode::Armed),
        result is Err ==> post == pre,
        pre.connection_status != ConnectionStatus::Connected ==> (result matches Err(e) && e@ is UnexeptbleState),
{
}

/// Law: what finishing a step does. Until the target is reached nothing
/// changes. A landing that reaches the ground leaves the drone idle without a
/// task. A takeoff that reaches its altitude drops the task and holds; so
/// does a fly-to task that reaches its target away from home, from a mission
/// leg. Reaching home drops the task and keeps the mode. Hold and return-home
/// tasks finish nothing here.
pub proof fn law_task_step_endings<P, A, T, C>(
    pre: DroneView<P, A, T, C>,
    post: DroneView<P, A, T, C>,
    result: Result<(), AerisError>,
    kind: TaskKind,
    returning_home: bool,
    reached: bool,
)
    requires
        step_finished(pre, post, result, kind, returning_home, reached),
    ensures
        !reached ==> result is Ok && post == pre,
        reached && kind == TaskKind::Land ==> result is Ok && post.flight_mode == FlightMode::Idle
            && post.current_task is None && post == pre.with_mode(FlightMode::Idle).with_task(None),
        reached && kind == TaskKind::Takeoff && pre.flight_mode == FlightMode::Takeoff ==> result is Ok
            && post == pre.with_task(None).with_mode(FlightMode::Hold),
        reached && kind == TaskKind::FlyTo && !returning_home && pre.flight_mode == FlightMode::Mission
            ==> result is Ok && post == pre.with_task(None).with_mode(FlightMode::Hold),
        reached && kind == TaskKind::FlyTo && returning_home ==> result is Ok && post == pre.with_task(None),
        kind == TaskKind::Hold || kind == TaskKind::ReturnHome ==> result is Ok && post == pre,
        post.connection_status == pre.connection_status,
{
}

} // verus!

