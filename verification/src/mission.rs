use vstd::prelude::*;

use crate::drone::{Drone, DroneView};
use crate::errors::{AerisError, AerisErrorView};
use crate::state::{ConnectionStatus, FlightMode};

verus! {

/// A drone together with the list of tasks it works through, one after the other.
pub struct MissionDrone<P, A, T, C> {
    drone: Drone<P, A, T, C>,
    tasks: Vec<T>,
    current_task_index: usize,
    tick_count: u64,
    failure_tick: Option<u64>,
}

/// The whole state of a `MissionDrone`, as a mathematical value.
pub ghost struct MissionDroneView<P, A, T, C> {
    pub drone: DroneView<P, A, T, C>,
    pub tasks: Seq<T>,
    pub current_task_index: usize,
    pub tick_count: u64,
    pub failure_tick: Option<u64>,
}

impl<P, A, T, C> View for MissionDrone<P, A, T, C> {
    type V = MissionDroneView<P, A, T, C>;

    closed spec fn view(&self) -> MissionDroneView<P, A, T, C> {
        MissionDroneView {
            drone: self.drone@,
            tasks: self.tasks@,
            current_task_index: self.current_task_index,
            tick_count: self.tick_count,
            failure_tick: self.failure_tick,
        }
    }
}

/// The views of a list of mission drones.
pub open spec fn drone_views<P, A, T, C>(drones: Seq<MissionDrone<P, A, T, C>>) -> Seq<MissionDroneView<P, A, T, C>> {
    drones.map_values(|d: MissionDrone<P, A, T, C>| d@)
}

impl<P, A, T, C> MissionDroneView<P, A, T, C> {
    /// The position in the task list stays on a task (or at 0 for an empty list).
    pub open spec fn index_in_range(self) -> bool {
        self.current_task_index < self.tasks.len() || (self.tasks.len() == 0
            && self.current_task_index == 0)
    }

    /// The drone has worked through its last task and stands idle.
    pub open spec fn finished(self) -> bool {
        &&& self.tasks.len() > 0
        &&& self.current_task_index + 1 == self.tasks.len()
        &&& self.drone.current_task is None
        &&& self.drone.flight_mode == FlightMode::Idle
    }

    /// What the sequencer does once the drone has done its part of a tick:
    /// when the drone dropped its task and more tasks follow, it moves on to
    /// the next one.
    pub open spec fn moves_on(self) -> bool {
        &&& self.drone.current_task is None
        &&& !self.finished()
        &&& self.current_task_index + 1 < self.tasks.len()
    }
}

/// What ending a tick does to a mission drone `pre`: when the sequencer moves
/// on (see `moves_on`), the next task is handed to the drone, which starts it
/// where it stands; otherwise nothing changes.
pub open spec fn sequenced<P, A, T, C>(pre: MissionDroneView<P, A, T, C>, post: MissionDroneView<P, A, T, C>) -> bool {
    if pre.moves_on() {
        let next = (pre.current_task_index + 1) as usize;
        post == (MissionDroneView {
            drone: DroneView {
                flight_start_position: pre.drone.coordinates,
                flight_start_altitude: pre.drone.altitude,
                current_task: Some(pre.tasks[next as int]),
                ..pre.drone
            },
            current_task_index: next,
            ..pre
        })
    } else {
        post == pre
    }
}

/// Law: ending a tick never changes the task list and moves at most one task
/// on, staying within the list. It moves on exactly when the drone has dropped
/// its task, has not finished, and a next task exists; the drone then holds
/// exactly that next task. A finished drone, or one still working on its
/// task, is left as it was.
pub proof fn law_sequencer_moves_one_task_at_a_time<P, A, T, C>(
    pre: MissionDroneView<P, A, T, C>,
    post: MissionDroneView<P, A, T, C>,
)
    requires
        sequenced(pre, post),
        pre.index_in_range(),
        pre.tasks.len() <= usize::MAX,
    ensures
        post.tasks == pre.tasks,
        post.index_in_range(),
        post.current_task_index == pre.current_task_index || post.current_task_index == pre.current_task_index
            + 1,
        post.current_task_index == pre.current_task_index + 1 <==> (pre.drone.current_task is None
            && !pre.finished() && pre.current_task_index + 1 < pre.tasks.len()),
        post.current_task_index == pre.current_task_index + 1 ==> post.drone.current_task == Some(
            pre.tasks[pre.current_task_index + 1],
        ) && post.drone.flight_mode == pre.drone.flight_mode,
        pre.finished() || pre.drone.current_task is Some ==> post == pre,
        post.tick_count == pre.tick_count && post.failure_tick == pre.failure_tick,
{
}

impl<P: Copy, A: Copy, T: Copy, C> MissionDrone<P, A, T, C> {
    /// Puts `drone` on its task list and hands it the first task.
    pub fn new(drone: Drone<P, A, T, C>, tasks: Vec<T>) -> (mission_drone: Self)
        ensures
            mission_drone@.tasks == tasks@,
            mission_drone@.current_task_index == 0,
            mission_drone@.tick_count == 0,
            mission_drone@.failure_tick is None,
            mission_drone@.index_in_range(),
            tasks@.len() == 0 ==> mission_drone@.drone == drone@.with_task(None),
            tasks@.len() > 0 ==> {
                let given = mission_drone@.drone.current_task;
                &&& given == Some(tasks@[0])
                &&& mission_drone@.drone == (DroneView {
                    flight_start_position: drone@.coordinates,
                    flight_start_altitude: drone@.altitude,
                    current_task: given,
                    ..drone@
                })
            },
    {
        let mut drone = drone;
        let first = if tasks.len() > 0 {
            Some(tasks[0])
        } else {
            None
        };
        drone.assign_task(first);
        MissionDrone { drone, tasks, current_task_index: 0, tick_count: 0, failure_tick: None }
    }

    pub fn drone(&self) -> (drone: &Drone<P, A, T, C>)
        ensures
            drone@ == self@.drone,
    {
        &self.drone
    }

    /// The drone itself, for the flight physics of a tick.
    pub fn drone_mut(&mut self) -> (drone: &mut Drone<P, A, T, C>)
        ensures
            drone@ == old(self)@.drone,
            final(self)@ == (MissionDroneView { drone: final(drone)@, ..old(self)@ }),
    {
        &mut self.drone
    }

    pub fn tasks(&self) -> (tasks: &[T])
        ensures
            tasks@ == self@.tasks,
    {
        self.tasks.as_slice()
    }

    pub fn current_task_index(&self) -> (index: usize)
        ensures
            index == self@.current_task_index,
    {
        self.current_task_index
    }

    /// How many ticks the drone has been given.
    pub fn tick_count(&self) -> (count: u64)
        ensures
            count == self@.tick_count,
    {
        self.tick_count
    }

    /// Arranges for the drone to fail on its `ticks`-th tick.
    pub fn fail_after(&mut self, ticks: u64)
        ensures
            final(self)@ == (MissionDroneView { failure_tick: Some(ticks), ..old(self)@ }),
    {
        self.failure_tick = Some(ticks);
    }

    /// Starts a tick: counts it and, when it is the tick at which the drone
    /// was set to fail, reports the failure.
    pub fn begin_tick(&mut self) -> (result: Result<(), AerisError>)
        requires
            old(self)@.tick_count < u64::MAX,
        ensures
            final(self)@ == (MissionDroneView { tick_count: (old(self)@.tick_count + 1) as u64, ..old(self)@ }),
            old(self)@.failure_tick == Some((old(self)@.tick_count + 1) as u64) ==> (result matches Err(
                e,
            ) && e@ == AerisErrorView::SimulatedDroneFailure(old(self)@.drone.name)),
            old(self)@.failure_tick != Some((old(self)@.tick_count + 1) as u64) ==> result is Ok,
    {
        self.tick_count = self.tick_count + 1;
        if self.failure_tick == Some(self.tick_count) {
            return Err(AerisError::SimulatedDroneFailure(String::from_str(self.drone.name())));
        }
        Ok(())
    }

    /// Ends a tick after the drone has done its part: a drone that dropped its
    /// task and is not finished moves on to the next task, if there is one.
    pub fn complete_tick(&mut self)
        ensures
            final(self)@.current_task_index >= old(self)@.current_task_index,
            old(self)@.index_in_range() ==> final(self)@.index_in_range(),
            old(self)@.finished() ==> final(self)@ == old(self)@,
            sequenced(old(self)@, final(self)@),
    {
        if self.drone.current_task().is_some() || self.is_finished() {
            return;
        }
        if self.current_task_index < self.tasks.len() && self.tasks.len() - self.current_task_index > 1 {
            let next = self.current_task_index + 1;
            let task = Some(self.tasks[next]);
            self.drone.assign_task(task);
            self.current_task_index = next;
        }
    }

    /// The drone has worked through its last task and stands idle.
    pub fn is_finished(&self) -> (finished: bool)
        ensures
            finished == self@.finished(),
    {
        !self.tasks.is_empty() && self.current_task_index < self.tasks.len() && self.tasks.len()
            - self.current_task_index == 1
            && self.drone.current_task().is_none() && self.drone.flight_mode() == FlightMode::Idle
    }
}

/// A named group of mission drones that fly together.
pub struct Mission<P, A, T, C> {
    name: String,
    drones: Vec<MissionDrone<P, A, T, C>>,
}

/// The whole state of a `Mission`, as a mathematical value.
pub ghost struct MissionView<P, A, T, C> {
    pub name: Seq<char>,
    pub drones: Seq<MissionDroneView<P, A, T, C>>,
}

impl<P, A, T, C> View for Mission<P, A, T, C> {
    type V = MissionView<P, A, T, C>;

    closed spec fn view(&self) -> MissionView<P, A, T, C> {
        MissionView { name: self.name@, drones: self.drones@.map_values(|d: MissionDrone<P, A, T, C>| d@) }
    }
}

/// What starting a mission does to one of its drones: the link comes up and an
/// idle drone is armed.
pub open spec fn started<P, A, T, C>(d: MissionDroneView<P, A, T, C>) -> MissionDroneView<P, A, T, C> {
    let linked = d.drone.with_link(ConnectionStatus::Connected);
    MissionDroneView {
        drone: if d.drone.flight_mode == FlightMode::Idle {
            linked.with_mode(FlightMode::Armed)
        } else {
            linked
        },
        ..d
    }
}

/// Law: starting a mission twice has the same effect as starting it once.
pub proof fn law_start_is_idempotent<P, A, T, C>(d: MissionDroneView<P, A, T, C>)
    ensures
        started(started(d)) == started(d),
{
}

impl<P: Copy, A: Copy, T: Copy, C> Mission<P, A, T, C> {
    pub fn new(name: String, drones: Vec<MissionDrone<P, A, T, C>>) -> (mission: Self)
        ensures
            mission@.name == name@,
            mission@.drones == drones@.map_values(|d: MissionDrone<P, A, T, C>| d@),
    {
        Mission { name, drones }
    }

    pub fn name(&self) -> (name: &str)
        ensures
            name@ == self@.name,
    {
        self.name.as_str()
    }

    /// The mission's drones, in order.
    pub fn mission_drones(&self) -> (drones: &[MissionDrone<P, A, T, C>])
        ensures
            drones@.map_values(|d: MissionDrone<P, A, T, C>| d@) == self@.drones,
    {
        self.drones.as_slice()
    }

    /// Gives up the mission's drones, in order.
    pub fn into_drones(self) -> (drones: Vec<MissionDrone<P, A, T, C>>)
        ensures
            drones@.map_values(|d: MissionDrone<P, A, T, C>| d@) == self@.drones,
    {
        self.drones
    }

    /// Gets every drone ready to fly: brings its link up and arms it if it is
    /// idle. This succeeds unless a drone's link is still being set up, in
    /// which case the mission reports that drone's state.
    pub fn start(&mut self) -> (result: Result<(), AerisError>)
        ensures
            result is Ok <==> forall|i: int|
                0 <= i < old(self)@.drones.len() ==> #[trigger] old(self)@.drones[i].drone.connection_status
                    != ConnectionStatus::Connecting,
            result is Ok ==> final(self)@ == (MissionView {
                drones: old(self)@.drones.map_values(|d: MissionDroneView<P, A, T, C>| started(d)),
                ..old(self)@
            }),
            result matches Err(e) ==> e@ == (AerisErrorView::UnexeptbleState {
                action: "connect"@,
                state: "Connecting"@,
            }),
    {
        let ghost before = self@;
        let n = self.drones.len();
        let mut i: usize = 0;
        while i < n
            invariant
                n == self.drones@.len(),
                n == before.drones.len(),
                before == old(self)@,
                i <= n,
                self@.name == before.name,
                forall|j: int| 0 <= j < i ==> #[trigger] self@.drones[j] == started(before.drones[j]),
                forall|j: int| 0 <= j < i ==> #[trigger] before.drones[j].drone.connection_status
                    != ConnectionStatus::Connecting,
                forall|j: int| i <= j < n ==> #[trigger] self@.drones[j] == before.drones[j],
            decreases n - i,
        {
            let ghost pre = self.drones@;
            let ghost pre_view = self@.drones;
            assert(self@.drones[i as int] == before.drones[i as int]);
            assert(pre[i as int]@ == before.drones[i as int]);
            let mission_drone = &mut self.drones[i];
            assert(*mission_drone == pre[i as int]);
            let drone = mission_drone.drone_mut();
            assert(drone@ == before.drones[i as int].drone);
            match drone.connect() {
                Err(e) => {
                    assert(old(self)@.drones[i as int].drone.connection_status
                        == ConnectionStatus::Connecting);
                    return Err(e);
                },
                Ok(()) => {},
            }
            if drone.flight_mode() == FlightMode::Idle {
                let armed = drone.arm();
                assert(armed is Ok);
            }
            assert(self.drones@ =~= pre.update(i as int, self.drones@[i as int]));
            assert(self.drones@[i as int]@ == started(before.drones[i as int]));
            assert forall|j: int| 0 <= j < n implies #[trigger] self@.drones[j] == (if j <= i {
                started(before.drones[j])
            } else {
                before.drones[j]
            }) by {
                if j != i {
                    assert(self.drones@[j] == pre[j]);
                    assert(pre_view[j] == pre[j]@);
                }
            }
            i = i + 1;
        }
        assert(self@.drones =~= before.drones.map_values(|d: MissionDroneView<P, A, T, C>| started(d)));
        Ok(())
    }
}

/// All missions that are being simulated.
pub struct Simulation<P, A, T, C> {
    missions: Vec<Mission<P, A, T, C>>,
}

/// The whole state of a `Simulation`, as a mathematical value.
pub ghost struct SimulationView<P, A, T, C> {
    pub missions: Seq<MissionView<P, A, T, C>>,
}

impl<P, A, T, C> View for Simulation<P, A, T, C> {
    type V = SimulationView<P, A, T, C>;

    closed spec fn view(&self) -> SimulationView<P, A, T, C> {
        SimulationView { missions: self.missions@.map_values(|m: Mission<P, A, T, C>| m@) }
    }
}

/// The drones of all `missions`, mission after mission, each in its order.
pub open spec fn all_drones<P, A, T, C>(missions: Seq<MissionView<P, A, T, C>>) -> Seq<
    MissionDroneView<P, A, T, C>,
>
    decreases missions.len(),
{
    if missions.len() == 0 {
        Seq::empty()
    } else {
        missions[0].drones + all_drones(missions.drop_first())
    }
}

impl<P: Copy, A: Copy, T: Copy, C> Simulation<P, A, T, C> {
    /// A simulation without missions.
    pub fn new() -> (simulation: Self)
        ensures
            simulation@.missions.len() == 0,
    {
        Simulation { missions: Vec::new() }
    }

    pub fn add_mission(&mut self, mission: Mission<P, A, T, C>)
        ensures
            final(self)@.missions == old(self)@.missions.push(mission@),
    {
        self.missions.push(mission);
        assert(self@.missions =~= old(self)@.missions.push(mission@));
    }

    /// The missions, in the order they were added.
    pub fn missions(&self) -> (missions: &[Mission<P, A, T, C>])
        ensures
            missions@.map_values(|m: Mission<P, A, T, C>| m@) == self@.missions,
    {
        self.missions.as_slice()
    }

    /// Gives up the drones of all missions, mission after mission.
    pub fn into_mission_drones(self) -> (drones: Vec<MissionDrone<P, A, T, C>>)
        ensures
            drones@.map_values(|d: MissionDrone<P, A, T, C>| d@) == all_drones(self@.missions),
    {
        let ghost whole = self@.missions;
        let mut missions = self.missions;
        let mut drones: Vec<MissionDrone<P, A, T, C>> = Vec::new();
        assert(drones@.map_values(|d: MissionDrone<P, A, T, C>| d@) + all_drones(
            missions@.map_values(|m: Mission<P, A, T, C>| m@),
        ) =~= all_drones(whole));
        while missions.len() > 0
            invariant
                drones@.map_values(|d: MissionDrone<P, A, T, C>| d@) + all_drones(
                    missions@.map_values(|m: Mission<P, A, T, C>| m@),
                ) == all_drones(whole),
            decreases missions.len(),
        {
            let ghost before_missions = missions@.map_values(|m: Mission<P, A, T, C>| m@);
            let ghost before_drones = drones@.map_values(|d: MissionDrone<P, A, T, C>| d@);
            let mission = missions.remove(0);
            assert(missions@.map_values(|m: Mission<P, A, T, C>| m@) =~= before_missions.drop_first());
            assert(before_missions[0] == mission@);
            let mut more = mission.into_drones();
            let ghost added = more@.map_values(|d: MissionDrone<P, A, T, C>| d@);
            drones.append(&mut more);
            assert(drones@.map_values(|d: MissionDrone<P, A, T, C>| d@) =~= before_drones + added);
            assert(before_drones + added + all_drones(before_missions.drop_first()) =~= before_drones
                + (added + all_drones(before_missions.drop_first())));
        }
        assert(all_drones(missions@.map_values(|m: Mission<P, A, T, C>| m@)) =~= Seq::empty());
        assert(drones@.map_values(|d: MissionDrone<P, A, T, C>| d@) + Seq::empty() =~= drones@.map_values(
            |d: MissionDrone<P, A, T, C>| d@,
        ));
        drones
    }
}

} // verus!
