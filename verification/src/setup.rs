use vstd::prelude::*;

use crate::drone::Drone;
use crate::errors::{AerisError, AerisErrorView};
use crate::mission::{drone_views, Mission, MissionDrone, MissionDroneView, Simulation};
use crate::state::{ConnectionStatus, FlightMode};
use crate::validator::{
    catalog_entry, first_match, lemma_first_match_in_range, lemma_first_match_stays,
};

verus! {

/// A group of a mission: drones of one type, with their names, the home
/// position they start from and the task list they all fly.
pub struct DroneGroup<P, T> {
    pub drone_type: String,
    pub drone_names: Vec<String>,
    pub home_position: P,
    pub tasks: Vec<T>,
}

/// A drone type of the catalog: its name, the charge of a full battery, and
/// its airframe configuration.
pub struct CatalogEntry<A, C> {
    pub name: String,
    pub battery_capacity: A,
    pub config: C,
}

/// The tick on which the drone chosen for failure injection fails.
pub const INJECTED_FAILURE_TICK: u64 = 10;

/// The type names of a catalog, in order.
pub open spec fn entry_names<A, C>(catalog: Seq<CatalogEntry<A, C>>) -> Seq<Seq<char>> {
    catalog.map_values(|e: CatalogEntry<A, C>| e.name@)
}

/// The catalog entry that group `group` flies with, if the catalog has its type.
pub open spec fn group_entry<P, T, A, C>(group: DroneGroup<P, T>, catalog: Seq<CatalogEntry<A, C>>) -> Option<nat> {
    catalog_entry(entry_names(catalog), group.drone_type@)
}

/// The drone type of the first of the first `n` groups whose type the catalog lacks.
pub open spec fn first_unknown_type<P, T, A, C>(
    groups: Seq<DroneGroup<P, T>>,
    catalog: Seq<CatalogEntry<A, C>>,
    n: nat,
) -> Option<Seq<char>>
    decreases n,
{
    if n == 0 {
        None
    } else {
        match first_unknown_type(groups, catalog, (n - 1) as nat) {
            Some(name) => Some(name),
            None => if group_entry(groups[n - 1], catalog) is None {
                Some(groups[n - 1].drone_type@)
            } else {
                None
            },
        }
    }
}

/// Where the drones of group `g` begin in the mission's drone list: the
/// groups' drones follow each other, group by group, each in name order.
pub open spec fn group_offset<P, T>(groups: Seq<DroneGroup<P, T>>, g: nat) -> nat
    decreases g,
{
    if g == 0 {
        0
    } else {
        group_offset(groups, (g - 1) as nat) + groups[g - 1].drone_names@.len()
    }
}

/// The `j`-th drone of group `g` in a mission's drone list.
pub open spec fn member<P, A, T, C>(
    drones: Seq<MissionDroneView<P, A, T, C>>,
    groups: Seq<DroneGroup<P, T>>,
    g: nat,
    j: nat,
) -> MissionDroneView<P, A, T, C> {
    drones[(group_offset(groups, g) + j) as int]
}

/// A mission drone as set up for its group: named, standing at the group's
/// home on the ground, with a full battery and a copy of its type's
/// configuration, connected and armed, with a copy of the group's task list
/// and the first of those tasks in hand.
pub open spec fn set_up<P, A, T, C: Clone>(
    d: MissionDroneView<P, A, T, C>,
    group: DroneGroup<P, T>,
    entry: CatalogEntry<A, C>,
    name: Seq<char>,
    zero: A,
) -> bool {
    &&& d.drone.name == name
    &&& d.drone.coordinates == group.home_position
    &&& d.drone.home_position == group.home_position
    &&& d.drone.flight_start_position == group.home_position
    &&& d.drone.altitude == zero
    &&& d.drone.flight_start_altitude == zero
    &&& d.drone.speed == zero
    &&& d.drone.battery_charge == entry.battery_capacity
    &&& cloned(entry.config, d.drone.config)
    &&& d.drone.connection_status == ConnectionStatus::Connected
    &&& d.drone.flight_mode == FlightMode::Armed
    &&& d.tasks == group.tasks@
    &&& (group.tasks@.len() == 0 ==> d.drone.current_task is None)
    &&& (group.tasks@.len() > 0 ==> d.drone.current_task == Some(group.tasks@[0]))
    &&& d.current_task_index == 0
    &&& d.tick_count == 0
}

/// Which of `count` drones is made to fail, given the identifier of the
/// first one: the identifier's low machine word, modulo `count`.
pub open spec fn failure_pick(first_id: u128, count: nat) -> nat {
    ((first_id as usize) as nat) % count
}

/// Which of `count` drones is made to fail; see `failure_pick`.
pub fn failure_index(first_id: u128, count: usize) -> (index: usize)
    requires
        count > 0,
    ensures
        index == failure_pick(first_id, count as nat),
        index < count,
{
    (first_id as usize) % count
}

/// The position of the catalog entry named `name`; see `catalog_entry`.
fn find_entry<A, C>(catalog: &Vec<CatalogEntry<A, C>>, name: &String) -> (k: Option<usize>)
    ensures
        k matches Some(i) ==> catalog_entry(entry_names(catalog@), name@) == Some(i as nat),
        k is None ==> catalog_entry(entry_names(catalog@), name@) is None,
{
    let ghost names = entry_names(catalog@);
    let mut i: usize = 0;
    while i < catalog.len()
        invariant
            i <= catalog@.len(),
            names == entry_names(catalog@),
            first_match(names, name@, i as nat) is None,
        decreases catalog@.len() - i,
    {
        if catalog[i].name.eq(name) {
            assert(names[i as int] == name@);
            proof {
                lemma_first_match_stays(names, name@, (i + 1) as nat, names.len());
            }
            return Some(i);
        }
        i = i + 1;
    }
    None
}

proof fn lemma_first_unknown_stays<P, T, A, C>(
    groups: Seq<DroneGroup<P, T>>,
    catalog: Seq<CatalogEntry<A, C>>,
    n: nat,
    m: nat,
)
    requires
        n <= m,
        first_unknown_type(groups, catalog, n) is Some,
    ensures
        first_unknown_type(groups, catalog, m) == first_unknown_type(groups, catalog, n),
    decreases m - n,
{
    if n < m {
        lemma_first_unknown_stays(groups, catalog, n, (m - 1) as nat);
    }
}

/// A copy of a task list, task for task.
fn copy_tasks<T: Copy>(tasks: &Vec<T>) -> (copy: Vec<T>)
    ensures
        copy@ == tasks@,
{
    let mut copy: Vec<T> = Vec::new();
    let mut i: usize = 0;
    while i < tasks.len()
        invariant
            i <= tasks@.len(),
            copy@ == tasks@.subrange(0, i as int),
        decreases tasks@.len() - i,
    {
        copy.push(tasks[i]);
        i = i + 1;
    }
    copy
}

/// Builds the simulation of a mission: one mission drone per name of each
/// group, set up as `set_up` says, in group order and name order. Fails with
/// the type of the first group that the catalog lacks. With
/// `random_failure`, the drone picked by `failure_pick` from the first
/// drone's (random) identifier fails on tick `INJECTED_FAILURE_TICK`; no
/// other drone is set to fail.
pub fn build_simulation<P: Copy, A: Copy, T: Copy, C: Clone>(
    mission_name: &String,
    random_failure: bool,
    groups: &Vec<DroneGroup<P, T>>,
    catalog: &Vec<CatalogEntry<A, C>>,
    zero: A,
) -> (result: Result<Simulation<P, A, T, C>, AerisError>)
    ensures
        result is Ok <==> first_unknown_type(groups@, catalog@, groups@.len()) is None,
        result matches Err(e) ==> e@ == AerisErrorView::DroneTypeNotFound(
            first_unknown_type(groups@, catalog@, groups@.len()).unwrap(),
        ),
        result matches Ok(simulation) ==> {
            let drones = simulation@.missions[0].drones;
            let count = group_offset(groups@, groups@.len());
            &&& simulation@.missions.len() == 1
            &&& simulation@.missions[0].name == mission_name@
            &&& drones.len() == count
            &&& forall|g: nat, j: nat|
                g < groups@.len() && j < groups@[g as int].drone_names@.len() ==> set_up(
                    #[trigger] member(drones, groups@, g, j),
                    groups@[g as int],
                    catalog@[group_entry(groups@[g as int], catalog@).unwrap() as int],
                    groups@[g as int].drone_names@[j as int]@,
                    zero,
                )
            &&& if random_failure && count > 0 {
                let picked = failure_pick(drones[0].drone.id, count);
                forall|i: int|
                    0 <= i < count ==> #[trigger] drones[i].failure_tick == if i == picked {
                        Some(INJECTED_FAILURE_TICK)
                    } else {
                        None
                    }
            } else {
                forall|i: int| 0 <= i < count ==> #[trigger] drones[i].failure_tick is None
            }
        },
{
    let mut drones: Vec<MissionDrone<P, A, T, C>> = Vec::new();
    let mut g: usize = 0;
    while g < groups.len()
        invariant
            g <= groups@.len(),
            first_unknown_type(groups@, catalog@, g as nat) is None,
            drones@.len() == group_offset(groups@, g as nat),
            forall|h: nat, j: nat|
                h < g && j < groups@[h as int].drone_names@.len() ==> set_up(
                    #[trigger] member(drone_views(drones@), groups@, h, j),
                    groups@[h as int],
                    catalog@[group_entry(groups@[h as int], catalog@).unwrap() as int],
                    groups@[h as int].drone_names@[j as int]@,
                    zero,
                ),
            forall|i: int| 0 <= i < drones@.len() ==> #[trigger] drones@[i]@.failure_tick is None,
            forall|i: int|
                0 <= i < drones@.len() ==> #[trigger] drones@[i]@.drone.connection_status
                    == ConnectionStatus::Connected && drones@[i]@.drone.flight_mode == FlightMode::Armed,
        decreases groups@.len() - g,
    {
        let group = &groups[g];
        let k = match find_entry(catalog, &group.drone_type) {
            None => {
                assert(first_unknown_type(groups@, catalog@, (g + 1) as nat) == Some(group.drone_type@));
                proof {
                    lemma_first_unknown_stays(groups@, catalog@, (g + 1) as nat, groups@.len());
                }
                return Err(AerisError::DroneTypeNotFound(group.drone_type.clone()));
            },
            Some(k) => k,
        };
        proof {
            lemma_first_match_in_range(entry_names(catalog@), group.drone_type@, catalog@.len());
        }
        let entry = &catalog[k];
        assert(group_entry(groups@[g as int], catalog@) == Some(k as nat));
        let ghost base = group_offset(groups@, g as nat);
        let mut j: usize = 0;
        while j < group.drone_names.len()
            invariant
                g < groups@.len(),
                *group == groups@[g as int],
                k < catalog@.len(),
                *entry == catalog@[k as int],
                group_entry(groups@[g as int], catalog@) == Some(k as nat),
                base == group_offset(groups@, g as nat),
                j <= group.drone_names@.len(),
                drones@.len() == base + j,
                forall|h: nat, i: nat|
                    h < g && i < groups@[h as int].drone_names@.len() ==> set_up(
                        #[trigger] member(drone_views(drones@), groups@, h, i),
                        groups@[h as int],
                        catalog@[group_entry(groups@[h as int], catalog@).unwrap() as int],
                        groups@[h as int].drone_names@[i as int]@,
                        zero,
                    ),
                forall|i: nat|
                    i < j ==> set_up(
                        #[trigger] member(drone_views(drones@), groups@, g as nat, i),
                        *group,
                        *entry,
                        group.drone_names@[i as int]@,
                        zero,
                    ),
                forall|i: int| 0 <= i < drones@.len() ==> #[trigger] drones@[i]@.failure_tick is None,
                forall|i: int|
                    0 <= i < drones@.len() ==> #[trigger] drones@[i]@.drone.connection_status
                        == ConnectionStatus::Connected && drones@[i]@.drone.flight_mode == FlightMode::Armed,
            decreases group.drone_names@.len() - j,
        {
            let mut drone = Drone::new(
                group.drone_names[j].clone(),
                group.home_position,
                zero,
                zero,
                entry.battery_capacity,
                entry.config.clone(),
            );
            let connected = drone.connect();
            assert(connected is Ok);
            let armed = drone.arm();
            assert(armed is Ok);
            let mission_drone = MissionDrone::new(drone, copy_tasks(&group.tasks));
            let ghost pushed = mission_drone@;
            assert(set_up(pushed, *group, *entry, group.drone_names@[j as int]@, zero));
            let ghost before = drones@;
            drones.push(mission_drone);
            assert forall|h: nat, i: nat|
                h < g && i < groups@[h as int].drone_names@.len() implies set_up(
                    #[trigger] member(drone_views(drones@), groups@, h, i),
                    groups@[h as int],
                    catalog@[group_entry(groups@[h as int], catalog@).unwrap() as int],
                    groups@[h as int].drone_names@[i as int]@,
                    zero,
                ) by {
                lemma_offset_grows(groups@, h, g as nat);
                assert(member(drone_views(drones@), groups@, h, i)
                    == member(drone_views(before), groups@, h, i));
            }
            assert forall|i: nat| i < j + 1 implies set_up(
                #[trigger] member(drone_views(drones@), groups@, g as nat, i),
                *group,
                *entry,
                group.drone_names@[i as int]@,
                zero,
            ) by {
                if i < j {
                    assert(member(drone_views(drones@), groups@, g as nat, i)
                        == member(drone_views(before), groups@, g as nat, i));
                }
            }
            j = j + 1;
        }
        assert(group_offset(groups@, (g + 1) as nat) == base + group.drone_names@.len());
        assert forall|h: nat, i: nat|
            h < g + 1 && i < groups@[h as int].drone_names@.len() implies set_up(
                #[trigger] member(drone_views(drones@), groups@, h, i),
                groups@[h as int],
                catalog@[group_entry(groups@[h as int], catalog@).unwrap() as int],
                groups@[h as int].drone_names@[i as int]@,
                zero,
            ) by {
            if h == g {
                assert(set_up(
                    member(drone_views(drones@), groups@, g as nat, i),
                    *group,
                    *entry,
                    group.drone_names@[i as int]@,
                    zero,
                ));
            }
        }
        g = g + 1;
    }
    let count = drones.len();
    let ghost unmarked = drone_views(drones@);
    assert forall|i: int| 0 <= i < unmarked.len() implies #[trigger] unmarked[i].drone.connection_status
        == ConnectionStatus::Connected && unmarked[i].drone.flight_mode == FlightMode::Armed by {
        assert(unmarked[i] == drones@[i]@);
    }
    let ghost total = group_offset(groups@, groups@.len());
    let ghost picked: int = -1;
    if random_failure && count > 0 {
        let index = failure_index(drones[0].drone().id(), count);
        proof {
            picked = index as int;
        }
        drones[index].fail_after(INJECTED_FAILURE_TICK);
    }
    let ghost marked = drone_views(drones@);
    assert(marked.len() == unmarked.len());
    assert forall|i: int| 0 <= i < marked.len() implies #[trigger] marked[i] == if i == picked {
        MissionDroneView { failure_tick: Some(INJECTED_FAILURE_TICK), ..unmarked[i] }
    } else {
        unmarked[i]
    } by {}
    assert(random_failure && count > 0 ==> picked == failure_pick(unmarked[0].drone.id, total));
    let mut mission = Mission::new(mission_name.clone(), drones);
    assert(mission@.drones =~= marked);
    let started_ok = mission.start();
    assert(started_ok is Ok);
    assert(mission@.drones =~= marked) by {
        assert forall|i: int| 0 <= i < marked.len() implies #[trigger] crate::mission::started(marked[i])
            == marked[i] by {
            assert(unmarked[i].drone.connection_status == ConnectionStatus::Connected);
            assert(marked[i].drone == unmarked[i].drone);
            assert(marked[i].drone.with_link(ConnectionStatus::Connected) == marked[i].drone);
        }
    }
    let mut simulation = Simulation::new();
    simulation.add_mission(mission);
    assert forall|h: nat, i: nat|
        h < groups@.len() && i < groups@[h as int].drone_names@.len() implies set_up(
            #[trigger] member(marked, groups@, h, i),
            groups@[h as int],
            catalog@[group_entry(groups@[h as int], catalog@).unwrap() as int],
            groups@[h as int].drone_names@[i as int]@,
            zero,
        ) by {
        lemma_offset_grows(groups@, h, groups@.len());
        assert(set_up(
            member(unmarked, groups@, h, i),
            groups@[h as int],
            catalog@[group_entry(groups@[h as int], catalog@).unwrap() as int],
            groups@[h as int].drone_names@[i as int]@,
            zero,
        ));
    }
    Ok(simulation)
}

proof fn lemma_offset_grows<P, T>(groups: Seq<DroneGroup<P, T>>, h: nat, g: nat)
    requires
        h < g,
        g <= groups.len(),
    ensures
        group_offset(groups, h) + groups[h as int].drone_names@.len() <= group_offset(groups, g),
    decreases g - h,
{
    if h + 1 < g {
        lemma_offset_grows(groups, h, (g - 1) as nat);
    }
}

} // verus!
