use vstd::prelude::*;

use crate::errors::{AerisError, AerisErrorView, MissionIssue, MissionIssueView};
use crate::state::FlightMode;
use crate::task::TaskKind;
use crate::text::{blank, is_blank};

verus! {

/// A task of a mission group as the validator sees it. For a takeoff,
/// `fits[k]` tells whether its target altitude is a finite height above the
/// ground that does not exceed the ceiling of the `k`-th drone type of the
/// catalog.
pub enum PlannedTask {
    Takeoff { fits: Vec<bool> },
    Hold,
    FlyTo,
    ReturnHome,
    Land,
}

/// A group of identical drones that fly the same task list.
pub struct GroupPlan {
    pub drone_type: String,
    pub drone_count: usize,
    pub tasks: Vec<PlannedTask>,
}

/// A mission description, as the validator sees it.
pub struct MissionPlan {
    pub name: String,
    pub groups: Vec<GroupPlan>,
}

pub ghost enum PlannedTaskView {
    Takeoff { fits: Seq<bool> },
    Hold,
    FlyTo,
    ReturnHome,
    Land,
}

pub ghost struct GroupPlanView {
    pub drone_type: Seq<char>,
    pub drone_count: usize,
    pub tasks: Seq<PlannedTaskView>,
}

pub ghost struct MissionPlanView {
    pub name: Seq<char>,
    pub groups: Seq<GroupPlanView>,
}

impl View for PlannedTask {
    type V = PlannedTaskView;

    open spec fn view(&self) -> PlannedTaskView {
        match self {
            PlannedTask::Takeoff { fits } => PlannedTaskView::Takeoff { fits: fits@ },
            PlannedTask::Hold => PlannedTaskView::Hold,
            PlannedTask::FlyTo => PlannedTaskView::FlyTo,
            PlannedTask::ReturnHome => PlannedTaskView::ReturnHome,
            PlannedTask::Land => PlannedTaskView::Land,
        }
    }
}

impl View for GroupPlan {
    type V = GroupPlanView;

    open spec fn view(&self) -> GroupPlanView {
        GroupPlanView {
            drone_type: self.drone_type@,
            drone_count: self.drone_count,
            tasks: self.tasks@.map_values(|t: PlannedTask| t@),
        }
    }
}

impl View for MissionPlan {
    type V = MissionPlanView;

    open spec fn view(&self) -> MissionPlanView {
        MissionPlanView { name: self.name@, groups: self.groups@.map_values(|g: GroupPlan| g@) }
    }
}

impl PlannedTaskView {
    pub open spec fn kind(self) -> TaskKind {
        match self {
            PlannedTaskView::Takeoff { .. } => TaskKind::Takeoff,
            PlannedTaskView::Hold => TaskKind::Hold,
            PlannedTaskView::FlyTo => TaskKind::FlyTo,
            PlannedTaskView::ReturnHome => TaskKind::ReturnHome,
            PlannedTaskView::Land => TaskKind::Land,
        }
    }
}

/// The position of the first entry of `names` (among its first `n`) that
/// equals `name`.
pub open spec fn first_match(names: Seq<Seq<char>>, name: Seq<char>, n: nat) -> Option<nat>
    decreases n,
{
    if n == 0 {
        None
    } else {
        match first_match(names, name, (n - 1) as nat) {
            Some(k) => Some(k),
            None => if names[n - 1] == name {
                Some((n - 1) as nat)
            } else {
                None
            },
        }
    }
}

/// The catalog entry of drone type `name`: the first one with that name.
pub open spec fn catalog_entry(names: Seq<Seq<char>>, name: Seq<char>) -> Option<nat> {
    first_match(names, name, names.len())
}

/// What one task does to a group in flight mode `mode`, for drones of catalog
/// entry `k`.
pub ghost enum TaskCheck {
    Next(FlightMode),
    AltitudeOutOfRange,
    NotFromMode,
}

/// The task transitions a mission may contain: an armed drone takes off to a
/// height that suits its type and holds there; from a hold it may hold again
/// or head home; from a hold or on the way home it may land, after which it
/// is idle.
pub open spec fn check_task(mode: FlightMode, task: PlannedTaskView, k: nat) -> TaskCheck {
    match (mode, task) {
        (FlightMode::Armed, PlannedTaskView::Takeoff { fits }) => if k < fits.len() && fits[k as int] {
            TaskCheck::Next(FlightMode::Hold)
        } else {
            TaskCheck::AltitudeOutOfRange
        },
        (FlightMode::Hold, PlannedTaskView::Hold) => TaskCheck::Next(FlightMode::Hold),
        (FlightMode::Hold, PlannedTaskView::ReturnHome) => TaskCheck::Next(FlightMode::ReturnToHome),
        (FlightMode::Hold, PlannedTaskView::Land) => TaskCheck::Next(FlightMode::Idle),
        (FlightMode::ReturnToHome, PlannedTaskView::Land) => TaskCheck::Next(FlightMode::Idle),
        _ => TaskCheck::NotFromMode,
    }
}

/// The result of following the first `n` tasks of a task list from armed:
/// either the mode reached, or the first task that cannot be flown.
pub ghost enum Walk {
    Reached(FlightMode),
    Stuck { index: nat, mode: FlightMode, altitude: bool },
}

pub open spec fn walk(tasks: Seq<PlannedTaskView>, k: nat, n: nat) -> Walk
    decreases n,
{
    if n == 0 {
        Walk::Reached(FlightMode::Armed)
    } else {
        match walk(tasks, k, (n - 1) as nat) {
            Walk::Reached(mode) => match check_task(mode, tasks[n - 1], k) {
                TaskCheck::Next(next) => Walk::Reached(next),
                TaskCheck::AltitudeOutOfRange => Walk::Stuck {
                    index: (n - 1) as nat,
                    mode,
                    altitude: true,
                },
                TaskCheck::NotFromMode => Walk::Stuck { index: (n - 1) as nat, mode, altitude: false },
            },
            stuck => stuck,
        }
    }
}

/// The error that the first unflyable task of a group is reported with.
pub open spec fn stuck_error(group: GroupPlanView, g: nat, index: nat, mode: FlightMode, altitude: bool) -> AerisErrorView {
    if altitude {
        AerisErrorView::InvalidMission(
            MissionIssueView::InvalidTargetAltitude {
                group_index: g as usize,
                task_index: index as usize,
                group: group.drone_type,
            },
        )
    } else {
        AerisErrorView::InvalidMission(
            MissionIssueView::InvalidTransition {
                group_index: g as usize,
                task_index: index as usize,
                task: group.tasks[index as int].kind(),
                mode,
                group: group.drone_type,
            },
        )
    }
}

/// What is wrong with a group, if anything: it has no drones, or no tasks,
/// or an unknown drone type, or a task that cannot be flown in order.
pub open spec fn group_issue(group: GroupPlanView, names: Seq<Seq<char>>, g: nat) -> Option<AerisErrorView> {
    if group.drone_count == 0 {
        Some(
            AerisErrorView::InvalidMission(
                MissionIssueView::NoDrones { group_index: g as usize, group: group.drone_type },
            ),
        )
    } else if group.tasks.len() == 0 {
        Some(
            AerisErrorView::InvalidMission(
                MissionIssueView::NoTasks { group_index: g as usize, group: group.drone_type },
            ),
        )
    } else {
        match catalog_entry(names, group.drone_type) {
            None => Some(AerisErrorView::DroneTypeNotFound(group.drone_type)),
            Some(k) => match walk(group.tasks, k, group.tasks.len()) {
                Walk::Reached(_) => None,
                Walk::Stuck { index, mode, altitude } => Some(stuck_error(group, g, index, mode, altitude)),
            },
        }
    }
}

/// The issue of the first group (among the first `n`) that has one.
pub open spec fn first_group_issue(groups: Seq<GroupPlanView>, names: Seq<Seq<char>>, n: nat) -> Option<
    AerisErrorView,
>
    decreases n,
{
    if n == 0 {
        None
    } else {
        match first_group_issue(groups, names, (n - 1) as nat) {
            Some(e) => Some(e),
            None => group_issue(groups[n - 1], names, (n - 1) as nat),
        }
    }
}

/// Why a mission cannot be flown with the catalog's drone types `names`, or
/// `None` when it can.
pub open spec fn mission_issue(mission: MissionPlanView, names: Seq<Seq<char>>) -> Option<AerisErrorView> {
    if blank(mission.name) {
        Some(AerisErrorView::InvalidMission(MissionIssueView::EmptyName))
    } else if mission.groups.len() == 0 {
        Some(AerisErrorView::InvalidMission(MissionIssueView::NoGroups))
    } else {
        first_group_issue(mission.groups, names, mission.groups.len())
    }
}

/// Once found, the first match stays the first match of any longer prefix.
pub(crate) proof fn lemma_first_match_stays(names: Seq<Seq<char>>, name: Seq<char>, n: nat, m: nat)
    requires
        n <= m,
        first_match(names, name, n) is Some,
    ensures
        first_match(names, name, m) == first_match(names, name, n),
    decreases m - n,
{
    if n < m {
        lemma_first_match_stays(names, name, n, (m - 1) as nat);
    }
}

/// A first match lies within the prefix searched and is a match.
pub(crate) proof fn lemma_first_match_in_range(names: Seq<Seq<char>>, name: Seq<char>, n: nat)
    requires
        n <= names.len(),
    ensures
        first_match(names, name, n) matches Some(k) ==> k < n && names[k as int] == name,
    decreases n,
{
    if n > 0 {
        lemma_first_match_in_range(names, name, (n - 1) as nat);
    }
}

/// Once a task list is stuck, following more of it stays stuck at the same task.
proof fn lemma_walk_stays_stuck(tasks: Seq<PlannedTaskView>, k: nat, n: nat, m: nat)
    requires
        n <= m,
        walk(tasks, k, n) is Stuck,
    ensures
        walk(tasks, k, m) == walk(tasks, k, n),
    decreases m - n,
{
    if n < m {
        lemma_walk_stays_stuck(tasks, k, n, (m - 1) as nat);
    }
}

/// Once a group with an issue is found, it stays the first one among more groups.
proof fn lemma_first_issue_stays(groups: Seq<GroupPlanView>, names: Seq<Seq<char>>, n: nat, m: nat)
    requires
        n <= m,
        first_group_issue(groups, names, n) is Some,
    ensures
        first_group_issue(groups, names, m) == first_group_issue(groups, names, n),
    decreases m - n,
{
    if n < m {
        lemma_first_issue_stays(groups, names, n, (m - 1) as nat);
    }
}

/// Checks mission descriptions before they are flown.
pub struct MissionValidator;

/// The position of the first of `names` that equals `name`.
pub fn find_drone_type(names: &Vec<String>, name: &String) -> (k: Option<usize>)
    ensures
        k matches Some(i) ==> catalog_entry(names@.map_values(|s: String| s@), name@) == Some(i as nat),
        k is None ==> catalog_entry(names@.map_values(|s: String| s@), name@) is None,
{
    let ghost views = names@.map_values(|s: String| s@);
    let mut i: usize = 0;
    while i < names.len()
        invariant
            i <= names@.len(),
            views == names@.map_values(|s: String| s@),
            first_match(views, name@, i as nat) is None,
        decreases names@.len() - i,
    {
        if names[i].eq(name) {
            assert(views[i as int] == name@);
            proof {
                lemma_first_match_stays(views, name@, (i + 1) as nat, names@.len());
            }
            return Some(i);
        }
        i = i + 1;
    }
    None
}

impl MissionValidator {
    /// Checks that a mission can be flown by drones of the catalog whose type
    /// names are `drone_types`, in order. Reports the first problem found:
    /// a blank mission name, no groups, and then, group by group, a group
    /// without drones, without tasks, of an unknown drone type, or with a task
    /// that cannot follow the ones before it.
    pub fn validate(mission: &MissionPlan, drone_types: &Vec<String>) -> (result: Result<(), AerisError>)
        ensures
            match mission_issue(mission@, drone_types@.map_values(|s: String| s@)) {
                None => result is Ok,
                Some(issue) => result matches Err(e) && e@ == issue,
            },
    {
        let ghost names = drone_types@.map_values(|s: String| s@);
        if is_blank(mission.name.as_str()) {
            return Err(AerisError::InvalidMission(MissionIssue::EmptyName));
        }
        if mission.groups.len() == 0 {
            return Err(AerisError::InvalidMission(MissionIssue::NoGroups));
        }
        let mut g: usize = 0;
        while g < mission.groups.len()
            invariant
                g <= mission.groups@.len(),
                names == drone_types@.map_values(|s: String| s@),
                first_group_issue(mission@.groups, names, g as nat) is None,
                !blank(mission@.name),
                mission@.groups.len() > 0,
            decreases mission.groups@.len() - g,
        {
            let group = &mission.groups[g];
            assert(mission@.groups[g as int] == group@);
            match Self::check_group(group, g, drone_types) {
                Err(e) => {
                    proof {
                        lemma_first_issue_stays(mission@.groups, names, (g + 1) as nat, mission@.groups.len());
                    }
                    return Err(e);
                },
                Ok(()) => {},
            }
            g = g + 1;
        }
        Ok(())
    }

    /// Checks one group; see `group_issue`.
    fn check_group(group: &GroupPlan, group_index: usize, drone_types: &Vec<String>) -> (result: Result<(), AerisError>)
        ensures
            match group_issue(group@, drone_types@.map_values(|s: String| s@), group_index as nat) {
                None => result is Ok,
                Some(issue) => result matches Err(e) && e@ == issue,
            },
    {
        if group.drone_count == 0 {
            return Err(
                AerisError::InvalidMission(
                    MissionIssue::NoDrones { group_index, group: group.drone_type.clone() },
                ),
            );
        }
        if group.tasks.len() == 0 {
            return Err(
                AerisError::InvalidMission(
                    MissionIssue::NoTasks { group_index, group: group.drone_type.clone() },
                ),
            );
        }
        let k = match find_drone_type(drone_types, &group.drone_type) {
            None => {
                return Err(AerisError::DroneTypeNotFound(group.drone_type.clone()));
            },
            Some(k) => k,
        };
        let mut mode = FlightMode::Armed;
        let mut i: usize = 0;
        while i < group.tasks.len()
            invariant
                i <= group.tasks@.len(),
                walk(group@.tasks, k as nat, i as nat) == Walk::Reached(mode),
                group@.drone_count != 0,
                group@.tasks.len() != 0,
                catalog_entry(drone_types@.map_values(|s: String| s@), group@.drone_type) == Some(k as nat),
            decreases group.tasks@.len() - i,
        {
            let task = &group.tasks[i];
            assert(group@.tasks[i as int] == task@);
            let next = match (mode, task) {
                (FlightMode::Armed, PlannedTask::Takeoff { fits }) => {
                    if k < fits.len() && fits[k] {
                        FlightMode::Hold
                    } else {
                        proof {
                            lemma_walk_stays_stuck(group@.tasks, k as nat, (i + 1) as nat, group@.tasks.len());
                        }
                        return Err(
                            AerisError::InvalidMission(
                                MissionIssue::InvalidTargetAltitude {
                                    group_index,
                                    task_index: i,
                                    group: group.drone_type.clone(),
                                },
                            ),
                        );
                    }
                },
                (FlightMode::Hold, PlannedTask::Hold) => FlightMode::Hold,
                (FlightMode::Hold, PlannedTask::ReturnHome) => FlightMode::ReturnToHome,
                (FlightMode::Hold, PlannedTask::Land) => FlightMode::Idle,
                (FlightMode::ReturnToHome, PlannedTask::Land) => FlightMode::Idle,
                _ => {
                    proof {
                        lemma_walk_stays_stuck(group@.tasks, k as nat, (i + 1) as nat, group@.tasks.len());
                    }
                    return Err(
                        AerisError::InvalidMission(
                            MissionIssue::InvalidTransition {
                                group_index,
                                task_index: i,
                                task: task.kind(),
                                mode,
                                group: group.drone_type.clone(),
                            },
                        ),
                    );
                },
            };
            mode = next;
            i = i + 1;
        }
        Ok(())
    }
}

impl PlannedTask {
    /// The kind of the task.
    pub fn kind(&self) -> (kind: TaskKind)
        ensures
            kind == self@.kind(),
    {
        match self {
            PlannedTask::Takeoff { .. } => TaskKind::Takeoff,
            PlannedTask::Hold => TaskKind::Hold,
            PlannedTask::FlyTo => TaskKind::FlyTo,
            PlannedTask::ReturnHome => TaskKind::ReturnHome,
            PlannedTask::Land => TaskKind::Land,
        }
    }
}

/// Following fewer tasks of a list that can be followed to its end also
/// reaches a mode.
proof fn lemma_walk_prefix_reached(tasks: Seq<PlannedTaskView>, k: nat, n: nat, m: nat)
    requires
        n <= m,
        walk(tasks, k, m) is Reached,
    ensures
        walk(tasks, k, n) is Reached,
    decreases m - n,
{
    if n < m {
        if walk(tasks, k, n) is Stuck {
            lemma_walk_stays_stuck(tasks, k, n, m);
        }
    }
}

/// After at least one task, a group is never armed on the ground again.
proof fn lemma_walk_leaves_armed(tasks: Seq<PlannedTaskView>, k: nat, n: nat)
    requires
        n >= 1,
        walk(tasks, k, n) is Reached,
    ensures
        walk(tasks, k, n)->Reached_0 != FlightMode::Armed,
    decreases n,
{
    if n > 1 {
        lemma_walk_prefix_reached(tasks, k, (n - 1) as nat, n);
        lemma_walk_leaves_armed(tasks, k, (n - 1) as nat);
    }
}

/// Law: in a group that passes validation, the drones take off first and
/// only once, and a landing, if there is one, is the last task.
pub proof fn law_accepted_group_takes_off_first_and_lands_last(group: GroupPlanView, names: Seq<Seq<char>>, g: nat)
    requires
        group_issue(group, names, g) is None,
    ensures
        group.drone_count > 0,
        group.tasks.len() > 0,
        catalog_entry(names, group.drone_type) is Some,
        group.tasks[0].kind() == TaskKind::Takeoff,
        forall|i: int| 0 < i < group.tasks.len() ==> #[trigger] group.tasks[i].kind() != TaskKind::Takeoff,
        forall|i: int|
            0 <= i < group.tasks.len() - 1 ==> #[trigger] group.tasks[i].kind() != TaskKind::Land,
{
    let k = catalog_entry(names, group.drone_type).unwrap();
    let n = group.tasks.len();
    lemma_walk_prefix_reached(group.tasks, k, 1, n);
    assert(walk(group.tasks, k, 0) == Walk::Reached(FlightMode::Armed));
    assert(walk(group.tasks, k, 1) is Reached);
    assert(check_task(FlightMode::Armed, group.tasks[0], k) is Next);
    assert forall|i: int| 0 < i < n implies #[trigger] group.tasks[i].kind() != TaskKind::Takeoff by {
        lemma_walk_prefix_reached(group.tasks, k, (i + 1) as nat, n);
        lemma_walk_prefix_reached(group.tasks, k, i as nat, n);
        lemma_walk_leaves_armed(group.tasks, k, i as nat);
    }
    assert forall|i: int| 0 <= i < n - 1 implies #[trigger] group.tasks[i].kind() != TaskKind::Land by {
        lemma_walk_prefix_reached(group.tasks, k, (i + 2) as nat, n);
        lemma_walk_prefix_reached(group.tasks, k, (i + 1) as nat, n);
        lemma_walk_prefix_reached(group.tasks, k, i as nat, n);
    }
}

/// Law: a takeoff from armed is accepted exactly when its altitude suits the
/// drone type of catalog entry `k` (`fits[k]`), and then the drones hold;
/// otherwise it is refused for its altitude. Every other task is refused
/// while armed.
pub proof fn law_takeoff_fits_the_type(fits: Seq<bool>, task: PlannedTaskView, k: nat)
    ensures
        check_task(FlightMode::Armed, PlannedTaskView::Takeoff { fits }, k) is Next <==> (k < fits.len()
            && fits[k as int]),
        k < fits.len() && fits[k as int] ==> check_task(FlightMode::Armed, PlannedTaskView::Takeoff { fits }, k)
            == TaskCheck::Next(FlightMode::Hold),
        !(k < fits.len() && fits[k as int]) ==> check_task(
            FlightMode::Armed,
            PlannedTaskView::Takeoff { fits },
            k,
        ) == TaskCheck::AltitudeOutOfRange,
        !(task is Takeoff) ==> check_task(FlightMode::Armed, task, k) == TaskCheck::NotFromMode,
{
}

/// Law: the task transitions a mission may contain, mode by mode. From armed
/// only a takeoff (see `law_takeoff_fits_the_type`), which leads to a hold;
/// from a hold another hold, the way home, or a landing; on the way home only
/// a landing; a landing leaves the drones idle, and nothing may follow it.
/// Fly-to tasks are never accepted.
pub proof fn law_task_transitions(mode: FlightMode, task: PlannedTaskView, k: nat, next: FlightMode)
    ensures
        check_task(mode, task, k) == TaskCheck::Next(next) <==> {
            ||| mode == FlightMode::Armed && (task matches PlannedTaskView::Takeoff { fits } && k < fits.len()
                && fits[k as int]) && next == FlightMode::Hold
            ||| mode == FlightMode::Hold && task == PlannedTaskView::Hold && next == FlightMode::Hold
            ||| mode == FlightMode::Hold && task == PlannedTaskView::ReturnHome && next == FlightMode::ReturnToHome
            ||| mode == FlightMode::Hold && task == PlannedTaskView::Land && next == FlightMode::Idle
            ||| mode == FlightMode::ReturnToHome && task == PlannedTaskView::Land && next == FlightMode::Idle
        },
        check_task(mode, task, k) == TaskCheck::AltitudeOutOfRange ==> mode == FlightMode::Armed
            && task is Takeoff,
        task == PlannedTaskView::FlyTo ==> check_task(mode, task, k) == TaskCheck::NotFromMode,
        mode == FlightMode::Idle ==> check_task(mode, task, k) == TaskCheck::NotFromMode,
{
}

/// Law: a group's problems are reported in a fixed order: no drones first,
/// then no tasks, then an unknown drone type; a known type with drones and
/// tasks is reported only for a task that cannot be flown.
pub proof fn law_group_issue_order(group: GroupPlanView, names: Seq<Seq<char>>, g: nat)
    ensures
        group.drone_count == 0 ==> group_issue(group, names, g) == Some(
            AerisErrorView::InvalidMission(
                MissionIssueView::NoDrones { group_index: g as usize, group: group.drone_type },
            ),
        ),
        group.drone_count > 0 && group.tasks.len() == 0 ==> group_issue(group, names, g) == Some(
            AerisErrorView::InvalidMission(
                MissionIssueView::NoTasks { group_index: g as usize, group: group.drone_type },
            ),
        ),
        group.drone_count > 0 && group.tasks.len() > 0 && catalog_entry(names, group.drone_type) is None
            ==> group_issue(group, names, g) == Some(AerisErrorView::DroneTypeNotFound(group.drone_type)),
        group.drone_count > 0 && group.tasks.len() > 0 && catalog_entry(names, group.drone_type) is Some
            ==> (group_issue(group, names, g) is None <==> walk(
            group.tasks,
            catalog_entry(names, group.drone_type).unwrap(),
            group.tasks.len(),
        ) is Reached),
{
}

/// Law: a mission's problems are reported in a fixed order: a blank name
/// first, then having no groups, then the first group with a problem.
pub proof fn law_mission_issue_order(mission: MissionPlanView, names: Seq<Seq<char>>)
    ensures
        blank(mission.name) ==> mission_issue(mission, names) == Some(
            AerisErrorView::InvalidMission(MissionIssueView::EmptyName),
        ),
        !blank(mission.name) && mission.groups.len() == 0 ==> mission_issue(mission, names) == Some(
            AerisErrorView::InvalidMission(MissionIssueView::NoGroups),
        ),
        !blank(mission.name) && mission.groups.len() > 0 && group_issue(mission.groups[0], names, 0) is Some
            ==> mission_issue(mission, names) == group_issue(mission.groups[0], names, 0),
{
    if !blank(mission.name) && mission.groups.len() > 0 && group_issue(mission.groups[0], names, 0) is Some {
        assert(first_group_issue(mission.groups, names, 0) is None);
        assert(first_group_issue(mission.groups, names, 1) == group_issue(mission.groups[0], names, 0));
        lemma_first_issue_stays(mission.groups, names, 1, mission.groups.len());
    }
}

/// Law: the catalog entry of a drone type is the first entry with that name.
pub proof fn law_catalog_entry_is_first_match(names: Seq<Seq<char>>, name: Seq<char>)
    ensures
        catalog_entry(names, name) matches Some(k) ==> {
            &&& k < names.len()
            &&& names[k as int] == name
            &&& forall|j: int| 0 <= j < k ==> #[trigger] names[j] != name
        },
        catalog_entry(names, name) is None ==> forall|j: int| 0 <= j < names.len() ==> #[trigger] names[j] != name,
{
    lemma_first_match_in_range(names, name, names.len());
    lemma_first_match_exact(names, name, names.len());
}

proof fn lemma_first_match_exact(names: Seq<Seq<char>>, name: Seq<char>, n: nat)
    requires
        n <= names.len(),
    ensures
        first_match(names, name, n) matches Some(k) ==> forall|j: int| 0 <= j < k ==> #[trigger] names[j] != name,
        first_match(names, name, n) is None ==> forall|j: int| 0 <= j < n ==> #[trigger] names[j] != name,
    decreases n,
{
    if n > 0 {
        lemma_first_match_exact(names, name, (n - 1) as nat);
    }
}

/// Law: a group of a known drone type with drones and tasks, whose first task
/// is a takeoff, is refused for that takeoff's altitude exactly when the
/// altitude does not suit its own type (the group's catalog entry); and a
/// group that passes validation takes off to an altitude that suits its own
/// type.
pub proof fn law_group_takeoff_suits_its_type(group: GroupPlanView, names: Seq<Seq<char>>, g: nat, fits: Seq<bool>)
    requires
        group.drone_count > 0,
        group.tasks.len() > 0,
        catalog_entry(names, group.drone_type) is Some,
        group.tasks[0] == (PlannedTaskView::Takeoff { fits }),
    ensures
        ({
            let k = catalog_entry(names, group.drone_type).unwrap();
            &&& !(k < fits.len() && fits[k as int]) ==> group_issue(group, names, g) == Some(
                AerisErrorView::InvalidMission(
                    MissionIssueView::InvalidTargetAltitude {
                        group_index: g as usize,
                        task_index: 0,
                        group: group.drone_type,
                    },
                ),
            )
            &&& group_issue(group, names, g) is None ==> k < fits.len() && fits[k as int]
        }),
{
    let k = catalog_entry(names, group.drone_type).unwrap();
    assert(walk(group.tasks, k, 0) == Walk::Reached(FlightMode::Armed));
    if !(k < fits.len() && fits[k as int]) {
        assert(walk(group.tasks, k, 1) is Stuck);
        lemma_walk_stays_stuck(group.tasks, k, 1, group.tasks.len());
    } else if group_issue(group, names, g) is None {
    }
}

/// Law: when a mission passes validation, its name is not blank, it has a
/// group, and every group passes (see
/// `law_accepted_group_takes_off_first_and_lands_last`).
pub proof fn law_accepted_mission_groups_are_sound(mission: MissionPlanView, names: Seq<Seq<char>>)
    requires
        mission_issue(mission, names) is None,
    ensures
        !blank(mission.name),
        mission.groups.len() > 0,
        forall|g: int| 0 <= g < mission.groups.len() ==> #[trigger] group_issue(mission.groups[g], names, g as nat) is None,
{
    assert forall|g: int| 0 <= g < mission.groups.len() implies #[trigger] group_issue(mission.groups[g], names, g as nat) is None by {
        lemma_no_issue_before(mission.groups, names, (g + 1) as nat, mission.groups.len());
    }
}

proof fn lemma_no_issue_before(groups: Seq<GroupPlanView>, names: Seq<Seq<char>>, n: nat, m: nat)
    requires
        1 <= n <= m,
        first_group_issue(groups, names, m) is None,
    ensures
        group_issue(groups[n - 1], names, (n - 1) as nat) is None,
    decreases m - n,
{
    if first_group_issue(groups, names, n) is Some {
        lemma_first_issue_stays(groups, names, n, m);
    }
}

} // verus!
