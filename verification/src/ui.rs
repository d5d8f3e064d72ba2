use vstd::prelude::*;

use crate::state::{ConnectionStatus, FlightMode};
use crate::task::TaskKind;

verus! {

/// A mission that can be picked on the start screen.
pub struct MissionOption {
    pub name: &'static str,
    pub description: &'static str,
    pub path: &'static str,
}

/// How many missions the start screen offers.
pub const MISSION_COUNT: usize = 3;

/// The missions offered on the start screen, in order.
pub fn mission_options() -> (options: Vec<MissionOption>)
    ensures
        options@.len() == MISSION_COUNT,
        options@[0].name@ == "Recon Alpha"@,
        options@[0].description@ == "Standard reconnaissance route"@,
        options@[0].path@ == "configs/mission.toml"@,
        options@[1].name@ == "Fault Injection"@,
        options@[1].description@ == "One random drone fails during flight"@,
        options@[1].path@ == "configs/mission_failure.toml"@,
        options@[2].name@ == "Long Patrol"@,
        options@[2].description@ == "Five-minute endurance mission"@,
        options@[2].path@ == "configs/mission_long.toml"@,
{
    let mut options = Vec::new();
    options.push(
        MissionOption {
            name: "Recon Alpha",
            description: "Standard reconnaissance route",
            path: "configs/mission.toml",
        },
    );
    options.push(
        MissionOption {
            name: "Fault Injection",
            description: "One random drone fails during flight",
            path: "configs/mission_failure.toml",
        },
    );
    options.push(
        MissionOption {
            name: "Long Patrol",
            description: "Five-minute endurance mission",
            path: "configs/mission_long.toml",
        },
    );
    options
}

/// Which drone of the fleet list is selected.
pub struct UiState {
    selected: Option<usize>,
}

impl View for UiState {
    type V = Option<usize>;

    closed spec fn view(&self) -> Option<usize> {
        self.selected
    }
}

impl UiState {
    /// The first drone is selected.
    pub fn new() -> (state: Self)
        ensures
            state@ == Some(0usize),
    {
        UiState { selected: Some(0) }
    }

    pub fn selected_drone(&self) -> (selected: Option<usize>)
        ensures
            selected == self@,
    {
        self.selected
    }

    /// Selects the next of `drone_count` drones; the last one stays selected.
    /// Without a selection, the move starts from the first drone.
    pub fn next_drone(&mut self, drone_count: usize)
        ensures
            (old(self)@ matches Some(i) && i < drone_count) ==> (final(self)@ matches Some(j) && j
                < drone_count),
            drone_count == 0 ==> final(self)@ == old(self)@,
            drone_count > 0 ==> {
                let current = match old(self)@ {
                    Some(i) => i,
                    None => 0,
                };
                final(self)@ == Some(if current + 1 < drone_count { (current + 1) as usize } else { current })
            },
    {
        if drone_count == 0 {
            return ;
        }
        let current = match self.selected {
            Some(i) => i,
            None => 0,
        };
        let next = if current < drone_count && drone_count - current > 1 {
            current + 1
        } else {
            current
        };
        self.selected = Some(next);
    }

    /// Selects the previous drone; the first one stays selected.
    pub fn previous_drone(&mut self)
        ensures
            final(self)@ == Some(
                match old(self)@ {
                    Some(i) => if i > 0 { (i - 1) as usize } else { 0 },
                    None => 0,
                },
            ),
    {
        let current = match self.selected {
            Some(i) => i,
            None => 0,
        };
        let previous = if current > 0 {
            current - 1
        } else {
            0
        };
        self.selected = Some(previous);
    }
}

/// The link-strength gauge shown for a link state.
pub open spec fn signal_text(status: ConnectionStatus) -> Seq<char> {
    match status {
        ConnectionStatus::Connected => "▁▃▅▇"@,
        ConnectionStatus::Connecting => "▁▃▅░"@,
        ConnectionStatus::Disconnected => "▁░░░"@,
        ConnectionStatus::Lost => "░░░░"@,
    }
}

/// The link-strength gauge shown for a link state.
pub fn signal_bar(status: &ConnectionStatus) -> (bar: &'static str)
    ensures
        bar@ == signal_text(*status),
{
    match status {
        ConnectionStatus::Connected => "▁▃▅▇",
        ConnectionStatus::Connecting => "▁▃▅░",
        ConnectionStatus::Disconnected => "▁░░░",
        ConnectionStatus::Lost => "░░░░",
    }
}

/// The label shown for a drone's current task.
pub open spec fn task_text(task: Option<TaskKind>) -> Seq<char> {
    match task {
        Some(TaskKind::Takeoff) => "TAKEOFF"@,
        Some(TaskKind::FlyTo) => "FLY TO"@,
        Some(TaskKind::ReturnHome) => "RETURN HOME"@,
        Some(TaskKind::Land) => "LAND"@,
        Some(TaskKind::Hold) => "HOLD"@,
        None => "IDLE"@,
    }
}

/// The label shown for a drone's current task.
pub fn format_task(task: Option<TaskKind>) -> (label: &'static str)
    ensures
        label@ == task_text(task),
{
    match task {
        Some(TaskKind::Takeoff) => "TAKEOFF",
        Some(TaskKind::FlyTo) => "FLY TO",
        Some(TaskKind::ReturnHome) => "RETURN HOME",
        Some(TaskKind::Land) => "LAND",
        Some(TaskKind::Hold) => "HOLD",
        None => "IDLE",
    }
}

/// How a flight mode is coloured in the fleet list.
#[derive(Debug, Clone, Copy, PartialEq, Eq, Structural)]
pub enum PhaseTone {
    /// Descending or heading home.
    Caution,
    /// On the ground.
    Muted,
    /// Any other mode.
    Accent,
}

/// How a flight mode is coloured in the fleet list.
pub fn phase_tone(mode: FlightMode) -> (tone: PhaseTone)
    ensures
        tone == match mode {
            FlightMode::Landing | FlightMode::ReturnToHome => PhaseTone::Caution,
            FlightMode::Idle => PhaseTone::Muted,
            _ => PhaseTone::Accent,
        },
{
    match mode {
        FlightMode::Landing | FlightMode::ReturnToHome => PhaseTone::Caution,
        FlightMode::Idle => PhaseTone::Muted,
        _ => PhaseTone::Accent,
    }
}

/// How a task shows in the selected drone's task queue.
#[derive(Debug, Clone, Copy, PartialEq, Eq, Structural)]
pub enum TaskMarker {
    /// Done: before the current task, or the current one of a finished drone.
    Completed,
    /// The task the drone is working on.
    Active,
    /// Still to come.
    Pending,
}

/// The marker of task `index` of a drone whose current task is `current`.
pub open spec fn marker_for(index: int, current: int, finished: bool) -> TaskMarker {
    if index < current || (finished && index == current) {
        TaskMarker::Completed
    } else if index == current {
        TaskMarker::Active
    } else {
        TaskMarker::Pending
    }
}

/// How many rows the task queue shows at most.
pub const TASK_QUEUE_ROWS: usize = 4;

/// The first task the queue shows: the one before the current task, if any.
pub open spec fn queue_start(current: usize) -> int {
    if current == 0 {
        0
    } else {
        current - 1
    }
}

/// The rows of the selected drone's task queue, out of `task_count` tasks:
/// from the task before the current one, at most `TASK_QUEUE_ROWS` of them,
/// each with its index and marker (see `marker_for`).
pub fn task_queue_rows(task_count: usize, current: usize, finished: bool) -> (rows: Vec<(usize, TaskMarker)>)
    ensures
        rows@.len() == if queue_start(current) < task_count {
            if task_count - queue_start(current) < TASK_QUEUE_ROWS {
                task_count - queue_start(current)
            } else {
                TASK_QUEUE_ROWS as int
            }
        } else {
            0
        },
        forall|k: int|
            0 <= k < rows@.len() ==> (#[trigger] rows@[k]).0 == queue_start(current) + k && rows@[k].1
                == marker_for(queue_start(current) + k, current as int, finished),
{
    let start: usize = if current == 0 {
        0
    } else {
        current - 1
    };
    let mut rows: Vec<(usize, TaskMarker)> = Vec::new();
    let mut index: usize = start;
    while index < task_count && rows.len() < TASK_QUEUE_ROWS
        invariant
            start == queue_start(current),
            start <= index,
            index <= task_count || index == start,
            rows@.len() == index - start,
            rows@.len() <= TASK_QUEUE_ROWS,
            forall|k: int|
                0 <= k < rows@.len() ==> (#[trigger] rows@[k]).0 == start + k && rows@[k].1 == marker_for(
                    start + k,
                    current as int,
                    finished,
                ),
        decreases task_count - index,
    {
        let marker = if index < current || (finished && index == current) {
            TaskMarker::Completed
        } else if index == current {
            TaskMarker::Active
        } else {
            TaskMarker::Pending
        };
        rows.push((index, marker));
        index = index + 1;
    }
    rows
}

/// A key press, as the interface tells them apart.
#[derive(Debug, Clone, Copy, PartialEq, Eq, Structural)]
pub enum Key {
    Char(char),
    Enter,
    Esc,
    Up,
    Down,
    Other,
}

/// What a key press on the start screen asks for.
#[derive(Debug, Clone, Copy, PartialEq, Eq, Structural)]
pub enum HomeAction {
    /// Start the mission at this position of the list.
    StartMission(usize),
    /// Nothing beyond what the navigator itself recorded.
    Nothing,
}

/// What a key press during a simulation asks for.
#[derive(Debug, Clone, Copy, PartialEq, Eq, Structural)]
pub enum SessionAction {
    /// Stop the running simulation and go back to the start screen.
    StopMission,
    Pause,
    Resume,
    PreviousDrone,
    NextDrone,
    Nothing,
}

/// The start-screen state: which mission is highlighted, and whether the
/// user asked to quit.
pub struct Navigator {
    pub selected_mission: usize,
    pub should_quit: bool,
}

impl Navigator {
    /// The first mission is highlighted.
    pub fn new() -> (navigator: Self)
        ensures
            navigator.selected_mission == 0,
            !navigator.should_quit,
    {
        Navigator { selected_mission: 0, should_quit: false }
    }

    /// On the start screen `q` quits, Enter starts the highlighted mission,
    /// and the arrow keys move the highlight within the list.
    pub fn home_key(&mut self, key: Key) -> (action: HomeAction)
        ensures
            old(self).selected_mission < MISSION_COUNT ==> final(self).selected_mission < MISSION_COUNT,
            old(self).should_quit ==> final(self).should_quit,
            action matches HomeAction::StartMission(i) ==> i == old(self).selected_mission,
            key == Key::Char('q') ==> final(self).should_quit && final(self).selected_mission == old(
                self,
            ).selected_mission && action == HomeAction::Nothing,
            key == Key::Enter ==> *final(self) == *old(self) && action == HomeAction::StartMission(
                old(self).selected_mission,
            ),
            key == Key::Up ==> final(self).should_quit == old(self).should_quit
                && final(self).selected_mission == (if old(self).selected_mission > 0 {
                old(self).selected_mission - 1
            } else {
                0
            }) && action == HomeAction::Nothing,
            key == Key::Down ==> final(self).should_quit == old(self).should_quit
                && final(self).selected_mission == (if old(self).selected_mission + 1 < MISSION_COUNT {
                old(self).selected_mission + 1
            } else {
                MISSION_COUNT - 1
            }) && action == HomeAction::Nothing,
            key != Key::Char('q') && key != Key::Enter && key != Key::Up && key != Key::Down
                ==> *final(self) == *old(self) && action == HomeAction::Nothing,
    {
        match key {
            Key::Char('q') => {
                self.should_quit = true;
                HomeAction::Nothing
            },
            Key::Enter => HomeAction::StartMission(self.selected_mission),
            Key::Up => {
                if self.selected_mission > 0 {
                    self.selected_mission = self.selected_mission - 1;
                }
                HomeAction::Nothing
            },
            Key::Down => {
                if self.selected_mission < MISSION_COUNT - 1 {
                    self.selected_mission = self.selected_mission + 1;
                } else {
                    self.selected_mission = MISSION_COUNT - 1;
                }
                HomeAction::Nothing
            },
            _ => HomeAction::Nothing,
        }
    }

    /// During a simulation `q` stops it and quits, Esc stops it, the space
    /// bar pauses or resumes, and the arrow keys move the drone selection.
    pub fn session_key(&mut self, key: Key, paused: bool) -> (action: SessionAction)
        ensures
            final(self).selected_mission == old(self).selected_mission,
            final(self).should_quit == (old(self).should_quit || key == Key::Char('q')),
            action == match key {
                Key::Char('q') | Key::Esc => SessionAction::StopMission,
                Key::Char(' ') => if paused {
                    SessionAction::Resume
                } else {
                    SessionAction::Pause
                },
                Key::Up => SessionAction::PreviousDrone,
                Key::Down => SessionAction::NextDrone,
                _ => SessionAction::Nothing,
            },
    {
        match key {
            Key::Char('q') => {
                self.should_quit = true;
                SessionAction::StopMission
            },
            Key::Esc => SessionAction::StopMission,
            Key::Char(' ') => if paused {
                SessionAction::Resume
            } else {
                SessionAction::Pause
            },
            Key::Up => SessionAction::PreviousDrone,
            Key::Down => SessionAction::NextDrone,
            _ => SessionAction::Nothing,
        }
    }
}

} // verus!
