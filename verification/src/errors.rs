use vstd::prelude::*;

use crate::state::FlightMode;
use crate::task::TaskKind;

verus! {

/// Why a mission description was rejected.
#[derive(Debug)]
pub enum MissionIssue {
    EmptyName,
    NoGroups,
    NoDrones { group_index: usize, group: String },
    NoTasks { group_index: usize, group: String },
    InvalidTargetAltitude { group_index: usize, task_index: usize, group: String },
    InvalidTransition { group_index: usize, task_index: usize, task: TaskKind, mode: FlightMode, group: String },
}

/// A `MissionIssue` with its texts taken as character sequences.
pub ghost enum MissionIssueView {
    EmptyName,
    NoGroups,
    NoDrones { group_index: usize, group: Seq<char> },
    NoTasks { group_index: usize, group: Seq<char> },
    InvalidTargetAltitude { group_index: usize, task_index: usize, group: Seq<char> },
    InvalidTransition { group_index: usize, task_index: usize, task: TaskKind, mode: FlightMode, group: Seq<char> },
}

impl View for MissionIssue {
    type V = MissionIssueView;

    open spec fn view(&self) -> MissionIssueView {
        match self {
            MissionIssue::EmptyName => MissionIssueView::EmptyName,
            MissionIssue::NoGroups => MissionIssueView::NoGroups,
            MissionIssue::NoDrones { group_index, group } => MissionIssueView::NoDrones {
                group_index: *group_index,
                group: group@,
            },
            MissionIssue::NoTasks { group_index, group } => MissionIssueView::NoTasks {
                group_index: *group_index,
                group: group@,
            },
            MissionIssue::InvalidTargetAltitude { group_index, task_index, group } =>
                MissionIssueView::InvalidTargetAltitude {
                    group_index: *group_index,
                    task_index: *task_index,
                    group: group@,
                },
            MissionIssue::InvalidTransition { group_index, task_index, task, mode, group } =>
                MissionIssueView::InvalidTransition {
                    group_index: *group_index,
                    task_index: *task_index,
                    task: *task,
                    mode: *mode,
                    group: group@,
                },
        }
    }
}

/// Errors of the simulator's control logic.
#[derive(Debug)]
pub enum AerisError {
    /// An action was requested in a link state that does not allow it.
    UnexeptbleState { action: String, state: String },
    /// A flight-mode change that the flight-mode machine does not allow.
    InvalidFlightModeTransition { from: String, to: String },
    /// A mission names a drone type that the catalog lacks.
    DroneTypeNotFound(String),
    /// A mission description is not flyable.
    InvalidMission(MissionIssue),
    /// A failure injected into a drone on purpose.
    SimulatedDroneFailure(String),
}

/// An `AerisError` with its texts taken as character sequences.
pub ghost enum AerisErrorView {
    UnexeptbleState { action: Seq<char>, state: Seq<char> },
    InvalidFlightModeTransition { from: Seq<char>, to: Seq<char> },
    DroneTypeNotFound(Seq<char>),
    InvalidMission(MissionIssueView),
    SimulatedDroneFailure(Seq<char>),
}

impl View for AerisError {
    type V = AerisErrorView;

    open spec fn view(&self) -> AerisErrorView {
        match self {
            AerisError::UnexeptbleState { action, state } =>
                AerisErrorView::UnexeptbleState { action: action@, state: state@ },
            AerisError::InvalidFlightModeTransition { from, to } =>
                AerisErrorView::InvalidFlightModeTransition { from: from@, to: to@ },
            AerisError::DroneTypeNotFound(name) => AerisErrorView::DroneTypeNotFound(name@),
            AerisError::InvalidMission(issue) => AerisErrorView::InvalidMission(issue@),
            AerisError::SimulatedDroneFailure(name) => AerisErrorView::SimulatedDroneFailure(name@),
        }
    }
}

} // verus!
