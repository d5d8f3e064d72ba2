//! Control logic of a drone-fleet mission simulator: flight-mode and link
//! state machines, mission validation, task sequencing, fleet coordination and
//! the decisions behind the terminal interface.

pub mod state;
pub mod task;
pub mod errors;
pub mod ids;
pub mod drone;
pub mod mission;
pub mod text;
pub mod validator;
pub mod commands;
pub mod fleet;
pub mod control;
pub mod ui;
pub mod setup;
pub mod config;
