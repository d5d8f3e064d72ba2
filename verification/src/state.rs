use vstd::prelude::*;

verus! {

/// State of the radio link between the ground station and a drone.
#[derive(Debug, Clone, Copy, PartialEq, Eq, Structural)]
pub enum ConnectionStatus {
    Disconnected,
    Connecting,
    Connected,
    Lost,
}

/// Flight mode of a drone.
#[derive(Debug, Clone, Copy, PartialEq, Eq, Structural)]
pub enum FlightMode {
    Idle,
    Armed,
    Takeoff,
    Hold,
    Mission,
    ReturnToHome,
    Landing,
    Emergency,
}

/// The name under which a link state is reported.
pub open spec fn connection_status_text(status: ConnectionStatus) -> Seq<char> {
    match status {
        ConnectionStatus::Disconnected => "Disconnected"@,
        ConnectionStatus::Connecting => "Connecting"@,
        ConnectionStatus::Connected => "Connected"@,
        ConnectionStatus::Lost => "Lost"@,
    }
}

/// The name under which a flight mode is reported.
pub open spec fn flight_mode_text(mode: FlightMode) -> Seq<char> {
    match mode {
        FlightMode::Idle => "Idle"@,
        FlightMode::Armed => "Armed"@,
        FlightMode::Takeoff => "Takeoff"@,
        FlightMode::Hold => "Hold"@,
        FlightMode::Mission => "Mission"@,
        FlightMode::ReturnToHome => "ReturnToHome"@,
        FlightMode::Landing => "Landing"@,
        FlightMode::Emergency => "Emergency"@,
    }
}

/// Name of a link state, as written in error reports.
pub fn connection_status_name(status: ConnectionStatus) -> (name: String)
    ensures
        name@ == connection_status_text(status),
{
    match status {
        ConnectionStatus::Disconnected => String::from_str("Disconnected"),
        ConnectionStatus::Connecting => String::from_str("Connecting"),
        ConnectionStatus::Connected => String::from_str("Connected"),
        ConnectionStatus::Lost => String::from_str("Lost"),
    }
}

/// Name of a flight mode, as written in error reports and on screen.
pub fn flight_mode_name(mode: FlightMode) -> (name: String)
    ensures
        name@ == flight_mode_text(mode),
{
    match mode {
        FlightMode::Idle => String::from_str("Idle"),
        FlightMode::Armed => String::from_str("Armed"),
        FlightMode::Takeoff => String::from_str("Takeoff"),
        FlightMode::Hold => String::from_str("Hold"),
        FlightMode::Mission => String::from_str("Mission"),
        FlightMode::ReturnToHome => String::from_str("ReturnToHome"),
        FlightMode::Landing => String::from_str("Landing"),
        FlightMode::Emergency => String::from_str("Emergency"),
    }
}

} // verus!
