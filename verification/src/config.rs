use vstd::prelude::*;

verus! {

/// How many drones of a type a fleet holds.
pub struct FleetConfig {
    pub drone_type: String,
    pub count: usize,
}

/// The make-up of a fleet.
pub struct AppConfig {
    pub fleet: Vec<FleetConfig>,
}

} // verus!
