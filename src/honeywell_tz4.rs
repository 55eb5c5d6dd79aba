//! Zone states reported by a Honeywell TotalZone 4 HVAC controller.
use vstd::prelude::*;

verus! {

/// Whether a zone is calling for heating or cooling.
#[derive(Clone, Copy, Debug, PartialEq, Eq, Structural)]
pub enum Zone {
    Active,
    Inactive,
}

/// The states of the controller's four zones, in order.
#[derive(Clone, Copy, Debug, PartialEq, Eq)]
pub struct Zones(pub [Zone; 4]);

} // verus!
