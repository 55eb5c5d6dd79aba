//! What the relay loop carries.
use vstd::prelude::*;

verus! {

/// A captured snapshot of monitored data, to be delivered as one unit.
pub trait Observation {}

} // verus!
