//! Telemetry relay for an HVAC controller: observations are handed to a
//! delivery sink one at a time, with a blinking light that shows how
//! delivery is going.
pub mod blinkie;
pub mod honeywell_tz4;
pub mod hvac;
pub mod log;
