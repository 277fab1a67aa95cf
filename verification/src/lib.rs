//! Closed-loop motor controller core for a two-thruster vessel.
//!
//! The crate provides the concurrency and control substrate of the
//! controller: a single-writer/multi-reader shared cell for passing the
//! latest sensor reading, setpoint and tunable gain between tasks
//! (`write_once`), a PID controller with integral anti-windup and output
//! clamping (`pid`), a bounded error-history buffer for diagnostics
//! (`history`), and the per-tick logic of the fixed-frequency control loop
//! that ties them together (`control`).
//!
//! All control arithmetic is done in a fixed-point representation
//! (`fixed`): a signed 64-bit integer counting thousandths, so that every
//! step of the controller has an exact, machine-checked description.

pub mod control;
pub mod fixed;
pub mod history;
pub mod pid;
pub mod write_once;
