//! A discrete-time PID controller, verified with Verus.
//!
//! [`PID`] holds the gains, the bounds and the recurrence state; its
//! [`PID::step`] advances it by one sample. The arithmetic is that of any
//! number type that implements [`Scalar`]. The module [`laws`] states what
//! holds of every controller.

pub mod laws;
pub mod pid;
pub mod scalar;

pub use pid::{BoundsError, PidModel, PID};
pub use scalar::Scalar;
