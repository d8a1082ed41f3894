//! State orchestration for a real-time, multi-chain inverse-kinematics solve loop.
//!
//! The solver proper (forward kinematics, the objective, the optimizer, the
//! collision world) lives outside this crate. What lives here is everything
//! that happens between those calls: the reference frame that recovery
//! establishes, the resolution of a goal request under absolute and relative
//! modes, the collision check that can block a solve, and the rolling history
//! of committed solutions.
//!
//! Scalars are doubles carried by their 64-bit patterns. The crate stores and
//! moves them and never does arithmetic on them.

pub mod error;
pub mod laws;
pub mod pose;
pub mod solver;
pub mod state;

pub use crate::error::IkError;
pub use crate::pose::{Orientation, Pose, Position};
pub use crate::solver::{RelaxedIK, SolveStep, MAX_ITER};
