//! Aerodynamic state and effect composition for a rigid body in an
//! atmosphere: wind and density sampling, the air state (angle of attack,
//! sideslip, airspeed, dynamic pressure), and the aggregation of pluggable
//! force and torque sources into one simulation step.

pub mod scalar;
pub mod aero;
pub mod effectors;
pub mod constantwind;
pub mod powerwind;

pub use aero::{AeroBody, AirState, DensityModel, Frame, RigidBody, StandardDensity, WindModel};
pub use constantwind::ConstantWind;
pub use effectors::{AeroEffect, AffectedBody};
pub use powerwind::PowerWind;
pub use scalar::{Matrix3, Quaternion, Real, StateVector, Vector3};
