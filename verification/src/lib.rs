//! Verified core of a Cartesian impedance controller: the torque governor,
//! the mode state machine, the per-cycle decision, and the non-blocking
//! bridge between the control cycle and the services around it.

pub mod binary64;
pub mod governor;
pub mod mode;
pub mod command;
pub mod data;
pub mod bridge;
pub mod controller;
pub mod gains;
pub mod orientation;
pub mod wire;
