//! Packet codec and link state machine for a robot driver station.
//!
//! The driver station sends fixed-size control packets to the robot
//! controller and decodes the status packets that come back, including
//! their chain of length-prefixed diagnostic records. Nothing in this
//! crate touches a socket, a clock or a thread: those belong to the
//! caller, who is told what to do with them.

pub mod address;
pub mod control;
pub mod driverstation;
pub mod error;
pub mod scheduler;
pub mod status;
pub mod tags;
pub mod wire;
