//! Directive resolution and execution for a fleet of per-device containers.
//!
//! An operator names a device by its UUID; the engine finds the container that
//! runs the device and adds, restarts or reconfigures it. Every exchange with
//! the container runtime or with a device is a suspension point: the engine is
//! a step function that hands out the next call to make and takes the reply
//! back, so that the decisions are verified and the caller only performs I/O.

pub mod conduct;
pub mod directive;
pub mod discovery;
pub mod endpoint;
pub mod environment;
pub mod identity;
pub mod laws;
pub mod lifecycle;
pub mod outcome;
pub mod registry;
pub mod runtime;
