//! Verified core of a USB mouse profile configurator.
//!
//! The library holds everything with real invariants: the bit-exact
//! encoder for the device's 17-byte control reports, the walk of a
//! device's configuration/interface/endpoint descriptor tree, the
//! device-locator decision logic, and the session state machine that
//! guarantees claimed interfaces are released and detached kernel
//! drivers reattached on every exit path. All USB I/O and the command
//! line live outside, in a thin shell that drives the state machine.

pub mod command;
pub mod endpoints;
pub mod locator;
pub mod session;
pub mod report;
