//! Verified core of a supervisor for an anonymity-routing daemon.
//!
//! The library renders the daemon's control-protocol requests, classifies
//! its acknowledgements, recognises the bootstrap marker in its log output,
//! and drives the whole run as a state machine from launch through
//! provisioning to shutdown. All I/O stays outside: callers perform the
//! actions this library asks for and feed the observed events back in.

pub mod config;
pub mod launcher;
pub mod protocol;
pub mod render;
pub mod run;

use vstd::prelude::*;

verus! {

/// A run either ends normally or fails at one of the fixed steps.
#[derive(Clone, Copy, Debug, PartialEq, Eq, Structural)]
pub enum RunError {
    /// The daemon failed to start or never finished bootstrapping.
    LaunchFailure,
    /// The control port could not be reached.
    ConnectionFailure,
    /// The daemon rejected the authenticate command.
    AuthenticationFailure,
    /// A hidden-service request was rejected or the connection dropped.
    ProvisioningFailure,
    /// The dependent command could not be started.
    CommandSpawnFailure,
    /// The daemon did not terminate cleanly.
    ShutdownFailure,
}

} // verus!
