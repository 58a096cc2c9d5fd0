//! Keeps a reverse proxy's registry in step with the containers on a host.
//!
//! The crate holds the decisions of the companion daemon: which containers
//! to look at, what to make of each inspection, when to wake up, what to tell
//! the service manager, and how the process ends. Everything that blocks or
//! talks to the outside world is left to the caller, who feeds the results
//! back in as events.

use vstd::prelude::*;

pub mod args;
pub mod clock;
pub mod common;
pub mod companion;
pub mod domain_spec;
pub mod error;
pub mod heartbeat;
pub mod inspector;
pub mod merge;
pub mod orchestrator;
pub mod pending;
pub mod publisher;
pub mod refresh;
pub mod wait;

verus! {

/// The version of the companion.
pub const VERSION: &'static str = "0.3.0";

} // verus!
