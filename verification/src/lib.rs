//! Supervision of a backend server process: how to launch it, when it is
//! reachable, and how its handle is kept until the application shuts down.
//!
//! The library decides; the host application carries out what was decided
//! (reading the working directory, spawning, connecting, sleeping, killing)
//! and reports back what happened.
//!
//! - [`resolver`] chooses the command that starts the backend.
//! - [`prober`] waits, within bounds, until the backend accepts connections.
//! - [`startup`] runs the two in sequence around the spawn of the backend.
//! - [`store`] keeps the process handle until shutdown takes it out.
//! - [`path`] and [`error`] hold what the others share.

pub mod error;
pub mod path;
pub mod prober;
pub mod resolver;
pub mod startup;
pub mod store;
