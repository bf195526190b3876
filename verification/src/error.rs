//! Failures of the supervisor, all of which end as warnings.

use vstd::prelude::*;

verus! {

/// What can go wrong while supervising the backend.
///
/// None of these stops the host application: each is reported as a warning
/// and the application carries on.
#[derive(Clone, Copy, Debug, PartialEq, Eq, Structural)]
pub enum SupervisorError {
    /// The working directory, and with it the project root, is unknown.
    Environment,
    /// The backend could not be spawned.
    Spawn,
    /// The backend did not accept a connection within the allowed attempts.
    ReadinessTimeout,
    /// The kill signal could not be delivered.
    Terminate,
}

/// Warning shown when no backend was started by the supervisor.
pub const WARN_NOT_STARTED: &'static str =
    "Warning: Could not start server - assuming it's already running";

/// Warning shown when the backend never became reachable.
pub const WARN_NOT_READY: &'static str = "Warning: Server may not be ready";

/// Warning shown when the backend could not be stopped.
pub const WARN_NOT_STOPPED: &'static str = "Warning: Could not stop server";

/// The warning that stands for each failure.
pub open spec fn warning_text(error: SupervisorError) -> Seq<char> {
    match error {
        SupervisorError::Environment => WARN_NOT_STARTED@,
        SupervisorError::Spawn => WARN_NOT_STARTED@,
        SupervisorError::ReadinessTimeout => WARN_NOT_READY@,
        SupervisorError::Terminate => WARN_NOT_STOPPED@,
    }
}

impl SupervisorError {
    /// The text of the warning to report for this failure.
    pub fn warning(&self) -> (text: String)
        ensures
            text@ == warning_text(*self),
    {
        match self {
            SupervisorError::Environment => WARN_NOT_STARTED.to_owned(),
            SupervisorError::Spawn => WARN_NOT_STARTED.to_owned(),
            SupervisorError::ReadinessTimeout => WARN_NOT_READY.to_owned(),
            SupervisorError::Terminate => WARN_NOT_STOPPED.to_owned(),
        }
    }
}

} // verus!
