//! The failures a session can meet, and which of them end it.

use vstd::prelude::*;
use vstd::string::*;
use crate::text::{decimal, decimal_digits};

verus! {

/// Why the service process could not be started.
#[derive(Clone, Copy, Debug, PartialEq, Eq, Structural)]
pub enum LaunchError {
    /// The service executable could not be resolved.
    ExecutableNotFound,
    /// The executable was resolved but the system did not start it.
    SpawnFailed,
}

/// Everything that can go wrong in a session.
#[derive(Clone, Copy, Debug, PartialEq, Eq, Structural)]
pub enum SupervisorError {
    /// The platform offers no application data directory.
    DataDirUnavailable,
    /// The application data directory could not be created.
    DataDirNotCreated,
    /// The service process could not be started.
    Launch(LaunchError),
    /// A handle was stored in a registry slot that still held one.
    RegistryOverwritten,
    /// The service did not become reachable within the deadline, given in
    /// milliseconds.
    ProbeTimeout { deadline_ms: u64 },
    /// The request to terminate the service process failed.
    TerminationError,
}

/// The diagnostic text of an error.
pub open spec fn message_text(error: SupervisorError) -> Seq<char> {
    match error {
        SupervisorError::DataDirUnavailable => "app data dir unavailable"@,
        SupervisorError::DataDirNotCreated => "app data dir could not be created"@,
        SupervisorError::Launch(LaunchError::ExecutableNotFound) =>
            "node sidecar not configured — see desktop/README.md"@,
        SupervisorError::Launch(LaunchError::SpawnFailed) => "Failed to spawn Next.js server"@,
        SupervisorError::RegistryOverwritten => "a running server was overwritten in the registry"@,
        SupervisorError::ProbeTimeout { deadline_ms } =>
            "[handai] Next.js server failed to start within "@ + decimal_digits(
                (deadline_ms / 1000) as nat,
            ) + "s"@,
        SupervisorError::TerminationError => "failed to terminate the Next.js server"@,
    }
}

impl SupervisorError {
    /// Whether the error ends the session. Without a data directory or a
    /// running service there is nothing to show, so startup is abandoned; a
    /// directory that could not be created, an overwritten registry slot, a
    /// probe that ran out of time and a failed termination are reported and
    /// the session goes on.
    pub open spec fn fatal(self) -> bool {
        self is DataDirUnavailable || self is Launch
    }

    /// Whether the error ends the session.
    pub fn is_fatal(&self) -> (fatal: bool)
        ensures
            fatal == self.fatal(),
    {
        match self {
            SupervisorError::DataDirUnavailable => true,
            SupervisorError::Launch(_) => true,
            SupervisorError::DataDirNotCreated => false,
            SupervisorError::RegistryOverwritten => false,
            SupervisorError::ProbeTimeout { .. } => false,
            SupervisorError::TerminationError => false,
        }
    }

    /// The diagnostic text to show or log for the error.
    pub fn message(&self) -> (text: String)
        ensures
            text@ == message_text(*self),
    {
        match self {
            SupervisorError::DataDirUnavailable => String::from_str("app data dir unavailable"),
            SupervisorError::DataDirNotCreated => String::from_str(
                "app data dir could not be created",
            ),
            SupervisorError::Launch(LaunchError::ExecutableNotFound) => String::from_str(
                "node sidecar not configured — see desktop/README.md",
            ),
            SupervisorError::Launch(LaunchError::SpawnFailed) => String::from_str(
                "Failed to spawn Next.js server",
            ),
            SupervisorError::RegistryOverwritten => String::from_str(
                "a running server was overwritten in the registry",
            ),
            SupervisorError::ProbeTimeout { deadline_ms } => {
                let seconds: u64 = *deadline_ms / 1000;
                let mut text = String::from_str("[handai] Next.js server failed to start within ");
                let numeral = decimal(seconds);
                text.append(numeral.as_str());
                text.append("s");
                text
            },
            SupervisorError::TerminationError => String::from_str(
                "failed to terminate the Next.js server",
            ),
        }
    }
}

} // verus!
