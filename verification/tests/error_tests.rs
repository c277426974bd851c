use sidecar_supervisor::error::{LaunchError, SupervisorError};

#[test]
fn fatal_errors_are_the_ones_that_abort_startup() {
    assert!(SupervisorError::DataDirUnavailable.is_fatal());
    assert!(SupervisorError::Launch(LaunchError::ExecutableNotFound).is_fatal());
    assert!(SupervisorError::Launch(LaunchError::SpawnFailed).is_fatal());
    assert!(!SupervisorError::DataDirNotCreated.is_fatal());
    assert!(!SupervisorError::RegistryOverwritten.is_fatal());
    assert!(!SupervisorError::ProbeTimeout { deadline_ms: 20_000 }.is_fatal());
    assert!(!SupervisorError::TerminationError.is_fatal());
}

#[test]
fn messages() {
    assert_eq!(SupervisorError::DataDirUnavailable.message(), "app data dir unavailable");
    assert_eq!(
        SupervisorError::DataDirNotCreated.message(),
        "app data dir could not be created"
    );
    assert_eq!(
        SupervisorError::Launch(LaunchError::ExecutableNotFound).message(),
        "node sidecar not configured — see desktop/README.md"
    );
    assert_eq!(
        SupervisorError::Launch(LaunchError::SpawnFailed).message(),
        "Failed to spawn Next.js server"
    );
    assert_eq!(
        SupervisorError::RegistryOverwritten.message(),
        "a running server was overwritten in the registry"
    );
    assert_eq!(
        SupervisorError::TerminationError.message(),
        "failed to terminate the Next.js server"
    );
}

#[test]
fn timeout_message_names_the_deadline_in_seconds() {
    assert_eq!(
        SupervisorError::ProbeTimeout { deadline_ms: 20_000 }.message(),
        "[handai] Next.js server failed to start within 20s"
    );
    assert_eq!(
        SupervisorError::ProbeTimeout { deadline_ms: 1_999 }.message(),
        "[handai] Next.js server failed to start within 1s"
    );
    assert_eq!(
        SupervisorError::ProbeTimeout { deadline_ms: 0 }.message(),
        "[handai] Next.js server failed to start within 0s"
    );
}
