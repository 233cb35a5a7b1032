use amaris::biome::BiomeProvider;
use amaris::config_registry::ConfigProvider;
use amaris::error::ConfigError;
use amaris::outcome::{DeleteOutcome, PrereqEnv, RunOutcome, WriteOutcome};

#[test]
fn check_prerequisites_passes_when_environment_is_ready() {
    let env = PrereqEnv { tool_present: true, marker_present: true };
    assert!(BiomeProvider.check_prerequisites(&env).is_ok());
}

#[test]
fn check_prerequisites_reports_missing_tool() {
    let env = PrereqEnv { tool_present: false, marker_present: true };
    let err = BiomeProvider.check_prerequisites(&env).unwrap_err();
    assert!(matches!(err, ConfigError::MissingPrerequisite(_)));
    assert_eq!(err.message(), "Missing prerequisite: bun is required but not found");
}

#[test]
fn check_prerequisites_reports_missing_marker_file() {
    let env = PrereqEnv { tool_present: true, marker_present: false };
    let err = BiomeProvider.check_prerequisites(&env).unwrap_err();
    assert!(matches!(err, ConfigError::MissingPrerequisite(_)));
    assert_eq!(err.message(), "Missing prerequisite: package.json not found!");
}

#[test]
fn install_succeeds_when_both_phases_succeed() {
    let deps = RunOutcome::Completed { exit_success: true, stderr: String::new() };
    let write = WriteOutcome::Written;
    assert!(BiomeProvider.install(&deps, &write).is_ok());
}

#[test]
fn install_reports_launcher_failure_as_dependency_error() {
    let deps = RunOutcome::CouldNotStart("no such command".to_string());
    let write = WriteOutcome::Written;
    let err = BiomeProvider.install(&deps, &write).unwrap_err();
    assert!(matches!(err, ConfigError::DependencyError(_)));
    assert_eq!(err.message(), "Dependency installation failed: no such command");
}

#[test]
fn install_reports_nonzero_exit_as_dependency_error_with_stderr() {
    let deps = RunOutcome::Completed { exit_success: false, stderr: "registry down".to_string() };
    let write = WriteOutcome::Written;
    let err = BiomeProvider.install(&deps, &write).unwrap_err();
    assert_eq!(err.message(), "Dependency installation failed: registry down");
}

#[test]
fn install_reports_failed_write_as_file_write_error() {
    let deps = RunOutcome::Completed { exit_success: true, stderr: String::new() };
    let write = WriteOutcome::WriteFailed("disk full".to_string());
    let err = BiomeProvider.install(&deps, &write).unwrap_err();
    assert!(matches!(err, ConfigError::FileWriteError(_)));
    assert_eq!(err.message(), "Failed to write configuration file: disk full");
}

#[test]
fn remove_with_absent_files_succeeds() {
    let cleanup = vec![DeleteOutcome::Absent];
    let uninstall = RunOutcome::Completed { exit_success: true, stderr: String::new() };
    assert!(BiomeProvider.remove(&cleanup, &uninstall).is_ok());
}

#[test]
fn remove_with_no_files_succeeds() {
    let cleanup: Vec<DeleteOutcome> = Vec::new();
    let uninstall = RunOutcome::Completed { exit_success: true, stderr: String::new() };
    assert!(BiomeProvider.remove(&cleanup, &uninstall).is_ok());
}

#[test]
fn remove_reports_uninstall_failure_as_dependency_error() {
    let cleanup = vec![DeleteOutcome::Deleted];
    let uninstall = RunOutcome::Completed { exit_success: false, stderr: "not installed".to_string() };
    let err = BiomeProvider.remove(&cleanup, &uninstall).unwrap_err();
    assert_eq!(err.message(), "Dependency installation failed: not installed");
}

#[test]
fn remove_reports_both_failures_in_one_error() {
    let cleanup = vec![DeleteOutcome::DeleteFailed("permission denied".to_string())];
    let uninstall = RunOutcome::Completed { exit_success: false, stderr: "not installed".to_string() };
    let err = BiomeProvider.remove(&cleanup, &uninstall).unwrap_err();
    assert!(matches!(err, ConfigError::FileWriteError(_)));
    assert_eq!(
        err.message(),
        "Failed to write configuration file: permission denied; not installed"
    );
}

#[test]
fn error_messages_render_each_kind() {
    assert_eq!(
        ConfigError::AlreadyExists("biome".to_string()).message(),
        "Configuration 'biome' already exists"
    );
    assert_eq!(
        ConfigError::MissingPrerequisite("bun".to_string()).message(),
        "Missing prerequisite: bun"
    );
    assert_eq!(
        ConfigError::FileWriteError("biome.json".to_string()).message(),
        "Failed to write configuration file: biome.json"
    );
    assert_eq!(
        ConfigError::ValidationError("bad schema".to_string()).message(),
        "Configuration validation failed: bad schema"
    );
    assert_eq!(
        ConfigError::DependencyError("exit 1".to_string()).message(),
        "Dependency installation failed: exit 1"
    );
}
