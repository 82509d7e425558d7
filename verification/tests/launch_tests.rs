use apppy_launcher::launch::{
    launch_spec_for, plan_launch, spawn_result, InstallRoot, LaunchError, OsFamily,
    CREATE_NO_WINDOW,
};
use apppy_launcher::paths::TargetEnv;

fn env(arch: &str, os: &str, env: &str) -> TargetEnv {
    TargetEnv { arch: arch.to_string(), os: os.to_string(), env: env.to_string() }
}

#[test]
fn windows_spec_suppresses_console_window() {
    let spec = launch_spec_for("srv.exe".to_string(), OsFamily::Windows);
    assert_eq!(spec.creation_flags, Some(CREATE_NO_WINDOW));
    assert_eq!(spec.creation_flags, Some(0x08000000));
    assert!(!spec.stdout_null);
    assert!(!spec.stderr_null);
    assert_eq!(spec.program, "srv.exe");
}

#[test]
fn unix_spec_redirects_streams_to_null() {
    let spec = launch_spec_for("srv".to_string(), OsFamily::Unix);
    assert_eq!(spec.creation_flags, None);
    assert!(spec.stdout_null);
    assert!(spec.stderr_null);
    assert_eq!(spec.program, "srv");
}

#[test]
fn other_family_spec_is_plain() {
    let spec = launch_spec_for("srv".to_string(), OsFamily::Other);
    assert_eq!(spec.creation_flags, None);
    assert!(!spec.stdout_null);
    assert!(!spec.stderr_null);
}

#[test]
fn plan_launch_builds_full_windows_spec() {
    let t = env("x86_64", "windows", "msvc");
    let root = InstallRoot::Found("C:/Program Files/App".to_string());
    let spec = plan_launch(&root, &t, OsFamily::Windows).unwrap();
    assert_eq!(
        spec.program,
        "C:/Program Files/App/_up_/backend/apppy/apppy-x86_64-pc-windows-msvc.exe"
    );
    assert_eq!(spec.creation_flags, Some(CREATE_NO_WINDOW));
}

#[test]
fn plan_launch_builds_full_unix_spec() {
    let t = env("aarch64", "linux", "gnu");
    let root = InstallRoot::Found("/opt/app".to_string());
    let spec = plan_launch(&root, &t, OsFamily::Unix).unwrap();
    assert_eq!(
        spec.program,
        "/opt/app/_up_/backend/apppy/apppy-aarch64-pc-linux-gnu"
    );
    assert_eq!(spec.creation_flags, None);
    assert!(spec.stdout_null && spec.stderr_null);
}

#[test]
fn missing_executable_path_is_fatal() {
    let t = env("x86_64", "linux", "gnu");
    let r = plan_launch(&InstallRoot::NoExecutablePath, &t, OsFamily::Unix);
    assert_eq!(r.err(), Some(LaunchError::NoExecutablePath));
}

#[test]
fn missing_parent_dir_is_fatal() {
    let t = env("x86_64", "linux", "gnu");
    let r = plan_launch(&InstallRoot::NoParentDir, &t, OsFamily::Unix);
    assert_eq!(r.err(), Some(LaunchError::NoParentDir));
}

#[test]
fn failed_spawn_is_an_error_never_a_silent_no_op() {
    let r = spawn_result(false);
    assert_eq!(r, Err(LaunchError::SpawnFailed));
    assert!(spawn_result(true).is_ok());
}

#[test]
fn error_messages_are_descriptive() {
    assert_eq!(
        LaunchError::NoExecutablePath.message(),
        "Failed to get current executable path"
    );
    assert_eq!(LaunchError::NoParentDir.message(), "Failed to get parent directory");
    assert_eq!(LaunchError::SpawnFailed.message(), "Failed to start server");
}
