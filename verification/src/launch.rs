//! Launch planning for the backend executable: the platform-specific
//! process creation flags and the fatal errors of the launch procedure.

use vstd::prelude::*;
use crate::paths::{TargetEnv, backend_path, backend_path_of};

verus! {

/// The Windows process-creation flag that suppresses the console window
/// of the spawned child.
pub const CREATE_NO_WINDOW: u32 = 0x08000000;

/// The family of the host operating system, as far as the launch flags
/// care: the Windows family, the Unix family, or anything else.
#[derive(Clone, Copy, PartialEq, Eq, Structural, Debug)]
pub enum OsFamily {
    Windows,
    Unix,
    Other,
}

/// A child-process launch specification: the program to start and the
/// platform-specific I/O suppression to apply. On Windows the console
/// window is suppressed through a creation flag; on Unix both standard
/// streams are redirected to a null sink.
pub struct LaunchSpec {
    pub program: String,
    pub creation_flags: Option<u32>,
    pub stdout_null: bool,
    pub stderr_null: bool,
}

/// The fatal conditions of the launch procedure. Each aborts the
/// application; there is no retry or fallback.
#[derive(Clone, Copy, PartialEq, Eq, Structural, Debug)]
pub enum LaunchError {
    /// The running executable's own path could not be resolved.
    NoExecutablePath,
    /// The running executable's path has no parent directory.
    NoParentDir,
    /// The backend process could not be started.
    SpawnFailed,
}

/// How the surrounding shell's attempt to resolve the install root ended:
/// either the directory that holds the running executable, or which of
/// the two resolution steps failed.
pub enum InstallRoot {
    Found(String),
    NoExecutablePath,
    NoParentDir,
}

impl LaunchError {
    /// The diagnostic message that the application aborts with.
    pub fn message(&self) -> (r: String)
        ensures
            *self is NoExecutablePath ==> r@ == "Failed to get current executable path"@,
            *self is NoParentDir ==> r@ == "Failed to get parent directory"@,
            *self is SpawnFailed ==> r@ == "Failed to start server"@,
    {
        match self {
            LaunchError::NoExecutablePath => String::from_str(
                "Failed to get current executable path",
            ),
            LaunchError::NoParentDir => String::from_str("Failed to get parent directory"),
            LaunchError::SpawnFailed => String::from_str("Failed to start server"),
        }
    }
}

/// Wraps a program path in a launch specification with the I/O
/// suppression that the family of the host operating system calls for.
pub fn launch_spec_for(program: String, family: OsFamily) -> (r: LaunchSpec)
    ensures
        r.program@ == program@,
        family is Windows ==> r.creation_flags == Some(CREATE_NO_WINDOW) && !r.stdout_null
            && !r.stderr_null,
        family is Unix ==> r.creation_flags is None && r.stdout_null && r.stderr_null,
        family is Other ==> r.creation_flags is None && !r.stdout_null && !r.stderr_null,
{
    match family {
        OsFamily::Windows => LaunchSpec {
            program,
            creation_flags: Some(CREATE_NO_WINDOW),
            stdout_null: false,
            stderr_null: false,
        },
        OsFamily::Unix => LaunchSpec {
            program,
            creation_flags: None,
            stdout_null: true,
            stderr_null: true,
        },
        OsFamily::Other => LaunchSpec {
            program,
            creation_flags: None,
            stdout_null: false,
            stderr_null: false,
        },
    }
}

/// Plans the backend launch: from the resolved install root and the
/// platform, either the full launch specification, or the fatal error of
/// the resolution step that failed. Succeeds exactly when the install
/// root was found.
pub fn plan_launch(root: &InstallRoot, t: &TargetEnv, family: OsFamily) -> (r: Result<
    LaunchSpec,
    LaunchError,
>)
    ensures
        r is Ok <==> *root is Found,
        root matches InstallRoot::Found(d) ==> (r matches Ok(s) && s.program@ == backend_path_of(
            d@,
            t.arch@,
            t.os@,
            t.env@,
        ) && (family is Windows ==> s.creation_flags == Some(CREATE_NO_WINDOW) && !s.stdout_null
            && !s.stderr_null) && (family is Unix ==> s.creation_flags is None && s.stdout_null
            && s.stderr_null) && (family is Other ==> s.creation_flags is None && !s.stdout_null
            && !s.stderr_null)),
        *root is NoExecutablePath ==> r == Err::<LaunchSpec, LaunchError>(
            LaunchError::NoExecutablePath,
        ),
        *root is NoParentDir ==> r == Err::<LaunchSpec, LaunchError>(LaunchError::NoParentDir),
{
    match root {
        InstallRoot::Found(d) => {
            let program = backend_path(d.as_str(), t);
            Ok(launch_spec_for(program, family))
        },
        InstallRoot::NoExecutablePath => Err(LaunchError::NoExecutablePath),
        InstallRoot::NoParentDir => Err(LaunchError::NoParentDir),
    }
}

/// Turns the outcome of the spawn attempt into the launch procedure's
/// result: a failure to start the backend is the fatal `SpawnFailed`
/// error, never a silent success.
pub fn spawn_result(started: bool) -> (r: Result<(), LaunchError>)
    ensures
        r is Ok <==> started,
        !started ==> r == Err::<(), LaunchError>(LaunchError::SpawnFailed),
{
    if started {
        Ok(())
    } else {
        Err(LaunchError::SpawnFailed)
    }
}

} // verus!
