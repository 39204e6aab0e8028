//! What a start needs to launch the service: its command line, its working
//! directory, and the errors that end a start before the process runs.

use vstd::prelude::*;
use crate::relay::{stream_name, Stream};
use crate::text::{decimal, decimal_text};

verus! {

/// The launcher that runs the service.
pub const LAUNCHER: &'static str = "uv";

/// The service's entry script, relative to the working directory.
pub const ENTRY_SCRIPT: &'static str = "server/main.py";

/// Why a start ended before the process was running.
#[derive(Clone, Debug)]
pub enum LaunchError {
    /// The current directory could not be read.
    NoCurrentDirectory,
    /// The current directory has no parent to fall back on.
    NoParentDirectory,
    /// The entry script is not where it is expected.
    EntryMissing { working_directory: String, expected_path: String },
    /// The operating system refused to spawn the process.
    SpawnFailed { working_directory: String, reason: String },
    /// One of the process's output streams could not be captured.
    CaptureFailed { stream: Stream },
}

/// The text of a launch error.
pub open spec fn launch_error_text(e: LaunchError) -> Seq<char> {
    match e {
        LaunchError::NoCurrentDirectory => "Failed to get current directory"@,
        LaunchError::NoParentDirectory => "Failed to get parent directory"@,
        LaunchError::EntryMissing { working_directory, expected_path } => ENTRY_SCRIPT@
            + " not found in working directory: "@ + working_directory@ + ". Expected path: "@
            + expected_path@,
        LaunchError::SpawnFailed { working_directory, reason } => "Failed to start server in "@
            + working_directory@ + ": "@ + reason@,
        LaunchError::CaptureFailed { stream } => "Failed to capture "@ + stream_name(stream),
    }
}

impl LaunchError {
    /// The descriptive text returned to the caller.
    pub fn message(&self) -> (r: String)
        ensures
            r@ == launch_error_text(*self),
    {
        match self {
            LaunchError::NoCurrentDirectory => String::from_str("Failed to get current directory"),
            LaunchError::NoParentDirectory => String::from_str("Failed to get parent directory"),
            LaunchError::EntryMissing { working_directory, expected_path } => {
                let mut r = String::from_str(ENTRY_SCRIPT);
                r.append(" not found in working directory: ");
                r.append(working_directory.as_str());
                r.append(". Expected path: ");
                r.append(expected_path.as_str());
                r
            },
            LaunchError::SpawnFailed { working_directory, reason } => {
                let mut r = String::from_str("Failed to start server in ");
                r.append(working_directory.as_str());
                r.append(": ");
                r.append(reason.as_str());
                r
            },
            LaunchError::CaptureFailed { stream } => {
                let mut r = String::from_str("Failed to capture ");
                r.append(stream.name());
                r
            },
        }
    }
}

/// A start that is going ahead: the port it binds and the configured working
/// directory, if one was configured.
#[derive(Clone, Debug)]
pub struct LaunchPlan {
    pub port: u16,
    pub working_directory: Option<String>,
}

impl LaunchPlan {
    /// The program to run.
    pub fn program(&self) -> (r: &'static str)
        ensures
            r@ == LAUNCHER@,
    {
        LAUNCHER
    }

    /// The arguments: run the entry script on the planned port.
    pub fn args(&self) -> (r: Vec<String>)
        ensures
            r@.len() == 4,
            r@[0]@ == "run"@,
            r@[1]@ == ENTRY_SCRIPT@,
            r@[2]@ == "--port"@,
            r@[3]@ == decimal(self.port as nat),
    {
        let mut r: Vec<String> = Vec::new();
        r.push(String::from_str("run"));
        r.push(String::from_str(ENTRY_SCRIPT));
        r.push(String::from_str("--port"));
        r.push(decimal_text(self.port as u64));
        r
    }

    /// The working directory: the configured one, else `fallback`, the parent
    /// of the current directory where there is one.
    pub fn resolve_directory(&self, fallback: Option<String>) -> (r: Result<String, LaunchError>)
        ensures
            match self.working_directory {
                Some(d) => r matches Ok(w) && w@ == d@,
                None => match fallback {
                    Some(f) => r matches Ok(w) && w@ == f@,
                    None => r matches Err(LaunchError::NoParentDirectory),
                },
            },
    {
        match &self.working_directory {
            Some(d) => Ok(d.clone()),
            None => match fallback {
                Some(f) => Ok(f),
                None => Err(LaunchError::NoParentDirectory),
            },
        }
    }
}

/// Fails with `EntryMissing` exactly when the entry script does not exist.
pub fn check_entry(working_directory: String, expected_path: String, exists: bool) -> (r: Result<
    (),
    LaunchError,
>)
    ensures
        exists <==> r is Ok,
        !exists ==> (r matches Err(LaunchError::EntryMissing { working_directory: w, expected_path: p })
            && w@ == working_directory@ && p@ == expected_path@),
{
    if exists {
        Ok(())
    } else {
        Err(LaunchError::EntryMissing { working_directory, expected_path })
    }
}

} // verus!
