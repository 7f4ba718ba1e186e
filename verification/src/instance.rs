//! The lock that keeps a second applet from running in the same session.
use crate::path::{below, join};
use crate::text::{decimal, decimal_text, join2, join4};
use vstd::prelude::*;
use vstd::string::*;

verus! {

/// Where the lock file of a session is: in the session's runtime directory.
pub fn instance_lock_path(runtime_dir: Option<Vec<u8>>) -> (result: Result<Vec<u8>, String>)
    ensures
        match runtime_dir {
            Some(directory) => if directory@.len() > 0 {
                result matches Ok(path) && path@ == below(directory@, "clipboard-applet.lock"@)
            } else {
                result matches Err(message) && message@ == "XDG_RUNTIME_DIR is not set"@
            },
            None => result matches Err(message) && message@ == "XDG_RUNTIME_DIR is not set"@,
        },
{
    match runtime_dir {
        Some(directory) => if directory.is_empty() {
            Err("XDG_RUNTIME_DIR is not set".to_owned())
        } else {
            Ok(join(directory, "clipboard-applet.lock"))
        },
        None => Err("XDG_RUNTIME_DIR is not set".to_owned()),
    }
}

/// A step of taking the lock that failed.
#[derive(Debug, PartialEq, Eq)]
pub enum LockFailure {
    Open(String),
    /// Another process holds the lock.
    Held,
    Lock(String),
    Write(String),
}

/// Says why the lock at `path` could not be taken by the program called `program`.
pub fn lock_failure(failure: LockFailure, program: &str, path: &str) -> (message: String)
    ensures
        message@ == (match failure {
            LockFailure::Open(error) => "failed to open instance lock "@ + path@ + ": "@ + error@,
            LockFailure::Held => program@ + " is already running for this session (lock: "@ + path@
                + ")"@,
            LockFailure::Lock(error) => "failed to lock "@ + path@ + ": "@ + error@,
            LockFailure::Write(error) => "failed to write instance lock "@ + path@ + ": "@ + error@,
        }),
{
    match failure {
        LockFailure::Open(error) => join4(
            "failed to open instance lock ",
            path,
            ": ",
            error.as_str(),
        ),
        LockFailure::Held => join4(
            program,
            " is already running for this session (lock: ",
            path,
            ")",
        ),
        LockFailure::Lock(error) => join4("failed to lock ", path, ": ", error.as_str()),
        LockFailure::Write(error) => join4(
            "failed to write instance lock ",
            path,
            ": ",
            error.as_str(),
        ),
    }
}

/// What the lock file holds: the number of the process that took the lock.
pub fn lock_contents(process: u32) -> (text: String)
    ensures
        text@ == decimal(process as nat) + "\n"@,
{
    join2(decimal_text(process as u128).as_str(), "\n")
}

} // verus!
