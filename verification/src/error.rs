use vstd::prelude::*;

verus! {

/// Failures of the terminal subsystem.
#[derive(Debug, Clone, PartialEq, Eq)]
pub enum TtyError {
    /// The resource identifier does not name a live descriptor.
    Resource,
    /// A window-size query failed; carries the operating system's error code.
    Io(i32),
    /// Reading or applying a terminal mode failed; carries the errno value.
    Nix(i32),
    /// A failure reported by a collaborating subsystem.
    Other(String),
}

/// Resolves the outcome of a descriptor lookup: a missing descriptor is the
/// resource-not-found error, a present one is handed through.
pub fn resolve_descriptor(found: Option<i32>) -> (r: Result<i32, TtyError>)
    ensures
        r == match found {
            Some(fd) => Ok::<i32, TtyError>(fd),
            None => Err::<i32, TtyError>(TtyError::Resource),
        },
{
    match found {
        Some(fd) => Ok(fd),
        None => Err(TtyError::Resource),
    }
}

/// Maps the status of a read-mode or apply-mode call to the subsystem's
/// error: success stays success, an errno becomes a terminal-control failure.
pub fn control_outcome(status: Result<(), i32>) -> (r: Result<(), TtyError>)
    ensures
        r == match status {
            Ok(_) => Ok::<(), TtyError>(()),
            Err(errno) => Err::<(), TtyError>(TtyError::Nix(errno)),
        },
{
    match status {
        Ok(_) => Ok(()),
        Err(errno) => Err(TtyError::Nix(errno)),
    }
}

} // verus!
