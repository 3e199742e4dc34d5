use vstd::prelude::*;

verus! {

/// Why the single-instance guard could not be set up.
#[derive(Debug, PartialEq, Eq)]
pub enum InstanceError {
    /// Another instance of the application holds the lock.
    IsLocked,
    /// Any other failure, with its message.
    Other(String),
}

/// The kinds of file-system event that the lock-file watcher reports.
#[derive(Clone, Copy, Debug, PartialEq, Eq, Structural)]
pub enum WatchEventKind {
    Any,
    Access,
    Create,
    Modify,
    Remove,
    Other,
}

/// Whether a watcher report means that another instance was launched:
/// only an access to the lock file does; failed reports are ignored.
pub fn signals_launch(report: Result<WatchEventKind, ()>) -> (wake: bool)
    ensures
        wake == (report == Ok::<WatchEventKind, ()>(WatchEventKind::Access)),
{
    match report {
        Ok(WatchEventKind::Access) => true,
        _ => false,
    }
}

} // verus!
