//! The single-instance lock: a marker file whose age decides whether
//! another copy of the application is running.
use vstd::prelude::*;

verus! {

/// A marker younger than this many seconds belongs to a running instance.
pub const LOCK_STALE_AFTER_SECS: u64 = 60;

/// What was found where the marker lives.
#[derive(Clone, Copy, Debug, PartialEq, Eq, Structural)]
pub enum LockObservation {
    /// No regular file there, or its modification time cannot be read.
    NoLock,
    /// The marker was last written this many whole seconds ago.
    AgeSecs(u64),
    /// The marker's modification time lies ahead of the clock.
    FromFuture,
}

#[derive(Clone, Copy, Debug, PartialEq, Eq, Structural)]
pub enum LockError {
    /// A fresh marker exists: another instance runs, and this one must exit.
    AlreadyRunning,
}

/// A marker that another running instance is taken to own.
pub open spec fn is_fresh_lock(obs: LockObservation) -> bool {
    match obs {
        LockObservation::AgeSecs(age) => age < LOCK_STALE_AFTER_SECS,
        _ => false,
    }
}

/// Decides whether this process may take the lock. On `Ok` the caller writes
/// its process identifier into the marker, creating its directories; a stale
/// marker is overwritten that way.
pub fn try_single_instance(obs: LockObservation) -> (r: Result<(), LockError>)
    ensures
        r is Err <==> is_fresh_lock(obs),
        r is Err ==> r == Err::<(), LockError>(LockError::AlreadyRunning),
{
    match obs {
        LockObservation::AgeSecs(age) => {
            if age < LOCK_STALE_AFTER_SECS {
                Err(LockError::AlreadyRunning)
            } else {
                Ok(())
            }
        },
        _ => Ok(()),
    }
}

impl LockError {
    /// The message shown before the process exits.
    pub fn message(&self) -> (r: &'static str)
        ensures
            r@ == "Another instance is already running"@,
    {
        "Another instance is already running"
    }
}

/// Any marker at least a minute old is taken over; any younger one is not.
pub proof fn law_lock_freshness(age_secs: u64)
    ensures
        age_secs >= LOCK_STALE_AFTER_SECS ==> !is_fresh_lock(LockObservation::AgeSecs(age_secs)),
        age_secs < LOCK_STALE_AFTER_SECS ==> is_fresh_lock(LockObservation::AgeSecs(age_secs)),
{
}

} // verus!
