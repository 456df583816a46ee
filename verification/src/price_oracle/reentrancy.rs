//! Re-entrancy guard for sensitive governance functions: a lock flag that
//! must be free to enter and is set while the guarded code runs.

use vstd::prelude::*;
use super::types::Error;

verus! {

/// Storage key of the lock flag.
#[derive(Clone, Copy, Debug, PartialEq, Eq, Structural)]
pub enum LockKey {
    ReentrancyLock,
}

/// Acquires the lock; fails with `ReentrancyDetected` when it is held.
pub fn acquire_lock(locked: &mut bool) -> (r: Result<(), Error>)
    ensures
        *old(locked) ==> r == Err::<(), Error>(Error::ReentrancyDetected) && *final(locked),
        !*old(locked) ==> r == Ok::<(), Error>(()) && *final(locked),
{
    if *locked {
        return Err(Error::ReentrancyDetected);
    }
    *locked = true;
    Ok(())
}

/// Releases the lock.
pub fn release_lock(locked: &mut bool)
    ensures
        !*final(locked),
{
    *locked = false;
}

} // verus!
