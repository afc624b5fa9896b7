//! The reentrancy lock of a contract instance.

use vstd::prelude::*;

use crate::errors::KoraError;

verus! {

/// What the lock is stored under.
#[derive(Clone, Copy, Debug, PartialEq, Eq, Structural)]
pub enum GuardKey {
    /// The lock itself: held while present.
    Lock,
}

/// The slot of instance storage that holds the lock.
#[derive(Clone, Copy, Debug, PartialEq, Eq, Structural)]
pub struct GuardStorage {
    pub slot: Option<GuardKey>,
}

impl GuardStorage {
    /// Storage in which the lock is free.
    pub fn new() -> (r: GuardStorage)
        ensures
            !r.locked(),
    {
        GuardStorage { slot: None }
    }

    /// Whether the lock is held.
    pub open spec fn locked(self) -> bool {
        self.slot is Some
    }
}

/// Acquires the lock. Fails with `Reentrancy` if it is held already.
pub fn acquire_guard(storage: &mut GuardStorage) -> (r: Result<(), KoraError>)
    ensures
        final(storage).locked(),
        old(storage).locked() ==> r == Err::<(), KoraError>(KoraError::Reentrancy),
        !old(storage).locked() ==> r is Ok,
{
    if is_locked(storage) {
        return Err(KoraError::Reentrancy);
    }
    storage.slot = Some(GuardKey::Lock);
    Ok(())
}

/// Releases the lock. Safe to call when it is free.
pub fn release_guard(storage: &mut GuardStorage)
    ensures
        !final(storage).locked(),
{
    storage.slot = None;
}

/// Whether the lock is held.
pub fn is_locked(storage: &GuardStorage) -> (r: bool)
    ensures
        r == storage.locked(),
{
    storage.slot.is_some()
}

/// Proof that its owner acquired the lock. Whoever holds one gives it up with
/// `drop`, which releases the lock.
#[derive(Debug)]
pub struct ReentrancyGuard {
    key: GuardKey,
}

impl ReentrancyGuard {
    /// Acquires the lock. Fails with `Reentrancy` if it is held already.
    pub fn new(storage: &mut GuardStorage) -> (r: Result<ReentrancyGuard, KoraError>)
        ensures
            final(storage).locked(),
            r is Ok <==> !old(storage).locked(),
            r matches Err(e) ==> e == KoraError::Reentrancy,
    {
        acquire_guard(storage)?;
        Ok(ReentrancyGuard { key: GuardKey::Lock })
    }

    /// Releases the lock.
    pub fn drop(self, storage: &mut GuardStorage)
        ensures
            !final(storage).locked(),
    {
        release_guard(storage);
    }
}

/// The lock is held exactly while its slot of the storage is filled.
pub proof fn law_lock_is_its_slot(storage: GuardStorage)
    ensures
        storage.slot is Some ==> storage.locked(),
        storage.slot is None ==> !storage.locked(),
{
}

} // verus!
