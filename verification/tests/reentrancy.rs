use kora::errors::KoraError;
use kora::reentrancy::{acquire_guard, is_locked, release_guard, GuardStorage, ReentrancyGuard};

#[test]
fn test_acquire_succeeds_when_unlocked() {
    let mut storage = GuardStorage::new();
    assert!(acquire_guard(&mut storage).is_ok());
    release_guard(&mut storage);
}

#[test]
fn test_acquire_fails_when_locked() {
    let mut storage = GuardStorage::new();
    acquire_guard(&mut storage).unwrap();
    let result = acquire_guard(&mut storage);
    assert_eq!(result.unwrap_err(), KoraError::Reentrancy);
    release_guard(&mut storage);
}

#[test]
fn test_release_allows_reacquire() {
    let mut storage = GuardStorage::new();
    acquire_guard(&mut storage).unwrap();
    release_guard(&mut storage);
    assert!(acquire_guard(&mut storage).is_ok());
    release_guard(&mut storage);
}

#[test]
fn test_is_locked_reflects_state() {
    let mut storage = GuardStorage::new();
    assert!(!is_locked(&storage));
    acquire_guard(&mut storage).unwrap();
    assert!(is_locked(&storage));
    release_guard(&mut storage);
    assert!(!is_locked(&storage));
}

#[test]
fn test_double_acquire_returns_reentrancy_error() {
    let mut storage = GuardStorage::new();
    acquire_guard(&mut storage).unwrap();
    let err = acquire_guard(&mut storage).unwrap_err();
    assert_eq!(err, KoraError::Reentrancy);
    release_guard(&mut storage);
}

#[test]
fn test_release_without_acquire_is_safe() {
    let mut storage = GuardStorage::new();
    release_guard(&mut storage);
    assert!(acquire_guard(&mut storage).is_ok());
    release_guard(&mut storage);
}

#[test]
fn test_raii_guard_acquires_and_releases() {
    let mut storage = GuardStorage::new();
    {
        let guard = ReentrancyGuard::new(&mut storage).unwrap();
        assert!(is_locked(&storage));
        assert!(ReentrancyGuard::new(&mut storage).is_err());
        guard.drop(&mut storage);
    }
    assert!(!is_locked(&storage));
    assert!(acquire_guard(&mut storage).is_ok());
    release_guard(&mut storage);
}

#[test]
fn refused_acquire_keeps_the_lock() {
    let mut storage = GuardStorage::new();
    acquire_guard(&mut storage).unwrap();
    assert!(acquire_guard(&mut storage).is_err());
    assert!(is_locked(&storage));
}
