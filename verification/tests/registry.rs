use tessel::error::Error;
use tessel::registry::PinRegistry;

#[test]
fn acquiring_twice_yields_one_success_and_one_busy() {
    let mut registry = PinRegistry::new();
    let first = registry.acquire(3);
    assert!(first.is_ok());
    let second = registry.acquire(3);
    assert_eq!(second.unwrap_err(), Error::PinBusy { index: 3 });
    // Releasing the first capability makes the index acquirable again.
    registry.release(first.unwrap());
    assert!(registry.acquire(3).is_ok());
}

#[test]
fn out_of_range_indices_are_rejected() {
    let mut registry = PinRegistry::new();
    assert_eq!(registry.acquire(8).unwrap_err(), Error::PinOutOfRange { index: 8 });
    assert_eq!(registry.acquire(100).unwrap_err(), Error::PinOutOfRange { index: 100 });
    // The rejection locked nothing.
    for i in 0..8 {
        assert!(!registry.is_locked(i));
    }
}

#[test]
fn acquire_set_grants_in_order() {
    let mut registry = PinRegistry::new();
    let pins = registry.acquire_set(&[5, 2, 7]).unwrap();
    let indices: Vec<usize> = pins.iter().map(|p| p.index()).collect();
    assert_eq!(indices, vec![5, 2, 7]);
    assert!(registry.is_locked(5));
    assert!(registry.is_locked(2));
    assert!(registry.is_locked(7));
    assert!(!registry.is_locked(3));
}

#[test]
fn acquire_set_rolls_back_on_busy() {
    let mut registry = PinRegistry::new();
    let held = registry.acquire(6).unwrap();
    let result = registry.acquire_set(&[5, 6, 7]);
    assert_eq!(result.unwrap_err(), Error::PinBusy { index: 6 });
    // No partial lock set is retained.
    assert!(!registry.is_locked(5));
    assert!(!registry.is_locked(7));
    assert!(registry.is_locked(6));
    registry.release(held);
    assert!(!registry.is_locked(6));
}

#[test]
fn acquire_set_rejects_repeated_indices_atomically() {
    let mut registry = PinRegistry::new();
    let result = registry.acquire_set(&[4, 4]);
    assert_eq!(result.unwrap_err(), Error::PinBusy { index: 4 });
    assert!(!registry.is_locked(4));
}

#[test]
fn acquire_set_rolls_back_on_out_of_range() {
    let mut registry = PinRegistry::new();
    let result = registry.acquire_set(&[1, 9]);
    assert_eq!(result.unwrap_err(), Error::PinOutOfRange { index: 9 });
    assert!(!registry.is_locked(1));
}

#[test]
fn acquire_set_of_nothing_succeeds() {
    let mut registry = PinRegistry::new();
    let pins = registry.acquire_set(&[]).unwrap();
    assert!(pins.is_empty());
}
