use sidecar_supervisor::error::SupervisorError;
use sidecar_supervisor::registry::{report_displaced, ProcessRegistry};

#[test]
fn new_registry_is_empty() {
    let registry: ProcessRegistry<u32> = ProcessRegistry::new();
    assert!(!registry.is_occupied());
}

#[test]
fn take_on_empty_slot_returns_none_twice_in_a_row() {
    let mut registry: ProcessRegistry<u32> = ProcessRegistry::new();
    assert_eq!(registry.take(), None);
    assert_eq!(registry.take(), None);
    assert!(!registry.is_occupied());
}

#[test]
fn put_then_take_hands_the_handle_back_once() {
    let mut registry: ProcessRegistry<u32> = ProcessRegistry::new();
    assert_eq!(registry.put(4711), None);
    assert!(registry.is_occupied());
    assert_eq!(registry.take(), Some(4711));
    assert!(!registry.is_occupied());
    assert_eq!(registry.take(), None);
}

#[test]
fn put_on_occupied_slot_returns_the_displaced_handle() {
    let mut registry: ProcessRegistry<String> = ProcessRegistry::new();
    assert_eq!(registry.put(String::from("first")), None);
    assert_eq!(registry.put(String::from("second")), Some(String::from("first")));
    assert!(registry.is_occupied());
    assert_eq!(registry.take(), Some(String::from("second")));
    assert_eq!(registry.take(), None);
}

#[test]
fn registry_holds_zero_or_one_handle_through_any_mix_of_operations() {
    let mut registry: ProcessRegistry<u32> = ProcessRegistry::new();
    let mut taken: Vec<u32> = Vec::new();
    for round in 0..20u32 {
        if round % 3 == 0 {
            if let Some(handle) = registry.take() {
                taken.push(handle);
            }
            assert!(!registry.is_occupied());
        } else {
            registry.put(round);
            assert!(registry.is_occupied());
        }
    }
    // Each take hands out the handle that was put last before it.
    assert_eq!(taken, vec![2, 5, 8, 11, 14, 17]);
}

#[test]
fn overwritten_handle_is_reported_and_not_fatal() {
    let mut registry: ProcessRegistry<u32> = ProcessRegistry::new();
    let displaced = registry.put(1);
    assert_eq!(report_displaced(&displaced), None);
    let displaced = registry.put(2);
    assert_eq!(report_displaced(&displaced), Some(SupervisorError::RegistryOverwritten));
    assert!(!SupervisorError::RegistryOverwritten.is_fatal());
}
