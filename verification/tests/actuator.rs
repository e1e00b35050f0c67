use smart_outlet::actuator::{level_for, ActuatorError, ActuatorGuard, PinLevel};

#[test]
fn level_follows_value() {
    assert_eq!(level_for(true), PinLevel::High);
    assert_eq!(level_for(false), PinLevel::Low);
}

#[test]
fn new_guard_is_unbound() {
    let guard: ActuatorGuard<u8> = ActuatorGuard::new();
    assert!(!guard.is_initialized());
    assert_eq!(guard.get(), None);
}

#[test]
fn set_before_bind_is_a_silent_no_op() {
    let mut guard: ActuatorGuard<u8> = ActuatorGuard::new();
    assert_eq!(guard.set(true), None);
    assert_eq!(guard.get(), None);
    assert!(!guard.is_initialized());
    assert_eq!(guard.set(false), None);
    assert_eq!(guard.get(), None);
    assert!(guard.handle_mut().is_none());
}

#[test]
fn try_set_before_bind_reports_not_initialized() {
    let mut guard: ActuatorGuard<u8> = ActuatorGuard::new();
    assert_eq!(guard.try_set(true), Err(ActuatorError::NotInitialized));
    assert_eq!(guard.get(), None);
}

#[test]
fn early_write_does_not_leak_into_bound_state() {
    let mut guard: ActuatorGuard<u8> = ActuatorGuard::new();
    assert_eq!(guard.set(true), None);
    guard.bind(5);
    assert_eq!(guard.get(), Some(false));
}

#[test]
fn bind_arms_the_output_off() {
    let mut guard: ActuatorGuard<u8> = ActuatorGuard::new();
    guard.bind(5);
    assert!(guard.is_initialized());
    assert_eq!(guard.get(), Some(false));
}

#[test]
fn set_commits_and_drives_the_level() {
    let mut guard: ActuatorGuard<u8> = ActuatorGuard::new();
    guard.bind(5);
    assert_eq!(guard.set(true), Some(PinLevel::High));
    assert_eq!(guard.get(), Some(true));
    assert_eq!(guard.set(false), Some(PinLevel::Low));
    assert_eq!(guard.get(), Some(false));
}

#[test]
fn try_set_on_bound_guard_returns_level() {
    let mut guard: ActuatorGuard<u8> = ActuatorGuard::new();
    guard.bind(5);
    assert_eq!(guard.try_set(true), Ok(PinLevel::High));
    assert_eq!(guard.get(), Some(true));
    assert_eq!(guard.try_set(false), Ok(PinLevel::Low));
    assert_eq!(guard.get(), Some(false));
}

#[test]
fn last_write_wins() {
    let values = [true, false, false, true, true, false, true];
    let mut guard: ActuatorGuard<u8> = ActuatorGuard::new();
    guard.bind(5);
    for (k, value) in values.iter().enumerate() {
        assert_eq!(guard.set(*value), Some(level_for(*value)));
        assert_eq!(guard.get(), Some(values[k]));
    }
    assert_eq!(guard.get(), Some(true));
}

#[test]
fn handle_is_handed_out_for_driving() {
    let mut guard: ActuatorGuard<Vec<PinLevel>> = ActuatorGuard::new();
    guard.bind(Vec::new());
    let action = guard.set(true);
    if let (Some(level), Some(pin)) = (action, guard.handle_mut()) {
        pin.push(level);
    }
    let action = guard.set(false);
    if let (Some(level), Some(pin)) = (action, guard.handle_mut()) {
        pin.push(level);
    }
    assert_eq!(guard.get(), Some(false));
    assert_eq!(guard.handle_mut(), Some(&mut vec![PinLevel::High, PinLevel::Low]));
}
