use access_control::access::{AccessControl, Identity};
use access_control::role::Role;

fn id(value: u64) -> Identity {
    Identity { value }
}

#[test]
fn test_emergency_mode_defaults_to_false() {
    let ac = AccessControl::new();
    assert!(!ac.get_emergency_mode());
}

#[test]
fn test_emergency_mode_setter_getter() {
    let mut ac = AccessControl::new();
    ac.set_emergency_mode(true);
    assert!(ac.get_emergency_mode());
    ac.set_emergency_mode(false);
    assert!(!ac.get_emergency_mode());
}

#[test]
fn test_emergency_mode_idempotent_and_role_independent() {
    let user = id(4);
    let mut ac = AccessControl::new();

    ac.set_emergency_mode(true);
    ac.set_emergency_mode(true);
    assert!(ac.get_emergency_mode());

    ac.set_role_address(Role::RewardsAdmin, user).unwrap();
    assert!(ac.get_emergency_mode());

    ac.set_role_addresses(Role::EmergencyPauseAdmin, vec![user])
        .unwrap();
    assert!(ac.get_emergency_mode());
}

#[test]
fn test_emergency_mode_toggle_sequence() {
    let mut ac = AccessControl::new();
    let initial = ac.get_emergency_mode();

    ac.set_emergency_mode(!initial);
    assert_eq!(ac.get_emergency_mode(), !initial);

    ac.set_emergency_mode(initial);
    assert_eq!(ac.get_emergency_mode(), initial);
}
