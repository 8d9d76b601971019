use access_control::access::{AccessControl, Identity};
use access_control::errors::AccessControlError;
use access_control::role::Role;

fn id(value: u64) -> Identity {
    Identity { value }
}

#[test]
fn test_emergency_pause_admin_addresses_single_address_version() {
    let address1 = id(101);
    let address2 = id(102);
    let addresses = vec![address1, address1, address2];

    let mut ac = AccessControl::new();
    ac.set_role_addresses(Role::EmergencyPauseAdmin, addresses)
        .unwrap();

    let result = ac.get_role_addresses(Role::EmergencyPauseAdmin).unwrap();
    println!("Found {} addresses:", result.len());
    for (i, addr) in result.iter().enumerate() {
        println!("  Address {}: {:?}", i + 1, addr);
    }
    assert_eq!(result.len(), 3);
}

#[test]
fn test_single_role_bind_is_exclusive() {
    let first = id(1);
    let second = id(2);
    let mut ac = AccessControl::new();

    ac.set_role_address(Role::OperationsAdmin, first).unwrap();
    assert!(ac.address_has_role(first, Role::OperationsAdmin));

    ac.set_role_address(Role::OperationsAdmin, second).unwrap();
    assert!(!ac.address_has_role(first, Role::OperationsAdmin));
    assert!(ac.address_has_role(second, Role::OperationsAdmin));
}

#[test]
fn test_bind_isolates_other_roles() {
    let admin = id(1);
    let user = id(2);
    let mut ac = AccessControl::new();

    ac.set_role_address(Role::EmergencyAdmin, user).unwrap();
    assert!(!ac.address_has_role(user, Role::RewardsAdmin));
    assert!(!ac.address_has_role(user, Role::Admin));

    ac.set_role_address(Role::Admin, admin).unwrap();
    assert!(ac.address_has_role(user, Role::EmergencyAdmin));
    assert!(!ac.address_has_role(admin, Role::EmergencyAdmin));
    assert!(!ac.address_has_role(user, Role::Admin));
}

#[test]
fn test_single_bind_rejects_multi_role() {
    let user = id(7);
    let mut ac = AccessControl::new();
    assert_eq!(
        ac.set_role_address(Role::EmergencyPauseAdmin, user),
        Err(AccessControlError::WrongRoleKind)
    );
}

#[test]
fn test_multi_bind_rejects_single_roles() {
    let user = id(7);
    let mut ac = AccessControl::new();
    for role in [
        Role::Admin,
        Role::EmergencyAdmin,
        Role::RewardsAdmin,
        Role::OperationsAdmin,
        Role::PauseAdmin,
    ] {
        assert_eq!(
            ac.set_role_addresses(role, vec![user]),
            Err(AccessControlError::WrongRoleKind)
        );
    }
}

#[test]
fn test_multi_bind_replaces_members_and_accepts_empty() {
    let a = id(1);
    let b = id(2);
    let c = id(3);
    let mut ac = AccessControl::new();

    ac.set_role_addresses(Role::EmergencyPauseAdmin, vec![a, b])
        .unwrap();
    assert!(ac.address_has_role(a, Role::EmergencyPauseAdmin));
    assert!(ac.address_has_role(b, Role::EmergencyPauseAdmin));
    assert!(!ac.address_has_role(c, Role::EmergencyPauseAdmin));

    ac.set_role_addresses(Role::EmergencyPauseAdmin, vec![c])
        .unwrap();
    assert!(!ac.address_has_role(a, Role::EmergencyPauseAdmin));
    assert!(!ac.address_has_role(b, Role::EmergencyPauseAdmin));
    assert!(ac.address_has_role(c, Role::EmergencyPauseAdmin));

    ac.set_role_addresses(Role::EmergencyPauseAdmin, Vec::new())
        .unwrap();
    assert!(!ac.address_has_role(c, Role::EmergencyPauseAdmin));
    assert_eq!(ac.get_role_addresses(Role::EmergencyPauseAdmin).unwrap().len(), 0);
}

#[test]
fn test_get_role_unset_fails() {
    let ac = AccessControl::new();
    assert_eq!(
        ac.get_role(Role::OperationsAdmin),
        Err(AccessControlError::RoleUnset)
    );
    assert_eq!(ac.get_role_safe(Role::OperationsAdmin), Ok(None));
}

#[test]
fn test_get_role_kind_mismatch() {
    let ac = AccessControl::new();
    assert_eq!(
        ac.get_role(Role::EmergencyPauseAdmin),
        Err(AccessControlError::WrongRoleKind)
    );
    assert_eq!(
        ac.get_role_safe(Role::EmergencyPauseAdmin),
        Err(AccessControlError::WrongRoleKind)
    );
    assert_eq!(
        ac.get_role_addresses(Role::Admin).err(),
        Some(AccessControlError::WrongRoleKind)
    );
}

#[test]
fn test_init_admin_only_once() {
    let first = id(1);
    let second = id(2);
    let mut ac = AccessControl::new();

    assert_eq!(ac.init_admin(first), Ok(()));
    assert_eq!(ac.get_role(Role::Admin), Ok(first));
    assert_eq!(
        ac.init_admin(second),
        Err(AccessControlError::AlreadyInitialized)
    );
    assert_eq!(ac.get_role(Role::Admin), Ok(first));
}

#[test]
fn test_admin_supremacy_scenario() {
    let a = id(1);
    let u = id(2);
    let mut ac = AccessControl::new();

    ac.init_admin(a).unwrap();
    ac.set_role_address(Role::RewardsAdmin, u).unwrap();

    assert!(ac.has_role(u, Role::RewardsAdmin));
    assert!(!ac.has_role(u, Role::Admin));
    assert!(ac.has_role(a, Role::RewardsAdmin));
}

#[test]
fn test_admin_passes_every_role_check() {
    let a = id(1);
    let mut ac = AccessControl::new();
    ac.init_admin(a).unwrap();
    for role in [
        Role::Admin,
        Role::EmergencyAdmin,
        Role::RewardsAdmin,
        Role::OperationsAdmin,
        Role::PauseAdmin,
        Role::EmergencyPauseAdmin,
    ] {
        assert!(ac.has_role(a, role));
        assert_eq!(ac.assert_address_has_role(a, role), Ok(()));
    }
}

#[test]
fn test_role_check_without_role_fails() {
    let a = id(1);
    let u = id(2);
    let mut ac = AccessControl::new();
    ac.init_admin(a).unwrap();
    assert!(!ac.has_role(u, Role::RewardsAdmin));
    assert_eq!(
        ac.assert_address_has_role(u, Role::RewardsAdmin),
        Err(AccessControlError::Unauthorized)
    );
}

#[test]
fn test_same_address_may_hold_many_roles() {
    let super_admin = id(5);
    let mut ac = AccessControl::new();
    ac.set_role_address(Role::Admin, super_admin).unwrap();
    ac.set_role_address(Role::EmergencyAdmin, super_admin).unwrap();
    ac.set_role_address(Role::RewardsAdmin, super_admin).unwrap();
    assert!(ac.address_has_role(super_admin, Role::Admin));
    assert!(ac.address_has_role(super_admin, Role::EmergencyAdmin));
    assert!(ac.address_has_role(super_admin, Role::RewardsAdmin));
}
