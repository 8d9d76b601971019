use access_control::errors::AccessControlError;
use access_control::role::Role;

#[test]
fn test_role_names_round_trip() {
    for role in [
        Role::Admin,
        Role::EmergencyAdmin,
        Role::RewardsAdmin,
        Role::OperationsAdmin,
        Role::PauseAdmin,
        Role::EmergencyPauseAdmin,
    ] {
        let name = role.as_symbol();
        assert_eq!(Role::from_symbol(&name), Ok(role));
    }
}

#[test]
fn test_role_names_are_the_documented_ones() {
    assert_eq!(Role::Admin.as_symbol(), "Admin");
    assert_eq!(Role::EmergencyAdmin.as_symbol(), "EmergencyAdmin");
    assert_eq!(Role::RewardsAdmin.as_symbol(), "RewardsAdmin");
    assert_eq!(Role::OperationsAdmin.as_symbol(), "OperationsAdmin");
    assert_eq!(Role::PauseAdmin.as_symbol(), "PauseAdmin");
    assert_eq!(Role::EmergencyPauseAdmin.as_symbol(), "EmergencyPauseAdmin");
}

#[test]
fn test_unknown_role_name_is_rejected() {
    assert_eq!(
        Role::from_symbol(&"InvalidRole".to_string()),
        Err(AccessControlError::UnknownRole)
    );
    assert_eq!(
        Role::from_symbol(&"admin".to_string()),
        Err(AccessControlError::UnknownRole)
    );
    assert_eq!(
        Role::from_symbol(&"".to_string()),
        Err(AccessControlError::UnknownRole)
    );
}

#[test]
fn test_role_kind_attributes() {
    assert!(Role::Admin.is_single());
    assert!(Role::EmergencyAdmin.is_single());
    assert!(Role::RewardsAdmin.is_single());
    assert!(Role::OperationsAdmin.is_single());
    assert!(Role::PauseAdmin.is_single());
    assert!(!Role::EmergencyPauseAdmin.is_single());

    assert!(Role::Admin.is_transfer_delayed());
    assert!(Role::EmergencyAdmin.is_transfer_delayed());
    assert!(!Role::RewardsAdmin.is_transfer_delayed());
    assert!(!Role::OperationsAdmin.is_transfer_delayed());
    assert!(!Role::PauseAdmin.is_transfer_delayed());
    assert!(!Role::EmergencyPauseAdmin.is_transfer_delayed());
}
