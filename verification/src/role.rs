use vstd::prelude::*;

use crate::errors::AccessControlError;

verus! {

/// The closed set of roles. Each variant carries two immutable attributes,
/// fixed by the catalog for the lifetime of the system: its multiplicity
/// (single-holder or multi-holder) and whether reassigning it goes through
/// the delayed-transfer protocol. `EmergencyPauseAdmin` is the only
/// multi-holder role; `Admin` and `EmergencyAdmin` are the only
/// transfer-delayed roles.
#[derive(Clone, Copy, PartialEq, Eq, Structural, Debug)]
pub enum Role {
    Admin,
    EmergencyAdmin,
    RewardsAdmin,
    OperationsAdmin,
    PauseAdmin,
    EmergencyPauseAdmin,
}

impl Role {
    /// Whether the role is bound to at most one identity at a time.
    pub open spec fn spec_is_single(self) -> bool {
        !(self is EmergencyPauseAdmin)
    }

    pub fn is_single(&self) -> (single: bool)
        ensures
            single == self.spec_is_single(),
    {
        match self {
            Role::EmergencyPauseAdmin => false,
            _ => true,
        }
    }

    /// Whether reassigning the role must go through the delayed-transfer
    /// protocol instead of a direct bind.
    pub open spec fn spec_is_transfer_delayed(self) -> bool {
        self is Admin || self is EmergencyAdmin
    }

    pub fn is_transfer_delayed(&self) -> (delayed: bool)
        ensures
            delayed == self.spec_is_transfer_delayed(),
    {
        match self {
            Role::Admin => true,
            Role::EmergencyAdmin => true,
            _ => false,
        }
    }

    /// The externally visible name of the role.
    pub open spec fn spec_name(self) -> Seq<char> {
        match self {
            Role::Admin => "Admin"@,
            Role::EmergencyAdmin => "EmergencyAdmin"@,
            Role::RewardsAdmin => "RewardsAdmin"@,
            Role::OperationsAdmin => "OperationsAdmin"@,
            Role::PauseAdmin => "PauseAdmin"@,
            Role::EmergencyPauseAdmin => "EmergencyPauseAdmin"@,
        }
    }

    /// The role whose name a character sequence is, if any.
    pub open spec fn spec_from_name(name: Seq<char>) -> Option<Role> {
        if name == Role::Admin.spec_name() {
            Some(Role::Admin)
        } else if name == Role::EmergencyAdmin.spec_name() {
            Some(Role::EmergencyAdmin)
        } else if name == Role::RewardsAdmin.spec_name() {
            Some(Role::RewardsAdmin)
        } else if name == Role::OperationsAdmin.spec_name() {
            Some(Role::OperationsAdmin)
        } else if name == Role::PauseAdmin.spec_name() {
            Some(Role::PauseAdmin)
        } else if name == Role::EmergencyPauseAdmin.spec_name() {
            Some(Role::EmergencyPauseAdmin)
        } else {
            None
        }
    }

    /// Renders the role as its externally visible name.
    pub fn as_symbol(&self) -> (name: String)
        ensures
            name@ == self.spec_name(),
    {
        match self {
            Role::Admin => "Admin".to_owned(),
            Role::EmergencyAdmin => "EmergencyAdmin".to_owned(),
            Role::RewardsAdmin => "RewardsAdmin".to_owned(),
            Role::OperationsAdmin => "OperationsAdmin".to_owned(),
            Role::PauseAdmin => "PauseAdmin".to_owned(),
            Role::EmergencyPauseAdmin => "EmergencyPauseAdmin".to_owned(),
        }
    }

    /// Parses an externally visible name back into its catalog role. Any name
    /// outside the closed catalog is rejected with `UnknownRole`.
    pub fn from_symbol(name: &String) -> (parsed: Result<Role, AccessControlError>)
        ensures
            (match Role::spec_from_name(name@) {
                Some(role) => parsed == Ok::<Role, AccessControlError>(role),
                None => parsed == Err::<Role, AccessControlError>(AccessControlError::UnknownRole),
            }),
    {
        if *name == Role::Admin.as_symbol() {
            Ok(Role::Admin)
        } else if *name == Role::EmergencyAdmin.as_symbol() {
            Ok(Role::EmergencyAdmin)
        } else if *name == Role::RewardsAdmin.as_symbol() {
            Ok(Role::RewardsAdmin)
        } else if *name == Role::OperationsAdmin.as_symbol() {
            Ok(Role::OperationsAdmin)
        } else if *name == Role::PauseAdmin.as_symbol() {
            Ok(Role::PauseAdmin)
        } else if *name == Role::EmergencyPauseAdmin.as_symbol() {
            Ok(Role::EmergencyPauseAdmin)
        } else {
            Err(AccessControlError::UnknownRole)
        }
    }
}

} // verus!
