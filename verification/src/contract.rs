use vstd::prelude::*;

use crate::access::{AccessControl, Identity, TransferState};
use crate::constants::ADMIN_ACTIONS_DELAY;
use crate::errors::AccessControlError;
use crate::role::Role;

verus! {

/// A minimal contract surface over the access-control core: every entry
/// point receives the current state and an already-authenticated caller from
/// the host, gates the call on the required role, and runs the corresponding
/// core operation. Role arguments arrive by their external name and are
/// rejected with `UnknownRole` before any state mutation.
pub struct DummyContract;

impl DummyContract {
    /// Initializes the contract by binding the top role for the first time.
    pub fn init_admin(ac: &mut AccessControl, admin: Identity) -> (result: Result<
        (),
        AccessControlError,
    >)
        requires
            old(ac).wf(),
        ensures
            final(ac).wf(),
            old(ac).admin is None ==> result == Ok::<(), AccessControlError>(()) && *final(ac)
                == old(ac).with_single(Role::Admin, admin),
            old(ac).admin is Some ==> result == Err::<(), AccessControlError>(
                AccessControlError::AlreadyInitialized,
            ) && *final(ac) == *old(ac),
    {
        ac.init_admin(admin)
    }

    /// Rebinds a single-holder role, on the authority of the top role.
    pub fn set_role(
        ac: &mut AccessControl,
        admin: Identity,
        role_symbol: &String,
        address: Identity,
    ) -> (result: Result<(), AccessControlError>)
        requires
            old(ac).wf(),
        ensures
            final(ac).wf(),
            !old(ac).authorized(admin, Role::Admin) ==> result == Err::<(), AccessControlError>(
                AccessControlError::Unauthorized,
            ) && *final(ac) == *old(ac),
            old(ac).authorized(admin, Role::Admin) ==> (match Role::spec_from_name(role_symbol@) {
                None => result == Err::<(), AccessControlError>(AccessControlError::UnknownRole)
                    && *final(ac) == *old(ac),
                Some(role) => {
                    if role.spec_is_single() {
                        result == Ok::<(), AccessControlError>(()) && *final(ac) == old(
                            ac,
                        ).with_single(role, address)
                    } else {
                        result == Err::<(), AccessControlError>(AccessControlError::WrongRoleKind)
                            && *final(ac) == *old(ac)
                    }
                },
            }),
    {
        ac.assert_address_has_role(admin, Role::Admin)?;
        let role = Role::from_symbol(role_symbol)?;
        ac.set_role_address(role, address)
    }

    /// Replaces the member list of a multi-holder role, on the authority of
    /// the top role.
    pub fn set_role_addresses(
        ac: &mut AccessControl,
        admin: Identity,
        role_symbol: &String,
        addresses: Vec<Identity>,
    ) -> (result: Result<(), AccessControlError>)
        requires
            old(ac).wf(),
        ensures
            final(ac).wf(),
            !old(ac).authorized(admin, Role::Admin) ==> result == Err::<(), AccessControlError>(
                AccessControlError::Unauthorized,
            ) && *final(ac) == *old(ac),
            old(ac).authorized(admin, Role::Admin) ==> (match Role::spec_from_name(role_symbol@) {
                None => result == Err::<(), AccessControlError>(AccessControlError::UnknownRole)
                    && *final(ac) == *old(ac),
                Some(role) => {
                    if !role.spec_is_single() {
                        result == Ok::<(), AccessControlError>(()) && *final(ac) == old(
                            ac,
                        ).with_multi(role, addresses)
                    } else {
                        result == Err::<(), AccessControlError>(AccessControlError::WrongRoleKind)
                            && *final(ac) == *old(ac)
                    }
                },
            }),
    {
        ac.assert_address_has_role(admin, Role::Admin)?;
        let role = Role::from_symbol(role_symbol)?;
        ac.set_role_addresses(role, addresses)
    }

    /// The identity bound to a single-holder role, by role name.
    pub fn get_role(ac: &AccessControl, role_symbol: &String) -> (result: Result<
        Identity,
        AccessControlError,
    >)
        ensures
            (match Role::spec_from_name(role_symbol@) {
                None => result == Err::<Identity, AccessControlError>(
                    AccessControlError::UnknownRole,
                ),
                Some(role) => {
                    if !role.spec_is_single() {
                        result == Err::<Identity, AccessControlError>(
                            AccessControlError::WrongRoleKind,
                        )
                    } else {
                        match ac.single_holder(role) {
                            Some(holder) => result == Ok::<Identity, AccessControlError>(holder),
                            None => result == Err::<Identity, AccessControlError>(
                                AccessControlError::RoleUnset,
                            ),
                        }
                    }
                },
            }),
    {
        let role = Role::from_symbol(role_symbol)?;
        ac.get_role(role)
    }

    /// The member list of a multi-holder role, by role name.
    pub fn get_role_addresses(ac: &AccessControl, role_symbol: &String) -> (result: Result<
        Vec<Identity>,
        AccessControlError,
    >)
        ensures
            (match Role::spec_from_name(role_symbol@) {
                None => result == Err::<Vec<Identity>, AccessControlError>(
                    AccessControlError::UnknownRole,
                ),
                Some(role) => {
                    if !role.spec_is_single() {
                        result matches Ok(members) && members@ == ac.multi_holders(role)
                    } else {
                        result == Err::<Vec<Identity>, AccessControlError>(
                            AccessControlError::WrongRoleKind,
                        )
                    }
                },
            }),
    {
        let role = Role::from_symbol(role_symbol)?;
        ac.get_role_addresses(role)
    }

    /// Whether an identity passes the role check for a role given by name:
    /// bound to it, or bound to the top role.
    pub fn has_role(ac: &AccessControl, address: Identity, role_symbol: &String) -> (result: Result<
        bool,
        AccessControlError,
    >)
        ensures
            (match Role::spec_from_name(role_symbol@) {
                None => result == Err::<bool, AccessControlError>(AccessControlError::UnknownRole),
                Some(role) => result == Ok::<bool, AccessControlError>(
                    ac.authorized(address, role),
                ),
            }),
    {
        let role = Role::from_symbol(role_symbol)?;
        Ok(ac.has_role(address, role))
    }

    /// Writes the emergency flag, on the authority of the emergency role.
    pub fn set_emergency_mode(ac: &mut AccessControl, admin: Identity, value: bool) -> (result:
        Result<(), AccessControlError>)
        requires
            old(ac).wf(),
        ensures
            final(ac).wf(),
            old(ac).authorized(admin, Role::EmergencyAdmin) ==> result == Ok::<
                (),
                AccessControlError,
            >(()) && *final(ac) == old(ac).with_emergency(value),
            !old(ac).authorized(admin, Role::EmergencyAdmin) ==> result == Err::<
                (),
                AccessControlError,
            >(AccessControlError::Unauthorized) && *final(ac) == *old(ac),
    {
        ac.assert_address_has_role(admin, Role::EmergencyAdmin)?;
        ac.set_emergency_mode(value);
        Ok(())
    }

    /// The last value written to the emergency flag.
    pub fn get_emergency_mode(ac: &AccessControl) -> (mode: bool)
        ensures
            mode == ac.emergency_mode,
    {
        ac.get_emergency_mode()
    }

    /// A protected operation open to the rewards role (and, implicitly, the
    /// top role).
    pub fn rewards_admin_function(ac: &AccessControl, caller: Identity) -> (result: Result<
        bool,
        AccessControlError,
    >)
        ensures
            ac.authorized(caller, Role::RewardsAdmin) ==> result == Ok::<bool, AccessControlError>(
                true,
            ),
            !ac.authorized(caller, Role::RewardsAdmin) ==> result == Err::<
                bool,
                AccessControlError,
            >(AccessControlError::Unauthorized),
    {
        if ac.has_role(caller, Role::RewardsAdmin) {
            Ok(true)
        } else {
            Err(AccessControlError::Unauthorized)
        }
    }

    /// A protected operation open to the operations role (and, implicitly,
    /// the top role).
    pub fn operations_admin_function(ac: &AccessControl, caller: Identity) -> (result: Result<
        bool,
        AccessControlError,
    >)
        ensures
            ac.authorized(caller, Role::OperationsAdmin) ==> result == Ok::<
                bool,
                AccessControlError,
            >(true),
            !ac.authorized(caller, Role::OperationsAdmin) ==> result == Err::<
                bool,
                AccessControlError,
            >(AccessControlError::Unauthorized),
    {
        if ac.has_role(caller, Role::OperationsAdmin) {
            Ok(true)
        } else {
            Err(AccessControlError::Unauthorized)
        }
    }

    /// Opens a delayed transfer of a role given by name, on the authority of
    /// the top role.
    pub fn commit_transfer_ownership(
        ac: &mut AccessControl,
        admin: Identity,
        role_name: &String,
        new_address: Identity,
        now: u64,
    ) -> (result: Result<(), AccessControlError>)
        requires
            old(ac).wf(),
            now + ADMIN_ACTIONS_DELAY <= u64::MAX,
        ensures
            final(ac).wf(),
            !old(ac).authorized(admin, Role::Admin) ==> result == Err::<(), AccessControlError>(
                AccessControlError::Unauthorized,
            ) && *final(ac) == *old(ac),
            old(ac).authorized(admin, Role::Admin) ==> (match Role::spec_from_name(role_name@) {
                None => result == Err::<(), AccessControlError>(AccessControlError::UnknownRole)
                    && *final(ac) == *old(ac),
                Some(role) => {
                    if !role.spec_is_transfer_delayed() {
                        result == Err::<(), AccessControlError>(AccessControlError::WrongRoleKind)
                            && *final(ac) == *old(ac)
                    } else if old(ac).deadline_of(role) != 0 {
                        result == Err::<(), AccessControlError>(
                            AccessControlError::TransferAlreadyPending,
                        ) && *final(ac) == *old(ac)
                    } else {
                        result == Ok::<(), AccessControlError>(()) && *final(ac) == old(
                            ac,
                        ).with_transfer(
                            role,
                            (TransferState {
                                pending_target: Some(new_address),
                                deadline: (now + ADMIN_ACTIONS_DELAY) as u64,
                            }),
                        )
                    }
                },
            }),
    {
        ac.assert_address_has_role(admin, Role::Admin)?;
        let role = Role::from_symbol(role_name)?;
        ac.commit_transfer_ownership(role, new_address, now)
    }

    /// Applies a pending transfer of a role given by name, on the authority
    /// of the top role, returning the new holder.
    pub fn apply_transfer_ownership(
        ac: &mut AccessControl,
        admin: Identity,
        role_name: &String,
        now: u64,
    ) -> (result: Result<Identity, AccessControlError>)
        requires
            old(ac).wf(),
        ensures
            final(ac).wf(),
            !old(ac).authorized(admin, Role::Admin) ==> result == Err::<
                Identity,
                AccessControlError,
            >(AccessControlError::Unauthorized) && *final(ac) == *old(ac),
            old(ac).authorized(admin, Role::Admin) ==> (match Role::spec_from_name(role_name@) {
                None => result == Err::<Identity, AccessControlError>(
                    AccessControlError::UnknownRole,
                ) && *final(ac) == *old(ac),
                Some(role) => {
                    if !role.spec_is_transfer_delayed() {
                        result == Err::<Identity, AccessControlError>(
                            AccessControlError::WrongRoleKind,
                        ) && *final(ac) == *old(ac)
                    } else if old(ac).deadline_of(role) == 0 {
                        result == Err::<Identity, AccessControlError>(
                            AccessControlError::NoPendingTransfer,
                        ) && *final(ac) == *old(ac)
                    } else if now < old(ac).deadline_of(role) {
                        result == Err::<Identity, AccessControlError>(
                            AccessControlError::TransferNotReady,
                        ) && *final(ac) == *old(ac)
                    } else {
                        old(ac).pending_target_of(role) matches Some(target) && result == Ok::<
                            Identity,
                            AccessControlError,
                        >(target) && *final(ac) == old(ac).with_single(role, target).with_transfer(
                            role,
                            (TransferState { pending_target: None, deadline: 0 }),
                        )
                    }
                },
            }),
    {
        ac.assert_address_has_role(admin, Role::Admin)?;
        let role = Role::from_symbol(role_name)?;
        ac.apply_transfer_ownership(role, now)
    }

    /// Abandons a pending transfer of a role given by name, on the authority
    /// of the top role.
    pub fn revert_transfer_ownership(
        ac: &mut AccessControl,
        admin: Identity,
        role_name: &String,
    ) -> (result: Result<(), AccessControlError>)
        requires
            old(ac).wf(),
        ensures
            final(ac).wf(),
            !old(ac).authorized(admin, Role::Admin) ==> result == Err::<(), AccessControlError>(
                AccessControlError::Unauthorized,
            ) && *final(ac) == *old(ac),
            old(ac).authorized(admin, Role::Admin) ==> (match Role::spec_from_name(role_name@) {
                None => result == Err::<(), AccessControlError>(AccessControlError::UnknownRole)
                    && *final(ac) == *old(ac),
                Some(role) => {
                    if !role.spec_is_transfer_delayed() {
                        result == Err::<(), AccessControlError>(AccessControlError::WrongRoleKind)
                            && *final(ac) == *old(ac)
                    } else if old(ac).deadline_of(role) == 0 {
                        result == Err::<(), AccessControlError>(
                            AccessControlError::NoPendingTransfer,
                        ) && *final(ac) == *old(ac)
                    } else {
                        result == Ok::<(), AccessControlError>(()) && *final(ac) == old(
                            ac,
                        ).with_transfer(
                            role,
                            (TransferState { pending_target: None, deadline: 0 }),
                        )
                    }
                },
            }),
    {
        ac.assert_address_has_role(admin, Role::Admin)?;
        let role = Role::from_symbol(role_name)?;
        ac.revert_transfer_ownership(role)
    }

    /// The pending transfer target of a role given by name.
    pub fn get_future_address(ac: &AccessControl, role_name: &String) -> (result: Result<
        Identity,
        AccessControlError,
    >)
        ensures
            (match Role::spec_from_name(role_name@) {
                None => result == Err::<Identity, AccessControlError>(
                    AccessControlError::UnknownRole,
                ),
                Some(role) => {
                    if !role.spec_is_transfer_delayed() {
                        result == Err::<Identity, AccessControlError>(
                            AccessControlError::WrongRoleKind,
                        )
                    } else {
                        match ac.pending_target_of(role) {
                            Some(target) => result == Ok::<Identity, AccessControlError>(target),
                            None => result == Err::<Identity, AccessControlError>(
                                AccessControlError::NoPendingTransfer,
                            ),
                        }
                    }
                },
            }),
    {
        let role = Role::from_symbol(role_name)?;
        ac.get_future_address(role)
    }
}

} // verus!
