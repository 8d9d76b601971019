use vstd::prelude::*;

use crate::access::{AccessControl, Identity};
use crate::errors::AccessControlError;
use crate::role::Role;

verus! {

impl AccessControl {
    /// Rebinds a single-holder role to `address`, replacing the whole
    /// binding atomically: any previous holder loses the role the instant the
    /// new binding commits. Multi-holder roles are rejected with
    /// `WrongRoleKind`.
    pub fn set_role_address(&mut self, role: Role, address: Identity) -> (result: Result<
        (),
        AccessControlError,
    >)
        requires
            old(self).wf(),
        ensures
            final(self).wf(),
            role.spec_is_single() ==> result == Ok::<(), AccessControlError>(())
                && *final(self) == old(self).with_single(role, address),
            !role.spec_is_single() ==> result == Err::<(), AccessControlError>(
                AccessControlError::WrongRoleKind,
            ) && *final(self) == *old(self),
    {
        match role {
            Role::Admin => {
                self.admin = Some(address);
                Ok(())
            },
            Role::EmergencyAdmin => {
                self.emergency_admin = Some(address);
                Ok(())
            },
            Role::RewardsAdmin => {
                self.rewards_admin = Some(address);
                Ok(())
            },
            Role::OperationsAdmin => {
                self.operations_admin = Some(address);
                Ok(())
            },
            Role::PauseAdmin => {
                self.pause_admin = Some(address);
                Ok(())
            },
            Role::EmergencyPauseAdmin => Err(AccessControlError::WrongRoleKind),
        }
    }

    /// The identity bound to a single-holder role. There is no fallback
    /// default: querying an unset role fails with `RoleUnset`, and querying a
    /// multi-holder role fails with `WrongRoleKind`.
    pub fn get_role(&self, role: Role) -> (result: Result<Identity, AccessControlError>)
        ensures
            !role.spec_is_single() ==> result == Err::<Identity, AccessControlError>(
                AccessControlError::WrongRoleKind,
            ),
            role.spec_is_single() && self.single_holder(role) is None ==> result == Err::<
                Identity,
                AccessControlError,
            >(AccessControlError::RoleUnset),
            role.spec_is_single() ==> (self.single_holder(role) matches Some(holder) ==> result
                == Ok::<Identity, AccessControlError>(holder)),
    {
        match self.get_role_safe(role)? {
            Some(holder) => Ok(holder),
            None => Err(AccessControlError::RoleUnset),
        }
    }

    /// The non-failing variant of `get_role`: `None` instead of `RoleUnset`
    /// when nothing is bound. The multiplicity check still applies.
    pub fn get_role_safe(&self, role: Role) -> (result: Result<
        Option<Identity>,
        AccessControlError,
    >)
        ensures
            role.spec_is_single() ==> result == Ok::<Option<Identity>, AccessControlError>(
                self.single_holder(role),
            ),
            !role.spec_is_single() ==> result == Err::<Option<Identity>, AccessControlError>(
                AccessControlError::WrongRoleKind,
            ),
    {
        match role {
            Role::Admin => Ok(self.admin),
            Role::EmergencyAdmin => Ok(self.emergency_admin),
            Role::RewardsAdmin => Ok(self.rewards_admin),
            Role::OperationsAdmin => Ok(self.operations_admin),
            Role::PauseAdmin => Ok(self.pause_admin),
            Role::EmergencyPauseAdmin => Err(AccessControlError::WrongRoleKind),
        }
    }

    /// Replaces the whole member list of a multi-holder role, not
    /// additively: previous members outside the new list lose the role. The
    /// list may repeat an identity (membership tests are unaffected) and may
    /// be empty, which clears all holders. Single-holder roles are rejected
    /// with `WrongRoleKind`.
    pub fn set_role_addresses(&mut self, role: Role, addresses: Vec<Identity>) -> (result: Result<
        (),
        AccessControlError,
    >)
        requires
            old(self).wf(),
        ensures
            final(self).wf(),
            !role.spec_is_single() ==> result == Ok::<(), AccessControlError>(())
                && *final(self) == old(self).with_multi(role, addresses),
            role.spec_is_single() ==> result == Err::<(), AccessControlError>(
                AccessControlError::WrongRoleKind,
            ) && *final(self) == *old(self),
    {
        match role {
            Role::EmergencyPauseAdmin => {
                self.emergency_pause_admins = addresses;
                Ok(())
            },
            _ => Err(AccessControlError::WrongRoleKind),
        }
    }

    /// The member list of a multi-holder role, as stored. Single-holder
    /// roles are rejected with `WrongRoleKind`.
    pub fn get_role_addresses(&self, role: Role) -> (result: Result<
        Vec<Identity>,
        AccessControlError,
    >)
        ensures
            !role.spec_is_single() ==> (result matches Ok(members) && members@
                == self.multi_holders(role)),
            role.spec_is_single() ==> result == Err::<Vec<Identity>, AccessControlError>(
                AccessControlError::WrongRoleKind,
            ),
    {
        match role {
            Role::EmergencyPauseAdmin => {
                let stored = &self.emergency_pause_admins;
                let mut members: Vec<Identity> = Vec::new();
                let mut i: usize = 0;
                while i < stored.len()
                    invariant
                        i <= stored.len(),
                        stored == &self.emergency_pause_admins,
                        members@ =~= stored@.subrange(0, i as int),
                    decreases stored.len() - i,
                {
                    members.push(stored[i]);
                    i += 1;
                }
                proof {
                    assert(members@ =~= self.emergency_pause_admins@);
                }
                Ok(members)
            },
            _ => Err(AccessControlError::WrongRoleKind),
        }
    }
}

} // verus!
