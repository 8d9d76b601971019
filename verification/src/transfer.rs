use vstd::prelude::*;

use crate::access::{AccessControl, Identity, TransferState};
use crate::constants::ADMIN_ACTIONS_DELAY;
use crate::errors::AccessControlError;
use crate::role::Role;

verus! {

impl AccessControl {
    /// Opens a delayed ownership transfer of a transfer-delayed role: records
    /// `future_address` as the pending target and sets the deadline to
    /// `now + ADMIN_ACTIONS_DELAY`, `now` being the ledger clock read once at
    /// commit time. Roles outside the delayed protocol are rejected with
    /// `WrongRoleKind`; a second commit while one is outstanding is rejected
    /// with `TransferAlreadyPending`, so a pending transfer can never be
    /// silently overwritten.
    pub fn commit_transfer_ownership(
        &mut self,
        role: Role,
        future_address: Identity,
        now: u64,
    ) -> (result: Result<(), AccessControlError>)
        requires
            old(self).wf(),
            now + ADMIN_ACTIONS_DELAY <= u64::MAX,
        ensures
            final(self).wf(),
            !role.spec_is_transfer_delayed() ==> result == Err::<(), AccessControlError>(
                AccessControlError::WrongRoleKind,
            ) && *final(self) == *old(self),
            role.spec_is_transfer_delayed() && old(self).deadline_of(role) != 0 ==> result
                == Err::<(), AccessControlError>(AccessControlError::TransferAlreadyPending)
                && *final(self) == *old(self),
            role.spec_is_transfer_delayed() && old(self).deadline_of(role) == 0 ==> result
                == Ok::<(), AccessControlError>(()) && *final(self) == old(self).with_transfer(
                role,
                (TransferState {
                    pending_target: Some(future_address),
                    deadline: (now + ADMIN_ACTIONS_DELAY) as u64,
                }),
            ),
    {
        match role {
            Role::Admin => {
                if self.admin_transfer.deadline != 0 {
                    Err(AccessControlError::TransferAlreadyPending)
                } else {
                    self.admin_transfer = TransferState {
                        pending_target: Some(future_address),
                        deadline: now + ADMIN_ACTIONS_DELAY,
                    };
                    Ok(())
                }
            },
            Role::EmergencyAdmin => {
                if self.emergency_admin_transfer.deadline != 0 {
                    Err(AccessControlError::TransferAlreadyPending)
                } else {
                    self.emergency_admin_transfer = TransferState {
                        pending_target: Some(future_address),
                        deadline: now + ADMIN_ACTIONS_DELAY,
                    };
                    Ok(())
                }
            },
            _ => Err(AccessControlError::WrongRoleKind),
        }
    }

    /// Closes a pending transfer by releasing control: once the ledger clock
    /// has reached the deadline, binds the role to the pending target exactly
    /// as a direct single-holder bind would and returns the new holder,
    /// clearing the transfer state back to `Idle`. Fails with `WrongRoleKind`
    /// for roles outside the delayed protocol, `NoPendingTransfer` when
    /// nothing is pending, and `TransferNotReady` while `now` is still before
    /// the deadline.
    pub fn apply_transfer_ownership(&mut self, role: Role, now: u64) -> (result: Result<
        Identity,
        AccessControlError,
    >)
        requires
            old(self).wf(),
        ensures
            final(self).wf(),
            !role.spec_is_transfer_delayed() ==> result == Err::<Identity, AccessControlError>(
                AccessControlError::WrongRoleKind,
            ) && *final(self) == *old(self),
            role.spec_is_transfer_delayed() && old(self).deadline_of(role) == 0 ==> result
                == Err::<Identity, AccessControlError>(AccessControlError::NoPendingTransfer)
                && *final(self) == *old(self),
            role.spec_is_transfer_delayed() && old(self).deadline_of(role) != 0 && now < old(
                self,
            ).deadline_of(role) ==> result == Err::<Identity, AccessControlError>(
                AccessControlError::TransferNotReady,
            ) && *final(self) == *old(self),
            role.spec_is_transfer_delayed() && old(self).deadline_of(role) != 0 && now >= old(
                self,
            ).deadline_of(role) ==> (old(self).pending_target_of(role) matches Some(target)
                && result == Ok::<Identity, AccessControlError>(target) && *final(self) == old(
                self,
            ).with_single(role, target).with_transfer(
                role,
                (TransferState { pending_target: None, deadline: 0 }),
            )),
    {
        if !self.is_delayed_with_pending(role)? {
            return Err(AccessControlError::NoPendingTransfer);
        }
        let state = match role {
            Role::Admin => self.admin_transfer,
            _ => self.emergency_admin_transfer,
        };
        match state.pending_target {
            None => Err(AccessControlError::NoPendingTransfer),
            Some(target) => {
                if now < state.deadline {
                    Err(AccessControlError::TransferNotReady)
                } else {
                    match role {
                        Role::Admin => {
                            self.admin = Some(target);
                            self.admin_transfer = TransferState::idle();
                        },
                        _ => {
                            self.emergency_admin = Some(target);
                            self.emergency_admin_transfer = TransferState::idle();
                        },
                    }
                    Ok(target)
                }
            },
        }
    }

    /// Abandons a pending transfer: clears the transfer state back to `Idle`
    /// without touching the registry binding. Reverting while nothing is
    /// pending is not treated as a no-op here; it fails with
    /// `NoPendingTransfer`, so a caller cannot mistake an idle role for a
    /// cancelled transfer. Roles outside the delayed protocol are rejected
    /// with `WrongRoleKind`.
    pub fn revert_transfer_ownership(&mut self, role: Role) -> (result: Result<
        (),
        AccessControlError,
    >)
        requires
            old(self).wf(),
        ensures
            final(self).wf(),
            !role.spec_is_transfer_delayed() ==> result == Err::<(), AccessControlError>(
                AccessControlError::WrongRoleKind,
            ) && *final(self) == *old(self),
            role.spec_is_transfer_delayed() && old(self).deadline_of(role) == 0 ==> result
                == Err::<(), AccessControlError>(AccessControlError::NoPendingTransfer)
                && *final(self) == *old(self),
            role.spec_is_transfer_delayed() && old(self).deadline_of(role) != 0 ==> result
                == Ok::<(), AccessControlError>(()) && *final(self) == old(self).with_transfer(
                role,
                (TransferState { pending_target: None, deadline: 0 }),
            ),
    {
        if !self.is_delayed_with_pending(role)? {
            return Err(AccessControlError::NoPendingTransfer);
        }
        match role {
            Role::Admin => self.admin_transfer = TransferState::idle(),
            _ => self.emergency_admin_transfer = TransferState::idle(),
        }
        Ok(())
    }

    /// The deadline of the pending transfer of a role; zero when the role is
    /// idle, and always zero for roles outside the delayed protocol.
    pub fn get_transfer_ownership_deadline(&self, role: Role) -> (deadline: u64)
        ensures
            deadline == self.deadline_of(role),
    {
        match role {
            Role::Admin => self.admin_transfer.deadline,
            Role::EmergencyAdmin => self.emergency_admin_transfer.deadline,
            _ => 0,
        }
    }

    /// The target of the pending transfer of a role. Fails with
    /// `WrongRoleKind` for roles outside the delayed protocol and with
    /// `NoPendingTransfer` when the role is idle.
    pub fn get_future_address(&self, role: Role) -> (result: Result<
        Identity,
        AccessControlError,
    >)
        ensures
            !role.spec_is_transfer_delayed() ==> result == Err::<Identity, AccessControlError>(
                AccessControlError::WrongRoleKind,
            ),
            role.spec_is_transfer_delayed() && self.pending_target_of(role) is None ==> result
                == Err::<Identity, AccessControlError>(AccessControlError::NoPendingTransfer),
            role.spec_is_transfer_delayed() ==> (self.pending_target_of(role) matches Some(target)
                ==> result == Ok::<Identity, AccessControlError>(target)),
    {
        let state = match role {
            Role::Admin => self.admin_transfer,
            Role::EmergencyAdmin => self.emergency_admin_transfer,
            _ => {
                return Err(AccessControlError::WrongRoleKind);
            },
        };
        match state.pending_target {
            Some(target) => Ok(target),
            None => Err(AccessControlError::NoPendingTransfer),
        }
    }

    /// Shared guard of the transfer operations: `WrongRoleKind` for roles
    /// outside the delayed protocol, and otherwise whether a transfer is
    /// pending.
    fn is_delayed_with_pending(&self, role: Role) -> (result: Result<bool, AccessControlError>)
        requires
            self.wf(),
        ensures
            !role.spec_is_transfer_delayed() ==> result == Err::<bool, AccessControlError>(
                AccessControlError::WrongRoleKind,
            ),
            role.spec_is_transfer_delayed() ==> result == Ok::<bool, AccessControlError>(
                self.deadline_of(role) != 0,
            ),
    {
        match role {
            Role::Admin => Ok(self.admin_transfer.deadline != 0),
            Role::EmergencyAdmin => Ok(self.emergency_admin_transfer.deadline != 0),
            _ => Err(AccessControlError::WrongRoleKind),
        }
    }
}

} // verus!
