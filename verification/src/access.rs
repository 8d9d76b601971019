use vstd::prelude::*;

use crate::errors::AccessControlError;
use crate::role::Role;

verus! {

/// An already-authenticated caller identity, as the host hands it in. The
/// core never verifies signatures; it only compares identities for equality.
#[derive(Clone, Copy, PartialEq, Eq, Structural, Debug)]
pub struct Identity {
    pub value: u64,
}

/// The persisted transfer state of one transfer-delayed role: `Idle` when no
/// transfer is pending (`deadline == 0`), `Pending` otherwise. At most one
/// transfer per role is pending at a time.
#[derive(Clone, Copy, Debug)]
pub struct TransferState {
    pub pending_target: Option<Identity>,
    pub deadline: u64,
}

impl TransferState {
    /// The invariant of the two-state automaton: the deadline is zero exactly
    /// when no target is pending.
    pub open spec fn wf(self) -> bool {
        (self.deadline == 0) <==> (self.pending_target is None)
    }

    /// The `Idle` state.
    pub fn idle() -> (state: TransferState)
        ensures
            state.pending_target is None,
            state.deadline == 0,
            state.wf(),
    {
        TransferState { pending_target: None, deadline: 0 }
    }
}

/// The full state of the access-control core: one binding slot per
/// single-holder role, the member list of the one multi-holder role, the
/// transfer state of the two transfer-delayed roles, and the emergency flag.
/// Every operation reads and writes this state only; the host persists it
/// between invocations.
pub struct AccessControl {
    pub admin: Option<Identity>,
    pub emergency_admin: Option<Identity>,
    pub rewards_admin: Option<Identity>,
    pub operations_admin: Option<Identity>,
    pub pause_admin: Option<Identity>,
    pub emergency_pause_admins: Vec<Identity>,
    pub admin_transfer: TransferState,
    pub emergency_admin_transfer: TransferState,
    pub emergency_mode: bool,
}

impl AccessControl {
    /// Both transfer automata satisfy their invariant.
    pub open spec fn wf(self) -> bool {
        self.admin_transfer.wf() && self.emergency_admin_transfer.wf()
    }

    /// The identity bound to a single-holder role, if any.
    pub open spec fn single_holder(self, role: Role) -> Option<Identity> {
        match role {
            Role::Admin => self.admin,
            Role::EmergencyAdmin => self.emergency_admin,
            Role::RewardsAdmin => self.rewards_admin,
            Role::OperationsAdmin => self.operations_admin,
            Role::PauseAdmin => self.pause_admin,
            Role::EmergencyPauseAdmin => None,
        }
    }

    /// The identities bound to a multi-holder role.
    pub open spec fn multi_holders(self, role: Role) -> Seq<Identity> {
        match role {
            Role::EmergencyPauseAdmin => self.emergency_pause_admins@,
            _ => Seq::<Identity>::empty(),
        }
    }

    /// Whether `id` is currently bound to `role` through the registry alone,
    /// with no implicit pass for the top role.
    pub open spec fn holds(self, id: Identity, role: Role) -> bool {
        if role.spec_is_single() {
            self.single_holder(role) == Some(id)
        } else {
            self.multi_holders(role).contains(id)
        }
    }

    /// Whether `id` passes the role check for `role`: bound to the role, or
    /// bound to the top role, which has implicit authority over every gated
    /// operation. Checking the top role itself gets no second pass; for it
    /// the two disjuncts coincide.
    pub open spec fn authorized(self, id: Identity, role: Role) -> bool {
        self.holds(id, Role::Admin) || self.holds(id, role)
    }

    /// The transfer state of a role; roles outside the delayed-transfer
    /// protocol are permanently `Idle`.
    pub open spec fn transfer_state(self, role: Role) -> TransferState {
        match role {
            Role::Admin => self.admin_transfer,
            Role::EmergencyAdmin => self.emergency_admin_transfer,
            _ => TransferState { pending_target: None, deadline: 0 },
        }
    }

    /// The deadline of the pending transfer of a role, zero when none is
    /// pending.
    pub open spec fn deadline_of(self, role: Role) -> u64 {
        self.transfer_state(role).deadline
    }

    /// The target of the pending transfer of a role, if any.
    pub open spec fn pending_target_of(self, role: Role) -> Option<Identity> {
        self.transfer_state(role).pending_target
    }

    /// The state with a single-holder role rebound to `id`, all else as in
    /// `self`.
    pub open spec fn with_single(self, role: Role, id: Identity) -> AccessControl
        recommends
            role.spec_is_single(),
    {
        match role {
            Role::Admin => AccessControl { admin: Some(id), ..self },
            Role::EmergencyAdmin => AccessControl { emergency_admin: Some(id), ..self },
            Role::RewardsAdmin => AccessControl { rewards_admin: Some(id), ..self },
            Role::OperationsAdmin => AccessControl { operations_admin: Some(id), ..self },
            Role::PauseAdmin => AccessControl { pause_admin: Some(id), ..self },
            Role::EmergencyPauseAdmin => self,
        }
    }

    /// The state with the multi-holder role's member list replaced wholesale,
    /// all else as in `self`.
    pub open spec fn with_multi(self, role: Role, ids: Vec<Identity>) -> AccessControl
        recommends
            !role.spec_is_single(),
    {
        match role {
            Role::EmergencyPauseAdmin => AccessControl { emergency_pause_admins: ids, ..self },
            _ => self,
        }
    }

    /// The state with the transfer automaton of a transfer-delayed role moved
    /// to `state`, all else as in `self`.
    pub open spec fn with_transfer(self, role: Role, state: TransferState) -> AccessControl
        recommends
            role.spec_is_transfer_delayed(),
    {
        match role {
            Role::Admin => AccessControl { admin_transfer: state, ..self },
            Role::EmergencyAdmin => AccessControl { emergency_admin_transfer: state, ..self },
            _ => self,
        }
    }

    /// The state with the emergency flag set to `value`, all else as in
    /// `self`.
    pub open spec fn with_emergency(self, value: bool) -> AccessControl {
        AccessControl { emergency_mode: value, ..self }
    }

    /// A fresh store: no role bound, no transfer pending, emergency off.
    pub fn new() -> (ac: AccessControl)
        ensures
            ac.admin is None,
            ac.emergency_admin is None,
            ac.rewards_admin is None,
            ac.operations_admin is None,
            ac.pause_admin is None,
            ac.emergency_pause_admins@ == Seq::<Identity>::empty(),
            ac.admin_transfer.deadline == 0,
            ac.emergency_admin_transfer.deadline == 0,
            ac.emergency_mode == false,
            forall|id: Identity, role: Role| !ac.holds(id, role),
            ac.wf(),
    {
        AccessControl {
            admin: None,
            emergency_admin: None,
            rewards_admin: None,
            operations_admin: None,
            pause_admin: None,
            emergency_pause_admins: Vec::new(),
            admin_transfer: TransferState::idle(),
            emergency_admin_transfer: TransferState::idle(),
            emergency_mode: false,
        }
    }

    /// Binds the top role for the first time. A second call fails with
    /// `AlreadyInitialized`, so the root of the hierarchy cannot be seized
    /// again once given out.
    pub fn init_admin(&mut self, admin: Identity) -> (result: Result<(), AccessControlError>)
        requires
            old(self).wf(),
        ensures
            final(self).wf(),
            old(self).admin is None ==> result == Ok::<(), AccessControlError>(())
                && *final(self) == old(self).with_single(Role::Admin, admin),
            old(self).admin is Some ==> result == Err::<(), AccessControlError>(
                AccessControlError::AlreadyInitialized,
            ) && *final(self) == *old(self),
    {
        match self.admin {
            Some(_) => Err(AccessControlError::AlreadyInitialized),
            None => {
                self.admin = Some(admin);
                Ok(())
            },
        }
    }

    /// Whether `address` is bound to `role` through the registry alone:
    /// false for unset roles and for identities not currently bound,
    /// with no implicit pass for the top role.
    pub fn address_has_role(&self, address: Identity, role: Role) -> (held: bool)
        ensures
            held == self.holds(address, role),
    {
        match role {
            Role::Admin => Self::slot_matches(&self.admin, address),
            Role::EmergencyAdmin => Self::slot_matches(&self.emergency_admin, address),
            Role::RewardsAdmin => Self::slot_matches(&self.rewards_admin, address),
            Role::OperationsAdmin => Self::slot_matches(&self.operations_admin, address),
            Role::PauseAdmin => Self::slot_matches(&self.pause_admin, address),
            Role::EmergencyPauseAdmin => {
                let members = &self.emergency_pause_admins;
                let mut i: usize = 0;
                while i < members.len()
                    invariant
                        i <= members.len(),
                        role is EmergencyPauseAdmin,
                        members == &self.emergency_pause_admins,
                        forall|j: int| 0 <= j < i ==> members@[j] != address,
                    decreases members.len() - i,
                {
                    let candidate = members[i];
                    if candidate.value == address.value {
                        proof {
                            assert(self.multi_holders(role)[i as int] == address);
                        }
                        return true;
                    }
                    i += 1;
                }
                false
            },
        }
    }

    /// Whether `address` passes the role check for `role`: bound to it, or
    /// bound to the top role (admin supremacy).
    pub fn has_role(&self, address: Identity, role: Role) -> (passes: bool)
        ensures
            passes == self.authorized(address, role),
    {
        self.address_has_role(address, Role::Admin) || self.address_has_role(address, role)
    }

    /// The pure authorization gate: succeeds exactly when `address` passes
    /// the role check for `role`, and fails with `Unauthorized` otherwise.
    pub fn assert_address_has_role(&self, address: Identity, role: Role) -> (result: Result<
        (),
        AccessControlError,
    >)
        ensures
            self.authorized(address, role) ==> result == Ok::<(), AccessControlError>(()),
            !self.authorized(address, role) ==> result == Err::<(), AccessControlError>(
                AccessControlError::Unauthorized,
            ),
    {
        if self.has_role(address, role) {
            Ok(())
        } else {
            Err(AccessControlError::Unauthorized)
        }
    }

    fn slot_matches(slot: &Option<Identity>, address: Identity) -> (held: bool)
        ensures
            held == (*slot == Some(address)),
    {
        match slot {
            Some(bound) => bound.value == address.value,
            None => false,
        }
    }
}

} // verus!
