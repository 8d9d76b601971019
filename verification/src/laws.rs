use vstd::prelude::*;

use crate::access::{AccessControl, Identity, TransferState};
use crate::constants::ADMIN_ACTIONS_DELAY;
use crate::role::Role;

verus! {

/// Exclusivity of single-holder roles: after binding a role to `first` and
/// then to `second`, a different identity, only `second` holds the role; the
/// earlier holder has lost it.
pub proof fn lemma_bind_exclusive(ac: AccessControl, role: Role, first: Identity, second: Identity)
    requires
        role.spec_is_single(),
        first != second,
    ensures
        !ac.with_single(role, first).with_single(role, second).holds(first, role),
        ac.with_single(role, first).with_single(role, second).holds(second, role),
{
}

/// Isolation of single-holder binds: rebinding one role never changes who
/// holds any other role, nor the emergency flag, nor any transfer state.
pub proof fn lemma_bind_isolation(ac: AccessControl, role: Role, address: Identity)
    requires
        role.spec_is_single(),
    ensures
        ac.with_single(role, address).holds(address, role),
        forall|id: Identity, other: Role|
            other != role ==> ac.with_single(role, address).holds(id, other) == ac.holds(
                id,
                other,
            ),
        ac.with_single(role, address).emergency_mode == ac.emergency_mode,
        forall|other: Role|
            ac.with_single(role, address).transfer_state(other) == ac.transfer_state(other),
{
}

/// Isolation of multi-holder binds: replacing the member list of the
/// multi-holder role never changes who holds any single-holder role, the
/// emergency flag, or any transfer state.
pub proof fn lemma_bind_all_isolation(ac: AccessControl, role: Role, members: Vec<Identity>)
    requires
        !role.spec_is_single(),
    ensures
        forall|id: Identity, other: Role|
            other != role ==> ac.with_multi(role, members).holds(id, other) == ac.holds(id, other),
        ac.with_multi(role, members).emergency_mode == ac.emergency_mode,
        forall|other: Role|
            ac.with_multi(role, members).transfer_state(other) == ac.transfer_state(other),
{
}

/// Admin supremacy: whoever is bound to the top role passes the role check
/// for every role in the catalog, whether or not they were ever bound to it.
pub proof fn lemma_admin_supremacy(ac: AccessControl, admin: Identity, role: Role)
    requires
        ac.holds(admin, Role::Admin),
    ensures
        ac.authorized(admin, role),
{
}

/// The delayed-transfer protocol, end to end. Committing a transfer of a
/// transfer-delayed role at ledger time `now` puts the role in the pending
/// state with deadline exactly `now + ADMIN_ACTIONS_DELAY`; by
/// `apply_transfer_ownership`'s contract the pending transfer cannot be
/// applied at any ledger time before that deadline, and applying it at or
/// after the deadline rebinds the role to the committed target and returns
/// the automaton to the idle state.
pub proof fn lemma_delayed_transfer_protocol(
    ac: AccessControl,
    role: Role,
    target: Identity,
    now: u64,
)
    requires
        ac.wf(),
        role.spec_is_transfer_delayed(),
        ac.deadline_of(role) == 0,
        now + ADMIN_ACTIONS_DELAY <= u64::MAX,
    ensures
        ({
            let committed = ac.with_transfer(
                role,
                (TransferState {
                    pending_target: Some(target),
                    deadline: (now + ADMIN_ACTIONS_DELAY) as u64,
                }),
            );
            &&& committed.wf()
            &&& committed.deadline_of(role) == now + ADMIN_ACTIONS_DELAY
            &&& committed.deadline_of(role) != 0
            &&& committed.pending_target_of(role) == Some(target)
            &&& forall|id: Identity, other: Role| committed.holds(id, other) == ac.holds(id, other)
            &&& ({
                let applied = committed.with_single(role, target).with_transfer(
                    role,
                    (TransferState { pending_target: None, deadline: 0 }),
                );
                &&& applied.wf()
                &&& applied.holds(target, role)
                &&& applied.deadline_of(role) == 0
                &&& applied.pending_target_of(role) is None
            })
        }),
{
}

/// No concurrent transfers: once a transfer of a role is pending, its
/// deadline is nonzero, and by `commit_transfer_ownership`'s contract any
/// second commit on the same role fails with `TransferAlreadyPending` until
/// the first is applied or reverted.
pub proof fn lemma_pending_transfer_blocks_commit(
    ac: AccessControl,
    role: Role,
    target: Identity,
    now: u64,
)
    requires
        role.spec_is_transfer_delayed(),
        now + ADMIN_ACTIONS_DELAY <= u64::MAX,
    ensures
        ac.with_transfer(
            role,
            (TransferState {
                pending_target: Some(target),
                deadline: (now + ADMIN_ACTIONS_DELAY) as u64,
            }),
        ).deadline_of(role) != 0,
{
}

/// Idempotence and independence of the emergency flag: writing the same
/// value twice leaves exactly the state one write leaves, and no bind of a
/// single- or multi-holder role ever changes the flag.
pub proof fn lemma_emergency_idempotent(ac: AccessControl, value: bool)
    ensures
        ac.with_emergency(value).with_emergency(value) == ac.with_emergency(value),
        ac.with_emergency(value).emergency_mode == value,
        forall|role: Role, id: Identity|
            ac.with_emergency(value).with_single(role, id).emergency_mode == value,
        forall|role: Role, members: Vec<Identity>|
            ac.with_emergency(value).with_multi(role, members).emergency_mode == value,
{
}

/// The role catalog's names form a bijection with the roles: parsing the
/// rendered name of any catalog role gives that role back.
pub proof fn lemma_role_name_round_trip()
    ensures
        forall|role: Role| #[trigger] Role::spec_from_name(role.spec_name()) == Some(role),
{
    reveal_strlit("Admin");
    reveal_strlit("EmergencyAdmin");
    reveal_strlit("RewardsAdmin");
    reveal_strlit("OperationsAdmin");
    reveal_strlit("PauseAdmin");
    reveal_strlit("EmergencyPauseAdmin");
    assert("Admin"@.len() == 5);
    assert("EmergencyAdmin"@.len() == 14);
    assert("RewardsAdmin"@.len() == 12);
    assert("OperationsAdmin"@.len() == 15);
    assert("PauseAdmin"@.len() == 10);
    assert("EmergencyPauseAdmin"@.len() == 19);
    assert forall|role: Role| #[trigger] Role::spec_from_name(role.spec_name()) == Some(role) by {
        match role {
            Role::Admin => {},
            Role::EmergencyAdmin => {},
            Role::RewardsAdmin => {},
            Role::OperationsAdmin => {},
            Role::PauseAdmin => {},
            Role::EmergencyPauseAdmin => {},
        }
    }
}

} // verus!
