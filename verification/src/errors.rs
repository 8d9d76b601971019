use vstd::prelude::*;

verus! {

/// Every way an operation of the access-control core can fail. Each guard in
/// the core either passes or aborts the invocation with one of these kinds;
/// no failure is silently swallowed.
#[derive(Clone, Copy, PartialEq, Eq, Structural, Debug)]
pub enum AccessControlError {
    /// A role name outside the closed catalog was given.
    UnknownRole,
    /// A single-holder operation was applied to a multi-holder role, a
    /// multi-holder operation to a single-holder role, or a delayed-transfer
    /// operation to a role that is not transfer-delayed.
    WrongRoleKind,
    /// A single-holder role was queried while no identity is bound to it.
    RoleUnset,
    /// The caller does not hold the required role.
    Unauthorized,
    /// A second attempt was made to initialize the top role.
    AlreadyInitialized,
    /// A transfer was committed while another one is still pending.
    TransferAlreadyPending,
    /// A transfer was applied or reverted while none is pending.
    NoPendingTransfer,
    /// A pending transfer was applied before its deadline.
    TransferNotReady,
}

} // verus!
