use vstd::prelude::*;

verus! {

/// Seconds that must elapse between committing a delayed ownership transfer
/// and applying it: three days, the same fixed delay for every
/// transfer-delayed role.
pub const ADMIN_ACTIONS_DELAY: u64 = 3 * 24 * 60 * 60;

} // verus!
