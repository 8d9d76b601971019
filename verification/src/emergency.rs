use vstd::prelude::*;

use crate::access::AccessControl;

verus! {

impl AccessControl {
    /// Writes the emergency kill-switch flag unconditionally. Authorization
    /// is enforced by the caller before invoking this. Setting the value the
    /// flag already has changes nothing, and no role mutation ever touches
    /// the flag.
    pub fn set_emergency_mode(&mut self, value: bool)
        ensures
            *final(self) == old(self).with_emergency(value),
    {
        self.emergency_mode = value;
    }

    /// The last value written to the emergency flag, `false` before the
    /// first write.
    pub fn get_emergency_mode(&self) -> (mode: bool)
        ensures
            mode == self.emergency_mode,
    {
        self.emergency_mode
    }
}

} // verus!
