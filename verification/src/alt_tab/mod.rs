pub mod input;
pub mod layout;

use vstd::prelude::*;

verus! {

#[derive(Debug, Clone, Copy, PartialEq, Eq, Structural)]
pub struct AltTabState {
    pub open: bool,
    /// Position in the rotated MRU list (0 = the app focused now).
    pub slot: usize,
}

impl Default for AltTabState {
    fn default() -> (r: Self)
        ensures
            !r.open,
            r.slot == 0,
    {
        AltTabState { open: false, slot: 0 }
    }
}

} // verus!
