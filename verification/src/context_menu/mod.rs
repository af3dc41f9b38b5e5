pub mod control;
pub mod input;
pub mod layout;

use vstd::prelude::*;

use layout::Hit;



verus! {

#[derive(Debug, Clone, Copy, PartialEq, Eq, Structural)]
pub struct ContextMenuState {
    pub open: bool,
    pub origin_x: i32,
    pub origin_y: i32,
    pub hover: Option<Hit>,
}

impl Default for ContextMenuState {
    fn default() -> (r: Self)
        ensures
            !r.open,
            r.origin_x == 0,
            r.origin_y == 0,
            r.hover is None,
    {
        Self { open: false, origin_x: 0, origin_y: 0, hover: None }
    }
}

} // verus!
