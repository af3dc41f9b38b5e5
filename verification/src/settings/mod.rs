pub mod input;
pub mod layout;
pub mod raster;
pub mod style;
pub mod text;
pub mod theme;

use vstd::prelude::*;

pub use layout::{ConfirmAction, Screen};

verus! {

#[derive(Debug, Clone, Copy, PartialEq, Eq, Structural)]
pub struct SettingsState {
    pub screen: Screen,
    pub confirm: Option<ConfirmAction>,
    pub slider_drag: bool,
    pub hover: Option<layout::Hit>,
}

impl Default for SettingsState {
    fn default() -> (r: Self)
        ensures
            r.screen == Screen::Main,
            r.confirm is None,
            !r.slider_drag,
            r.hover is None,
    {
        Self { screen: Screen::Main, confirm: None, slider_drag: false, hover: None }
    }
}

} // verus!
