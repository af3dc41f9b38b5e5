//! Which layers a frame is composed of, bottom to top: the console backdrop (else a plain
//! clear colour), the focused app, the panel's scrim, the Alt+Tab switcher, the WM menu,
//! the settings panel and the pointer.

use vstd::prelude::*;

use crate::state::State;

verus! {

#[derive(Clone, Copy, Debug, PartialEq, Eq, Structural)]
pub struct FrameLayers {
    /// The focused app and its popups.
    pub apps: bool,
    /// The console backdrop (VT, no app open).
    pub console: bool,
    /// The dimming scrim under the settings panel.
    pub scrim: bool,
    pub switcher: bool,
    pub menu: bool,
    pub panel: bool,
    /// The pointer drawn by the compositor.
    pub cursor: bool,
}

/// The layers of a frame for `s`; `vt_cursor`: the compositor draws the pointer itself (on
/// a VT); `pointer_known`: a pointer position is available.
pub open spec fn spec_frame_layers(s: State, vt_cursor: bool, pointer_known: bool) -> FrameLayers {
    let wm_ui = s.overlay_open || s.context_menu.open || s.alt_tab.open;
    FrameLayers {
        apps: !wm_ui,
        console: s.console_backdrop_enabled && s.spec_app_count() == 0 && !wm_ui,
        scrim: s.overlay_open,
        switcher: s.alt_tab.open,
        menu: s.context_menu.open,
        panel: s.overlay_open,
        cursor: vt_cursor && pointer_known,
    }
}

/// Apps are not composed under the WM's own UI (on a VT the panel shows over a dark ground);
/// the console backdrop shows only with no app and no WM UI; each WM picture shows while it
/// is open; the pointer is drawn when the compositor owns it and its position is known.
pub fn frame_layers(state: &State, vt_cursor: bool, pointer_known: bool) -> (r: FrameLayers)
    requires
        state.spec_app_count() <= usize::MAX,
    ensures
        r == spec_frame_layers(*state, vt_cursor, pointer_known),
{
    let skip_apps = state.wm_ui_obscures_apps() || (state.overlay_open && vt_cursor);
    FrameLayers {
        apps: !skip_apps,
        console: crate::console_backdrop::wants(state),
        scrim: state.overlay_open,
        switcher: state.alt_tab.open,
        menu: state.context_menu.open,
        panel: state.overlay_open,
        cursor: vt_cursor && pointer_known,
    }
}

} // verus!
