//! Nested compositor workaround: the parent compositor (KDE/Plasma, ...) may consume global
//! shortcuts (Ctrl+Alt+Del, Super+Esc, ...) before forwarding them. The compositor asks for
//! `zwp_keyboard_shortcuts_inhibit` on its window; the evdev thread stays as fallback.

use vstd::prelude::*;

verus! {

pub const KDE_NOTICE: &'static str = "KDE/Plasma detectado — KWin pode engolir atalhos globais e Super; ativando keyboard_shortcuts_inhibit + evdev";

pub const NESTED_NOTICE: &'static str = "Compositor aninhado — atalhos globais do pai podem ser interceptados; ativando inhibit Wayland + evdev";

/// The notice logged at start-up about the workaround: none when the parent does not
/// steal shortcuts, a KDE-specific one under KDE, a generic one otherwise.
pub fn log_workaround(parent_steals_shortcuts: bool, kde_session: bool) -> (r: Option<&'static str>)
    ensures
        !parent_steals_shortcuts ==> r is None,
        parent_steals_shortcuts && kde_session ==> r == Some(KDE_NOTICE),
        parent_steals_shortcuts && !kde_session ==> r == Some(NESTED_NOTICE),
{
    if !parent_steals_shortcuts {
        return None;
    }
    if kde_session {
        Some(KDE_NOTICE)
    } else {
        Some(NESTED_NOTICE)
    }
}

} // verus!
