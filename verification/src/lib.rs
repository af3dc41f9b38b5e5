pub mod alt_tab;
pub mod apps;
pub mod console_backdrop;
pub mod context_menu;
pub mod cursor;
pub mod emergency;
pub mod env_detect;
pub mod frame;
pub mod geom;
pub mod hardware_bridge;
pub mod i18n;
pub mod input;
pub mod keys;
pub mod kill_switch;
pub mod modifiers;
pub mod order;
pub mod overlay;
pub mod parent_shortcuts;
pub mod perf;
pub mod settings;
pub mod spawn;
pub mod state;
pub mod text;
pub mod x11;
