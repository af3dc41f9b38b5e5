//! UI strings — English by default; `--lang` or `KIOSKWM_LANG` may switch to Portuguese.

use vstd::prelude::*;

use crate::settings::layout::ConfirmAction;
use crate::text::{first_segment, spec_first_segment};

verus! {

#[derive(Clone, Copy, Debug, PartialEq, Eq, Hash, Structural)]
pub enum Lang {
    En,
    Pt,
}

impl Default for Lang {
    /// English.
    fn default() -> (r: Self)
        ensures
            r == Lang::En,
    {
        Lang::En
    }
}

#[derive(Clone, Copy, Debug, PartialEq, Eq, Structural)]
pub struct I18n {
    pub lang: Lang,
}

#[derive(Clone, Copy, Debug, PartialEq, Eq, Hash, Structural)]
pub enum Msg {
    Back,
    Settings,
    MostUsedPages,
    Mouse,
    FooterQuitWm,
    FooterShutDown,
    FooterRestart,
    PointerSpeed,
    MouseFooterHint,
    Cancel,
    Confirm,
    OpenSettings,
    CloseApp,
    Main,
}

/// The text of `msg` in `lang`.
pub open spec fn msg_text(lang: Lang, msg: Msg) -> Seq<char> {
    match (lang, msg) {
        (Lang::En, Msg::Back) => "Back"@,
        (Lang::En, Msg::Settings) => "Settings"@,
        (Lang::En, Msg::MostUsedPages) => "Most used"@,
        (Lang::En, Msg::Mouse) => "Mouse"@,
        (Lang::En, Msg::FooterQuitWm) => "Quit WM"@,
        (Lang::En, Msg::FooterShutDown) => "Shut down"@,
        (Lang::En, Msg::FooterRestart) => "Restart"@,
        (Lang::En, Msg::PointerSpeed) => "Pointer speed"@,
        (Lang::En, Msg::MouseFooterHint) => "Drag the slider. Esc or Back: main menu."@,
        (Lang::En, Msg::Cancel) => "Cancel"@,
        (Lang::En, Msg::Confirm) => "Confirm"@,
        (Lang::En, Msg::OpenSettings) => "Open settings"@,
        (Lang::En, Msg::CloseApp) => "Close window"@,
        (Lang::En, Msg::Main) => "Main"@,
        (Lang::Pt, Msg::Back) => "Voltar"@,
        (Lang::Pt, Msg::Settings) => "Ajustes"@,
        (Lang::Pt, Msg::MostUsedPages) => "Paginas mais usadas"@,
        (Lang::Pt, Msg::Mouse) => "Mouse"@,
        (Lang::Pt, Msg::FooterQuitWm) => "Fechar WM"@,
        (Lang::Pt, Msg::FooterShutDown) => "Desligar"@,
        (Lang::Pt, Msg::FooterRestart) => "Reiniciar"@,
        (Lang::Pt, Msg::PointerSpeed) => "Velocidade do ponteiro"@,
        (Lang::Pt, Msg::MouseFooterHint) => "Arraste o controle. Esc ou Voltar: menu principal."@,
        (Lang::Pt, Msg::Cancel) => "Cancelar"@,
        (Lang::Pt, Msg::Confirm) => "Confirmar"@,
        (Lang::Pt, Msg::OpenSettings) => "Abrir ajustes"@,
        (Lang::Pt, Msg::CloseApp) => "Fechar janela"@,
        (Lang::Pt, Msg::Main) => "Principal"@,
    }
}

/// Title and body of the confirmation dialog for `action` in `lang`.
pub open spec fn dialog_text(lang: Lang, action: ConfirmAction) -> (Seq<char>, Seq<char>) {
    match (lang, action) {
        (Lang::En, ConfirmAction::QuitWm) => ("Quit kioskwm?"@, "The Wayland compositor will exit."@),
        (Lang::En, ConfirmAction::Shutdown) => ("Shut down the computer?"@, "All programs will be closed."@),
        (Lang::En, ConfirmAction::Reboot) => ("Restart the computer?"@, "All programs will be closed."@),
        (Lang::Pt, ConfirmAction::QuitWm) => ("Fechar kioskwm?"@, "O compositor Wayland sera encerrado."@),
        (Lang::Pt, ConfirmAction::Shutdown) => ("Desligar o computador?"@, "Todos os programas serao fechados."@),
        (Lang::Pt, ConfirmAction::Reboot) => ("Reiniciar o computador?"@, "Todos os programas serao fechados."@),
    }
}

/// A language code names Portuguese when its primary subtag is `pt` or `br`.
pub open spec fn spec_parse_lang(lowered: Seq<char>) -> Lang {
    let code = spec_first_segment(lowered);
    if code == "pt"@ || code == "br"@ {
        Lang::Pt
    } else {
        Lang::En
    }
}

impl I18n {
    pub fn new(lang: Lang) -> (r: Self)
        ensures
            r.lang == lang,
    {
        Self { lang }
    }

    pub fn lang(&self) -> (r: Lang)
        ensures
            r == self.lang,
    {
        self.lang
    }

    /// Small tag that distinguishes the languages in render-cache keys.
    pub fn cache_tag(&self) -> (r: u8)
        ensures
            r == (match self.lang {
                Lang::En => 0u8,
                Lang::Pt => 1u8,
            }),
    {
        match self.lang {
            Lang::En => 0,
            Lang::Pt => 1,
        }
    }

    /// CLI `--lang` wins (when non-empty), then the `KIOSKWM_LANG` value; otherwise English.
    /// `LANG` is not consulted, so a localized OS still gets English.
    pub fn resolve(cli_lang: Option<&str>, env_lang: Option<&str>) -> (r: Self)
        ensures
            match cli_lang {
                Some(s) if s@.len() > 0 => r.lang == spec_parse_lang(crate::text::lowercase(s@)),
                _ => match env_lang {
                    Some(v) => r.lang == spec_parse_lang(crate::text::lowercase(v@)),
                    None => r.lang == Lang::En,
                },
            },
    {
        if let Some(s) = cli_lang {
            if s.unicode_len() > 0 {
                return Self::new(parse_lang(s));
            }
        }
        if let Some(v) = env_lang {
            return Self::new(parse_lang(v));
        }
        Self::new(Lang::En)
    }

    pub fn t(self, msg: Msg) -> (r: &'static str)
        ensures
            r@ == msg_text(self.lang, msg),
    {
        match (self.lang, msg) {
            (Lang::En, Msg::Back) => "Back",
            (Lang::En, Msg::Settings) => "Settings",
            (Lang::En, Msg::MostUsedPages) => "Most used",
            (Lang::En, Msg::Mouse) => "Mouse",
            (Lang::En, Msg::FooterQuitWm) => "Quit WM",
            (Lang::En, Msg::FooterShutDown) => "Shut down",
            (Lang::En, Msg::FooterRestart) => "Restart",
            (Lang::En, Msg::PointerSpeed) => "Pointer speed",
            (Lang::En, Msg::MouseFooterHint) => "Drag the slider. Esc or Back: main menu.",
            (Lang::En, Msg::Cancel) => "Cancel",
            (Lang::En, Msg::Confirm) => "Confirm",
            (Lang::En, Msg::OpenSettings) => "Open settings",
            (Lang::En, Msg::CloseApp) => "Close window",
            (Lang::En, Msg::Main) => "Main",
            (Lang::Pt, Msg::Back) => "Voltar",
            (Lang::Pt, Msg::Settings) => "Ajustes",
            (Lang::Pt, Msg::MostUsedPages) => "Paginas mais usadas",
            (Lang::Pt, Msg::Mouse) => "Mouse",
            (Lang::Pt, Msg::FooterQuitWm) => "Fechar WM",
            (Lang::Pt, Msg::FooterShutDown) => "Desligar",
            (Lang::Pt, Msg::FooterRestart) => "Reiniciar",
            (Lang::Pt, Msg::PointerSpeed) => "Velocidade do ponteiro",
            (Lang::Pt, Msg::MouseFooterHint) => "Arraste o controle. Esc ou Voltar: menu principal.",
            (Lang::Pt, Msg::Cancel) => "Cancelar",
            (Lang::Pt, Msg::Confirm) => "Confirmar",
            (Lang::Pt, Msg::OpenSettings) => "Abrir ajustes",
            (Lang::Pt, Msg::CloseApp) => "Fechar janela",
            (Lang::Pt, Msg::Main) => "Principal",
        }
    }

    pub fn confirm_dialog(self, action: ConfirmAction) -> (r: (&'static str, &'static str))
        ensures
            (r.0@, r.1@) == dialog_text(self.lang, action),
    {
        match (self.lang, action) {
            (Lang::En, ConfirmAction::QuitWm) => ("Quit kioskwm?", "The Wayland compositor will exit."),
            (Lang::En, ConfirmAction::Shutdown) => ("Shut down the computer?", "All programs will be closed."),
            (Lang::En, ConfirmAction::Reboot) => ("Restart the computer?", "All programs will be closed."),
            (Lang::Pt, ConfirmAction::QuitWm) => ("Fechar kioskwm?", "O compositor Wayland sera encerrado."),
            (Lang::Pt, ConfirmAction::Shutdown) => ("Desligar o computador?", "Todos os programas serao fechados."),
            (Lang::Pt, ConfirmAction::Reboot) => ("Reiniciar o computador?", "Todos os programas serao fechados."),
        }
    }
}

/// Language named by a code such as `pt_BR`, `pt-BR`, `BR` or `en_US` (case-insensitive).
pub fn parse_lang(s: &str) -> (r: Lang)
    ensures
        r == spec_parse_lang(crate::text::lowercase(s@)),
{
    let code = crate::text::to_lowercase(s);
    let seg = first_segment(code.as_str());
    let pt = crate::text::str_eq(seg.as_str(), "pt");
    let br = crate::text::str_eq(seg.as_str(), "br");
    if pt || br {
        Lang::Pt
    } else {
        Lang::En
    }
}

} // verus!
