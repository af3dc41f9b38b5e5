use kioskwm::console_backdrop::{console_lines, is_prompt, wrap_line};
use kioskwm::env_detect::{is_hardware_tty_path, is_tty_device, on_hardware_tty};
use kioskwm::i18n::{parse_lang, I18n, Lang, Msg};
use kioskwm::settings::layout::ConfirmAction;
use kioskwm::spawn::{
    bash_rc, client_env_script, decimal_string, detect_terminal, escape_shell, first_word, resolve_spawn,
    shell_init_script, shell_kind, shell_name, spawn_candidate, terminal_name, zsh_rc, Args, ShellKind,
};
use kioskwm::text::{starts_with, trim, trim_end, trim_start};

#[test]
fn trimming() {
    assert_eq!(trim("  a b \t\n"), "a b");
    assert_eq!(trim_start("  a "), "a ");
    assert_eq!(trim_end("  a \u{3000}"), "  a");
    assert_eq!(trim("   "), "");
    assert!(starts_with("/dev/tty3", "/dev/tty"));
    assert!(!starts_with("/dev", "/dev/tty"));
}

#[test]
fn tty_detection() {
    assert!(is_tty_device("/dev/tty3"));
    assert!(is_tty_device("/dev/pts/0"));
    assert!(!is_tty_device("/proc/self"));
    assert!(is_hardware_tty_path("/dev/tty3"));
    assert!(is_hardware_tty_path(" /dev/tty12\n"));
    assert!(!is_hardware_tty_path("/dev/tty"));
    assert!(!is_hardware_tty_path("/dev/ttyS0"));
    assert!(!is_hardware_tty_path("/dev/pts/1"));
    assert!(on_hardware_tty(Some("/dev/tty2")));
    assert!(!on_hardware_tty(None));
}

#[test]
fn languages() {
    assert_eq!(parse_lang("pt_BR.UTF-8"), Lang::Pt);
    assert_eq!(parse_lang("PT"), Lang::Pt);
    assert_eq!(parse_lang("en_US"), Lang::En);
    assert_eq!(parse_lang("de"), Lang::En);
    assert_eq!(I18n::resolve(Some("pt"), Some("en")).lang, Lang::Pt);
    assert_eq!(I18n::resolve(Some(""), Some("pt-BR")).lang, Lang::Pt);
    assert_eq!(I18n::resolve(None, None).lang, Lang::En);
    let en = I18n::new(Lang::En);
    let pt = I18n::new(Lang::Pt);
    assert_eq!(en.t(Msg::Settings), "Settings");
    assert_eq!(pt.t(Msg::Settings), "Ajustes");
    assert_eq!(en.cache_tag(), 0);
    assert_eq!(pt.cache_tag(), 1);
    let (title, _body) = en.confirm_dialog(ConfirmAction::Shutdown);
    assert!(!title.is_empty());
}

#[test]
fn console_wrapping() {
    assert_eq!(wrap_line("hello", 10), vec!["hello"]);
    assert_eq!(wrap_line("hello world foo", 11), vec!["hello", "world foo"]);
    assert_eq!(wrap_line("abcdefghij", 4), vec!["abcd", "efgh", "ij"]);
    assert_eq!(wrap_line("ab  cd", 3), vec!["ab", "cd"]);
    assert_eq!(wrap_line("", 5), vec![""]);
    for piece in wrap_line("the quick brown fox jumps over the lazy dog", 7) {
        assert!(piece.chars().count() <= 7);
    }
}

#[test]
fn console_screen() {
    let motd = vec!["Hi".to_string(), "   ".to_string(), "a b c d".to_string()];
    let lines = console_lines(3, "box", "/dev/tty3", "ana", &motd);
    assert_eq!(lines, vec!["box /dev/tty3", "", "Hi", "", "a", "b", "c d", "", "ana@box:~$ "]);
    let none = console_lines(80, "h", "tty1", "u", &Vec::new());
    assert_eq!(none, vec!["h tty1", "", "u@h:~$ "]);
    assert!(is_prompt("u@h:~$ "));
    assert!(!is_prompt("h tty1"));
}

#[test]
fn spawn_words_and_quoting() {
    assert_eq!(first_word("  konsole --separate"), "konsole");
    assert_eq!(first_word("foot"), "foot");
    assert_eq!(first_word("   "), "   ");
    assert_eq!(escape_shell("it's"), "it'\\''s");
    assert_eq!(escape_shell("plain"), "plain");
    assert_eq!(spawn_candidate("  alacritty -e htop "), Some(("alacritty -e htop".to_string(), "alacritty".to_string())));
    assert_eq!(spawn_candidate("  "), None);
    assert_eq!(decimal_string(0), "0");
    assert_eq!(decimal_string(1024), "1024");
    assert_eq!(decimal_string(u32::MAX), "4294967295");
}

fn args(terminal: &str, no_spawn: bool) -> Args {
    Args { terminal: terminal.to_string(), no_spawn, spawn_delay_ms: 300, desktop: false }
}

#[test]
fn spawn_resolution() {
    assert_eq!(resolve_spawn(&args("foot", true), true, None, None).command, None);
    assert_eq!(resolve_spawn(&args(" foot ", false), true, None, None).command, Some("foot".to_string()));
    assert_eq!(resolve_spawn(&args("foot", false), false, Some("x".to_string()), None).command, None);
    assert_eq!(
        resolve_spawn(&args("auto", false), false, Some("kitty".to_string()), Some("foot".to_string())).command,
        Some("kitty".to_string())
    );
    assert_eq!(
        resolve_spawn(&args("auto", false), false, None, Some("foot".to_string())).command,
        Some("foot".to_string())
    );
    assert_eq!(resolve_spawn(&args("auto", false), true, None, None).command, None);
    assert_eq!(detect_terminal(&vec![false, false, true, true, false, false]), Some("konsole".to_string()));
    assert_eq!(detect_terminal(&vec![false; 6]), None);
    let names: Vec<&str> = (0..6).map(terminal_name).collect();
    assert_eq!(names, vec!["foot", "alacritty", "konsole", "kitty", "wezterm", "ghostty"]);
}

#[test]
fn shell_scripts() {
    assert_eq!(shell_name("/usr/bin/zsh"), "zsh");
    assert_eq!(shell_name("bash"), "bash");
    assert_eq!(shell_kind("/bin/zsh"), ShellKind::Zsh);
    assert_eq!(shell_kind("/bin/bash"), ShellKind::Bash);
    assert_eq!(shell_kind("/usr/bin/fish"), ShellKind::Other);
    let env = client_env_script("wayland-1", Some(2));
    assert!(env.contains("export WAYLAND_DISPLAY='wayland-1'\n"));
    assert!(env.contains("export DISPLAY=':2'\n"));
    assert!(env.ends_with("unset WAYLAND_SOCKET\n"));
    let env = client_env_script("w'x", None);
    assert!(env.contains("export WAYLAND_DISPLAY='w'\\''x'\n"));
    assert!(env.contains("unset DISPLAY\n"));
    let init = shell_init_script("/bin/bash", ShellKind::Bash, "/run/env.sh", "/run/rc");
    assert!(init.starts_with("#!/bin/bash\n"));
    assert!(init.ends_with("exec bash --rcfile '/run/rc' -i\n"));
    let init = shell_init_script("/usr/bin/fish", ShellKind::Other, "/run/env.sh", "");
    assert!(init.ends_with(". \"$KIOSKWM_ENV\"\nexec '/usr/bin/fish' -i\n"));
    let rc = bash_rc("/run/env.sh", "/run/qt.sh", Some("/run/bin"));
    assert!(rc.contains("kate() { '/run/bin/kate' \"$@\"; }\n"));
    let rc = bash_rc("/run/env.sh", "/run/qt.sh", None);
    assert!(!rc.contains("kate()"));
    let z = zsh_rc("/run/env.sh", "/run/qt.sh", "/run/bin//");
    assert!(z.contains("kate() { \"/run/bin/kate\" \"$@\"; }\n"));
    assert!(!zsh_rc("/a", "/b", "").contains("kate()"));
}

#[test]
fn default_language_is_english() {
    assert_eq!(Lang::default(), Lang::En);
    assert_eq!(I18n::new(Lang::default()).lang(), Lang::En);
    assert_eq!(I18n::new(Lang::Pt).lang(), Lang::Pt);
}

#[test]
fn unicode_whitespace_trimmed() {
    assert_eq!(trim("\u{3000}\u{a0}ab\u{2028}\t"), "ab");
    assert_eq!(trim("\u{200b}x"), "\u{200b}x");
}

#[test]
fn command_words() {
    assert_eq!(kioskwm::spawn::words("  foot  -e  htop "), vec!["foot", "-e", "htop"]);
    assert!(kioskwm::spawn::words(" \t ").is_empty());
}

#[test]
fn launch_konsole_with_shell_init() {
    let l = kioskwm::spawn::launch_command("konsole --x", "wayland-1", true, Some("/run/init.sh"), Some("/run/env.sh"), "/bin/zsh");
    assert_eq!(l.program, "konsole");
    assert_eq!(l.args, vec!["--separate", "-p", "TabTitleFormat=kioskwm", "--hold", "--x", "-e", "/run/init.sh"]);
    assert_eq!(l.env[0], ("QSG_RHI_BACKEND".to_string(), "software".to_string()));
    assert_eq!(l.env[2], ("WAYLAND_DISPLAY".to_string(), "wayland-1".to_string()));
    assert_eq!(l.env.len(), 8);
    assert_eq!(l.env_remove, vec!["DISPLAY", "WAYLAND_SOCKET"]);
}

#[test]
fn launch_konsole_without_shell_init() {
    let l = kioskwm::spawn::launch_command("konsole", "w", false, None, Some("/run/env.sh"), "/bin/bash");
    assert_eq!(
        l.args,
        vec!["--separate", "-p", "TabTitleFormat=kioskwm", "-e", "/bin/bash", "-c", ". '/run/env.sh'; exec '/bin/bash' -i"]
    );
}

#[test]
fn launch_other_terminals() {
    let a = kioskwm::spawn::launch_command("alacritty", "w", false, Some("/i"), None, "sh");
    assert_eq!(a.args, vec!["-e", "/i"]);
    assert_eq!(a.env.len(), 6);
    let f = kioskwm::spawn::launch_command(" foot -s ", "w", true, Some("/i"), None, "sh");
    assert_eq!(f.program, "foot");
    assert_eq!(f.args, vec!["-s"]);
    let e = kioskwm::spawn::launch_command("  ", "w", false, None, None, "sh");
    assert_eq!(e.program, "  ");
    assert!(e.args.is_empty());
}
