//! What to launch at start-up, and the text of the shell scripts handed to it.

use vstd::prelude::*;

use crate::text::{is_ws, lemma_lead_ws, lead_ws_len, spec_trim, spec_trim_start, str_eq, trim, char_is_whitespace};

verus! {

/// Command-line options of the compositor.
pub struct Args {
    /// Terminal to open: a command, or `auto` (environment, then the first terminal found).
    pub terminal: String,
    /// Open nothing at start-up.
    pub no_spawn: bool,
    /// Delay before launching, so the socket is ready.
    pub spawn_delay_ms: u64,
    /// Force the nested (winit) backend.
    pub desktop: bool,
}

/// The command to launch at start-up, if any.
pub struct SpawnPlan {
    pub command: Option<String>,
}

/// Index of the first whitespace character of `s`, or `s.len()`.
pub open spec fn word_end(s: Seq<char>) -> int
    decreases s.len(),
{
    if s.len() == 0 || is_ws(s[0]) {
        0
    } else {
        1 + word_end(s.drop_first())
    }
}

/// `s.split_whitespace().next().unwrap_or(s)`: the first word, or `s` itself when it has
/// none.
pub open spec fn spec_first_word(s: Seq<char>) -> Seq<char> {
    let t = spec_trim_start(s);
    if t.len() == 0 {
        s
    } else {
        t.take(word_end(t))
    }
}

pub proof fn lemma_word_end(s: Seq<char>)
    ensures
        0 <= word_end(s) <= s.len(),
        forall|j: int| 0 <= j < word_end(s) ==> !is_ws(#[trigger] s[j]),
        word_end(s) < s.len() ==> is_ws(s[word_end(s)]),
    decreases s.len(),
{
    if s.len() > 0 && !is_ws(s[0]) {
        lemma_word_end(s.drop_first());
        assert forall|j: int| 0 <= j < word_end(s) implies !is_ws(#[trigger] s[j]) by {
            if j > 0 {
                assert(s[j] == s.drop_first()[j - 1]);
            }
        }
    }
}

proof fn lemma_word_end_at(s: Seq<char>, k: int)
    requires
        0 <= k <= s.len(),
        forall|j: int| 0 <= j < k ==> !is_ws(#[trigger] s[j]),
        k < s.len() ==> is_ws(s[k]),
    ensures
        word_end(s) == k,
    decreases s.len(),
{
    if k > 0 {
        assert(!is_ws(s[0]));
        assert forall|j: int| 0 <= j < k - 1 implies !is_ws(#[trigger] s.drop_first()[j]) by {
            assert(s.drop_first()[j] == s[j + 1]);
        }
        if k < s.len() {
            assert(s.drop_first()[k - 1] == s[k]);
        }
        lemma_word_end_at(s.drop_first(), k - 1);
    }
}

/// The binary of a command line: its first word.
pub fn first_word(s: &str) -> (r: String)
    ensures
        r@ == spec_first_word(s@),
{
    let n = s.unicode_len();
    let start = lead_ws_len(s);
    proof {
        lemma_lead_ws(s@);
    }
    if start == n {
        return s.to_owned();
    }
    let mut k = start;
    while k < n && !char_is_whitespace(s.get_char(k))
        invariant
            n == s@.len(),
            start <= k <= n,
            start == crate::text::lead_ws(s@),
            forall|j: int| start <= j < k ==> !is_ws(#[trigger] s@[j]),
        decreases n - k,
    {
        k = k + 1;
    }
    let ghost t = spec_trim_start(s@);
    proof {
        assert forall|j: int| 0 <= j < k - start implies !is_ws(#[trigger] t[j]) by {
            assert(t[j] == s@[j + start]);
        }
        if k < n {
            assert(t[k - start] == s@[k as int]);
        }
        lemma_word_end_at(t, k - start);
    }
    let r = s.substring_char(start, k).to_owned();
    assert(r@ =~= t.take(k - start));
    r
}

/// `str::split_whitespace`: the words of `s`, in order.
pub open spec fn spec_words(s: Seq<char>) -> Seq<Seq<char>>
    decreases s.len(),
{
    if s.len() == 0 {
        seq![]
    } else if is_ws(s[0]) {
        spec_words(s.drop_first())
    } else {
        proof {
            lemma_word_end(s);
        }
        seq![s.take(word_end(s))] + spec_words(s.skip(word_end(s)))
    }
}

/// The views of a list of strings.
pub open spec fn views(v: Seq<String>) -> Seq<Seq<char>> {
    v.map_values(|w: String| w@)
}

/// The words of `s`, split at whitespace.
pub fn words(s: &str) -> (r: Vec<String>)
    ensures
        views(r@) == spec_words(s@),
{
    let n = s.unicode_len();
    let mut out: Vec<String> = Vec::new();
    let mut i: usize = 0;
    assert(s@.skip(0) =~= s@);
    assert(views(out@) + spec_words(s@) =~= spec_words(s@));
    while i < n
        invariant
            n == s@.len(),
            i <= n,
            views(out@) + spec_words(s@.skip(i as int)) == spec_words(s@),
        decreases n - i,
    {
        let ghost t = s@.skip(i as int);
        if char_is_whitespace(s.get_char(i)) {
            assert(t.drop_first() =~= s@.skip(i + 1));
            i = i + 1;
        } else {
            let mut k = i + 1;
            while k < n && !char_is_whitespace(s.get_char(k))
                invariant
                    n == s@.len(),
                    i < k <= n,
                    !is_ws(s@[i as int]),
                    forall|j: int| i <= j < k ==> !is_ws(#[trigger] s@[j]),
                decreases n - k,
            {
                k = k + 1;
            }
            proof {
                assert forall|j: int| 0 <= j < k - i implies !is_ws(#[trigger] t[j]) by {
                    assert(t[j] == s@[i + j]);
                }
                if k < n {
                    assert(t[k - i] == s@[k as int]);
                }
                lemma_word_end_at(t, k - i);
                assert(t.skip(k - i) =~= s@.skip(k as int));
                assert(t.take(k - i) =~= s@.subrange(i as int, k as int));
            }
            let w = s.substring_char(i, k).to_owned();
            let ghost before = out@;
            out.push(w);
            assert(views(out@) =~= views(before).push(w@));
            assert(views(out@) + spec_words(s@.skip(k as int)) =~= views(before) + spec_words(t));
            i = k;
        }
    }
    assert(s@.skip(n as int) =~= Seq::<char>::empty());
    assert(views(out@) + spec_words(s@.skip(n as int)) =~= views(out@));
    out
}

/// How to start the start-up app: the program, its arguments, the environment variables to
/// set (in order) and those to remove.
pub struct LaunchCommand {
    pub program: String,
    pub args: Vec<String>,
    pub env: Vec<(String, String)>,
    pub env_remove: Vec<String>,
}

/// The program of a command line: its first word, or the whole line when it has none.
pub open spec fn spec_program(command: Seq<char>) -> Seq<char> {
    let w = spec_words(command);
    if w.len() > 0 {
        w[0]
    } else {
        command
    }
}

/// The words after the program.
pub open spec fn spec_extra_args(command: Seq<char>) -> Seq<Seq<char>> {
    let w = spec_words(command);
    if w.len() > 0 {
        w.drop_first()
    } else {
        seq![]
    }
}

/// Arguments: Konsole gets its own window, a fixed tab title, `--hold` when debugging, the
/// command's words, then the shell-init script to run (or, without one, the user's shell
/// sourcing the environment script); Alacritty gets the words, then the shell-init script;
/// any other terminal just the words.
pub open spec fn spec_launch_args(
    command: Seq<char>,
    debug_terminal: bool,
    shell_init: Option<Seq<char>>,
    env_script: Option<Seq<char>>,
    shell: Seq<char>,
) -> Seq<Seq<char>> {
    let program = spec_program(command);
    let extra = spec_extra_args(command);
    if program == "konsole"@ {
        seq!["--separate"@, "-p"@, "TabTitleFormat=kioskwm"@] + (if debug_terminal {
            seq!["--hold"@]
        } else {
            seq![]
        }) + extra + match shell_init {
            Some(init) => seq!["-e"@, init],
            None => match env_script {
                Some(base) => seq!["-e"@, shell, "-c"@, ". '"@ + base + "'; exec '"@ + shell + "' -i"@],
                None => seq![],
            },
        }
    } else if program == "alacritty"@ {
        extra + match shell_init {
            Some(init) => seq!["-e"@, init],
            None => seq![],
        }
    } else {
        extra
    }
}

/// Environment: Konsole is told to render in software; every app gets the Wayland session
/// variables for `wayland_display`.
pub open spec fn spec_launch_env(command: Seq<char>, wayland_display: Seq<char>) -> Seq<(Seq<char>, Seq<char>)> {
    (if spec_program(command) == "konsole"@ {
        seq![("QSG_RHI_BACKEND"@, "software"@), ("QT_QUICK_BACKEND"@, "software"@)]
    } else {
        seq![]
    }) + seq![
        ("WAYLAND_DISPLAY"@, wayland_display),
        ("QT_QPA_PLATFORM"@, "wayland"@),
        ("GDK_BACKEND"@, "wayland"@),
        ("SDL_VIDEODRIVER"@, "wayland"@),
        ("MOZ_ENABLE_WAYLAND"@, "1"@),
        ("XDG_SESSION_TYPE"@, "wayland"@),
    ]
}

pub open spec fn pair_views(v: Seq<(String, String)>) -> Seq<(Seq<char>, Seq<char>)> {
    v.map_values(|p: (String, String)| (p.0@, p.1@))
}

fn owned(s: &str) -> (r: String)
    ensures
        r@ == s@,
{
    String::from_str(s)
}

fn push_arg(v: &mut Vec<String>, s: &str)
    ensures
        views(final(v)@) == views(old(v)@).push(s@),
{
    let ghost before = v@;
    v.push(owned(s));
    assert(views(v@) =~= views(before).push(s@));
}

fn push_env(v: &mut Vec<(String, String)>, k: &str, val: &str)
    ensures
        pair_views(final(v)@) == pair_views(old(v)@).push((k@, val@)),
{
    let ghost before = v@;
    v.push((owned(k), owned(val)));
    assert(pair_views(v@) =~= pair_views(before).push((k@, val@)));
}

/// The start-up app's launch: program, arguments and environment as `spec_program`,
/// `spec_launch_args` and `spec_launch_env` give them; `DISPLAY` and `WAYLAND_SOCKET` are
/// removed.
#[verifier::rlimit(40)]
pub fn launch_command(
    command: &str,
    wayland_display: &str,
    debug_terminal: bool,
    shell_init: Option<&str>,
    env_script: Option<&str>,
    shell: &str,
) -> (r: LaunchCommand)
    ensures
        r.program@ == spec_program(command@),
        views(r.args@) == spec_launch_args(
            command@,
            debug_terminal,
            match shell_init {
                Some(i) => Some(i@),
                None => None,
            },
            match env_script {
                Some(b) => Some(b@),
                None => None,
            },
            shell@,
        ),
        pair_views(r.env@) == spec_launch_env(command@, wayland_display@),
        views(r.env_remove@) == seq!["DISPLAY"@, "WAYLAND_SOCKET"@],
{
    let ghost init_v: Option<Seq<char>> = match shell_init {
        Some(i) => Some(i@),
        None => None,
    };
    let ghost base_v: Option<Seq<char>> = match env_script {
        Some(b) => Some(b@),
        None => None,
    };
    let ws = words(command);
    let ghost w = spec_words(command@);
    let program = if ws.len() > 0 {
        ws[0].clone()
    } else {
        owned(command)
    };
    let ghost extra = spec_extra_args(command@);
    let konsole = str_eq(program.as_str(), "konsole");
    let alacritty = str_eq(program.as_str(), "alacritty");
    let mut args: Vec<String> = Vec::new();
    if konsole {
        push_arg(&mut args, "--separate");
        push_arg(&mut args, "-p");
        push_arg(&mut args, "TabTitleFormat=kioskwm");
        if debug_terminal {
            push_arg(&mut args, "--hold");
        }
    }
    let ghost head = views(args@);
    let mut i: usize = 1;
    while i < ws.len()
        invariant
            views(ws@) == w,
            1 <= i,
            w.len() > 0 ==> i <= w.len(),
            extra == (if w.len() > 0 { w.drop_first() } else { seq![] }),
            w.len() > 0 ==> views(args@) == head + w.subrange(1, i as int),
            w.len() == 0 ==> views(args@) == head,
        decreases ws.len() - i,
    {
        let ghost before = args@;
        args.push(ws[i].clone());
        assert(views(args@) =~= views(before).push(w[i as int]));
        assert(w.subrange(1, i + 1) =~= w.subrange(1, i as int).push(w[i as int]));
        i = i + 1;
    }
    assert(views(args@) =~= head + extra);
    let ghost with_extra = views(args@);
    if konsole {
        match shell_init {
            Some(init) => {
                push_arg(&mut args, "-e");
                push_arg(&mut args, init);
            },
            None => match env_script {
                Some(base) => {
                    push_arg(&mut args, "-e");
                    push_arg(&mut args, shell);
                    push_arg(&mut args, "-c");
                    let mut line = owned(". '");
                    line.append(base);
                    line.append("'; exec '");
                    line.append(shell);
                    line.append("' -i");
                    push_arg(&mut args, line.as_str());
                },
                None => {},
            },
        }
    } else if alacritty {
        if let Some(init) = shell_init {
            push_arg(&mut args, "-e");
            push_arg(&mut args, init);
        }
    }
    assert(views(args@) =~= spec_launch_args(command@, debug_terminal, init_v, base_v, shell@));
    let mut env: Vec<(String, String)> = Vec::new();
    if konsole {
        push_env(&mut env, "QSG_RHI_BACKEND", "software");
        push_env(&mut env, "QT_QUICK_BACKEND", "software");
    }
    push_env(&mut env, "WAYLAND_DISPLAY", wayland_display);
    push_env(&mut env, "QT_QPA_PLATFORM", "wayland");
    push_env(&mut env, "GDK_BACKEND", "wayland");
    push_env(&mut env, "SDL_VIDEODRIVER", "wayland");
    push_env(&mut env, "MOZ_ENABLE_WAYLAND", "1");
    push_env(&mut env, "XDG_SESSION_TYPE", "wayland");
    assert(pair_views(env@) =~= spec_launch_env(command@, wayland_display@));
    let mut env_remove: Vec<String> = Vec::new();
    push_arg(&mut env_remove, "DISPLAY");
    push_arg(&mut env_remove, "WAYLAND_SOCKET");
    assert(views(env_remove@) =~= seq!["DISPLAY"@, "WAYLAND_SOCKET"@]);
    LaunchCommand { program, args, env, env_remove }
}

/// A command taken from the environment: trimmed, and ignored when empty. Returns the
/// command and its binary (to look up in `PATH`).
pub fn spawn_candidate(raw: &str) -> (r: Option<(String, String)>)
    ensures
        match r {
            Some((app, bin)) => spec_trim(raw@).len() > 0 && app@ == spec_trim(raw@) && bin@ == spec_first_word(
                spec_trim(raw@),
            ),
            None => spec_trim(raw@).len() == 0,
        },
{
    let app = trim(raw);
    if app.as_str().unicode_len() == 0 {
        return None;
    }
    let bin = first_word(app.as_str());
    Some((app, bin))
}

/// Terminals tried in `auto` mode, in order.
pub open spec fn terminal_names() -> Seq<Seq<char>> {
    seq!["foot"@, "alacritty"@, "konsole"@, "kitty"@, "wezterm"@, "ghostty"@]
}

/// The `i`-th of `terminal_names()`.
pub fn terminal_name(i: usize) -> (r: &'static str)
    requires
        i < 6,
    ensures
        r@ == terminal_names()[i as int],
{
    match i {
        0 => "foot",
        1 => "alacritty",
        2 => "konsole",
        3 => "kitty",
        4 => "wezterm",
        _ => "ghostty",
    }
}

/// Index of the first installed terminal, or -1.
pub open spec fn first_installed(installed: Seq<bool>, from: int) -> int
    decreases 6 - from,
{
    if from >= 6 {
        -1
    } else if installed[from] {
        from
    } else {
        first_installed(installed, from + 1)
    }
}

/// The first terminal of `terminal_names()` that is installed (`installed[i]` for the
/// `i`-th name).
pub fn detect_terminal(installed: &Vec<bool>) -> (r: Option<String>)
    requires
        installed@.len() == 6,
    ensures
        match r {
            Some(t) => first_installed(installed@, 0) >= 0 && t@ == terminal_names()[first_installed(installed@, 0)],
            None => first_installed(installed@, 0) == -1,
        },
{
    let mut i: usize = 0;
    while i < 6
        invariant
            installed@.len() == 6,
            i <= 6,
            first_installed(installed@, 0) == first_installed(installed@, i as int),
        decreases 6 - i,
    {
        if installed[i] {
            return Some(terminal_name(i).to_owned());
        }
        i = i + 1;
    }
    None
}

pub open spec fn spec_resolve_spawn(
    no_spawn: bool,
    terminal: Seq<char>,
    requested_exists: bool,
    from_env: Option<Seq<char>>,
    detected: Option<Seq<char>>,
) -> Option<Seq<char>> {
    if no_spawn {
        None
    } else if spec_trim(terminal) != "auto"@ {
        if requested_exists {
            Some(spec_trim(terminal))
        } else {
            None
        }
    } else if from_env is Some {
        from_env
    } else {
        detected
    }
}

pub open spec fn opt_view(o: Option<String>) -> Option<Seq<char>> {
    match o {
        Some(s) => Some(s@),
        None => None,
    }
}

/// What to launch at start-up: nothing with `--no-spawn`; an explicit terminal when its
/// binary is in `PATH` (`requested_exists`), else nothing; in `auto` mode the command from
/// the environment, else the first terminal found, else nothing.
pub fn resolve_spawn(args: &Args, requested_exists: bool, from_env: Option<String>, detected: Option<String>) -> (r: SpawnPlan)
    ensures
        opt_view(r.command) == spec_resolve_spawn(
            args.no_spawn,
            args.terminal@,
            requested_exists,
            opt_view(from_env),
            opt_view(detected),
        ),
{
    if args.no_spawn {
        return SpawnPlan { command: None };
    }
    let requested = trim(args.terminal.as_str());
    if !str_eq(requested.as_str(), "auto") {
        if requested_exists {
            return SpawnPlan { command: Some(requested) };
        }
        return SpawnPlan { command: None };
    }
    if from_env.is_some() {
        return SpawnPlan { command: from_env };
    }
    SpawnPlan { command: detected }
}

/// `s` quoted for use inside single quotes: each `'` becomes `'\''`.
pub open spec fn escaped(s: Seq<char>) -> Seq<char>
    decreases s.len(),
{
    if s.len() == 0 {
        seq![]
    } else {
        escaped(s.drop_last()) + if s.last() == '\'' {
            seq!['\'', '\\', '\'', '\'']
        } else {
            seq![s.last()]
        }
    }
}

pub fn escape_shell(s: &str) -> (r: String)
    ensures
        r@ == escaped(s@),
{
    let n = s.unicode_len();
    let mut out = String::new();
    let mut i: usize = 0;
    while i < n
        invariant
            n == s@.len(),
            i <= n,
            out@ == escaped(s@.take(i as int)),
        decreases n - i,
    {
        assert(s@.take(i + 1).drop_last() =~= s@.take(i as int));
        let c = s.get_char(i);
        if c == '\'' {
            proof {
                reveal_strlit("'\\''");
            }
            out.append("'\\''");
        } else {
            out.append(s.substring_char(i, i + 1));
        }
        assert(out@ =~= escaped(s@.take(i + 1)));
        i = i + 1;
    }
    assert(s@.take(n as int) =~= s@);
    out
}

/// Decimal digits of `n`.
pub open spec fn decimal(n: nat) -> Seq<char>
    decreases n,
{
    if n < 10 {
        seq![digit_char(n)]
    } else {
        decimal(n / 10).push(digit_char(n % 10))
    }
}

pub open spec fn digit_char(d: nat) -> char {
    if d == 0 { '0' } else if d == 1 { '1' } else if d == 2 { '2' } else if d == 3 { '3' } else if d == 4 { '4' }
    else if d == 5 { '5' } else if d == 6 { '6' } else if d == 7 { '7' } else if d == 8 { '8' } else { '9' }
}

fn digit_str(d: u32) -> (r: &'static str)
    requires
        d < 10,
    ensures
        r@ == seq![digit_char(d as nat)],
{
    proof {
        reveal_strlit("0");
        reveal_strlit("1");
        reveal_strlit("2");
        reveal_strlit("3");
        reveal_strlit("4");
        reveal_strlit("5");
        reveal_strlit("6");
        reveal_strlit("7");
        reveal_strlit("8");
        reveal_strlit("9");
    }
    match d {
        0 => "0",
        1 => "1",
        2 => "2",
        3 => "3",
        4 => "4",
        5 => "5",
        6 => "6",
        7 => "7",
        8 => "8",
        _ => "9",
    }
}

/// `n` in decimal.
pub fn decimal_string(n: u32) -> (r: String)
    ensures
        r@ == decimal(n as nat),
    decreases n,
{
    if n < 10 {
        let s = String::from_str(digit_str(n));
        s
    } else {
        let mut s = decimal_string(n / 10);
        s.append(digit_str(n % 10));
        s
    }
}

/// The environment script every client shell sources: the Wayland socket, the session
/// type, `DISPLAY` (when XWayland is up) and no inherited `WAYLAND_SOCKET`.
pub open spec fn spec_client_env(wayland_display: Seq<char>, x11_display: Option<u32>) -> Seq<char> {
    let display_line = match x11_display {
        Some(n) => "export DISPLAY=':"@ + decimal(n as nat) + "'\n"@,
        None => "unset DISPLAY\n"@,
    };
    "# Gerado pelo kioskwm — env base.\nexport WAYLAND_DISPLAY='"@ + escaped(wayland_display)
        + "'\nexport XDG_SESSION_TYPE=wayland\n"@ + display_line + "unset WAYLAND_SOCKET\n"@
}

pub fn client_env_script(wayland_display: &str, x11_display: Option<u32>) -> (r: String)
    ensures
        r@ == spec_client_env(wayland_display@, x11_display),
{
    let mut s = String::from_str("# Gerado pelo kioskwm — env base.\nexport WAYLAND_DISPLAY='");
    s.append(escape_shell(wayland_display).as_str());
    s.append("'\nexport XDG_SESSION_TYPE=wayland\n");
    match x11_display {
        Some(n) => {
            s.append("export DISPLAY=':");
            s.append(decimal_string(n).as_str());
            s.append("'\n");
        },
        None => {
            s.append("unset DISPLAY\n");
        },
    }
    s.append("unset WAYLAND_SOCKET\n");
    s
}

/// Qt/GTK/SDL/Firefox environment for native Wayland (not for snaps).
pub const QT_ENV_SCRIPT: &'static str = "# Gerado pelo kioskwm — env Qt/GTK (não usar em snaps).\nexport QT_QPA_PLATFORM=wayland\nexport GDK_BACKEND=wayland\nexport SDL_VIDEODRIVER=wayland\nexport MOZ_ENABLE_WAYLAND=1\n";

/// The login shell's name: what follows its last `/`.
pub open spec fn spec_shell_name(shell: Seq<char>) -> Seq<char> {
    shell.skip(last_slash_end(shell))
}

/// Position just after the last `/` of `s` (0 when there is none).
pub open spec fn last_slash_end(s: Seq<char>) -> int
    decreases s.len(),
{
    if s.len() == 0 {
        0
    } else if s.last() == '/' {
        s.len() as int
    } else {
        last_slash_end(s.drop_last())
    }
}

proof fn lemma_last_slash_end(s: Seq<char>, k: int)
    requires
        0 <= k <= s.len(),
        k > 0 ==> s[k - 1] == '/',
        forall|j: int| k <= j < s.len() ==> s[j] != '/',
    ensures
        last_slash_end(s) == k,
    decreases s.len(),
{
    if s.len() > 0 && k < s.len() {
        assert(s.last() != '/');
        assert forall|j: int| k <= j < s.drop_last().len() implies s.drop_last()[j] != '/' by {
            assert(s.drop_last()[j] == s[j]);
        }
        if k > 0 {
            assert(s.drop_last()[k - 1] == s[k - 1]);
        }
        lemma_last_slash_end(s.drop_last(), k);
    }
}

pub fn shell_name(shell: &str) -> (r: String)
    ensures
        r@ == spec_shell_name(shell@),
{
    let n = shell.unicode_len();
    let mut k: usize = n;
    while k > 0 && shell.get_char(k - 1) != '/'
        invariant
            n == shell@.len(),
            k <= n,
            forall|j: int| k <= j < n ==> shell@[j] != '/',
        decreases k,
    {
        k = k - 1;
    }
    proof {
        lemma_last_slash_end(shell@, k as int);
    }
    let r = shell.substring_char(k, n).to_owned();
    assert(r@ =~= shell@.skip(k as int));
    r
}

/// Which start-up wrapper a login shell gets.
#[derive(Clone, Copy, Debug, PartialEq, Eq, Structural)]
pub enum ShellKind {
    Zsh,
    Bash,
    Other,
}

pub open spec fn spec_shell_kind(shell: Seq<char>) -> ShellKind {
    let name = spec_shell_name(shell);
    if name == "zsh"@ {
        ShellKind::Zsh
    } else if name == "bash"@ {
        ShellKind::Bash
    } else {
        ShellKind::Other
    }
}

pub fn shell_kind(shell: &str) -> (r: ShellKind)
    ensures
        r == spec_shell_kind(shell@),
{
    let name = shell_name(shell);
    if str_eq(name.as_str(), "zsh") {
        ShellKind::Zsh
    } else if str_eq(name.as_str(), "bash") {
        ShellKind::Bash
    } else {
        ShellKind::Other
    }
}

/// Body of the shell-init script: it records the base environment script and replaces
/// itself with an interactive shell (zsh through its `ZDOTDIR`, bash through its rc file,
/// any other shell after sourcing the environment). `wrapper` is the zsh directory or the
/// bash rc file.
pub open spec fn spec_shell_init(shell: Seq<char>, kind: ShellKind, base: Seq<char>, wrapper: Seq<char>) -> Seq<char> {
    let head = "#!"@ + shell + "\n# Gerado pelo kioskwm — terminal com env Wayland.\nexport KIOSKWM_ENV='"@ + escaped(base)
        + "'\n"@;
    head + match kind {
        ShellKind::Zsh => "export ZDOTDIR='"@ + wrapper + "'\nexec zsh -i\n"@,
        ShellKind::Bash => "exec bash --rcfile '"@ + wrapper + "' -i\n"@,
        ShellKind::Other => ". \"$KIOSKWM_ENV\"\nexec '"@ + escaped(shell) + "' -i\n"@,
    }
}

pub fn shell_init_script(shell: &str, kind: ShellKind, base: &str, wrapper: &str) -> (r: String)
    ensures
        r@ == spec_shell_init(shell@, kind, base@, wrapper@),
{
    let mut s = String::from_str("#!");
    s.append(shell);
    s.append("\n# Gerado pelo kioskwm — terminal com env Wayland.\nexport KIOSKWM_ENV='");
    s.append(escape_shell(base).as_str());
    s.append("'\n");
    match kind {
        ShellKind::Zsh => {
            s.append("export ZDOTDIR='");
            s.append(wrapper);
            s.append("'\nexec zsh -i\n");
        },
        ShellKind::Bash => {
            s.append("exec bash --rcfile '");
            s.append(wrapper);
            s.append("' -i\n");
        },
        ShellKind::Other => {
            s.append(". \"$KIOSKWM_ENV\"\nexec '");
            s.append(escape_shell(shell).as_str());
            s.append("' -i\n");
        },
    }
    s
}

/// The bash rc file: the user's `.bashrc`, then the base environment, then `kate`/`krita`
/// functions calling the wrappers in `bin` (when there are wrappers).
pub open spec fn spec_bash_rc(base: Seq<char>, qt: Seq<char>, bin: Option<Seq<char>>) -> Seq<char> {
    "# kioskwm — profile intacto; env base sem Qt para snaps.\nexport KIOSKWM_ENV='"@ + escaped(base)
        + "'\nexport KIOSKWM_QT_ENV='"@ + escaped(qt)
        + "'\n[ -f \"$HOME/.bashrc\" ] && . \"$HOME/.bashrc\"\n[ -f \"$KIOSKWM_ENV\" ] && . \"$KIOSKWM_ENV\"\n"@
        + match bin {
        Some(b) => "kate() { '"@ + b + "/kate' \"$@\"; }\nkrita() { '"@ + b + "/krita' \"$@\"; }\n"@,
        None => Seq::<char>::empty(),
    }
}

pub fn bash_rc(base: &str, qt: &str, bin: Option<&str>) -> (r: String)
    ensures
        r@ == spec_bash_rc(
            base@,
            qt@,
            match bin {
                Some(b) => Some(b@),
                None => None,
            },
        ),
{
    let mut s = String::from_str("# kioskwm — profile intacto; env base sem Qt para snaps.\nexport KIOSKWM_ENV='");
    s.append(escape_shell(base).as_str());
    s.append("'\nexport KIOSKWM_QT_ENV='");
    s.append(escape_shell(qt).as_str());
    s.append("'\n[ -f \"$HOME/.bashrc\" ] && . \"$HOME/.bashrc\"\n[ -f \"$KIOSKWM_ENV\" ] && . \"$KIOSKWM_ENV\"\n");
    if let Some(b) = bin {
        s.append("kate() { '");
        s.append(b);
        s.append("/kate' \"$@\"; }\nkrita() { '");
        s.append(b);
        s.append("/krita' \"$@\"; }\n");
    }
    s
}

/// `s` without its trailing `/` characters.
pub open spec fn strip_slashes(s: Seq<char>) -> Seq<char>
    decreases s.len(),
{
    if s.len() > 0 && s.last() == '/' {
        strip_slashes(s.drop_last())
    } else {
        s
    }
}

fn trim_end_slashes(s: &str) -> (r: String)
    ensures
        r@ == strip_slashes(s@),
{
    let n = s.unicode_len();
    let mut k: usize = n;
    assert(s@.take(n as int) =~= s@);
    while k > 0 && s.get_char(k - 1) == '/'
        invariant
            n == s@.len(),
            k <= n,
            strip_slashes(s@) == strip_slashes(s@.take(k as int)),
        decreases k,
    {
        assert(s@.take(k as int).drop_last() =~= s@.take(k - 1));
        k = k - 1;
    }
    let r = s.substring_char(0, k).to_owned();
    assert(r@ =~= s@.take(k as int));
    r
}

/// The zsh start-up file (in its own `ZDOTDIR`): the user's zsh files, then the base
/// environment, `kate`/`krita` functions calling the wrappers in `bin` (when non-empty),
/// the environment re-applied before each prompt, and a one-time banner.
pub open spec fn spec_zsh_rc(base: Seq<char>, qt: Seq<char>, bin: Seq<char>) -> Seq<char> {
    let b = strip_slashes(bin);
    let app_fns = if bin.len() == 0 {
        Seq::<char>::empty()
    } else {
        "kate() { \""@ + b + "/kate\" \"$@\"; }\nkrita() { \""@ + b + "/krita\" \"$@\"; }\n"@
    };
    "# kioskwm — profile intacto; env base reaplicado sem Qt (snaps).\nexport KIOSKWM_ENV='"@ + escaped(base)
        + "'\nexport KIOSKWM_QT_ENV='"@ + escaped(qt) + ZSH_RC_SOURCES@ + app_fns + ZSH_RC_TAIL@
}

pub const ZSH_RC_SOURCES: &'static str = "'\nunset ZDOTDIR\n[ -f \"$HOME/.zshenv\" ] && source \"$HOME/.zshenv\"\n[ -f \"$HOME/.zshrc\" ] && source \"$HOME/.zshrc\"\n[ -f \"$KIOSKWM_ENV\" ] && source \"$KIOSKWM_ENV\"\n";

pub const ZSH_RC_TAIL: &'static str = "\nunalias kate krita 2>/dev/null\nkioskwm_reapply_env() { [ -f \"$KIOSKWM_ENV\" ] && source \"$KIOSKWM_ENV\"; }\nprecmd_functions+=(kioskwm_reapply_env)\n[[ -z \"$KIOSKWM_BANNER\" ]] && KIOSKWM_BANNER=1 && \\\n  echo \"[kioskwm] socket=$WAYLAND_DISPLAY  kate=$(whence -w kate 2>/dev/null | head -1 || echo '?')  krita=$(whence -w krita 2>/dev/null | head -1 || echo '?')  DISPLAY=${DISPLAY:-vazio}\"\n";

pub fn zsh_rc(base: &str, qt: &str, bin: &str) -> (r: String)
    ensures
        r@ == spec_zsh_rc(base@, qt@, bin@),
{
    let mut s = String::from_str("# kioskwm — profile intacto; env base reaplicado sem Qt (snaps).\nexport KIOSKWM_ENV='");
    s.append(escape_shell(base).as_str());
    s.append("'\nexport KIOSKWM_QT_ENV='");
    s.append(escape_shell(qt).as_str());
    s.append(ZSH_RC_SOURCES);
    if bin.unicode_len() > 0 {
        let b = trim_end_slashes(bin);
        s.append("kate() { \"");
        s.append(b.as_str());
        s.append("/kate\" \"$@\"; }\nkrita() { \"");
        s.append(b.as_str());
        s.append("/krita\" \"$@\"; }\n");
    }
    s.append(ZSH_RC_TAIL);
    s
}

} // verus!
