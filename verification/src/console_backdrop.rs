//! Linux-console style backdrop while no app is open (VT mode): when it shows and which
//! text lines it holds.

use vstd::prelude::*;

use crate::text::{spec_trim_end, spec_trim_start, trim_end, trim_start};
use crate::state::State;

verus! {

/// The console backdrop shows: enabled, no app, no WM overlay.
pub fn wants(state: &State) -> (r: bool)
    requires
        state.spec_app_count() <= usize::MAX,
    ensures
        r == (state.console_backdrop_enabled && state.spec_app_count() == 0 && !(state.overlay_open
            || state.context_menu.open || state.alt_tab.open)),
{
    state.console_backdrop_enabled && state.app_count() == 0 && !state.wm_ui_obscures_apps()
}

/// Index of the last space among the first `k` characters of `s`, or -1.
pub open spec fn last_space(s: Seq<char>, k: int) -> int
    decreases k,
{
    if k <= 0 {
        -1
    } else if s[k - 1] == ' ' {
        k - 1
    } else {
        last_space(s, k - 1)
    }
}

/// Where a too-long line is cut: at its last space within the first `cols` characters
/// (when that space is not the first character), else after `cols` characters.
pub open spec fn split_at_col(s: Seq<char>, cols: int) -> int {
    let k = last_space(s, cols);
    if k > 0 {
        k
    } else {
        cols
    }
}

/// Lines of `rest` wrapped at `cols` columns: each piece loses its trailing whitespace,
/// the remainder its leading whitespace.
pub open spec fn wrap_rest(rest: Seq<char>, cols: int) -> Seq<Seq<char>>
    recommends
        cols >= 1,
    decreases rest.len(),
    when cols >= 1
{
    if rest.len() == 0 {
        seq![]
    } else if rest.len() <= cols {
        seq![rest]
    } else {
        let split = split_at_col(rest, cols);
        proof {
            lemma_last_space(rest, cols);
            crate::text::lemma_lead_ws(rest.skip(split));
        }
        seq![spec_trim_end(rest.take(split))] + wrap_rest(spec_trim_start(rest.skip(split)), cols)
    }
}

pub open spec fn spec_wrap_line(line: Seq<char>, cols: int) -> Seq<Seq<char>> {
    if line.len() <= cols {
        seq![line]
    } else {
        wrap_rest(line, cols)
    }
}

pub proof fn lemma_last_space(s: Seq<char>, k: int)
    requires
        k <= s.len(),
    ensures
        -1 <= last_space(s, k) < k || (k <= 0 && last_space(s, k) == -1),
        last_space(s, k) >= 0 ==> s[last_space(s, k)] == ' ',
        forall|j: int| last_space(s, k) < j < k ==> s[j] != ' ',
    decreases k,
{
    if k > 0 && s[k - 1] != ' ' {
        lemma_last_space(s, k - 1);
    }
}

fn last_space_before(s: &str, k: usize) -> (r: Option<usize>)
    requires
        k <= s@.len(),
    ensures
        match r {
            Some(j) => j == last_space(s@, k as int),
            None => last_space(s@, k as int) == -1,
        },
{
    let mut i = k;
    while i > 0
        invariant
            i <= k <= s@.len(),
            last_space(s@, k as int) == last_space(s@, i as int),
        decreases i,
    {
        if s.get_char(i - 1) == ' ' {
            return Some(i - 1);
        }
        i = i - 1;
    }
    None
}

/// Views of a vector of strings.
pub open spec fn views(v: Seq<String>) -> Seq<Seq<char>> {
    v.map_values(|s: String| s@)
}

/// Splits a console line into pieces of at most `cols` characters, preferring to break at
/// spaces (as the Linux console shows the message of the day).
pub fn wrap_line(line: &str, cols: usize) -> (r: Vec<String>)
    requires
        cols >= 1,
    ensures
        views(r@) == spec_wrap_line(line@, cols as int),
{
    if line.unicode_len() <= cols {
        let mut v: Vec<String> = Vec::new();
        v.push(line.to_owned());
        assert(views(v@) =~= seq![line@]);
        return v;
    }
    let mut out: Vec<String> = Vec::new();
    let mut rest: String = line.to_owned();
    loop
        invariant
            cols >= 1,
            line@.len() > cols,
            views(out@) + wrap_rest(rest@, cols as int) == wrap_rest(line@, cols as int),
        decreases rest@.len(),
    {
        let n = rest.as_str().unicode_len();
        if n == 0 {
            assert(views(out@) + wrap_rest(rest@, cols as int) =~= views(out@));
            return out;
        }
        if n <= cols {
            let ghost before = views(out@);
            out.push(rest.clone());
            assert(views(out@) =~= before.push(rest@));
            assert(wrap_rest(rest@, cols as int) =~= seq![rest@]);
            assert(views(out@) =~= before + wrap_rest(rest@, cols as int));
            return out;
        }
        let k = last_space_before(rest.as_str(), cols);
        proof {
            lemma_last_space(rest@, cols as int);
        }
        let split: usize = match k {
            Some(j) if j > 0 => j,
            _ => cols,
        };
        assert(split == split_at_col(rest@, cols as int));
        let head = trim_end(rest.as_str().substring_char(0, split));
        let tail = trim_start(rest.as_str().substring_char(split, n));
        let ghost before = views(out@);
        let ghost r0 = rest@;
        out.push(head);
        assert(views(out@) =~= before.push(spec_trim_end(r0.take(split as int))));
        proof {
            crate::text::lemma_lead_ws(r0.skip(split as int));
        }
        assert(r0.subrange(split as int, n as int) =~= r0.skip(split as int));
        assert(r0.subrange(0, split as int) =~= r0.take(split as int));
        assert(wrap_rest(r0, cols as int) =~= seq![spec_trim_end(r0.take(split as int))] + wrap_rest(
            spec_trim_start(r0.skip(split as int)),
            cols as int,
        ));
        rest = tail;
        assert(views(out@) + wrap_rest(rest@, cols as int) =~= before + wrap_rest(r0, cols as int));
    }
}

/// No wrapped piece is wider than `cols`, unless the line fit as it was.
pub proof fn lemma_wrap_width(line: Seq<char>, cols: int)
    requires
        cols >= 1,
    ensures
        forall|k: int| 0 <= k < spec_wrap_line(line, cols).len() ==> (#[trigger] spec_wrap_line(line, cols)[k]).len() <= cols,
{
    if line.len() > cols {
        lemma_wrap_rest_width(line, cols);
    }
}

proof fn lemma_wrap_rest_width(rest: Seq<char>, cols: int)
    requires
        cols >= 1,
    ensures
        forall|k: int| 0 <= k < wrap_rest(rest, cols).len() ==> (#[trigger] wrap_rest(rest, cols)[k]).len() <= cols,
    decreases rest.len(),
{
    if rest.len() > cols {
        let split = split_at_col(rest, cols);
        lemma_last_space(rest, cols);
        crate::text::lemma_lead_ws(rest.skip(split));
        crate::text::lemma_trail_ws(rest.take(split));
        let tail = spec_trim_start(rest.skip(split));
        lemma_wrap_rest_width(tail, cols);
        let head = spec_trim_end(rest.take(split));
        assert(head.len() <= cols);
        let w = wrap_rest(rest, cols);
        assert(w == seq![head] + wrap_rest(tail, cols));
        assert forall|k: int| 0 <= k < w.len() implies (#[trigger] w[k]).len() <= cols by {
            if k > 0 {
                assert(w[k] == wrap_rest(tail, cols)[k - 1]);
            }
        }
    }
}

/// The console screen: `host tty`, a blank line, the message of the day wrapped at `cols`
/// (blank lines kept), a blank line unless one is already last, and the prompt
/// `user@host:~$ `. `motd` holds the lines of the message files, in order.
pub open spec fn spec_console_lines(cols: int, host: Seq<char>, tty: Seq<char>, user: Seq<char>, motd: Seq<Seq<char>>) -> Seq<Seq<char>> {
    let head = seq![host + " "@ + tty, Seq::<char>::empty()];
    let body = motd_lines(motd, cols);
    let lines = head + body;
    let sep = if lines.last().len() > 0 { seq![Seq::<char>::empty()] } else { Seq::<Seq<char>>::empty() };
    lines + sep + seq![user + "@"@ + host + ":~$ "@]
}

/// The message-of-the-day lines: each trimmed at its end; empty ones stay, the others are
/// wrapped.
pub open spec fn motd_lines(motd: Seq<Seq<char>>, cols: int) -> Seq<Seq<char>>
    decreases motd.len(),
{
    if motd.len() == 0 {
        seq![]
    } else {
        let t = spec_trim_end(motd.last());
        motd_lines(motd.drop_last(), cols) + if t.len() == 0 {
            seq![Seq::<char>::empty()]
        } else {
            spec_wrap_line(t, cols)
        }
    }
}

fn concat3(a: &str, b: &str, c: &str) -> (r: String)
    ensures
        r@ == a@ + b@ + c@,
{
    let mut s = a.to_owned();
    s.append(b);
    s.append(c);
    s
}

/// The lines of the console backdrop (see `spec_console_lines`).
pub fn console_lines(cols: usize, host: &str, tty: &str, user: &str, motd: &Vec<String>) -> (r: Vec<String>)
    requires
        cols >= 1,
    ensures
        views(r@) == spec_console_lines(cols as int, host@, tty@, user@, views(motd@)),
{
    let mut lines: Vec<String> = Vec::new();
    lines.push(concat3(host, " ", tty));
    lines.push(String::new());
    let ghost head = views(lines@);
    assert(head =~= seq![host@ + " "@ + tty@, Seq::<char>::empty()]);
    let mut i: usize = 0;
    while i < motd.len()
        invariant
            cols >= 1,
            i <= motd.len(),
            head == seq![host@ + " "@ + tty@, Seq::<char>::empty()],
            views(lines@) == head + motd_lines(views(motd@).take(i as int), cols as int),
        decreases motd.len() - i,
    {
        let t = trim_end(motd[i].as_str());
        let ghost before = views(lines@);
        assert(views(motd@).take(i + 1).drop_last() =~= views(motd@).take(i as int));
        assert(views(motd@).take(i + 1).last() == motd@[i as int]@);
        if t.as_str().unicode_len() == 0 {
            lines.push(String::new());
            assert(views(lines@) =~= before + seq![Seq::<char>::empty()]);
        } else {
            let wrapped = wrap_line(t.as_str(), cols);
            let mut j: usize = 0;
            while j < wrapped.len()
                invariant
                    j <= wrapped.len(),
                    views(lines@) == before + views(wrapped@).take(j as int),
                decreases wrapped.len() - j,
            {
                let ghost b2 = views(lines@);
                lines.push(wrapped[j].clone());
                assert(views(wrapped@).take(j + 1) =~= views(wrapped@).take(j as int).push(wrapped@[j as int]@));
                assert(views(lines@) =~= b2.push(wrapped@[j as int]@));
                j = j + 1;
            }
            assert(views(wrapped@).take(wrapped.len() as int) =~= views(wrapped@));
        }
        assert(views(lines@) =~= head + motd_lines(views(motd@).take(i + 1), cols as int));
        i = i + 1;
    }
    assert(views(motd@).take(motd.len() as int) =~= views(motd@));
    let ghost body_lines = views(lines@);
    let last_len = lines[lines.len() - 1].as_str().unicode_len();
    if last_len > 0 {
        lines.push(String::new());
    }
    let ghost with_sep = views(lines@);
    let mut prompt = concat3(user, "@", host);
    prompt.append(":~$ ");
    lines.push(prompt);
    assert(views(lines@) =~= with_sep.push(user@ + "@"@ + host@ + ":~$ "@));
    assert(views(lines@) =~= spec_console_lines(cols as int, host@, tty@, user@, views(motd@)));
    lines
}

/// Prompt lines (ending in `"$ "`) are drawn in the prompt colour.
pub open spec fn spec_is_prompt(line: Seq<char>) -> bool {
    line.len() >= 2 && line[line.len() - 2] == '$' && line[line.len() - 1] == ' '
}

pub fn is_prompt(line: &str) -> (r: bool)
    ensures
        r == spec_is_prompt(line@),
{
    let n = line.unicode_len();
    n >= 2 && line.get_char(n - 2) == '$' && line.get_char(n - 1) == ' '
}

} // verus!
