//! Character-level string helpers over `Seq<char>` views.

use vstd::prelude::*;
use vstd::string::*;

verus! {

/// `str::to_lowercase`: Unicode lowercase mapping (may change the length).
pub uninterp spec fn lowercase(s: Seq<char>) -> Seq<char>;

/// The characters with Unicode's `White_Space` property (what `char::is_whitespace`
/// tests): tab through carriage return, space, NEL, no-break space, Ogham space mark, the
/// spaces U+2000..=U+200A, line and paragraph separators, narrow no-break space, medium
/// mathematical space and ideographic space.
pub open spec fn is_ws(c: char) -> bool {
    ||| '\t' <= c <= '\r'
    ||| c == ' '
    ||| c == '\u{85}'
    ||| c == '\u{a0}'
    ||| c == '\u{1680}'
    ||| '\u{2000}' <= c <= '\u{200a}'
    ||| c == '\u{2028}'
    ||| c == '\u{2029}'
    ||| c == '\u{202f}'
    ||| c == '\u{205f}'
    ||| c == '\u{3000}'
}

/// `char::is_alphanumeric`: Unicode `Alphabetic` or `Numeric`.
pub uninterp spec fn is_alnum(c: char) -> bool;

/// Calls `str::to_lowercase`; the result is Unicode lowercasing of `s`, named `lowercase`.
#[verifier::external_body]
pub(crate) fn to_lowercase(s: &str) -> (r: String)
    ensures
        r@ == lowercase(s@),
{
    s.to_lowercase()
}

/// Whether `c` has Unicode's `White_Space` property, as `char::is_whitespace` tests.
pub(crate) fn char_is_whitespace(c: char) -> (r: bool)
    ensures
        r == is_ws(c),
{
    ('\t' <= c && c <= '\r') || c == ' ' || c == '\u{85}' || c == '\u{a0}' || c == '\u{1680}' || ('\u{2000}'
        <= c && c <= '\u{200a}') || c == '\u{2028}' || c == '\u{2029}' || c == '\u{202f}' || c == '\u{205f}'
        || c == '\u{3000}'
}

/// Calls `char::is_alphanumeric`; the result is named `is_alnum`.
#[verifier::external_body]
pub(crate) fn char_is_alphanumeric(c: char) -> (r: bool)
    ensures
        r == is_alnum(c),
{
    c.is_alphanumeric()
}

/// Character-wise equality of two strings.
pub fn str_eq(a: &str, b: &str) -> (r: bool)
    ensures
        r == (a@ == b@),
{
    let n = a.unicode_len();
    if n != b.unicode_len() {
        return false;
    }
    let mut i: usize = 0;
    while i < n
        invariant
            n == a@.len(),
            n == b@.len(),
            i <= n,
            forall|j: int| 0 <= j < i ==> a@[j] == b@[j],
        decreases n - i,
    {
        if a.get_char(i) != b.get_char(i) {
            return false;
        }
        i = i + 1;
    }
    assert(a@ =~= b@);
    true
}

/// Index of the first `_` or `-` in `s`, or `s.len()` when there is none.
pub open spec fn segment_end(s: Seq<char>) -> int
    decreases s.len(),
{
    if s.len() == 0 {
        0
    } else if s[0] == '_' || s[0] == '-' {
        0
    } else {
        1 + segment_end(s.drop_first())
    }
}

/// The part of `s` before its first `_` or `-`.
pub open spec fn spec_first_segment(s: Seq<char>) -> Seq<char> {
    s.take(segment_end(s))
}

pub proof fn lemma_segment_end(s: Seq<char>)
    ensures
        0 <= segment_end(s) <= s.len(),
        forall|j: int| 0 <= j < segment_end(s) ==> s[j] != '_' && s[j] != '-',
        segment_end(s) < s.len() ==> (s[segment_end(s)] == '_' || s[segment_end(s)] == '-'),
    decreases s.len(),
{
    if s.len() > 0 && !(s[0] == '_' || s[0] == '-') {
        lemma_segment_end(s.drop_first());
        assert forall|j: int| 0 <= j < segment_end(s) implies s[j] != '_' && s[j] != '-' by {
            if j > 0 {
                assert(s[j] == s.drop_first()[j - 1]);
            }
        }
    }
}

/// Copies the part of `s` before its first `_` or `-`.
pub fn first_segment(s: &str) -> (r: String)
    ensures
        r@ == spec_first_segment(s@),
{
    proof {
        lemma_segment_end(s@);
    }
    let n = s.unicode_len();
    let mut i: usize = 0;
    let mut found = false;
    while i < n && !found
        invariant
            n == s@.len(),
            i <= segment_end(s@),
            segment_end(s@) <= n,
            found ==> i == segment_end(s@),
            forall|j: int| 0 <= j < segment_end(s@) ==> s@[j] != '_' && s@[j] != '-',
            segment_end(s@) < n ==> (s@[segment_end(s@)] == '_' || s@[segment_end(s@)] == '-'),
        decreases n - i + (if found { 0int } else { 1int }),
    {
        let c = s.get_char(i);
        if c == '_' || c == '-' {
            found = true;
        } else {
            i = i + 1;
        }
    }
    assert(i == segment_end(s@));
    s.substring_char(0, i).to_owned()
}

} // verus!

verus! {

/// Position just after the last `.` in `s`, or 0 when there is none.
pub open spec fn after_last_dot(s: Seq<char>) -> int
    decreases s.len(),
{
    if s.len() == 0 {
        0
    } else if s.last() == '.' {
        s.len() as int
    } else {
        after_last_dot(s.drop_last())
    }
}

pub proof fn lemma_after_last_dot(s: Seq<char>)
    ensures
        0 <= after_last_dot(s) <= s.len(),
        after_last_dot(s) > 0 ==> s[after_last_dot(s) - 1] == '.',
        forall|j: int| after_last_dot(s) <= j < s.len() ==> s[j] != '.',
    decreases s.len(),
{
    if s.len() > 0 && s.last() != '.' {
        lemma_after_last_dot(s.drop_last());
        assert forall|j: int| after_last_dot(s) <= j < s.len() implies s[j] != '.' by {
            if j < s.len() - 1 {
                assert(s[j] == s.drop_last()[j]);
            }
        }
    }
}

pub proof fn lemma_after_last_dot_char(s: Seq<char>, k: int)
    requires
        0 <= k <= s.len(),
        k > 0 ==> s[k - 1] == '.',
        forall|j: int| k <= j < s.len() ==> s[j] != '.',
    ensures
        after_last_dot(s) == k,
    decreases s.len(),
{
    if s.len() > 0 && k < s.len() {
        assert(s.last() != '.');
        assert forall|j: int| k <= j < s.drop_last().len() implies s.drop_last()[j] != '.' by {
            assert(s.drop_last()[j] == s[j]);
        }
        if k > 0 {
            assert(s.drop_last()[k - 1] == s[k - 1]);
        }
        lemma_after_last_dot_char(s.drop_last(), k);
    }
}

/// Index just after the last `.` of `s` (0 when `s` has none).
pub fn last_dot_end(s: &str) -> (r: usize)
    ensures
        r == after_last_dot(s@),
{
    let n = s.unicode_len();
    let mut k: usize = n;
    let mut found = false;
    while k > 0 && !found
        invariant
            n == s@.len(),
            k <= n,
            found ==> k > 0 && s@[k - 1] == '.',
            forall|j: int| k <= j < n ==> s@[j] != '.',
        decreases k + (if found { 0int } else { 1int }),
    {
        if s.get_char(k - 1) == '.' {
            found = true;
        } else {
            k = k - 1;
        }
    }
    proof {
        lemma_after_last_dot_char(s@, k as int);
    }
    k
}

} // verus!

verus! {

/// Number of leading whitespace characters of `s`.
pub open spec fn lead_ws(s: Seq<char>) -> int
    decreases s.len(),
{
    if s.len() > 0 && is_ws(s[0]) {
        1 + lead_ws(s.drop_first())
    } else {
        0
    }
}

/// Number of trailing whitespace characters of `s`.
pub open spec fn trail_ws(s: Seq<char>) -> int
    decreases s.len(),
{
    if s.len() > 0 && is_ws(s.last()) {
        1 + trail_ws(s.drop_last())
    } else {
        0
    }
}

/// `str::trim_start`: `s` without its leading whitespace.
pub open spec fn spec_trim_start(s: Seq<char>) -> Seq<char> {
    s.skip(lead_ws(s))
}

/// `str::trim_end`: `s` without its trailing whitespace.
pub open spec fn spec_trim_end(s: Seq<char>) -> Seq<char> {
    s.take(s.len() - trail_ws(s))
}

/// `str::trim`: both ends.
pub open spec fn spec_trim(s: Seq<char>) -> Seq<char> {
    spec_trim_end(spec_trim_start(s))
}

pub proof fn lemma_lead_ws(s: Seq<char>)
    ensures
        0 <= lead_ws(s) <= s.len(),
        forall|j: int| 0 <= j < lead_ws(s) ==> is_ws(#[trigger] s[j]),
        lead_ws(s) < s.len() ==> !is_ws(s[lead_ws(s)]),
    decreases s.len(),
{
    if s.len() > 0 && is_ws(s[0]) {
        lemma_lead_ws(s.drop_first());
        assert forall|j: int| 0 <= j < lead_ws(s) implies is_ws(#[trigger] s[j]) by {
            if j > 0 {
                assert(s[j] == s.drop_first()[j - 1]);
            }
        }
    }
}

/// A position `k` with only whitespace before it and none at it is `lead_ws`.
pub proof fn lemma_lead_ws_at(s: Seq<char>, k: int)
    requires
        0 <= k <= s.len(),
        forall|j: int| 0 <= j < k ==> is_ws(#[trigger] s[j]),
        k < s.len() ==> !is_ws(s[k]),
    ensures
        lead_ws(s) == k,
    decreases s.len(),
{
    if k > 0 {
        assert(is_ws(s[0]));
        assert forall|j: int| 0 <= j < k - 1 implies is_ws(#[trigger] s.drop_first()[j]) by {
            assert(s.drop_first()[j] == s[j + 1]);
        }
        if k < s.len() {
            assert(s.drop_first()[k - 1] == s[k]);
        }
        lemma_lead_ws_at(s.drop_first(), k - 1);
    }
}

pub proof fn lemma_trail_ws(s: Seq<char>)
    ensures
        0 <= trail_ws(s) <= s.len(),
        forall|j: int| s.len() - trail_ws(s) <= j < s.len() ==> is_ws(#[trigger] s[j]),
        trail_ws(s) < s.len() ==> !is_ws(s[s.len() - trail_ws(s) - 1]),
    decreases s.len(),
{
    if s.len() > 0 && is_ws(s.last()) {
        lemma_trail_ws(s.drop_last());
        assert forall|j: int| s.len() - trail_ws(s) <= j < s.len() implies is_ws(#[trigger] s[j]) by {
            if j < s.len() - 1 {
                assert(s[j] == s.drop_last()[j]);
            }
        }
        if trail_ws(s) < s.len() {
            assert(s[s.len() - trail_ws(s) - 1] == s.drop_last()[s.drop_last().len() - trail_ws(s.drop_last()) - 1]);
        }
    }
}

/// An end `k` with only whitespace after it and none just before it is where trimming stops.
pub proof fn lemma_trail_ws_at(s: Seq<char>, k: int)
    requires
        0 <= k <= s.len(),
        forall|j: int| k <= j < s.len() ==> is_ws(#[trigger] s[j]),
        k > 0 ==> !is_ws(s[k - 1]),
    ensures
        trail_ws(s) == s.len() - k,
    decreases s.len(),
{
    if k < s.len() {
        assert(is_ws(s.last()));
        assert forall|j: int| k <= j < s.drop_last().len() implies is_ws(#[trigger] s.drop_last()[j]) by {
            assert(s.drop_last()[j] == s[j]);
        }
        if k > 0 {
            assert(s.drop_last()[k - 1] == s[k - 1]);
        }
        lemma_trail_ws_at(s.drop_last(), k);
    }
}

/// Index of the first non-whitespace character (`s.len()` when there is none).
pub fn lead_ws_len(s: &str) -> (r: usize)
    ensures
        r == lead_ws(s@),
{
    let n = s.unicode_len();
    let mut k: usize = 0;
    while k < n && char_is_whitespace(s.get_char(k))
        invariant
            n == s@.len(),
            k <= n,
            forall|j: int| 0 <= j < k ==> is_ws(#[trigger] s@[j]),
        decreases n - k,
    {
        k = k + 1;
    }
    proof {
        lemma_lead_ws_at(s@, k as int);
    }
    k
}

/// Length of `s` without its trailing whitespace.
pub fn trimmed_end_len(s: &str) -> (r: usize)
    ensures
        r == s@.len() - trail_ws(s@),
{
    let n = s.unicode_len();
    let mut k: usize = n;
    while k > 0 && char_is_whitespace(s.get_char(k - 1))
        invariant
            n == s@.len(),
            k <= n,
            forall|j: int| k <= j < n ==> is_ws(#[trigger] s@[j]),
        decreases k,
    {
        k = k - 1;
    }
    proof {
        lemma_trail_ws_at(s@, k as int);
    }
    k
}

pub fn trim_start(s: &str) -> (r: String)
    ensures
        r@ == spec_trim_start(s@),
{
    let k = lead_ws_len(s);
    proof {
        lemma_lead_ws(s@);
    }
    s.substring_char(k, s.unicode_len()).to_owned()
}

pub fn trim_end(s: &str) -> (r: String)
    ensures
        r@ == spec_trim_end(s@),
{
    let k = trimmed_end_len(s);
    proof {
        lemma_trail_ws(s@);
    }
    s.substring_char(0, k).to_owned()
}

pub fn trim(s: &str) -> (r: String)
    ensures
        r@ == spec_trim(s@),
{
    let t = trim_start(s);
    trim_end(t.as_str())
}

/// `p` is a prefix of `s`.
pub fn starts_with(s: &str, p: &str) -> (r: bool)
    ensures
        r == p@.is_prefix_of(s@),
{
    let n = p.unicode_len();
    if n > s.unicode_len() {
        return false;
    }
    let mut i: usize = 0;
    while i < n
        invariant
            n == p@.len(),
            n <= s@.len(),
            i <= n,
            forall|j: int| 0 <= j < i ==> p@[j] == s@[j],
        decreases n - i,
    {
        if p.get_char(i) != s.get_char(i) {
            return false;
        }
        i = i + 1;
    }
    true
}

} // verus!
