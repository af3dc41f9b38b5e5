//! Where the compositor runs: a hardware VT, or nested in a graphical session.

use vstd::prelude::*;

use crate::text::{spec_trim, starts_with, trim};

verus! {

/// `/dev/tty*` or `/dev/pts/*`.
pub open spec fn spec_is_tty_device(path: Seq<char>) -> bool {
    "/dev/tty"@.is_prefix_of(path) || "/dev/pts/"@.is_prefix_of(path)
}

pub open spec fn is_ascii_digit(c: char) -> bool {
    '0' <= c && c <= '9'
}

/// A hardware VT: `/dev/tty` followed by one or more ASCII digits (surrounding whitespace
/// ignored).
pub open spec fn spec_is_hardware_tty_path(path: Seq<char>) -> bool {
    let t = spec_trim(path);
    let n = "/dev/tty"@.len();
    &&& "/dev/tty"@.is_prefix_of(t)
    &&& t.len() > n
    &&& forall|j: int| n <= j < t.len() ==> is_ascii_digit(#[trigger] t[j])
}

/// The path names a terminal device.
pub fn is_tty_device(path: &str) -> (r: bool)
    ensures
        r == spec_is_tty_device(path@),
{
    starts_with(path, "/dev/tty") || starts_with(path, "/dev/pts/")
}

/// The path names a hardware VT (`/dev/tty3`, not `/dev/tty` nor `/dev/pts/0`).
pub fn is_hardware_tty_path(path: &str) -> (r: bool)
    ensures
        r == spec_is_hardware_tty_path(path@),
{
    let t = trim(path);
    let prefix = "/dev/tty";
    if !starts_with(t.as_str(), prefix) {
        return false;
    }
    let n = prefix.unicode_len();
    let len = t.as_str().unicode_len();
    if len <= n {
        return false;
    }
    let mut i = n;
    while i < len
        invariant
            len == t@.len(),
            t@ == spec_trim(path@),
            "/dev/tty"@.is_prefix_of(t@),
            len > n,
            n == "/dev/tty"@.len(),
            n <= i <= len,
            forall|j: int| n <= j < i ==> is_ascii_digit(#[trigger] t@[j]),
        decreases len - i,
    {
        let c = t.as_str().get_char(i);
        if !('0' <= c && c <= '9') {
            assert(!is_ascii_digit(t@[i as int]));
            return false;
        }
        i = i + 1;
    }
    true
}

/// We run on a hardware VT (`/dev/tty1`, `/dev/tty2`, ...), given the controlling terminal's
/// path. This wins over `WAYLAND_DISPLAY`/`DISPLAY`, which a desktop's shell profile may
/// export on a VT too.
pub fn on_hardware_tty(controlling_tty: Option<&str>) -> (r: bool)
    ensures
        r == match controlling_tty {
            Some(p) => spec_is_hardware_tty_path(p@),
            None => false,
        },
{
    match controlling_tty {
        Some(p) => is_hardware_tty_path(p),
        None => false,
    }
}

} // verus!
