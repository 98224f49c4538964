//! The log of failed downloads: one line per distinct failing URL.

use vstd::prelude::*;
use crate::text::{decimal, push_decimal};

verus! {

/// The line recorded for a failed download.
pub open spec fn error_line_of(url: Seq<char>, status: nat) -> Seq<char> {
    url + " - "@ + decimal(status) + "\n"@
}

/// The line to record for a download of `url` that failed with `status`.
pub fn error_line(url: &str, status: u16) -> (r: String)
    ensures
        r@ == error_line_of(url@, status as nat),
{
    let mut r = String::from_str(url);
    r.append(" - ");
    push_decimal(&mut r, status as u64);
    r.append("\n");
    r
}

/// Whether `p` is a prefix of `s`.
pub open spec fn is_prefix(p: Seq<char>, s: Seq<char>) -> bool {
    p.len() <= s.len() && s.subrange(0, p.len() as int) == p
}

/// Whether `s` starts with `p`.
pub fn starts_with(s: &str, p: &str) -> (r: bool)
    ensures
        r == is_prefix(p@, s@),
{
    let n = s.unicode_len();
    let m = p.unicode_len();
    if m > n {
        return false;
    }
    let mut i: usize = 0;
    while i < m
        invariant
            m == p@.len(),
            n == s@.len(),
            m <= n,
            i <= m,
            s@.subrange(0, i as int) == p@.subrange(0, i as int),
        decreases m - i,
    {
        if s.get_char(i) != p.get_char(i) {
            assert(s@.subrange(0, m as int)[i as int] != p@[i as int]);
            return false;
        }
        i = i + 1;
        assert(s@.subrange(0, i as int) =~= p@.subrange(0, i as int));
    }
    assert(p@.subrange(0, m as int) =~= p@);
    true
}

/// Whether one of `lines` records a failure of `url`.
pub open spec fn logged(lines: Seq<Seq<char>>, url: Seq<char>) -> bool {
    exists|i: int| 0 <= i < lines.len() && is_prefix(url + " - "@, #[trigger] lines[i])
}

/// Whether a failure of `url` is already among the recorded `lines`, so that
/// recording it again would only repeat it.
pub fn already_logged(lines: &Vec<String>, url: &str) -> (r: bool)
    ensures
        r == logged(lines@.map_values(|x: String| x@), url@),
{
    let mut key = String::from_str(url);
    key.append(" - ");
    let ghost v = lines@.map_values(|x: String| x@);
    let mut i: usize = 0;
    while i < lines.len()
        invariant
            i <= lines.len(),
            v == lines@.map_values(|x: String| x@),
            key@ == url@ + " - "@,
            forall|j: int| 0 <= j < i ==> !is_prefix(url@ + " - "@, #[trigger] v[j]),
        decreases lines.len() - i,
    {
        if starts_with(lines[i].as_str(), key.as_str()) {
            assert(is_prefix(url@ + " - "@, v[i as int]));
            return true;
        }
        i = i + 1;
    }
    false
}

} // verus!
