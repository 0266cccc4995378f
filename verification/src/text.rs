//! ASCII case-insensitive comparison for configuration tokens.

use vstd::prelude::*;
use vstd::string::StrSliceExecFns;

verus! {

/// A character with ASCII lowercase letters folded to uppercase.
pub open spec fn spec_upper_char(c: char) -> char {
    if 'a' <= c <= 'z' {
        ((c as u8) - 0x20) as char
    } else {
        c
    }
}

/// Two strings equal up to ASCII case.
pub open spec fn spec_eq_ignore_ascii_case(a: Seq<char>, b: Seq<char>) -> bool {
    a.len() == b.len() && forall|i: int|
        0 <= i < a.len() ==> spec_upper_char(#[trigger] a[i]) == spec_upper_char(b[i])
}

/// A string cannot match two tokens that differ, up to case, at a position.
pub proof fn lemma_eq_ignore_distinct(m: Seq<char>, a: Seq<char>, b: Seq<char>, i: int)
    requires
        spec_eq_ignore_ascii_case(m, a),
        0 <= i < a.len(),
        a.len() == b.len(),
        spec_upper_char(a[i]) != spec_upper_char(b[i]),
    ensures
        !spec_eq_ignore_ascii_case(m, b),
{
    if spec_eq_ignore_ascii_case(m, b) {
        assert(spec_upper_char(m[i]) == spec_upper_char(a[i]));
        assert(spec_upper_char(m[i]) == spec_upper_char(b[i]));
    }
}

/// Compare two strings, ignoring ASCII case; configuration tokens such as
/// HTTP method names and SSL mode names match this way.
pub fn ascii_eq_ignore_case(a: &str, b: &str) -> (r: bool)
    ensures
        r == spec_eq_ignore_ascii_case(a@, b@),
{
    let an = a.unicode_len();
    let bn = b.unicode_len();
    if an != bn {
        return false;
    }
    for i in 0..an
        invariant
            an == a@.len(),
            an == b@.len(),
            forall|k: int| 0 <= k < i ==> spec_upper_char(#[trigger] a@[k]) == spec_upper_char(
                b@[k],
            ),
    {
        let ca = a.get_char(i);
        let cb = b.get_char(i);
        let ua = if 'a' <= ca && ca <= 'z' {
            ((ca as u8) - 0x20) as char
        } else {
            ca
        };
        let ub = if 'a' <= cb && cb <= 'z' {
            ((cb as u8) - 0x20) as char
        } else {
            cb
        };
        if ua != ub {
            return false;
        }
    }
    true
}

} // verus!
