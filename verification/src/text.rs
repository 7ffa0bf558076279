//! Small verified text helpers used by option parsing and session capture.

use vstd::prelude::*;

verus! {

use vstd::string::StrSliceExecFns;

/// Whether two string slices hold the same characters.
pub fn str_eq(a: &str, b: &str) -> (r: bool)
    ensures
        r == (a@ == b@),
{
    let alen = a.unicode_len();
    let blen = b.unicode_len();
    if alen != blen {
        return false;
    }
    let mut i: usize = 0;
    while i < alen
        invariant
            alen == a@.len(),
            blen == b@.len(),
            alen == blen,
            i <= alen,
            forall|k: int| 0 <= k < i ==> a@[k] == b@[k],
        decreases alen - i,
    {
        if a.get_char(i) != b.get_char(i) {
            return false;
        }
        i = i + 1;
    }
    proof {
        assert(a@ =~= b@);
    }
    true
}

/// Whether the string begins with the given character.
pub fn starts_with_char(s: &str, c: char) -> (r: bool)
    ensures
        r == (s@.len() > 0 && s@[0] == c),
{
    let len = s.unicode_len();
    if len == 0 {
        false
    } else {
        s.get_char(0) == c
    }
}

/// The index of the first newline in `s`, if any.
pub open spec fn spec_newline_at(s: Seq<char>) -> Option<int> {
    if exists|k: int| 0 <= k < s.len() && s[k] == '\n' {
        Some(choose|k: int| 0 <= k < s.len() && s[k] == '\n' && (forall|j: int|
            0 <= j < k ==> s[j] != '\n'))
    } else {
        None
    }
}

/// What remains of captured unlock output once it is cut at the first
/// newline: the whole text when it holds none.
pub open spec fn spec_first_line(s: Seq<char>) -> Seq<char> {
    match spec_newline_at(s) {
        Some(k) => s.take(k),
        None => s,
    }
}

/// Cuts `s` at its first newline; the session token is the first line of the
/// unlock subcommand's output.
pub fn first_line(s: &str) -> (r: String)
    ensures
        r@ == spec_first_line(s@),
{
    let len = s.unicode_len();
    let mut i: usize = 0;
    while i < len
        invariant
            len == s@.len(),
            i <= len,
            forall|j: int| 0 <= j < i ==> s@[j] != '\n',
        decreases len - i,
    {
        if s.get_char(i) == '\n' {
            let head = s.substring_char(0, i);
            proof {
                let k = i as int;
                assert(0 <= k < s@.len() && s@[k] == '\n' && (forall|j: int|
                    0 <= j < k ==> s@[j] != '\n'));
                let w = choose|w: int|
                    0 <= w < s@.len() && s@[w] == '\n' && (forall|j: int|
                        0 <= j < w ==> s@[j] != '\n');
                assert(!(w < k) && !(k < w));
                assert(head@ =~= s@.subrange(0, k));
                assert(s@.take(k) =~= s@.subrange(0, k));
            }
            return head.to_owned();
        }
        i = i + 1;
    }
    proof {
        assert(spec_newline_at(s@) is None);
    }
    s.to_owned()
}

} // verus!
