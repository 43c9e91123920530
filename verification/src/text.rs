//! Character-level helpers for the `name:value` request syntax.

use vstd::prelude::*;
use vstd::string::StrSliceExecFns;

verus! {

/// Index of the first `:` in `s`, if any.
pub open spec fn colon_index(s: Seq<char>) -> Option<int>
    decreases s.len(),
{
    if s.len() == 0 {
        None
    } else if s[0] == ':' {
        Some(0int)
    } else {
        match colon_index(s.subrange(1, s.len() as int)) {
            None => None,
            Some(i) => Some(i + 1),
        }
    }
}

/// `colon_index` points at the first `:`: the character there is a colon and
/// none before it is; when it is `None`, no character is a colon.
pub proof fn lemma_colon_index_spec(s: Seq<char>)
    ensures
        match colon_index(s) {
            Some(i) => 0 <= i < s.len() && s[i] == ':' && (forall|k: int|
                0 <= k < i ==> s[k] != ':'),
            None => forall|k: int| 0 <= k < s.len() ==> s[k] != ':',
        },
    decreases s.len(),
{
    if s.len() > 0 && s[0] != ':' {
        let sub = s.subrange(1, s.len() as int);
        lemma_colon_index_spec(sub);
        assert(forall|k: int| 1 <= k < s.len() ==> s[k] == sub[k - 1]);
    }
}

/// A position that holds a colon with none before it is the one that
/// `colon_index` finds.
pub proof fn lemma_colon_index_unique(s: Seq<char>, i: int)
    requires
        0 <= i < s.len(),
        s[i] == ':',
        forall|k: int| 0 <= k < i ==> s[k] != ':',
    ensures
        colon_index(s) == Some(i),
    decreases s.len(),
{
    if i > 0 {
        lemma_colon_index_unique(s.subrange(1, s.len() as int), i - 1);
    }
}

/// Character-by-character string equality.
pub fn str_eq(a: &str, b: &str) -> (r: bool)
    ensures
        r == (a@ == b@),
{
    let alen = a.unicode_len();
    let blen = b.unicode_len();
    if alen != blen {
        return false;
    }
    let mut i: usize = 0;
    while i < alen
        invariant
            alen == a@.len(),
            blen == b@.len(),
            alen == blen,
            i <= alen,
            forall|k: int| 0 <= k < i ==> a@[k] == b@[k],
        decreases alen - i,
    {
        if a.get_char(i) != b.get_char(i) {
            return false;
        }
        i += 1;
    }
    proof {
        assert(a@ =~= b@);
    }
    true
}

/// Splits `s` at its first colon into the part before and the part after.
/// `None` when `s` holds no colon.
pub fn split_name_value(s: &str) -> (r: Option<(String, String)>)
    ensures
        match r {
            Some(nv) => colon_index(s@) matches Some(i) && nv.0@ == s@.subrange(0, i)
                && nv.1@ == s@.subrange(i + 1, s@.len() as int),
            None => colon_index(s@) is None,
        },
{
    let len = s.unicode_len();
    let mut i: usize = 0;
    while i < len
        invariant
            len == s@.len(),
            i <= len,
            forall|k: int| 0 <= k < i ==> s@[k] != ':',
        decreases len - i,
    {
        if s.get_char(i) == ':' {
            proof {
                lemma_colon_index_unique(s@, i as int);
            }
            let name = s.substring_char(0, i).to_owned();
            let value = s.substring_char(i + 1, len).to_owned();
            return Some((name, value));
        }
        i += 1;
    }
    proof {
        lemma_colon_index_spec(s@);
    }
    None
}

} // verus!
