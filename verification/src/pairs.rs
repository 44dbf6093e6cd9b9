//! Lookup in small tables of string pairs (language code to voice id).

use crate::text::str_eq;
use vstd::prelude::*;

verus! {

/// The value paired with the first occurrence of `key`, if any.
pub open spec fn lookup_pair(t: Seq<(&'static str, &'static str)>, key: Seq<char>) -> Option<
    &'static str,
>
    decreases t.len(),
{
    if t.len() == 0 {
        None
    } else if t[0].0@ == key {
        Some(t[0].1)
    } else {
        lookup_pair(t.drop_first(), key)
    }
}

/// Looks `key` up in the table: the value of its first occurrence.
pub fn lookup_pair_exec(t: &[(&'static str, &'static str)], key: &str) -> (r: Option<
    &'static str,
>)
    ensures
        r == lookup_pair(t@, key@),
{
    let mut k: usize = 0;
    assert(t@.skip(0) =~= t@);
    while k < t.len()
        invariant
            k <= t.len(),
            lookup_pair(t@, key@) == lookup_pair(t@.skip(k as int), key@),
        decreases t.len() - k,
    {
        let ghost rest = t@.skip(k as int);
        assert(rest.drop_first() =~= t@.skip(k + 1));
        if str_eq(t[k].0, key) {
            return Some(t[k].1);
        }
        k = k + 1;
    }
    None
}

} // verus!
