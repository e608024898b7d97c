//! `key=value` texts and the mappings that lists of them stand for.

use vstd::prelude::*;
use vstd::string::{StrSliceExecFns, StringExecFns};

verus! {

/// The index of the first `c` in `s` at or after `i`, or the length of `s`.
pub open spec fn first_index_from(s: Seq<char>, c: char, i: int) -> int
    decreases s.len() - i,
{
    if i >= s.len() {
        s.len() as int
    } else if s[i] == c {
        i
    } else {
        first_index_from(s, c, i + 1)
    }
}

/// `key=value` split at the first `=`; without one, the whole text is the
/// key and the value is empty.
pub open spec fn split_key_value(s: Seq<char>) -> (Seq<char>, Seq<char>) {
    let k = first_index_from(s, '=', 0);
    if k < s.len() {
        (s.subrange(0, k), s.subrange(k + 1, s.len() as int))
    } else {
        (s, Seq::empty())
    }
}

/// The mapping that a list of pairs stands for: a later pair overrides an
/// earlier one with the same key.
pub open spec fn pairs_map(pairs: Seq<(Seq<char>, Seq<char>)>) -> Map<Seq<char>, Seq<char>>
    decreases pairs.len(),
{
    if pairs.len() == 0 {
        Map::empty()
    } else {
        pairs_map(pairs.drop_last()).insert(pairs.last().0, pairs.last().1)
    }
}

/// Splits one `key=value` text at its first `=`.
pub fn key_value(s: &str) -> (r: (String, String))
    ensures
        (r.0@, r.1@) == split_key_value(s@),
{
    let n = s.unicode_len();
    let mut i: usize = 0;
    while i < n
        invariant
            n == s@.len(),
            i <= n,
            first_index_from(s@, '=', 0) == first_index_from(s@, '=', i as int),
        decreases n - i,
    {
        if s.get_char(i) == '=' {
            let key = String::from_str(s.substring_char(0, i));
            let value = String::from_str(s.substring_char(i + 1, n));
            return (key, value);
        }
        i = i + 1;
    }
    assert(s@.subrange(0, n as int) =~= s@);
    (String::from_str(s), String::new())
}

/// Splits each `key=value` text at its first `=`, keeping their order.
pub fn collection_from_keyvalues(keyvalues: &Vec<String>) -> (r: Vec<(String, String)>)
    ensures
        r.deep_view() == keyvalues.deep_view().map_values(|s: Seq<char>| split_key_value(s)),
{
    let mut out: Vec<(String, String)> = Vec::new();
    let mut i: usize = 0;
    while i < keyvalues.len()
        invariant
            i <= keyvalues@.len(),
            out.deep_view() == keyvalues.deep_view().take(i as int).map_values(
                |s: Seq<char>| split_key_value(s),
            ),
        decreases keyvalues@.len() - i,
    {
        let kv = key_value(keyvalues[i].as_str());
        let ghost prev = out.deep_view();
        out.push(kv);
        assert(out.deep_view() =~= prev.push(split_key_value(keyvalues.deep_view()[i as int])));
        assert(keyvalues.deep_view().take(i + 1).map_values(|s: Seq<char>| split_key_value(s))
            =~= keyvalues.deep_view().take(i as int).map_values(
            |s: Seq<char>| split_key_value(s),
        ).push(split_key_value(keyvalues.deep_view()[i as int])));
        i = i + 1;
    }
    assert(keyvalues.deep_view().take(i as int) =~= keyvalues.deep_view());
    out
}

} // verus!
