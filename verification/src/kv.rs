//! Lookup in a sequence of string key/value pairs.
//!
//! Both configuration maps (the input of `from_map`) and HTTP header lists
//! are carried as `Vec<(String, String)>`; a lookup returns the value of the
//! first pair whose key matches.

use vstd::prelude::*;

verus! {

/// True when some pair in `pairs` has key `key`.
pub open spec fn kv_has_key(pairs: Seq<(String, String)>, key: Seq<char>) -> bool {
    exists|i: int| 0 <= i < pairs.len() && #[trigger] pairs[i].0@ == key
}

/// The value of the first pair whose key is `key`, if any.
pub open spec fn kv_lookup(pairs: Seq<(String, String)>, key: Seq<char>) -> Option<String>
    decreases pairs.len(),
{
    if pairs.len() == 0 {
        None
    } else if pairs[0].0@ == key {
        Some(pairs[0].1)
    } else {
        kv_lookup(pairs.drop_first(), key)
    }
}

/// A lookup misses exactly when no pair carries the key.
pub proof fn lemma_kv_lookup_none(pairs: Seq<(String, String)>, key: Seq<char>)
    ensures
        kv_lookup(pairs, key) is None <==> !kv_has_key(pairs, key),
    decreases pairs.len(),
{
    if pairs.len() == 0 {
    } else if pairs[0].0@ == key {
        assert(kv_has_key(pairs, key));
    } else {
        lemma_kv_lookup_none(pairs.drop_first(), key);
        if kv_has_key(pairs, key) {
            let i = choose|i: int| 0 <= i < pairs.len() && #[trigger] pairs[i].0@ == key;
            assert(pairs.drop_first()[i - 1].0@ == key);
            assert(kv_has_key(pairs.drop_first(), key));
        }
        if kv_has_key(pairs.drop_first(), key) {
            let i = choose|i: int|
                0 <= i < pairs.drop_first().len() && #[trigger] pairs.drop_first()[i].0@ == key;
            assert(pairs[i + 1].0@ == key);
        }
    }
}

/// The value of the first pair in `pairs` whose key equals `key`, cloned.
pub fn kv_get(pairs: &Vec<(String, String)>, key: &str) -> (r: Option<String>)
    ensures
        r == kv_lookup(pairs@, key@),
{
    let k: String = key.to_owned();
    let mut i: usize = 0;
    proof {
        assert(pairs@.skip(0) =~= pairs@);
    }
    while i < pairs.len()
        invariant
            k@ == key@,
            i <= pairs@.len(),
            kv_lookup(pairs@, key@) == kv_lookup(pairs@.skip(i as int), key@),
        decreases pairs@.len() - i,
    {
        proof {
            assert(pairs@.skip(i as int)[0] == pairs@[i as int]);
            assert(pairs@.skip(i as int).drop_first() =~= pairs@.skip(i as int + 1));
        }
        if pairs[i].0 == k {
            return Some(pairs[i].1.clone());
        }
        i = i + 1;
    }
    proof {
        assert(pairs@.skip(i as int).len() == 0);
    }
    None
}

} // verus!
