//! Properties that relate merging and validation, stated over the
//! specification model and proved once for all inputs.

use vstd::prelude::*;
use crate::registry::spec_merge;
use crate::validation::{
    checked_key, config_valid, contains_subseq, error_message, key_flagged, key_message,
    lemma_subseq_in_concat, valid_value,
};

verus! {

/// Merging a single pair under a checked key, with a value whose characters
/// are all alphanumeric or underscore, and then validating, flags nothing
/// for that key: its fragment of the combined message is empty.
pub proof fn lemma_merge_valid_value_not_flagged(
    m: Map<Seq<char>, Seq<char>>,
    k: Seq<char>,
    v: Seq<char>,
)
    requires
        checked_key(k),
        valid_value(v),
    ensures
        !key_flagged(spec_merge(m, seq![(k, v)]), k),
        key_message(spec_merge(m, seq![(k, v)]), k) == Seq::<char>::empty(),
{
    let s = seq![(k, v)];
    assert(s.drop_last() =~= Seq::<(Seq<char>, Seq<char>)>::empty());
    assert(spec_merge(m, s.drop_last()) == m);
    assert(spec_merge(m, s) == m.insert(k, v));
}

/// Merging a single pair under a checked key, with a value holding at least
/// one character outside the class, and then validating, yields an error:
/// the merged table fails validation and the combined message contains both
/// the key and the offending value.
pub proof fn lemma_merge_invalid_value_reported(
    m: Map<Seq<char>, Seq<char>>,
    k: Seq<char>,
    v: Seq<char>,
)
    requires
        checked_key(k),
        !valid_value(v),
    ensures
        !config_valid(spec_merge(m, seq![(k, v)])),
        contains_subseq(error_message(spec_merge(m, seq![(k, v)])), k),
        contains_subseq(error_message(spec_merge(m, seq![(k, v)])), v),
{
    let s = seq![(k, v)];
    assert(s.drop_last() =~= Seq::<(Seq<char>, Seq<char>)>::empty());
    assert(spec_merge(m, s.drop_last()) == m);
    let merged = spec_merge(m, s);
    assert(merged == m.insert(k, v));
    assert(key_flagged(merged, k));
    let seg = k + " has invalid setting: "@ + merged[k];
    assert(key_message(merged, k) == seg);
    assert(seg.subrange(0, k.len() as int) =~= k);
    let voff: int = k.len() as int + " has invalid setting: "@.len() as int;
    assert(seg.subrange(voff, voff + v.len()) =~= v);
    let cfg = key_message(merged, "config_name"@);
    let pool = key_message(merged, "pool_name"@);
    let wallet = key_message(merged, "wallet_name"@);
    if k == "config_name"@ {
        lemma_subseq_in_concat(Seq::<char>::empty(), seg, pool + wallet, k, 0);
        lemma_subseq_in_concat(Seq::<char>::empty(), seg, pool + wallet, v, voff);
        assert(Seq::<char>::empty() + seg + (pool + wallet) =~= error_message(merged));
    } else if k == "pool_name"@ {
        lemma_subseq_in_concat(cfg, seg, wallet, k, 0);
        lemma_subseq_in_concat(cfg, seg, wallet, v, voff);
        assert(cfg + seg + wallet =~= error_message(merged));
    } else {
        lemma_subseq_in_concat(cfg + pool, seg, Seq::<char>::empty(), k, 0);
        lemma_subseq_in_concat(cfg + pool, seg, Seq::<char>::empty(), v, voff);
        assert(cfg + pool + seg + Seq::<char>::empty() =~= error_message(merged));
    }
}

} // verus!
