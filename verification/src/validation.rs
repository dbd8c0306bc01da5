//! The character-class rule applied to the checked configuration keys.

use vstd::prelude::*;
use vstd::string::StrSliceExecFns;

verus! {

/// Whether `char::is_alphanumeric` holds of `c`. The Unicode classification
/// is a function of the character alone; it is named rather than written out.
pub uninterp spec fn char_alphanumeric(c: char) -> bool;

/// Relies on `char::is_alphanumeric` of std: the result depends on the
/// character alone.
#[verifier::external_body]
fn is_alphanumeric_char(c: char) -> (r: bool)
    ensures
        r == char_alphanumeric(c),
{
    c.is_alphanumeric()
}

/// A character the validation rule accepts: alphanumeric or underscore.
pub open spec fn valid_char(c: char) -> bool {
    char_alphanumeric(c) || c == '_'
}

/// A value the validation rule accepts: every character is valid.
pub open spec fn valid_value(s: Seq<char>) -> bool {
    forall|i: int| 0 <= i < s.len() ==> valid_char(#[trigger] s[i])
}

/// A key whose value is subject to the character-class rule.
pub open spec fn checked_key(k: Seq<char>) -> bool {
    k == "config_name"@ || k == "pool_name"@ || k == "wallet_name"@
}

/// Whether validation flags key `k` in table `m`: the key is present and its
/// value fails the rule. Only checked keys are ever flagged by the validator.
pub open spec fn key_flagged(m: Map<Seq<char>, Seq<char>>, k: Seq<char>) -> bool {
    m.dom().contains(k) && !valid_value(m[k])
}

/// The fragment that key `k` contributes to the combined error message.
pub open spec fn key_message(m: Map<Seq<char>, Seq<char>>, k: Seq<char>) -> Seq<char> {
    if key_flagged(m, k) {
        k + " has invalid setting: "@ + m[k]
    } else {
        Seq::<char>::empty()
    }
}

/// The combined error message: the fragments of the checked keys, in
/// alphabetical key order so the output is deterministic.
pub open spec fn error_message(m: Map<Seq<char>, Seq<char>>) -> Seq<char> {
    key_message(m, "config_name"@) + key_message(m, "pool_name"@) + key_message(m, "wallet_name"@)
}

/// A table passes validation when no checked key holds an invalid value.
pub open spec fn config_valid(m: Map<Seq<char>, Seq<char>>) -> bool {
    forall|k: Seq<char>| checked_key(k) && #[trigger] m.dom().contains(k) ==> valid_value(m[k])
}

/// `sub` occurs contiguously somewhere in `s`.
pub open spec fn contains_subseq(s: Seq<char>, sub: Seq<char>) -> bool {
    exists|i: int| 0 <= i && i + sub.len() <= s.len() && #[trigger] s.subrange(i, i + sub.len())
        == sub
}

/// If `sub` occurs in `s` at offset `off`, it occurs in any concatenation
/// with `s` in the middle.
pub proof fn lemma_subseq_in_concat(
    x: Seq<char>,
    s: Seq<char>,
    y: Seq<char>,
    sub: Seq<char>,
    off: int,
)
    requires
        0 <= off,
        off + sub.len() <= s.len(),
        s.subrange(off, off + sub.len()) == sub,
    ensures
        contains_subseq(x + s + y, sub),
{
    assert((x + s + y).subrange(x.len() + off, x.len() + off + sub.len()) =~= sub);
}

/// Validation succeeds exactly when the combined error message is empty.
pub proof fn lemma_error_message_empty(m: Map<Seq<char>, Seq<char>>)
    ensures
        config_valid(m) <==> error_message(m).len() == 0,
{
    reveal_strlit(" has invalid setting: ");
    if config_valid(m) {
        assert(!key_flagged(m, "config_name"@));
        assert(!key_flagged(m, "pool_name"@));
        assert(!key_flagged(m, "wallet_name"@));
    } else {
        let k = choose|k: Seq<char>| checked_key(k) && #[trigger] m.dom().contains(k)
            && !valid_value(m[k]);
        assert(key_message(m, k).len() > 0);
    }
}

/// Returns whether every character of `value` is alphanumeric or underscore.
pub fn is_valid(value: &str) -> (r: bool)
    ensures
        r == valid_value(value@),
{
    let len: usize = value.unicode_len();
    for i in 0..len
        invariant
            len == value@.len(),
            forall|j: int| 0 <= j < i ==> valid_char(#[trigger] value@[j]),
    {
        let c = value.get_char(i);
        if !is_alphanumeric_char(c) && c != '_' {
            return false;
        }
    }
    true
}

} // verus!
