//! What the text of a hash says of its bytes.
use vstd::prelude::*;

use crate::hash::Hash256;

verus! {

/// The number that a lower-case hexadecimal digit stands for, and a negative one for any other
/// character.
pub open spec fn digit_value(c: char) -> int {
    if '0' <= c && c <= '9' {
        c as int - '0' as int
    } else if 'a' <= c && c <= 'f' {
        c as int - 'a' as int + 10
    } else {
        -1
    }
}

/// The text is `0x` and then two digits for each byte, from which the byte can be read again.
pub open spec fn spells_out(text: Seq<char>, hash: Hash256) -> bool {
    &&& text.len() == 66
    &&& text[0] == '0'
    &&& text[1] == 'x'
    &&& forall|k: int|
        #![trigger hash.bytes@[k]]
        0 <= k < 32 ==> {
            &&& digit_value(text[2 + 2 * k]) >= 0
            &&& digit_value(text[3 + 2 * k]) >= 0
            &&& 16 * digit_value(text[2 + 2 * k]) + digit_value(text[3 + 2 * k]) == hash.bytes@[k]
        }
}

/// What comes after the prefix of a text that ends in a hash.
pub open spec fn ends_in_hash(text: Seq<char>, prefix: Seq<char>, hash: Hash256) -> bool {
    &&& text.len() == prefix.len() + 66
    &&& text.take(prefix.len() as int) == prefix
    &&& spells_out(text.skip(prefix.len() as int), hash)
}

/// A digit stands for the number that it is the digit of.
proof fn lemma_digit_value(n: int)
    requires
        0 <= n < 16,
    ensures
        digit_value(crate::hash::hex_digit(n)) == n,
{
}

/// The bytes of a hash can be read from its full text.
pub(crate) proof fn lemma_full_text_spells_out(hash: Hash256)
    ensures
        spells_out(hash.full_text(), hash),
{
    let text = hash.full_text();
    assert forall|k: int|
        #![trigger hash.bytes@[k]]
        0 <= k < 32 implies {
        &&& digit_value(text[2 + 2 * k]) >= 0
        &&& digit_value(text[3 + 2 * k]) >= 0
        &&& 16 * digit_value(text[2 + 2 * k]) + digit_value(text[3 + 2 * k]) == hash.bytes@[k]
    } by {
        let byte = hash.bytes@[k] as int;
        assert((2 * k) / 2 == k && (2 * k) % 2 == 0);
        assert((2 * k + 1) / 2 == k && (2 * k + 1) % 2 == 1);
        lemma_digit_value(byte / 16);
        lemma_digit_value(byte % 16);
        assert(text[2 + 2 * k] == crate::hash::hex_digits(hash.bytes@)[2 * k]);
        assert(text[3 + 2 * k] == crate::hash::hex_digits(hash.bytes@)[2 * k + 1]);
    }
}

/// The full text of a hash spells out all its bytes.
pub proof fn the_full_text_spells_out_the_hash(hash: Hash256, text: String)
    requires
        call_ensures(Hash256::to_full_text, (&hash,), text),
    ensures
        spells_out(text@, hash),
{
    lemma_full_text_spells_out(hash);
}

/// No two hashes have the same full text.
pub proof fn the_full_text_tells_hashes_apart(a: Hash256, b: Hash256, text_a: String, text_b: String)
    requires
        call_ensures(Hash256::to_full_text, (&a,), text_a),
        call_ensures(Hash256::to_full_text, (&b,), text_b),
    ensures
        text_a@ == text_b@ <==> a == b,
{
    lemma_full_text_spells_out(a);
    lemma_full_text_spells_out(b);
    if text_a@ == text_b@ {
        assert forall|k: int| 0 <= k < 32 implies #[trigger] a.bytes@[k] == b.bytes@[k] by {}
        assert(a.bytes =~= b.bytes);
    }
}

/// Every byte of the zero hash is zero.
pub proof fn the_zero_hash_has_no_other_byte(zero: Hash256)
    requires
        call_ensures(Hash256::zero, (), zero),
    ensures
        forall|k: int| 0 <= k < 32 ==> #[trigger] zero.bytes@[k] == 0,
{
    assert forall|k: int| 0 <= k < 32 implies #[trigger] zero.bytes@[k] == 0 by {
        assert(zero.bytes[k] == 0);
    }
}

/// Two hashes are equal exactly if they agree in every byte.
pub proof fn hashes_are_compared_byte_by_byte(a: Hash256, b: Hash256, equal: bool)
    requires
        call_ensures(Hash256::eq, (&a, &b), equal),
    ensures
        equal <==> forall|k: int| 0 <= k < 32 ==> #[trigger] a.bytes@[k] == b.bytes@[k],
{
    if forall|k: int| 0 <= k < 32 ==> #[trigger] a.bytes@[k] == b.bytes@[k] {
        assert(a.bytes =~= b.bytes);
    }
}

} // verus!
