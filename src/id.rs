//! Record identifiers: 128-bit values written as hyphenated hexadecimal text.

use vstd::arithmetic::div_mod::{lemma_breakdown, lemma_small_mod};
use vstd::arithmetic::power::{lemma_pow_positive, pow};
use vstd::prelude::*;

verus! {

/// The hexadecimal digit for `n` (below 16), in lower case.
pub open spec fn hex_char(n: int) -> char {
    seq!['0', '1', '2', '3', '4', '5', '6', '7', '8', '9', 'a', 'b', 'c', 'd', 'e', 'f'][n]
}

/// The lowest `k` hexadecimal digits of `n`, most significant first.
pub open spec fn hex_digits(n: nat, k: nat) -> Seq<char>
    decreases k,
{
    if k == 0 {
        Seq::empty()
    } else {
        hex_digits(n / 16, (k - 1) as nat).push(hex_char(n as int % 16))
    }
}

/// The text of an identifier: the 32 hexadecimal digits of its value,
/// most significant first, grouped 8-4-4-4-12 and joined by hyphens.
pub open spec fn id_text(v: u128) -> Seq<char> {
    let h = hex_digits(v as nat, 32);
    h.subrange(0, 8) + seq!['-'] + h.subrange(8, 12) + seq!['-'] + h.subrange(12, 16) + seq!['-']
        + h.subrange(16, 20) + seq!['-'] + h.subrange(20, 32)
}

proof fn lemma_hex_char_injective(a: int, b: int)
    requires
        0 <= a < 16,
        0 <= b < 16,
        hex_char(a) == hex_char(b),
    ensures
        a == b,
{
    let digits = seq!['0', '1', '2', '3', '4', '5', '6', '7', '8', '9', 'a', 'b', 'c', 'd', 'e', 'f'];
    assert forall|i: int, j: int| 0 <= i < j < 16 implies digits[i] != digits[j] by {
        assert(digits[i] as u32 == (if i < 10 { 48 + i } else { 87 + i }) as u32);
        assert(digits[j] as u32 == (if j < 10 { 48 + j } else { 87 + j }) as u32);
    }
}

proof fn lemma_hex_digits_len(n: nat, k: nat)
    ensures
        hex_digits(n, k).len() == k,
    decreases k,
{
    if k > 0 {
        lemma_hex_digits_len(n / 16, (k - 1) as nat);
    }
}

/// Equal `k`-digit texts come from numbers with equal `k` lowest digits.
proof fn lemma_hex_digits_injective(a: nat, b: nat, k: nat)
    requires
        hex_digits(a, k) == hex_digits(b, k),
    ensures
        a as int % pow(16, k) == b as int % pow(16, k),
    decreases k,
{
    if k == 0 {
        reveal(pow);
        assert(pow(16, 0) == 1);
    } else {
        let k1 = (k - 1) as nat;
        let ha = hex_digits(a, k);
        let hb = hex_digits(b, k);
        assert(ha.last() == hex_char(a as int % 16));
        assert(hb.last() == hex_char(b as int % 16));
        lemma_hex_char_injective(a as int % 16, b as int % 16);
        assert(ha.drop_last() =~= hex_digits(a / 16, k1));
        assert(hb.drop_last() =~= hex_digits(b / 16, k1));
        lemma_hex_digits_injective(a / 16, b / 16, k1);
        lemma_pow_positive(16, k1);
        lemma_breakdown(a as int, 16, pow(16, k1));
        lemma_breakdown(b as int, 16, pow(16, k1));
        reveal(pow);
        assert(pow(16, k) == 16 * pow(16, k1));
    }
}

/// Different identifiers have different texts.
pub proof fn lemma_id_text_injective(a: u128, b: u128)
    requires
        id_text(a) == id_text(b),
    ensures
        a == b,
{
    let ha = hex_digits(a as nat, 32);
    let hb = hex_digits(b as nat, 32);
    lemma_hex_digits_len(a as nat, 32);
    lemma_hex_digits_len(b as nat, 32);
    let t = id_text(a);
    assert(ha =~= t.subrange(0, 8) + t.subrange(9, 13) + t.subrange(14, 18) + t.subrange(19, 23)
        + t.subrange(24, 36));
    assert(hb =~= t.subrange(0, 8) + t.subrange(9, 13) + t.subrange(14, 18) + t.subrange(19, 23)
        + t.subrange(24, 36));
    lemma_hex_digits_injective(a as nat, b as nat, 32);
    reveal_with_fuel(pow, 33);
    assert(pow(16, 32) == 0x1_0000_0000_0000_0000_0000_0000_0000_0000);
    lemma_small_mod(a as nat, pow(16, 32) as nat);
    lemma_small_mod(b as nat, pow(16, 32) as nat);
}

/// The identifier that a text denotes, if it denotes one.
pub uninterp spec fn id_parsed(s: Seq<char>) -> Option<u128>;

/// Relies on `uuid::Uuid`'s `Display` (through `to_string`): the hyphenated,
/// lower-case form of the value's 16 big-endian bytes.
#[verifier::external_body]
pub(crate) fn format_id(v: u128) -> (r: String)
    ensures
        r@ == id_text(v),
{
    uuid::Uuid::from_u128(v).to_string()
}

/// Relies on `uuid::Uuid::parse_str`: its answer depends on the text alone,
/// and the hyphenated form reads back as the value it was written from.
#[verifier::external_body]
pub(crate) fn parse_id(s: &str) -> (r: Option<u128>)
    ensures
        r == id_parsed(s@),
        forall|v: u128| s@ == id_text(v) ==> r == Some(v),
{
    match uuid::Uuid::parse_str(s) {
        Ok(u) => Some(u.as_u128()),
        Err(_) => None,
    }
}

/// Relies on `uuid::Uuid::new_v4`: a fresh random identifier, of which
/// nothing else is promised.
#[verifier::external_body]
pub(crate) fn fresh_id() -> (r: u128) {
    uuid::Uuid::new_v4().as_u128()
}

} // verus!
