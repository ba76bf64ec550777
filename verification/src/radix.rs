//! The base-37 positional model of an identifier: the value of a digit
//! string, the digit string of a value, and the round-trip and injectivity
//! laws that make the packed representation faithful.

use vstd::prelude::*;
use crate::alphabet::{
    byte_digit, digit_byte, lemma_byte_digit_inverse, lemma_digit_byte_inverse, valid_byte,
};

verus! {

/// 37 raised to the power `k`.
pub open spec fn pow37(k: nat) -> nat
    decreases k,
{
    if k == 0 {
        1
    } else {
        37 * pow37((k - 1) as nat)
    }
}

/// The base-37 value of a byte string, most significant digit first.
pub open spec fn value_of(s: Seq<u8>) -> nat
    decreases s.len(),
{
    if s.len() == 0 {
        0
    } else {
        value_of(s.drop_last()) * 37 + byte_digit(s.last())
    }
}

/// The digit string of a base-37 value, most significant digit first;
/// the empty string for zero, and never with a leading zero digit.
pub open spec fn decode_seq(v: nat) -> Seq<u8>
    decreases v,
{
    if v == 0 {
        Seq::empty()
    } else {
        decode_seq(v / 37).push(digit_byte(v % 37))
    }
}

/// A well-formed identifier string: nonempty, at most 24 bytes, all bytes
/// in the alphabet, and no leading underscore.
pub open spec fn valid_name(s: Seq<u8>) -> bool {
    &&& 1 <= s.len() <= 24
    &&& s[0] != 95
    &&& forall|i: int| 0 <= i < s.len() ==> valid_byte(#[trigger] s[i])
}

/// Powers of 37 are positive.
pub proof fn lemma_pow37_pos(k: nat)
    ensures
        pow37(k) >= 1,
    decreases k,
{
    if k > 0 {
        lemma_pow37_pos((k - 1) as nat);
    }
}

/// Powers of 37 grow with the exponent.
pub proof fn lemma_pow37_mono(a: nat, b: nat)
    requires
        a <= b,
    ensures
        pow37(a) <= pow37(b),
    decreases b,
{
    if a < b {
        lemma_pow37_mono(a, (b - 1) as nat);
        lemma_pow37_pos((b - 1) as nat);
    }
}

/// The largest representable value: `pow37(24)` written out.
pub proof fn lemma_pow37_24()
    ensures
        pow37(24) == 43335257111193343900365036083324748961,
{
    assert(pow37(0) == 1);
    assert(pow37(1) == 37);
    assert(pow37(2) == 1369);
    assert(pow37(3) == 50653);
    assert(pow37(4) == 1874161);
    assert(pow37(5) == 69343957);
    assert(pow37(6) == 2565726409);
    assert(pow37(7) == 94931877133);
    assert(pow37(8) == 3512479453921);
    assert(pow37(9) == 129961739795077);
    assert(pow37(10) == 4808584372417849);
    assert(pow37(11) == 177917621779460413);
    assert(pow37(12) == 6582952005840035281);
    assert(pow37(13) == 243569224216081305397);
    assert(pow37(14) == 9012061295995008299689);
    assert(pow37(15) == 333446267951815307088493);
    assert(pow37(16) == 12337511914217166362274241);
    assert(pow37(17) == 456487940826035155404146917);
    assert(pow37(18) == 16890053810563300749953435929);
    assert(pow37(19) == 624931990990842127748277129373);
    assert(pow37(20) == 23122483666661158726686253786801);
    assert(pow37(21) == 855531895666462872887391390111637);
    assert(pow37(22) == 31654680139659126296833481434130569);
    assert(pow37(23) == 1171223165167387672982838813062831053);
    assert(pow37(24) == 43335257111193343900365036083324748961);
}

/// A string of alphabet bytes has value below `pow37` of its length.
pub proof fn lemma_value_upper(s: Seq<u8>)
    requires
        forall|i: int| 0 <= i < s.len() ==> valid_byte(#[trigger] s[i]),
    ensures
        value_of(s) < pow37(s.len()),
    decreases s.len(),
{
    if s.len() > 0 {
        assert(forall|i: int| 0 <= i < s.drop_last().len() ==> valid_byte(
            #[trigger] s.drop_last()[i],
        ));
        lemma_value_upper(s.drop_last());
        lemma_byte_digit_inverse(s.last());
    }
}

/// A nonempty string with a nonzero leading digit has value at least
/// `pow37` of one less than its length; in particular the value is positive.
pub proof fn lemma_value_lower(s: Seq<u8>)
    requires
        s.len() >= 1,
        forall|i: int| 0 <= i < s.len() ==> valid_byte(#[trigger] s[i]),
        s[0] != 95,
    ensures
        value_of(s) >= pow37((s.len() - 1) as nat),
        value_of(s) >= 1,
    decreases s.len(),
{
    lemma_byte_digit_inverse(s[0]);
    if s.len() == 1 {
        assert(s.last() == s[0]);
    } else {
        assert(forall|i: int| 0 <= i < s.drop_last().len() ==> valid_byte(
            #[trigger] s.drop_last()[i],
        ));
        assert(s.drop_last()[0] == s[0]);
        lemma_value_lower(s.drop_last());
        lemma_pow37_pos((s.len() - 2) as nat);
    }
}

/// Decoding inverts encoding: a nonempty alphabet string without a leading
/// underscore is reproduced exactly from its base-37 value.
pub proof fn lemma_decode_encode(s: Seq<u8>)
    requires
        s.len() >= 1,
        forall|i: int| 0 <= i < s.len() ==> valid_byte(#[trigger] s[i]),
        s[0] != 95,
    ensures
        decode_seq(value_of(s)) == s,
    decreases s.len(),
{
    let v = value_of(s);
    let d = byte_digit(s.last());
    lemma_byte_digit_inverse(s.last());
    lemma_byte_digit_inverse(s[0]);
    if s.len() == 1 {
        assert(s.last() == s[0]);
        assert(v == d) by {
            assert(value_of(s.drop_last()) == 0);
        }
        assert(1 <= v <= 36);
        assert(v % 37 == v && v / 37 == 0);
        assert(decode_seq(v) == decode_seq(0).push(digit_byte(v)));
        assert(decode_seq(v) =~= s);
    } else {
        let prefix = s.drop_last();
        assert(forall|i: int| 0 <= i < prefix.len() ==> valid_byte(#[trigger] prefix[i]));
        assert(prefix[0] == s[0]);
        lemma_value_lower(prefix);
        let q = value_of(prefix);
        assert(v == q * 37 + d);
        assert(0 <= d < 37);
        assert(v % 37 == d && v / 37 == q) by {
            vstd::arithmetic::div_mod::lemma_fundamental_div_mod_converse(
                v as int, 37, q as int, d as int,
            );
        }
        assert(v >= 37) by {
            assert(q >= 1);
        }
        lemma_decode_encode(prefix);
        assert(decode_seq(v) == decode_seq(q).push(digit_byte(d)));
        assert(decode_seq(v) =~= s);
    }
}

/// Encoding inverts decoding: the digit string of a positive value is a
/// nonempty alphabet string without a leading underscore, and its value is
/// the original.
pub proof fn lemma_encode_decode(v: nat)
    requires
        v >= 1,
    ensures
        value_of(decode_seq(v)) == v,
        decode_seq(v).len() >= 1,
        decode_seq(v)[0] != 95,
        forall|i: int| 0 <= i < decode_seq(v).len() ==> valid_byte(#[trigger] decode_seq(v)[i]),
    decreases v,
{
    let d = v % 37;
    let q = v / 37;
    vstd::arithmetic::div_mod::lemma_fundamental_div_mod(v as int, 37);
    lemma_digit_byte_inverse(d);
    let s = decode_seq(v);
    assert(s == decode_seq(q).push(digit_byte(d)));
    if q == 0 {
        assert(s =~= seq![digit_byte(d)]);
        assert(d == v);
        assert(s[0] == digit_byte(d) && d >= 1);
        assert(value_of(s) == value_of(s.drop_last()) * 37 + byte_digit(s.last()));
        assert(s.drop_last() =~= Seq::<u8>::empty());
        assert(value_of(s) == d);
    } else {
        lemma_encode_decode(q);
        let p = decode_seq(q);
        assert(s.drop_last() =~= p);
        assert(s.last() == digit_byte(d));
        assert(value_of(s) == q * 37 + d);
        assert(s[0] == p[0]);
    }
}

/// A value below `pow37(k)` decodes to at most `k` digits.
pub proof fn lemma_decode_len(v: nat, k: nat)
    requires
        v < pow37(k),
    ensures
        decode_seq(v).len() <= k,
    decreases k,
{
    if v > 0 {
        if k == 0 {
        } else {
            let q = v / 37;
            vstd::arithmetic::div_mod::lemma_fundamental_div_mod(v as int, 37);
            assert(37 * q <= v);
            assert(q < pow37((k - 1) as nat));
            lemma_decode_len(q, (k - 1) as nat);
        }
    }
}

/// Round trip: a well-formed identifier string is reproduced exactly by
/// decoding its base-37 value, and the decoded length equals the original
/// length.
pub proof fn lemma_round_trip(s: Seq<u8>)
    requires
        valid_name(s),
    ensures
        decode_seq(value_of(s)) == s,
        decode_seq(value_of(s)).len() == s.len(),
{
    lemma_decode_encode(s);
}

/// Injectivity: distinct well-formed identifier strings always have
/// distinct base-37 values.
pub proof fn lemma_value_injective(s1: Seq<u8>, s2: Seq<u8>)
    requires
        valid_name(s1),
        valid_name(s2),
        s1 != s2,
    ensures
        value_of(s1) != value_of(s2),
{
    if value_of(s1) == value_of(s2) {
        lemma_decode_encode(s1);
        lemma_decode_encode(s2);
    }
}

} // verus!
