//! The packed identifier type: validation, encoding into a single positive
//! integer, and total decoding back to the original bytes.

use vstd::prelude::*;
use crate::alphabet::{byte_of_digit, digit_of_byte, valid_byte};
use crate::radix::{
    decode_seq, lemma_decode_len, lemma_encode_decode, lemma_pow37_24, lemma_pow37_mono,
    lemma_value_lower, lemma_value_upper, pow37, valid_name, value_of,
};

verus! {

/// The identifier creation error: every way a candidate byte string can
/// fail validation.
#[derive(Debug, PartialEq, Eq, Structural)]
pub enum Error {
    /// The name is empty.
    Empty,
    /// The name's length is too long.
    TooLong,
    /// The name cannot contain a leading `_` char.
    LeadingUnderscore,
    /// The name contains an invalid char.
    InvalidChar,
}

/// The first validation failure for a candidate byte string, if any;
/// `None` exactly when the string is a well-formed identifier.
pub open spec fn name_error(s: Seq<u8>) -> Option<Error> {
    if s.len() == 0 {
        Some(Error::Empty)
    } else if s.len() > 24 {
        Some(Error::TooLong)
    } else if s[0] == 95 {
        Some(Error::LeadingUnderscore)
    } else if exists|i: int| 0 <= i < s.len() && !valid_byte(#[trigger] s[i]) {
        Some(Error::InvalidChar)
    } else {
        None
    }
}

/// A candidate passes validation exactly when it is a well-formed
/// identifier string.
pub proof fn lemma_name_error_none(s: Seq<u8>)
    ensures
        name_error(s) is None <==> valid_name(s),
{
}

/// Small limited alloc-free named identifier.
///
/// A name holds the base-37 value of its characters: a positive integer
/// below `pow37(24)`. Names are `Copy`, compare as plain integers, and are
/// valid by construction: the only constructors are [`Name::encode`],
/// [`Name::encode_char`] and [`Name::literal`], and decoding is total.
///
/// The all-zero value is unrepresentable, so an `Option<Name>` can reserve
/// zero as its "absent" sentinel.
#[derive(Clone, Copy, Debug, PartialEq, Eq, Structural, PartialOrd, Ord, Hash)]
pub struct Name {
    num: u128,
}

impl View for Name {
    type V = nat;

    /// The packed base-37 value.
    closed spec fn view(&self) -> nat {
        self.num as nat
    }
}

impl Name {
    /// The maximum possible length of a name.
    pub const MAXLEN: usize = 24;

    /// Every name's value is positive and below `pow37(24)`: the packed
    /// integer is never zero, and never out of range.
    #[verifier::type_invariant]
    pub(crate) closed spec fn inv(self) -> bool {
        1 <= self.num && (self.num as nat) < pow37(24)
    }

    /// Encodes the name from a slice.
    ///
    /// Validation order, first failure wins: empty, too long, leading
    /// underscore, invalid byte. On success the name holds the base-37
    /// value of the bytes.
    pub fn encode(s: &[u8]) -> (r: Result<Self, Error>)
        ensures
            (match name_error(s@) {
                Some(e) => r == Err::<Name, Error>(e),
                None => r matches Ok(n) && n@ == value_of(s@),
            }),
    {
        let ghost gs = s@;
        if s.len() == 0 {
            return Err(Error::Empty);
        }
        if s.len() > 24 {
            return Err(Error::TooLong);
        }
        if s[0] == 95 {
            return Err(Error::LeadingUnderscore);
        }
        let n = s.len();
        let mut sum: u128 = 0;
        let mut i: usize = 0;
        proof {
            assert(gs.take(0) =~= Seq::<u8>::empty());
        }
        while i < n
            invariant
                gs == s@,
                1 <= n <= 24,
                n == gs.len(),
                i <= n,
                gs[0] != 95,
                forall|j: int| 0 <= j < i ==> valid_byte(#[trigger] gs[j]),
                sum as nat == value_of(gs.take(i as int)),
                (sum as nat) < pow37(i as nat),
            decreases n - i,
        {
            let b = s[i];
            match digit_of_byte(b) {
                None => {
                    return Err(Error::InvalidChar);
                },
                Some(d) => {
                    proof {
                        lemma_pow37_mono((i + 1) as nat, 24);
                        lemma_pow37_24();
                        assert(sum * 37 + d < pow37((i + 1) as nat));
                    }
                    sum = sum * 37 + (d as u128);
                    proof {
                        assert(gs.take(i + 1).drop_last() =~= gs.take(i as int));
                        assert(gs.take(i + 1).last() == gs[i as int]);
                    }
                    i = i + 1;
                },
            }
        }
        proof {
            assert(gs.take(n as int) =~= gs);
            lemma_value_lower(gs);
            lemma_value_upper(gs);
            lemma_pow37_mono(gs.len(), 24);
        }
        Ok(Name { num: sum })
    }

    /// Encodes the name from a char.
    ///
    /// Agrees exactly with [`Name::encode`] on the one-byte string of the
    /// char; any char above one byte is an invalid char.
    pub fn encode_char(c: char) -> (r: Result<Self, Error>)
        ensures
            c as u32 > 255 ==> r == Err::<Name, Error>(Error::InvalidChar),
            c as u32 <= 255 ==> (match name_error(seq![(c as u32) as u8]) {
                Some(e) => r == Err::<Name, Error>(e),
                None => r matches Ok(n) && n@ == value_of(seq![(c as u32) as u8]),
            }),
    {
        let u = c as u32;
        if u > 255 {
            return Err(Error::InvalidChar);
        }
        let mut bytes: Vec<u8> = Vec::new();
        bytes.push(u as u8);
        proof {
            assert(bytes@ =~= seq![(c as u32) as u8]);
        }
        Self::encode(bytes.as_slice())
    }

    /// Constructs a name from a string shown valid at verification time:
    /// the constant-construction path, with no runtime validation and no
    /// failure path.
    pub fn literal(s: &[u8]) -> (r: Self)
        requires
            valid_name(s@),
        ensures
            r@ == value_of(s@),
    {
        match Self::encode(s) {
            Ok(name) => name,
            Err(_) => vstd::pervasive::unreached(),
        }
    }

    /// Decodes the name into a buffer.
    ///
    /// Total over names: repeatedly splits off the lowest base-37 digit,
    /// filling a fixed buffer from the back.
    pub fn decode(self) -> (r: DecodedName)
        ensures
            r@ == decode_seq(self@),
    {
        proof {
            use_type_invariant(self);
            lemma_decode_len(self@, 24);
            lemma_encode_decode(self@);
        }
        let mut num: u128 = self.num;
        let mut buf: Vec<u8> = vec![0u8; 24];
        let mut idx: usize = 24;
        while num > 0
            invariant
                buf@.len() == 24,
                idx <= 24,
                decode_seq(self@) =~= decode_seq(num as nat) + buf@.subrange(idx as int, 24),
                forall|i: int| idx <= i < 24 ==> valid_byte(#[trigger] buf@[i]),
                decode_seq(self@).len() <= 24,
            decreases num,
        {
            proof {
                lemma_encode_decode(num as nat);
                assert(decode_seq(num as nat).len() >= 1);
            }
            let ghost prev_buf = buf@;
            let ghost prev_num = num as nat;
            idx = idx - 1;
            let d = (num % 37) as u8;
            let b = byte_of_digit(d);
            buf[idx] = b;
            num = num / 37;
            proof {
                vstd::arithmetic::div_mod::lemma_fundamental_div_mod(prev_num as int, 37);
                assert(decode_seq(prev_num) == decode_seq(num as nat).push(b));
                assert(buf@.subrange(idx as int, 24) =~= seq![b] + prev_buf.subrange(
                    idx + 1, 24,
                ));
                assert(decode_seq(num as nat) + buf@.subrange(idx as int, 24) =~= decode_seq(
                    prev_num,
                ) + prev_buf.subrange(idx + 1, 24));
            }
        }
        proof {
            assert(decode_seq(0) =~= Seq::<u8>::empty());
            assert(decode_seq(self@) =~= buf@.subrange(idx as int, 24));
            assert(decode_seq(self@).len() >= 1);
        }
        DecodedName { buf, idx }
    }

    /// Returns the name length: the count of base-37 digits of the value,
    /// computed without materializing the decoded bytes.
    pub fn len(self) -> (r: usize)
        ensures
            r == decode_seq(self@).len(),
    {
        proof {
            use_type_invariant(self);
            lemma_decode_len(self@, 24);
            lemma_encode_decode(self@);
        }
        let mut num: u128 = self.num;
        let mut l: usize = 1;
        while num >= 37
            invariant
                num >= 1,
                1 <= l <= 24,
                decode_seq(self@).len() == l - 1 + decode_seq(num as nat).len(),
                decode_seq(self@).len() <= 24,
            decreases num,
        {
            let ghost prev_num = num as nat;
            num = num / 37;
            l = l + 1;
            proof {
                vstd::arithmetic::div_mod::lemma_fundamental_div_mod(prev_num as int, 37);
                assert(decode_seq(prev_num) == decode_seq(num as nat).push(
                    crate::alphabet::digit_byte(prev_num % 37),
                ));
                lemma_encode_decode(num as nat);
            }
        }
        proof {
            assert(num / 37 == 0);
            assert(decode_seq(num as nat) == decode_seq(0).push(
                crate::alphabet::digit_byte((num as nat) % 37),
            ));
            assert(decode_seq(num as nat).len() == 1);
        }
        l
    }

    /// Names are always non-empty.
    pub fn is_empty(self) -> (r: bool)
        ensures
            r == false,
    {
        false
    }
}

/// Return type from the [`decode`](Name::decode) method used to obtain a
/// slice or string: a fixed buffer filled from the back, with the start
/// offset of the decoded bytes.
#[derive(Debug)]
pub struct DecodedName {
    buf: Vec<u8>,
    idx: usize,
}

impl View for DecodedName {
    type V = Seq<u8>;

    /// The decoded bytes: the filled tail of the buffer.
    closed spec fn view(&self) -> Seq<u8> {
        self.buf@.subrange(self.idx as int, 24)
    }
}

impl DecodedName {
    /// The buffer is full-sized, the offset stays inside it, and every
    /// decoded byte is in the identifier alphabet.
    #[verifier::type_invariant]
    spec fn inv(self) -> bool {
        &&& self.buf@.len() == 24
        &&& self.idx < 24
        &&& forall|i: int| self.idx <= i < 24 ==> valid_byte(#[trigger] self.buf@[i])
    }

    /// Returns a slice containing the decoded string.
    pub fn as_slice(&self) -> (r: &[u8])
        ensures
            r@ == self@,
    {
        proof {
            use_type_invariant(self);
        }
        vstd::slice::slice_subrange(self.buf.as_slice(), self.idx, 24)
    }

    /// Returns the decoded string: always valid text, since every decoded
    /// byte is ASCII from the alphabet.
    pub fn as_str(&self) -> (r: &str)
        ensures
            r@.len() == self@.len(),
            forall|i: int| 0 <= i < self@.len() ==> r@[i] == #[trigger] (self@[i] as char),
    {
        proof {
            use_type_invariant(self);
        }
        ascii_to_str(self.as_slice())
    }
}

/// Relies on `core::str::from_utf8`: ASCII bytes are valid UTF-8 and decode
/// to the identical sequence of characters, so the call never fails on them.
#[verifier::external_body]
fn ascii_to_str(bytes: &[u8]) -> (r: &str)
    requires
        forall|i: int| 0 <= i < bytes@.len() ==> bytes@[i] < 128,
    ensures
        r@.len() == bytes@.len(),
        forall|i: int| 0 <= i < bytes@.len() ==> r@[i] == #[trigger] (bytes@[i] as char),
{
    core::str::from_utf8(bytes).unwrap()
}

impl Error {
    /// The fixed human-readable message of this error.
    pub fn as_str(&self) -> (r: &'static str)
        ensures
            (match self {
                Error::Empty => r@ == "the name is empty"@,
                Error::TooLong => r@ == "the name is too long"@,
                Error::LeadingUnderscore => r@ == "the name starts with `_`"@,
                Error::InvalidChar => r@ == "the name contains an invalid char"@,
            }),
    {
        match self {
            Error::Empty => "the name is empty",
            Error::TooLong => "the name is too long",
            Error::LeadingUnderscore => "the name starts with `_`",
            Error::InvalidChar => "the name contains an invalid char",
        }
    }
}

/// Spells the type invariant out over the public view: every name's packed
/// value is positive and below `pow37(24)`.
pub(crate) proof fn lemma_inv_range(n: Name)
    requires
        n.inv(),
    ensures
        1 <= n@ < pow37(24),
{
}

} // verus!
