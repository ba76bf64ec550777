//! The compact binary framing of an identifier: one length byte followed
//! by exactly that many identifier bytes, with re-validation on the way in.

use vstd::prelude::*;
use crate::name::{name_error, Error, Name};
use crate::radix::{
    decode_seq, lemma_decode_len, lemma_encode_decode, pow37, valid_name, value_of,
};

verus! {

/// The frame of an identifier value: its digit count, then its digits.
pub open spec fn frame_of(v: nat) -> Seq<u8> {
    seq![decode_seq(v).len() as u8] + decode_seq(v)
}

impl Name {
    /// Writes the name in the wire format: one length byte followed by
    /// exactly that many raw identifier bytes.
    pub fn encode_frame(self) -> (r: Vec<u8>)
        ensures
            r@ == frame_of(self@),
            r@.len() == 1 + decode_seq(self@).len(),
    {
        proof {
            use_type_invariant(self);
            crate::name::lemma_inv_range(self);
            lemma_decode_len(self@, 24);
        }
        let len = self.len();
        let decoded = self.decode();
        let mut out: Vec<u8> = Vec::new();
        out.push(len as u8);
        out.extend_from_slice(decoded.as_slice());
        proof {
            assert(out@ =~= frame_of(self@));
        }
        out
    }

    /// Reads a name from the wire format, re-validating the bytes.
    ///
    /// `None` means the input ends before the frame does: more bytes are
    /// needed. A declared length above 24 is rejected before any payload
    /// byte is consumed. Otherwise the payload goes through the encoder,
    /// and on success the bytes consumed (length byte included) are
    /// returned with the name.
    pub fn decode_frame(data: &[u8]) -> (r: Option<Result<(Name, usize), Error>>)
        ensures
            r is None <==> (data@.len() == 0 || (data@[0] <= 24 && data@.len() < 1
                + data@[0] as int)),
            data@.len() >= 1 && data@[0] > 24 ==> r == Some(
                Err::<(Name, usize), Error>(Error::TooLong),
            ),
            data@.len() >= 1 && data@[0] <= 24 && data@.len() >= 1 + data@[0] as int ==> (
            match name_error(data@.subrange(1, 1 + data@[0] as int)) {
                Some(e) => r == Some(Err::<(Name, usize), Error>(e)),
                None => r matches Some(res) && res matches Ok(p) && p.0@ == value_of(
                    data@.subrange(1, 1 + data@[0] as int),
                ) && p.1 == 1 + data@[0] as int,
            }),
    {
        if data.len() == 0 {
            return None;
        }
        let len = data[0] as usize;
        if len > 24 {
            return Some(Err(Error::TooLong));
        }
        if data.len() < 1 + len {
            return None;
        }
        let payload = vstd::slice::slice_subrange(data, 1, 1 + len);
        match Name::encode(payload) {
            Ok(name) => Some(Ok((name, 1 + len))),
            Err(e) => Some(Err(e)),
        }
    }
}

/// Wire round trip: the frame of a representable identifier value declares
/// a length of at most 24, carries exactly the value's digit string as its
/// payload, and that payload re-encodes to the same value.
pub proof fn lemma_frame_round_trip(v: nat)
    requires
        1 <= v < pow37(24),
    ensures
        frame_of(v).len() == 1 + decode_seq(v).len(),
        frame_of(v)[0] == decode_seq(v).len(),
        frame_of(v)[0] <= 24,
        frame_of(v).subrange(1, frame_of(v).len() as int) == decode_seq(v),
        name_error(decode_seq(v)) is None,
        value_of(decode_seq(v)) == v,
{
    lemma_encode_decode(v);
    lemma_decode_len(v, 24);
    assert(frame_of(v).subrange(1, frame_of(v).len() as int) =~= decode_seq(v));
    assert(valid_name(decode_seq(v)));
}

} // verus!
