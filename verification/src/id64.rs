//! Correlation ids: opaque 64-bit values with a URL-safe text form.
//!
//! A peer uses the id to deduplicate retried sends of the same logical
//! command. The text form is unpadded URL-safe base64 of the id's eight
//! little-endian bytes: always eleven alphabet bytes whose final character
//! carries four significant bits. Decoding accepts exactly the canonical
//! encodings: a byte outside the alphabet, an impossible length shape or
//! nonzero trailing bits is `InvalidEncoding`; a well-formed encoding of
//! other than eight bytes is `InvalidLength`.

use vstd::prelude::*;

use crate::b64::b64_byte_of_val;
use crate::b64::b64_val_of_byte;
use crate::b64::dec_byte;
use crate::b64::enc_val;
use crate::b64::is_b64_byte;
use crate::b64::lemma_b64_tables;

verus! {

/// An opaque 64-bit correlation id.
#[derive(Clone, Copy, PartialEq, Eq, Structural, Debug, Hash, PartialOrd, Ord)]
pub struct Id64(pub u64);

/// Why a text form failed to decode.
#[derive(Clone, Copy, PartialEq, Eq, Structural, Debug)]
pub enum TryFromStrError {
    /// The input is not a canonical URL-safe base64 string.
    InvalidEncoding,
    /// The input is well-formed base64 but does not decode to eight bytes.
    InvalidLength,
}

/// Byte `i` of the little-endian representation of `x`.
pub open spec fn le_byte_at(x: u64, i: int) -> u8 {
    if i == 0 {
        x as u8
    } else if i == 1 {
        (x >> 8) as u8
    } else if i == 2 {
        (x >> 16) as u8
    } else if i == 3 {
        (x >> 24) as u8
    } else if i == 4 {
        (x >> 32) as u8
    } else if i == 5 {
        (x >> 40) as u8
    } else if i == 6 {
        (x >> 48) as u8
    } else {
        (x >> 56) as u8
    }
}

/// The eight little-endian bytes of `x`.
pub open spec fn u64_le_bytes(x: u64) -> Seq<u8> {
    Seq::new(8, |i: int| le_byte_at(x, i))
}

/// The value whose little-endian bytes are `b`; meaningful when
/// `b.len() == 8`.
pub open spec fn u64_of_le_bytes(b: Seq<u8>) -> u64 {
    ((b[0] as u64) | ((b[1] as u64) << 8) | ((b[2] as u64) << 16) | ((b[3] as u64) << 24) | ((
    b[4] as u64) << 32) | ((b[5] as u64) << 40) | ((b[6] as u64) << 48) | ((b[7] as u64) << 56))
}

/// Sextet `i` of the base64 bit stream of an 8-byte sequence `b`.
pub open spec fn sextet8_at(b: Seq<u8>, i: int) -> u8 {
    if i == 0 {
        (b[0] >> 2) as u8
    } else if i == 1 {
        (((b[0] & 3) << 4) | (b[1] >> 4)) as u8
    } else if i == 2 {
        (((b[1] & 15) << 2) | (b[2] >> 6)) as u8
    } else if i == 3 {
        (b[2] & 63) as u8
    } else if i == 4 {
        (b[3] >> 2) as u8
    } else if i == 5 {
        (((b[3] & 3) << 4) | (b[4] >> 4)) as u8
    } else if i == 6 {
        (((b[4] & 15) << 2) | (b[5] >> 6)) as u8
    } else if i == 7 {
        (b[5] & 63) as u8
    } else if i == 8 {
        (b[6] >> 2) as u8
    } else if i == 9 {
        (((b[6] & 3) << 4) | (b[7] >> 4)) as u8
    } else {
        ((b[7] & 15) << 2) as u8
    }
}

/// The eleven sextets of an 8-byte sequence.
pub open spec fn sextets8(b: Seq<u8>) -> Seq<u8> {
    Seq::new(11, |i: int| sextet8_at(b, i))
}

/// The canonical text encoding of an 8-byte sequence: eleven alphabet
/// bytes.
pub open spec fn encode8(b: Seq<u8>) -> Seq<u8> {
    Seq::new(11, |i: int| b64_byte_of_val(sextet8_at(b, i)))
}

/// Every byte of `s` belongs to the alphabet.
pub open spec fn all_b64_bytes(s: Seq<u8>) -> bool {
    forall|i: int| 0 <= i < s.len() ==> is_b64_byte(s[i])
}

/// The 6-bit values of the bytes of `s`; meaningful when
/// `all_b64_bytes(s)` holds.
pub open spec fn vals_of(s: Seq<u8>) -> Seq<u8> {
    Seq::new(s.len(), |i: int| b64_val_of_byte(s[i]))
}

/// In a canonical unpadded encoding the bits of the final sextet that
/// encode no byte are zero.
pub open spec fn trailing_bits_zero(s: Seq<u8>) -> bool {
    if s.len() % 4 == 2 {
        b64_val_of_byte(s[s.len() - 1]) & 15 == 0
    } else if s.len() % 4 == 3 {
        b64_val_of_byte(s[s.len() - 1]) & 3 == 0
    } else {
        true
    }
}

/// `s` is the canonical unpadded URL-safe base64 encoding of some byte
/// sequence.
pub open spec fn is_valid_b64(s: Seq<u8>) -> bool {
    all_b64_bytes(s) && s.len() % 4 != 1 && trailing_bits_zero(s)
}

/// Byte `i` recovered from the eleven sextet values `v`.
pub open spec fn decoded_byte_at(v: Seq<u8>, i: int) -> u8 {
    if i == 0 {
        ((v[0] << 2) | (v[1] >> 4)) as u8
    } else if i == 1 {
        (((v[1] & 15) << 4) | (v[2] >> 2)) as u8
    } else if i == 2 {
        (((v[2] & 3) << 6) | v[3]) as u8
    } else if i == 3 {
        ((v[4] << 2) | (v[5] >> 4)) as u8
    } else if i == 4 {
        (((v[5] & 15) << 4) | (v[6] >> 2)) as u8
    } else if i == 5 {
        (((v[6] & 3) << 6) | v[7]) as u8
    } else if i == 6 {
        ((v[8] << 2) | (v[9] >> 4)) as u8
    } else {
        (((v[9] & 15) << 4) | (v[10] >> 2)) as u8
    }
}

/// The eight bytes encoded by an eleven-byte canonical encoding `s`.
pub open spec fn decode11(s: Seq<u8>) -> Seq<u8> {
    Seq::new(8, |i: int| decoded_byte_at(vals_of(s), i))
}

/// What decoding a text form returns, for every input.
pub open spec fn decode_id_spec(s: Seq<u8>) -> Result<Id64, TryFromStrError> {
    if !is_valid_b64(s) {
        Err(TryFromStrError::InvalidEncoding)
    } else if s.len() != 11 {
        Err(TryFromStrError::InvalidLength)
    } else {
        Ok(Id64(u64_of_le_bytes(decode11(s))))
    }
}

/// Recombining the little-endian bytes of `x` yields `x` again.
proof fn lemma_u64_le_reassemble(x: u64)
    by (bit_vector)
    ensures
        ((x as u8) as u64) | ((((x >> 8) as u8) as u64) << 8) | ((((x >> 16) as u8) as u64) << 16)
            | ((((x >> 24) as u8) as u64) << 24) | ((((x >> 32) as u8) as u64) << 32) | ((((x >> 40)
            as u8) as u64) << 40) | ((((x >> 48) as u8) as u64) << 48) | ((((x >> 56) as u8) as u64)
            << 56) == x,
{
}

/// Each sextet is a 6-bit value, and the tail sextet has zero trailing
/// bits.
proof fn lemma_sextet_bounds(x: u8, y: u8)
    by (bit_vector)
    ensures
        x >> 2 < 64,
        ((x & 3) << 4) | (y >> 4) < 64,
        ((x & 15) << 2) | (y >> 6) < 64,
        x & 63 < 64,
        (x & 15) << 2 < 64,
        ((x & 15) << 2) & 3 == 0,
{
}

/// The three bytes of a full group are recovered from its four sextets.
proof fn lemma_group3_roundtrip(b0: u8, b1: u8, b2: u8)
    by (bit_vector)
    ensures
        ((b0 >> 2) << 2) | ((((b0 & 3) << 4) | (b1 >> 4)) >> 4) == b0,
        (((((b0 & 3) << 4) | (b1 >> 4)) & 15) << 4) | ((((b1 & 15) << 2) | (b2 >> 6)) >> 2) == b1,
        (((((b1 & 15) << 2) | (b2 >> 6)) & 3) << 6) | (b2 & 63) == b2,
{
}

/// The two bytes of the final short group are recovered from its three
/// sextets.
proof fn lemma_group2_roundtrip(b6: u8, b7: u8)
    by (bit_vector)
    ensures
        ((b6 >> 2) << 2) | ((((b6 & 3) << 4) | (b7 >> 4)) >> 4) == b6,
        (((((b6 & 3) << 4) | (b7 >> 4)) & 15) << 4) | (((b7 & 15) << 2) >> 2) == b7,
{
}

/// Round-trip law: the canonical encoding of any id decodes back to that
/// id, for every 64-bit value.
pub proof fn lemma_encode_decode_roundtrip(id: Id64)
    ensures
        decode_id_spec(encode8(u64_le_bytes(id.0))) == Ok::<Id64, TryFromStrError>(id),
{
    let b = u64_le_bytes(id.0);
    let e = encode8(b);
    assert forall|i: int| 0 <= i < 11 implies is_b64_byte(e[i]) && b64_val_of_byte(e[i])
        == sextet8_at(b, i) by {
        lemma_sextet_bounds(b[0], b[1]);
        lemma_sextet_bounds(b[1], b[2]);
        lemma_sextet_bounds(b[2], b[3]);
        lemma_sextet_bounds(b[3], b[4]);
        lemma_sextet_bounds(b[4], b[5]);
        lemma_sextet_bounds(b[5], b[6]);
        lemma_sextet_bounds(b[6], b[7]);
        lemma_sextet_bounds(b[7], b[0]);
        lemma_b64_tables(sextet8_at(b, i));
    }
    assert(all_b64_bytes(e));
    assert(e.len() % 4 == 3);
    lemma_sextet_bounds(b[7], b[0]);
    assert(b64_val_of_byte(e[10]) == sextet8_at(b, 10));
    assert(trailing_bits_zero(e));
    assert(is_valid_b64(e));
    let v = vals_of(e);
    assert forall|i: int| 0 <= i < 11 implies v[i] == sextet8_at(b, i) by {}
    let d = decode11(e);
    assert forall|i: int| 0 <= i < 8 implies d[i] == b[i] by {
        lemma_group3_roundtrip(b[0], b[1], b[2]);
        lemma_group3_roundtrip(b[3], b[4], b[5]);
        lemma_group2_roundtrip(b[6], b[7]);
    }
    assert(d =~= b);
    lemma_u64_le_reassemble(id.0);
    assert(u64_of_le_bytes(b) == id.0);
}

/// A text form holding any byte outside the alphabet decodes to
/// `InvalidEncoding`.
pub proof fn lemma_decode_rejects_foreign_bytes(s: Seq<u8>, i: int)
    requires
        0 <= i < s.len(),
        !is_b64_byte(s[i]),
    ensures
        decode_id_spec(s) == Err::<Id64, TryFromStrError>(TryFromStrError::InvalidEncoding),
{
    assert(!all_b64_bytes(s));
}

/// A well-formed encoding of other than eight bytes decodes to
/// `InvalidLength`.
pub proof fn lemma_decode_rejects_wrong_length(s: Seq<u8>)
    requires
        is_valid_b64(s),
        s.len() != 11,
    ensures
        decode_id_spec(s) == Err::<Id64, TryFromStrError>(TryFromStrError::InvalidLength),
{
}

impl Id64 {
    /// The id as a plain 64-bit value.
    pub fn as_u64(self) -> (r: u64)
        ensures
            r == self.0,
    {
        self.0
    }

    /// The id holding a given 64-bit value.
    pub fn from_u64(v: u64) -> (r: Self)
        ensures
            r.0 == v,
    {
        Id64(v)
    }

    /// The eight little-endian bytes of the id.
    pub fn as_bytes(&self) -> (r: [u8; 8])
        ensures
            r@ == u64_le_bytes(self.0),
    {
        let x = self.0;
        let r: [u8; 8] = [
            x as u8,
            (x >> 8) as u8,
            (x >> 16) as u8,
            (x >> 24) as u8,
            (x >> 32) as u8,
            (x >> 40) as u8,
            (x >> 48) as u8,
            (x >> 56) as u8,
        ];
        proof {
            assert(r@ =~= u64_le_bytes(self.0));
        }
        r
    }

    /// The id whose little-endian bytes are given.
    pub fn from_bytes(b: [u8; 8]) -> (r: Self)
        ensures
            r.0 == u64_of_le_bytes(b@),
    {
        let x = (b[0] as u64) | ((b[1] as u64) << 8) | ((b[2] as u64) << 16) | ((b[3] as u64) << 24)
            | ((b[4] as u64) << 32) | ((b[5] as u64) << 40) | ((b[6] as u64) << 48) | ((b[7] as u64)
            << 56);
        Id64(x)
    }

    /// Relies on `rand::random` for a uniformly distributed 64-bit value;
    /// nothing is assumed of the result.
    #[verifier::external_body]
    fn random_u64() -> u64 {
        rand::random::<u64>()
    }

    /// A freshly minted id, indistinguishable from random.
    pub fn random() -> Id64 {
        Id64::from_u64(Id64::random_u64())
    }

    /// Relies on `rand_core::Rng::next_u64` for a uniformly distributed
    /// value drawn from the given generator; nothing is assumed of the
    /// result.
    #[verifier::external_body]
    pub fn from_rng<RNG: rand::Rng>(rng: &mut RNG) -> Id64 {
        Id64(rng.next_u64())
    }

    /// The canonical text form of the id: eleven URL-safe base64 bytes.
    pub fn encode(&self) -> (r: Vec<u8>)
        ensures
            r@ == encode8(u64_le_bytes(self.0)),
    {
        let b = self.as_bytes();
        proof {
            lemma_sextet_bounds(b[0], b[1]);
            lemma_sextet_bounds(b[1], b[2]);
            lemma_sextet_bounds(b[2], b[3]);
            lemma_sextet_bounds(b[3], b[4]);
            lemma_sextet_bounds(b[4], b[5]);
            lemma_sextet_bounds(b[5], b[6]);
            lemma_sextet_bounds(b[6], b[7]);
            lemma_sextet_bounds(b[7], b[0]);
        }
        let mut r: Vec<u8> = Vec::new();
        r.push(enc_val(b[0] >> 2));
        r.push(enc_val(((b[0] & 3) << 4) | (b[1] >> 4)));
        r.push(enc_val(((b[1] & 15) << 2) | (b[2] >> 6)));
        r.push(enc_val(b[2] & 63));
        r.push(enc_val(b[3] >> 2));
        r.push(enc_val(((b[3] & 3) << 4) | (b[4] >> 4)));
        r.push(enc_val(((b[4] & 15) << 2) | (b[5] >> 6)));
        r.push(enc_val(b[5] & 63));
        r.push(enc_val(b[6] >> 2));
        r.push(enc_val(((b[6] & 3) << 4) | (b[7] >> 4)));
        r.push(enc_val((b[7] & 15) << 2));
        proof {
            assert(r@ =~= encode8(u64_le_bytes(self.0)));
        }
        r
    }

    /// Decode a text form back to an id; the contract classifies every
    /// input.
    pub fn decode(s: &[u8]) -> (r: Result<Id64, TryFromStrError>)
        ensures
            r == decode_id_spec(s@),
    {
        let n = s.len();
        let mut vals: Vec<u8> = Vec::new();
        let mut i: usize = 0;
        while i < n
            invariant
                0 <= i <= n,
                n == s@.len(),
                vals@.len() == i,
                forall|j: int| 0 <= j < i ==> is_b64_byte(s@[j]),
                forall|j: int| 0 <= j < i ==> vals@[j] == b64_val_of_byte(s@[j]) && vals@[j] < 64,
            decreases n - i,
        {
            match dec_byte(s[i]) {
                Some(v) => {
                    vals.push(v);
                },
                None => {
                    proof {
                        lemma_decode_rejects_foreign_bytes(s@, i as int);
                    }
                    return Err(TryFromStrError::InvalidEncoding);
                },
            }
            i += 1;
        }
        assert(all_b64_bytes(s@));
        if n % 4 == 1 {
            return Err(TryFromStrError::InvalidEncoding);
        }
        if n % 4 == 2 && vals[n - 1] & 15 != 0 {
            return Err(TryFromStrError::InvalidEncoding);
        }
        if n % 4 == 3 && vals[n - 1] & 3 != 0 {
            return Err(TryFromStrError::InvalidEncoding);
        }
        assert(trailing_bits_zero(s@));
        assert(is_valid_b64(s@));
        if n != 11 {
            return Err(TryFromStrError::InvalidLength);
        }
        proof {
            assert forall|j: int| 0 <= j < 11 implies vals_of(s@)[j] == vals@[j] by {}
        }
        let b0 = (vals[0] << 2) | (vals[1] >> 4);
        let b1 = ((vals[1] & 15) << 4) | (vals[2] >> 2);
        let b2 = ((vals[2] & 3) << 6) | vals[3];
        let b3 = (vals[4] << 2) | (vals[5] >> 4);
        let b4 = ((vals[5] & 15) << 4) | (vals[6] >> 2);
        let b5 = ((vals[6] & 3) << 6) | vals[7];
        let b6 = (vals[8] << 2) | (vals[9] >> 4);
        let b7 = ((vals[9] & 15) << 4) | (vals[10] >> 2);
        proof {
            assert forall|j: int| 0 <= j < 8 implies decode11(s@)[j] == decoded_byte_at(
                vals_of(s@),
                j,
            ) by {}
        }
        let x = (b0 as u64) | ((b1 as u64) << 8) | ((b2 as u64) << 16) | ((b3 as u64) << 24) | ((
        b4 as u64) << 32) | ((b5 as u64) << 40) | ((b6 as u64) << 48) | ((b7 as u64) << 56);
        assert(x == u64_of_le_bytes(decode11(s@)));
        Ok(Id64(x))
    }
}

} // verus!
