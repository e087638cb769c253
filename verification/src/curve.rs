//! Curve points and scalars, held in their canonical compressed form.
//!
//! The arithmetic belongs to the `jubjub` and `bls12_381` crates. This module
//! keeps of a point or a scalar what the wire format reads: its 32 bytes,
//! together with the fact that they are a canonical encoding.

use crate::encoding::{array_of, lemma_array_of, lemma_array_of_seq, read_array, take_block, write_array};
use crate::encoding::{DecodeError, WireFormat};
use group::GroupEncoding;
use vstd::prelude::*;

verus! {

/// Whether `bytes` is an encoding that `jubjub::ExtendedPoint::from_bytes`
/// accepts: 32 bytes that hold the canonical little-endian form of a
/// v-coordinate on the curve and, in the top bit, the sign of the matching
/// u-coordinate.
pub uninterp spec fn is_point_encoding(bytes: Seq<u8>) -> bool;

/// The number that `bytes` holds in little-endian order.
pub open spec fn le_value(bytes: Seq<u8>) -> nat
    decreases bytes.len(),
{
    if bytes.len() == 0 {
        0
    } else {
        bytes[0] as nat + 256 * le_value(bytes.skip(1))
    }
}

/// The order of the scalar field of BLS12-381.
pub open spec fn scalar_modulus() -> nat {
    0x73eda753299d7d483339d80809a1d80553bda402fffe5bfeffffffff00000001nat
}

/// Whether `bytes` is the canonical encoding of a scalar: 32 bytes that hold,
/// in little-endian order, a number below the field's order.
pub open spec fn is_scalar_encoding(bytes: Seq<u8>) -> bool {
    bytes.len() == 32 && le_value(bytes) < scalar_modulus()
}

/// Calls `from_bytes` of `group::GroupEncoding` for `jubjub::ExtendedPoint`
/// and tells whether it gave a point. The contract only names that outcome:
/// it is a function of the 32 bytes alone.
#[verifier::external_body]
fn point_from_bytes_accepts(bytes: &[u8; 32]) -> (ok: bool)
    ensures
        ok == is_point_encoding(bytes@),
{
    bool::from(jubjub::ExtendedPoint::from_bytes(bytes).is_some())
}

/// Calls `bls12_381::Scalar::from_bytes` and tells whether it gave a scalar.
/// Its source reads the bytes as four little-endian limbs and accepts them
/// exactly when subtracting the modulus borrows, that is, when the number is
/// below the modulus.
#[verifier::external_body]
fn scalar_from_bytes_accepts(bytes: &[u8; 32]) -> (ok: bool)
    ensures
        ok == is_scalar_encoding(bytes@),
{
    bool::from(bls12_381::Scalar::from_bytes(bytes).is_some())
}

/// A Jubjub point in compressed form.
#[derive(Clone, Copy, Debug, PartialEq, Eq)]
pub struct Point(pub [u8; 32]);

/// A scalar of BLS12-381 in little-endian form.
#[derive(Clone, Copy, Debug, PartialEq, Eq)]
pub struct Scalar(pub [u8; 32]);

impl Point {
    /// What `from_bytes` makes of `bytes`.
    pub open spec fn spec_from_bytes(bytes: [u8; 32]) -> Option<Point> {
        if is_point_encoding(bytes@) {
            Some(Point(bytes))
        } else {
            None
        }
    }

    /// The point that `bytes` encodes, if they are a canonical encoding.
    pub fn from_bytes(bytes: &[u8; 32]) -> (r: Option<Point>)
        ensures
            r == Self::spec_from_bytes(*bytes),
    {
        if point_from_bytes_accepts(bytes) {
            Some(Point(*bytes))
        } else {
            None
        }
    }

    /// The compressed form of the point.
    pub fn to_bytes(&self) -> (r: [u8; 32])
        ensures
            r == self.0,
    {
        self.0
    }
}

impl Scalar {
    /// What `from_bytes` makes of `bytes`.
    pub open spec fn spec_from_bytes(bytes: [u8; 32]) -> Option<Scalar> {
        if is_scalar_encoding(bytes@) {
            Some(Scalar(bytes))
        } else {
            None
        }
    }

    /// The scalar that `bytes` encodes, if they are a canonical encoding.
    pub fn from_bytes(bytes: &[u8; 32]) -> (r: Option<Scalar>)
        ensures
            r == Self::spec_from_bytes(*bytes),
    {
        if scalar_from_bytes_accepts(bytes) {
            Some(Scalar(*bytes))
        } else {
            None
        }
    }

    /// The little-endian form of the scalar.
    pub fn to_bytes(&self) -> (r: [u8; 32])
        ensures
            r == self.0,
    {
        self.0
    }
}

impl WireFormat for Point {
    open spec fn width() -> nat {
        32
    }

    open spec fn wf(&self) -> bool {
        is_point_encoding(self.0@)
    }

    open spec fn encoding(&self) -> Seq<u8> {
        self.0@
    }

    open spec fn decoding(input: Seq<u8>) -> Result<Self, DecodeError> {
        match take_block(input, 32) {
            None => Err(DecodeError::TruncatedInput),
            Some(block) => if is_point_encoding(block) {
                Ok(Point(array_of::<32>(block)))
            } else {
                Err(DecodeError::MalformedEncoding)
            },
        }
    }

    open spec fn consumed(input: Seq<u8>) -> nat {
        if input.len() >= 32 {
            32
        } else {
            0
        }
    }

    proof fn lemma_fixed_length(&self) {
    }

    proof fn lemma_round_trip(&self, rest: Seq<u8>) {
        assert((self.0@ + rest).take(32) =~= self.0@);
        lemma_array_of::<32>(self.0);
    }

    proof fn lemma_decoding_exact(input: Seq<u8>) {
        if input.len() >= 32 {
            lemma_array_of_seq::<32>(input.take(32));
        }
    }

    proof fn lemma_truncated(&self, n: nat) {
    }

    fn serialize(&self, writer: &mut Vec<u8>) {
        write_array(&self.0, writer);
    }

    fn deserialize(buf: &mut &[u8]) -> (r: Result<Self, DecodeError>) {
        match read_array::<32>(buf) {
            None => Err(DecodeError::TruncatedInput),
            Some(bytes) => {
                proof {
                    lemma_array_of::<32>(bytes);
                }
                match Point::from_bytes(&bytes) {
                    Some(point) => Ok(point),
                    None => Err(DecodeError::MalformedEncoding),
                }
            },
        }
    }
}

impl WireFormat for Scalar {
    open spec fn width() -> nat {
        32
    }

    open spec fn wf(&self) -> bool {
        is_scalar_encoding(self.0@)
    }

    open spec fn encoding(&self) -> Seq<u8> {
        self.0@
    }

    open spec fn decoding(input: Seq<u8>) -> Result<Self, DecodeError> {
        match take_block(input, 32) {
            None => Err(DecodeError::TruncatedInput),
            Some(block) => if is_scalar_encoding(block) {
                Ok(Scalar(array_of::<32>(block)))
            } else {
                Err(DecodeError::MalformedEncoding)
            },
        }
    }

    open spec fn consumed(input: Seq<u8>) -> nat {
        if input.len() >= 32 {
            32
        } else {
            0
        }
    }

    proof fn lemma_fixed_length(&self) {
    }

    proof fn lemma_round_trip(&self, rest: Seq<u8>) {
        assert((self.0@ + rest).take(32) =~= self.0@);
        lemma_array_of::<32>(self.0);
    }

    proof fn lemma_decoding_exact(input: Seq<u8>) {
        if input.len() >= 32 {
            lemma_array_of_seq::<32>(input.take(32));
        }
    }

    proof fn lemma_truncated(&self, n: nat) {
    }

    fn serialize(&self, writer: &mut Vec<u8>) {
        write_array(&self.0, writer);
    }

    fn deserialize(buf: &mut &[u8]) -> (r: Result<Self, DecodeError>) {
        match read_array::<32>(buf) {
            None => Err(DecodeError::TruncatedInput),
            Some(bytes) => {
                proof {
                    lemma_array_of::<32>(bytes);
                }
                match Scalar::from_bytes(&bytes) {
                    Some(scalar) => Ok(scalar),
                    None => Err(DecodeError::MalformedEncoding),
                }
            },
        }
    }
}

} // verus!
