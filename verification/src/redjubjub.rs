//! Keys and signatures of the re-randomizable signature scheme, as the wire
//! format sees them.

use crate::curve::Point;
use crate::encoding::{
    lemma_decode_at, lemma_decode_cut, lemma_decode_head, DecodeError, WireFormat,
};
use vstd::prelude::*;

verus! {

/// A verification key: a curve point.
#[derive(Clone, Copy, Debug, PartialEq, Eq)]
pub struct PublicKey(pub Point);

/// A signature: two blocks of 32 bytes that are carried as they are.
#[derive(Clone, Copy, Debug, PartialEq, Eq)]
pub struct Signature {
    pub rbar: [u8; 32],
    pub sbar: [u8; 32],
}

impl WireFormat for PublicKey {
    open spec fn width() -> nat {
        Point::width()
    }

    open spec fn wf(&self) -> bool {
        self.0.wf()
    }

    open spec fn encoding(&self) -> Seq<u8> {
        self.0.encoding()
    }

    open spec fn decoding(input: Seq<u8>) -> Result<Self, DecodeError> {
        match Point::decoding(input) {
            Ok(point) => Ok(PublicKey(point)),
            Err(e) => Err(e),
        }
    }

    open spec fn consumed(input: Seq<u8>) -> nat {
        Point::consumed(input)
    }

    proof fn lemma_fixed_length(&self) {
    }

    proof fn lemma_round_trip(&self, rest: Seq<u8>) {
        self.0.lemma_round_trip(rest);
    }

    proof fn lemma_decoding_exact(input: Seq<u8>) {
        Point::lemma_decoding_exact(input);
    }

    proof fn lemma_truncated(&self, n: nat) {
        self.0.lemma_truncated(n);
    }

    fn serialize(&self, writer: &mut Vec<u8>) {
        self.0.serialize(writer);
    }

    fn deserialize(buf: &mut &[u8]) -> (r: Result<Self, DecodeError>) {
        match Point::deserialize(buf) {
            Ok(point) => Ok(PublicKey(point)),
            Err(e) => Err(e),
        }
    }
}

impl WireFormat for Signature {
    open spec fn width() -> nat {
        64
    }

    open spec fn wf(&self) -> bool {
        true
    }

    open spec fn encoding(&self) -> Seq<u8> {
        self.rbar@ + self.sbar@
    }

    open spec fn decoding(input: Seq<u8>) -> Result<Self, DecodeError> {
        let rbar = <[u8; 32]>::decoding(input);
        let sbar = <[u8; 32]>::decoding(input.skip(32));
        if rbar is Err {
            Err(rbar->Err_0)
        } else if sbar is Err {
            Err(sbar->Err_0)
        } else {
            Ok(Signature { rbar: rbar->Ok_0, sbar: sbar->Ok_0 })
        }
    }

    open spec fn consumed(input: Seq<u8>) -> nat {
        if <[u8; 32]>::decoding(input) is Err {
            <[u8; 32]>::consumed(input)
        } else {
            32 + <[u8; 32]>::consumed(input.skip(32))
        }
    }

    proof fn lemma_fixed_length(&self) {
    }

    proof fn lemma_round_trip(&self, rest: Seq<u8>) {
        let input = self.encoding() + rest;
        let after_rbar = self.sbar@ + rest;
        assert(input =~= self.rbar@ + after_rbar);
        lemma_decode_head(self.rbar, input, after_rbar);
        lemma_decode_head(self.sbar, after_rbar, rest);
    }

    proof fn lemma_decoding_exact(input: Seq<u8>) {
        <[u8; 32]>::lemma_decoding_exact(input);
        <[u8; 32]>::lemma_decoding_exact(input.skip(32));
        if let Ok(value) = Self::decoding(input) {
            assert(value.encoding() =~= input.take(64));
        }
    }

    proof fn lemma_truncated(&self, n: nat) {
        if n < 64 {
            assert(self.encoding() =~= self.rbar@ + self.sbar@);
            lemma_decode_cut(self.rbar, self.sbar@, n);
            if n >= 32 {
                assert(self.sbar@ + Seq::<u8>::empty() =~= self.sbar@);
                lemma_decode_cut(self.sbar, Seq::<u8>::empty(), (n - 32) as nat);
            }
        }
    }

    fn serialize(&self, writer: &mut Vec<u8>) {
        let ghost before = writer@;
        self.rbar.serialize(writer);
        self.sbar.serialize(writer);
        assert(writer@ =~= before + self.encoding());
    }

    fn deserialize(buf: &mut &[u8]) -> (r: Result<Self, DecodeError>) {
        let ghost input = buf@;
        proof {
            assert(input.skip(0) =~= input);
            lemma_decode_at::<[u8; 32]>(input, 0);
            if input.len() >= 32 {
                lemma_decode_at::<[u8; 32]>(input, 32);
            }
        }
        let rbar = <[u8; 32]>::deserialize(buf)?;
        let sbar = <[u8; 32]>::deserialize(buf)?;
        Ok(Signature { rbar, sbar })
    }
}

} // verus!
