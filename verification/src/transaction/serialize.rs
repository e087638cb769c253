//! The wire form of the shielded action records: the fields in their fixed
//! order, each at its fixed width, with nothing between them.

use crate::curve::{is_point_encoding, Point, Scalar};
use crate::encoding::{
    lemma_decode_at, lemma_decode_cut, lemma_decode_head, DecodeError, WireFormat,
};
use crate::redjubjub::PublicKey;
use crate::sapling::Nullifier;
use crate::transaction::components::sapling::{
    Authorization, ConvertDescription, OutputDescription, SpendDescription,
};
use vstd::prelude::*;

verus! {

impl<A: Authorization> WireFormat for SpendDescription<A> {
    open spec fn width() -> nat {
        Point::width() + Scalar::width() + 32 + PublicKey::width() + A::Proof::width()
            + A::AuthSig::width()
    }

    open spec fn wf(&self) -> bool {
        &&& self.cv.wf()
        &&& self.anchor.wf()
        &&& self.rk.wf()
        &&& self.zkproof.wf()
        &&& self.spend_auth_sig.wf()
    }

    open spec fn encoding(&self) -> Seq<u8> {
        self.cv.encoding() + self.anchor.encoding() + self.nullifier.0@ + self.rk.encoding()
            + self.zkproof.encoding() + self.spend_auth_sig.encoding()
    }

    open spec fn decoding(input: Seq<u8>) -> Result<Self, DecodeError> {
        let cv = Point::decoding(input);
        let anchor = Scalar::decoding(input.skip(32));
        let nullifier = <[u8; 32]>::decoding(input.skip(64));
        let rk = PublicKey::decoding(input.skip(96));
        let zkproof = A::Proof::decoding(input.skip(128));
        let spend_auth_sig = A::AuthSig::decoding(input.skip(128 + A::Proof::width() as int));
        if cv is Err {
            Err(cv->Err_0)
        } else if anchor is Err {
            Err(anchor->Err_0)
        } else if nullifier is Err {
            Err(nullifier->Err_0)
        } else if rk is Err {
            Err(rk->Err_0)
        } else if zkproof is Err {
            Err(zkproof->Err_0)
        } else if spend_auth_sig is Err {
            Err(spend_auth_sig->Err_0)
        } else {
            Ok(
                SpendDescription {
                    cv: cv->Ok_0,
                    anchor: anchor->Ok_0,
                    nullifier: Nullifier(nullifier->Ok_0),
                    rk: rk->Ok_0,
                    zkproof: zkproof->Ok_0,
                    spend_auth_sig: spend_auth_sig->Ok_0,
                },
            )
        }
    }

    open spec fn consumed(input: Seq<u8>) -> nat {
        if Point::decoding(input) is Err {
            Point::consumed(input)
        } else if Scalar::decoding(input.skip(32)) is Err {
            32 + Scalar::consumed(input.skip(32))
        } else if <[u8; 32]>::decoding(input.skip(64)) is Err {
            64 + <[u8; 32]>::consumed(input.skip(64))
        } else if PublicKey::decoding(input.skip(96)) is Err {
            96 + PublicKey::consumed(input.skip(96))
        } else if A::Proof::decoding(input.skip(128)) is Err {
            128 + A::Proof::consumed(input.skip(128))
        } else {
            128 + A::Proof::width() + A::AuthSig::consumed(input.skip(128 + A::Proof::width() as int))
        }
    }

    proof fn lemma_fixed_length(&self) {
        self.zkproof.lemma_fixed_length();
        self.spend_auth_sig.lemma_fixed_length();
    }

    proof fn lemma_round_trip(&self, rest: Seq<u8>) {
        let input = self.encoding() + rest;
        let t5 = self.spend_auth_sig.encoding() + rest;
        let t4 = self.zkproof.encoding() + t5;
        let t3 = self.rk.encoding() + t4;
        let t2 = self.nullifier.0@ + t3;
        let t1 = self.anchor.encoding() + t2;
        assert(input =~= self.cv.encoding() + t1);
        lemma_decode_head(self.cv, input, t1);
        lemma_decode_head(self.anchor, t1, t2);
        lemma_decode_head(self.nullifier.0, t2, t3);
        lemma_decode_head(self.rk, t3, t4);
        lemma_decode_head(self.zkproof, t4, t5);
        lemma_decode_head(self.spend_auth_sig, t5, rest);
        assert(input.skip(64) =~= t2);
        assert(input.skip(96) =~= t3);
        assert(input.skip(128) =~= t4);
        assert(input.skip(128 + A::Proof::width() as int) =~= t5);
    }

    proof fn lemma_decoding_exact(input: Seq<u8>) {
        Point::lemma_decoding_exact(input);
        Scalar::lemma_decoding_exact(input.skip(32));
        <[u8; 32]>::lemma_decoding_exact(input.skip(64));
        PublicKey::lemma_decoding_exact(input.skip(96));
        A::Proof::lemma_decoding_exact(input.skip(128));
        A::AuthSig::lemma_decoding_exact(input.skip((128 + A::Proof::width()) as int));
        if let Ok(value) = Self::decoding(input) {
            assert(value.encoding() =~= input.take(Self::width() as int));
        }
    }

    proof fn lemma_truncated(&self, n: nat) {
        if n < Self::width() {
            self.zkproof.lemma_fixed_length();
            self.spend_auth_sig.lemma_fixed_length();
            let w = A::Proof::width();
            let input = self.encoding().take(n as int);
            let t5 = self.spend_auth_sig.encoding();
            let t4 = self.zkproof.encoding() + t5;
            let t3 = self.rk.encoding() + t4;
            let t2 = self.nullifier.0@ + t3;
            let t1 = self.anchor.encoding() + t2;
            assert(self.encoding() =~= self.cv.encoding() + t1);
            lemma_decode_cut(self.cv, t1, n);
            if n >= 32 {
                lemma_decode_cut(self.anchor, t2, (n - 32) as nat);
            }
            if n >= 64 {
                assert(input.skip(64) =~= input.skip(32).skip(32));
                lemma_decode_cut(self.nullifier.0, t3, (n - 64) as nat);
            }
            if n >= 96 {
                assert(input.skip(96) =~= input.skip(64).skip(32));
                lemma_decode_cut(self.rk, t4, (n - 96) as nat);
            }
            if n >= 128 {
                assert(input.skip(128) =~= input.skip(96).skip(32));
                lemma_decode_cut(self.zkproof, t5, (n - 128) as nat);
            }
            if n >= 128 + w {
                assert(input.skip(128 + w as int) =~= input.skip(128).skip(w as int));
                assert(t5 + Seq::<u8>::empty() =~= t5);
                lemma_decode_cut(self.spend_auth_sig, Seq::<u8>::empty(), (n - 128 - w) as nat);
            }
        }
    }

    fn serialize(&self, writer: &mut Vec<u8>) {
        let ghost before = writer@;
        self.cv.serialize(writer);
        self.anchor.serialize(writer);
        self.nullifier.0.serialize(writer);
        self.rk.serialize(writer);
        self.zkproof.serialize(writer);
        self.spend_auth_sig.serialize(writer);
        assert(writer@ =~= before + self.encoding());
    }

    fn deserialize(buf: &mut &[u8]) -> (r: Result<Self, DecodeError>) {
        let ghost input = buf@;
        proof {
            assert(input.skip(0) =~= input);
            lemma_decode_at::<Point>(input, 0);
            if input.len() >= 32 {
                lemma_decode_at::<Scalar>(input, 32);
            }
            if input.len() >= 64 {
                lemma_decode_at::<[u8; 32]>(input, 64);
            }
            if input.len() >= 96 {
                lemma_decode_at::<PublicKey>(input, 96);
            }
            if input.len() >= 128 {
                lemma_decode_at::<A::Proof>(input, 128);
            }
            if input.len() >= 128 + A::Proof::width() {
                lemma_decode_at::<A::AuthSig>(input, 128 + A::Proof::width());
            }
        }
        let cv = Point::deserialize(buf)?;
        let anchor = Scalar::deserialize(buf)?;
        let nullifier = Nullifier(<[u8; 32]>::deserialize(buf)?);
        let rk = PublicKey::deserialize(buf)?;
        let zkproof = A::Proof::deserialize(buf)?;
        let spend_auth_sig = A::AuthSig::deserialize(buf)?;
        Ok(SpendDescription { cv, anchor, nullifier, rk, zkproof, spend_auth_sig })
    }
}

impl<Proof: WireFormat> WireFormat for OutputDescription<Proof> {
    open spec fn width() -> nat {
        Point::width() + Scalar::width() + Point::width() + 612 + 80 + Proof::width()
    }

    open spec fn wf(&self) -> bool {
        &&& self.cv.wf()
        &&& self.cmu.wf()
        &&& self.ephemeral_key.wf()
        &&& self.zkproof.wf()
    }

    open spec fn encoding(&self) -> Seq<u8> {
        self.cv.encoding() + self.cmu.encoding() + self.ephemeral_key.encoding()
            + self.enc_ciphertext@ + self.out_ciphertext@ + self.zkproof.encoding()
    }

    open spec fn decoding(input: Seq<u8>) -> Result<Self, DecodeError> {
        let cv = Point::decoding(input);
        let cmu = Scalar::decoding(input.skip(32));
        let ephemeral_key = Point::decoding(input.skip(64));
        let enc_ciphertext = <[u8; 612]>::decoding(input.skip(96));
        let out_ciphertext = <[u8; 80]>::decoding(input.skip(708));
        let zkproof = Proof::decoding(input.skip(788));
        if cv is Err {
            Err(cv->Err_0)
        } else if cmu is Err {
            Err(cmu->Err_0)
        } else if ephemeral_key is Err {
            Err(ephemeral_key->Err_0)
        } else if enc_ciphertext is Err {
            Err(enc_ciphertext->Err_0)
        } else if out_ciphertext is Err {
            Err(out_ciphertext->Err_0)
        } else if zkproof is Err {
            Err(zkproof->Err_0)
        } else {
            Ok(
                OutputDescription {
                    cv: cv->Ok_0,
                    cmu: cmu->Ok_0,
                    ephemeral_key: ephemeral_key->Ok_0,
                    enc_ciphertext: enc_ciphertext->Ok_0,
                    out_ciphertext: out_ciphertext->Ok_0,
                    zkproof: zkproof->Ok_0,
                },
            )
        }
    }

    open spec fn consumed(input: Seq<u8>) -> nat {
        if Point::decoding(input) is Err {
            Point::consumed(input)
        } else if Scalar::decoding(input.skip(32)) is Err {
            32 + Scalar::consumed(input.skip(32))
        } else if Point::decoding(input.skip(64)) is Err {
            64 + Point::consumed(input.skip(64))
        } else if <[u8; 612]>::decoding(input.skip(96)) is Err {
            96 + <[u8; 612]>::consumed(input.skip(96))
        } else if <[u8; 80]>::decoding(input.skip(708)) is Err {
            708 + <[u8; 80]>::consumed(input.skip(708))
        } else {
            788 + Proof::consumed(input.skip(788))
        }
    }

    proof fn lemma_fixed_length(&self) {
        self.zkproof.lemma_fixed_length();
    }

    proof fn lemma_round_trip(&self, rest: Seq<u8>) {
        let input = self.encoding() + rest;
        let t5 = self.zkproof.encoding() + rest;
        let t4 = self.out_ciphertext@ + t5;
        let t3 = self.enc_ciphertext@ + t4;
        let t2 = self.ephemeral_key.encoding() + t3;
        let t1 = self.cmu.encoding() + t2;
        assert(input =~= self.cv.encoding() + t1);
        lemma_decode_head(self.cv, input, t1);
        lemma_decode_head(self.cmu, t1, t2);
        lemma_decode_head(self.ephemeral_key, t2, t3);
        lemma_decode_head(self.enc_ciphertext, t3, t4);
        lemma_decode_head(self.out_ciphertext, t4, t5);
        lemma_decode_head(self.zkproof, t5, rest);
        assert(input.skip(64) =~= t2);
        assert(input.skip(96) =~= t3);
        assert(input.skip(708) =~= t4);
        assert(input.skip(788) =~= t5);
    }

    proof fn lemma_decoding_exact(input: Seq<u8>) {
        Point::lemma_decoding_exact(input);
        Scalar::lemma_decoding_exact(input.skip(32));
        Point::lemma_decoding_exact(input.skip(64));
        <[u8; 612]>::lemma_decoding_exact(input.skip(96));
        <[u8; 80]>::lemma_decoding_exact(input.skip(708));
        Proof::lemma_decoding_exact(input.skip(788));
        if let Ok(value) = Self::decoding(input) {
            assert(value.encoding() =~= input.take(Self::width() as int));
        }
    }

    proof fn lemma_truncated(&self, n: nat) {
        if n < Self::width() {
            self.zkproof.lemma_fixed_length();
            let input = self.encoding().take(n as int);
            let t5 = self.zkproof.encoding();
            let t4 = self.out_ciphertext@ + t5;
            let t3 = self.enc_ciphertext@ + t4;
            let t2 = self.ephemeral_key.encoding() + t3;
            let t1 = self.cmu.encoding() + t2;
            assert(self.encoding() =~= self.cv.encoding() + t1);
            lemma_decode_cut(self.cv, t1, n);
            if n >= 32 {
                lemma_decode_cut(self.cmu, t2, (n - 32) as nat);
            }
            if n >= 64 {
                assert(input.skip(64) =~= input.skip(32).skip(32));
                lemma_decode_cut(self.ephemeral_key, t3, (n - 64) as nat);
            }
            if n >= 96 {
                assert(input.skip(96) =~= input.skip(64).skip(32));
                lemma_decode_cut(self.enc_ciphertext, t4, (n - 96) as nat);
            }
            if n >= 708 {
                assert(input.skip(708) =~= input.skip(96).skip(612));
                lemma_decode_cut(self.out_ciphertext, t5, (n - 708) as nat);
            }
            if n >= 788 {
                assert(input.skip(788) =~= input.skip(708).skip(80));
                assert(t5 + Seq::<u8>::empty() =~= t5);
                lemma_decode_cut(self.zkproof, Seq::<u8>::empty(), (n - 788) as nat);
            }
        }
    }

    fn serialize(&self, writer: &mut Vec<u8>) {
        let ghost before = writer@;
        self.cv.serialize(writer);
        self.cmu.serialize(writer);
        self.ephemeral_key.serialize(writer);
        writer.extend_from_slice(self.enc_ciphertext.as_slice());
        writer.extend_from_slice(self.out_ciphertext.as_slice());
        self.zkproof.serialize(writer);
        assert(writer@ =~= before + self.encoding());
    }

    fn deserialize(buf: &mut &[u8]) -> (r: Result<Self, DecodeError>) {
        let ghost input = buf@;
        proof {
            assert(input.skip(0) =~= input);
            lemma_decode_at::<Point>(input, 0);
            if input.len() >= 32 {
                lemma_decode_at::<Scalar>(input, 32);
            }
            if input.len() >= 64 {
                lemma_decode_at::<Point>(input, 64);
            }
            if input.len() >= 96 {
                lemma_decode_at::<[u8; 612]>(input, 96);
            }
            if input.len() >= 708 {
                lemma_decode_at::<[u8; 80]>(input, 708);
            }
            if input.len() >= 788 {
                lemma_decode_at::<Proof>(input, 788);
            }
        }
        let cv = Point::deserialize(buf)?;
        let cmu = Scalar::deserialize(buf)?;
        let ephemeral_key = Point::deserialize(buf)?;
        let enc_ciphertext = <[u8; 612]>::deserialize(buf)?;
        let out_ciphertext = <[u8; 80]>::deserialize(buf)?;
        let zkproof = Proof::deserialize(buf)?;
        Ok(OutputDescription { cv, cmu, ephemeral_key, enc_ciphertext, out_ciphertext, zkproof })
    }
}

impl<Proof: WireFormat> WireFormat for ConvertDescription<Proof> {
    open spec fn width() -> nat {
        Point::width() + Scalar::width() + Proof::width()
    }

    open spec fn wf(&self) -> bool {
        &&& self.cv.wf()
        &&& self.anchor.wf()
        &&& self.zkproof.wf()
    }

    open spec fn encoding(&self) -> Seq<u8> {
        self.cv.encoding() + self.anchor.encoding() + self.zkproof.encoding()
    }

    open spec fn decoding(input: Seq<u8>) -> Result<Self, DecodeError> {
        let cv = Point::decoding(input);
        let anchor = Scalar::decoding(input.skip(32));
        let zkproof = Proof::decoding(input.skip(64));
        if cv is Err {
            Err(cv->Err_0)
        } else if anchor is Err {
            Err(anchor->Err_0)
        } else if zkproof is Err {
            Err(zkproof->Err_0)
        } else {
            Ok(ConvertDescription { cv: cv->Ok_0, anchor: anchor->Ok_0, zkproof: zkproof->Ok_0 })
        }
    }

    open spec fn consumed(input: Seq<u8>) -> nat {
        if Point::decoding(input) is Err {
            Point::consumed(input)
        } else if Scalar::decoding(input.skip(32)) is Err {
            32 + Scalar::consumed(input.skip(32))
        } else {
            64 + Proof::consumed(input.skip(64))
        }
    }

    proof fn lemma_fixed_length(&self) {
        self.zkproof.lemma_fixed_length();
    }

    proof fn lemma_round_trip(&self, rest: Seq<u8>) {
        let input = self.encoding() + rest;
        let t2 = self.zkproof.encoding() + rest;
        let t1 = self.anchor.encoding() + t2;
        assert(input =~= self.cv.encoding() + t1);
        lemma_decode_head(self.cv, input, t1);
        lemma_decode_head(self.anchor, t1, t2);
        lemma_decode_head(self.zkproof, t2, rest);
        assert(input.skip(64) =~= t2);
    }

    proof fn lemma_decoding_exact(input: Seq<u8>) {
        Point::lemma_decoding_exact(input);
        Scalar::lemma_decoding_exact(input.skip(32));
        Proof::lemma_decoding_exact(input.skip(64));
        if let Ok(value) = Self::decoding(input) {
            assert(value.encoding() =~= input.take(Self::width() as int));
        }
    }

    proof fn lemma_truncated(&self, n: nat) {
        if n < Self::width() {
            self.zkproof.lemma_fixed_length();
            let input = self.encoding().take(n as int);
            let t2 = self.zkproof.encoding();
            let t1 = self.anchor.encoding() + t2;
            assert(self.encoding() =~= self.cv.encoding() + t1);
            lemma_decode_cut(self.cv, t1, n);
            if n >= 32 {
                lemma_decode_cut(self.anchor, t2, (n - 32) as nat);
            }
            if n >= 64 {
                assert(input.skip(64) =~= input.skip(32).skip(32));
                assert(t2 + Seq::<u8>::empty() =~= t2);
                lemma_decode_cut(self.zkproof, Seq::<u8>::empty(), (n - 64) as nat);
            }
        }
    }

    fn serialize(&self, writer: &mut Vec<u8>) {
        let ghost before = writer@;
        self.cv.serialize(writer);
        self.anchor.serialize(writer);
        self.zkproof.serialize(writer);
        assert(writer@ =~= before + self.encoding());
    }

    fn deserialize(buf: &mut &[u8]) -> (r: Result<Self, DecodeError>) {
        let ghost input = buf@;
        proof {
            assert(input.skip(0) =~= input);
            lemma_decode_at::<Point>(input, 0);
            if input.len() >= 32 {
                lemma_decode_at::<Scalar>(input, 32);
            }
            if input.len() >= 64 {
                lemma_decode_at::<Proof>(input, 64);
            }
        }
        let cv = Point::deserialize(buf)?;
        let anchor = Scalar::deserialize(buf)?;
        let zkproof = Proof::deserialize(buf)?;
        Ok(ConvertDescription { cv, anchor, zkproof })
    }
}

/// A spend whose first 32 bytes are not the canonical encoding of a point is
/// rejected as malformed, whatever follows them.
pub proof fn lemma_spend_rejects_noncanonical_cv<A: Authorization>(input: Seq<u8>)
    requires
        input.len() >= 32,
        !is_point_encoding(input.take(32)),
    ensures
        SpendDescription::<A>::decoding(input) == Err::<SpendDescription<A>, DecodeError>(
            DecodeError::MalformedEncoding,
        ),
{
}

/// An output whose first 32 bytes are not the canonical encoding of a point
/// is rejected as malformed, whatever follows them.
pub proof fn lemma_output_rejects_noncanonical_cv<Proof: WireFormat>(input: Seq<u8>)
    requires
        input.len() >= 32,
        !is_point_encoding(input.take(32)),
    ensures
        OutputDescription::<Proof>::decoding(input) == Err::<OutputDescription<Proof>, DecodeError>(
            DecodeError::MalformedEncoding,
        ),
{
}

/// A conversion whose first 32 bytes are not the canonical encoding of a
/// point is rejected as malformed, whatever follows them.
pub proof fn lemma_convert_rejects_noncanonical_cv<Proof: WireFormat>(input: Seq<u8>)
    requires
        input.len() >= 32,
        !is_point_encoding(input.take(32)),
    ensures
        ConvertDescription::<Proof>::decoding(input) == Err::<
            ConvertDescription<Proof>,
            DecodeError,
        >(DecodeError::MalformedEncoding),
{
}

} // verus!
