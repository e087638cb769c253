//! Fixed-width wire forms: the trait that every encodable value implements,
//! the decoding errors, and the raw byte blocks.

use vstd::prelude::*;

verus! {

/// Why a decoding was abandoned.
#[derive(Clone, Copy, Debug, PartialEq, Eq)]
pub enum DecodeError {
    /// The bytes have the right length but are not the canonical form of any
    /// curve point or scalar.
    MalformedEncoding,
    /// Fewer bytes remain than the next fixed-width field needs.
    TruncatedInput,
}

/// A value with a canonical wire form of fixed width.
///
/// `encoding` and `decoding` are the mathematical model of the codec;
/// `serialize` and `deserialize` compute them. The proof functions are the
/// laws that every implementation is held to.
pub trait WireFormat: Sized {
    /// The number of bytes of every encoding.
    spec fn width() -> nat;

    /// Whether the value is canonical, that is, one that decoding can yield.
    spec fn wf(&self) -> bool;

    /// The bytes that stand for the value.
    spec fn encoding(&self) -> Seq<u8>;

    /// What decoding makes of the bytes at the head of `input`.
    spec fn decoding(input: Seq<u8>) -> Result<Self, DecodeError>;

    /// How many bytes decoding takes off the head of `input`, whether it
    /// succeeds or fails part of the way.
    spec fn consumed(input: Seq<u8>) -> nat;

    /// Every value encodes to exactly `width()` bytes.
    proof fn lemma_fixed_length(&self)
        ensures
            self.encoding().len() == Self::width(),
    ;

    /// Decoding the encoding of a canonical value gives the value back,
    /// whatever follows the encoding in the input.
    proof fn lemma_round_trip(&self, rest: Seq<u8>)
        requires
            self.wf(),
        ensures
            Self::decoding(self.encoding() + rest) == Ok::<Self, DecodeError>(*self),
    ;

    /// A decoded value is canonical and encodes to the very bytes that were
    /// taken off the input; a failed decoding never takes more than is there.
    proof fn lemma_decoding_exact(input: Seq<u8>)
        ensures
            Self::consumed(input) <= input.len(),
            Self::consumed(input) <= Self::width(),
            match Self::decoding(input) {
                Ok(value) => {
                    &&& value.wf()
                    &&& Self::consumed(input) == Self::width()
                    &&& value.encoding() == input.take(Self::width() as int)
                },
                Err(_) => true,
            },
    ;

    /// Every proper prefix of the encoding of a canonical value is rejected
    /// as truncated.
    proof fn lemma_truncated(&self, n: nat)
        requires
            self.wf(),
        ensures
            n < Self::width() ==> Self::decoding(self.encoding().take(n as int)) == Err::<
                Self,
                DecodeError,
            >(DecodeError::TruncatedInput),
    ;

    /// Appends the encoding of `self` to `writer`.
    fn serialize(&self, writer: &mut Vec<u8>)
        ensures
            final(writer)@ == old(writer)@ + self.encoding(),
    ;

    /// Decodes a value from the head of `buf` and moves `buf` past the bytes
    /// taken.
    fn deserialize(buf: &mut &[u8]) -> (r: Result<Self, DecodeError>)
        ensures
            r == Self::decoding(old(buf)@),
            final(buf)@ == old(buf)@.skip(Self::consumed(old(buf)@) as int),
    ;
}

/// A canonical value at the head of `input` is decoded, all of its bytes are
/// taken, and what follows it is left.
pub proof fn lemma_decode_head<T: WireFormat>(value: T, input: Seq<u8>, rest: Seq<u8>)
    requires
        value.wf(),
        input == value.encoding() + rest,
    ensures
        T::decoding(input) == Ok::<T, DecodeError>(value),
        T::consumed(input) == T::width(),
        input.len() == T::width() + rest.len(),
        input.skip(T::width() as int) == rest,
{
    value.lemma_fixed_length();
    value.lemma_round_trip(rest);
    T::lemma_decoding_exact(input);
    assert(input.skip(T::width() as int) =~= rest);
}

/// Of a canonical value followed by `tail`, cut off after `k` bytes: where the
/// cut falls inside the value the decoding is rejected as truncated, and
/// otherwise the value is decoded and the rest of `tail` is left.
pub proof fn lemma_decode_cut<T: WireFormat>(value: T, tail: Seq<u8>, k: nat)
    requires
        value.wf(),
        k <= T::width() + tail.len(),
    ensures
        k < T::width() ==> T::decoding((value.encoding() + tail).take(k as int)) == Err::<
            T,
            DecodeError,
        >(DecodeError::TruncatedInput),
        k >= T::width() ==> {
            &&& T::decoding((value.encoding() + tail).take(k as int)) == Ok::<T, DecodeError>(value)
            &&& (value.encoding() + tail).take(k as int).skip(T::width() as int) == tail.take(
                k - T::width(),
            )
        },
{
    value.lemma_fixed_length();
    let cut = (value.encoding() + tail).take(k as int);
    if k < T::width() {
        value.lemma_truncated(k);
        assert(cut =~= value.encoding().take(k as int));
    } else {
        let rest = tail.take(k - T::width());
        assert(cut =~= value.encoding() + rest);
        lemma_decode_head(value, cut, rest);
    }
}

/// Of a field that is decoded `at` bytes into `input`: what it takes lies
/// within the input, and the buffer that has moved past it stands at the
/// sum of the two.
pub proof fn lemma_decode_at<T: WireFormat>(input: Seq<u8>, at: nat)
    requires
        at <= input.len(),
    ensures
        at + T::consumed(input.skip(at as int)) <= input.len(),
        T::decoding(input.skip(at as int)) is Ok ==> T::consumed(input.skip(at as int))
            == T::width(),
        input.skip(at as int).skip(T::consumed(input.skip(at as int)) as int) == input.skip(
            (at + T::consumed(input.skip(at as int))) as int,
        ),
{
    T::lemma_decoding_exact(input.skip(at as int));
    assert(input.skip(at as int).skip(T::consumed(input.skip(at as int)) as int) =~= input.skip(
        (at + T::consumed(input.skip(at as int))) as int,
    ));
}

/// Two canonical values with the same encoding are the same value.
pub proof fn lemma_encoding_injective<T: WireFormat>(a: T, b: T)
    requires
        a.wf(),
        b.wf(),
        a.encoding() == b.encoding(),
    ensures
        a == b,
{
    a.lemma_round_trip(Seq::empty());
    b.lemma_round_trip(Seq::empty());
}

/// The encoding of a canonical value with its final byte dropped is rejected
/// as truncated.
pub proof fn lemma_final_byte_dropped<T: WireFormat>(value: T)
    requires
        value.wf(),
        T::width() > 0,
    ensures
        T::decoding(value.encoding().drop_last()) == Err::<T, DecodeError>(
            DecodeError::TruncatedInput,
        ),
{
    value.lemma_fixed_length();
    value.lemma_truncated((T::width() - 1) as nat);
    assert(value.encoding().drop_last() =~= value.encoding().take(T::width() - 1));
}

/// The array whose elements are those of `bytes`.
pub open spec fn array_of<const N: usize>(bytes: Seq<u8>) -> [u8; N] {
    choose|a: [u8; N]| a@ == bytes
}

/// `array_of` gives back the array that the bytes were taken from.
pub proof fn lemma_array_of<const N: usize>(a: [u8; N])
    ensures
        array_of::<N>(a@) == a,
{
    assert(array_of::<N>(a@) =~= a);
}

/// An array that agrees with `bytes` on its first `k` elements.
spec fn array_upto<const N: usize>(bytes: Seq<u8>, k: nat) -> [u8; N]
    decreases k,
{
    if k == 0 {
        vstd::array::spec_array_fill_for_copy_type::<u8, N>(0u8)
    } else {
        vstd::array::spec_array_update(
            array_upto::<N>(bytes, (k - 1) as nat),
            k - 1,
            bytes[k - 1],
        )
    }
}

proof fn lemma_array_upto<const N: usize>(bytes: Seq<u8>, k: nat)
    requires
        bytes.len() == N,
        k <= N,
    ensures
        forall|i: int| 0 <= i < k ==> array_upto::<N>(bytes, k)@[i] == bytes[i],
    decreases k,
{
    broadcast use vstd::array::group_array_axioms;

    if k > 0 {
        lemma_array_upto::<N>(bytes, (k - 1) as nat);
    }
}

/// Every sequence of `N` bytes is the content of some array.
pub proof fn lemma_array_of_seq<const N: usize>(bytes: Seq<u8>)
    requires
        bytes.len() == N,
    ensures
        array_of::<N>(bytes)@ == bytes,
{
    lemma_array_upto::<N>(bytes, N as nat);
    assert(array_upto::<N>(bytes, N as nat)@ =~= bytes);
}

/// What reading `n` raw bytes makes of `input`: the first `n` bytes, or
/// nothing when fewer are there.
pub open spec fn take_block(input: Seq<u8>, n: nat) -> Option<Seq<u8>> {
    if input.len() >= n {
        Some(input.take(n as int))
    } else {
        None
    }
}

/// Calls borsh's `BorshDeserialize::deserialize` for `[u8; N]`. As its source
/// shows, it fails without touching the buffer when fewer than `N` bytes
/// remain, and otherwise copies the first `N` bytes and moves the buffer past
/// them.
#[verifier::external_body]
pub(crate) fn read_array<const N: usize>(buf: &mut &[u8]) -> (r: Option<[u8; N]>)
    ensures
        match r {
            Some(a) => take_block(old(buf)@, N as nat) == Some(a@) && final(buf)@ == old(buf)@.skip(
                N as int,
            ),
            None => take_block(old(buf)@, N as nat) is None && final(buf)@ == old(buf)@,
        },
{
    <[u8; N] as borsh::BorshDeserialize>::deserialize(buf).ok()
}

/// Calls borsh's `BorshSerialize::serialize` for `[u8; N]` with a `Vec<u8>`
/// as the writer: the `N` bytes are appended as they are, without a length
/// prefix. Writing to a `Vec<u8>` cannot fail, so there is no error to hand on.
#[verifier::external_body]
pub(crate) fn write_array<const N: usize>(bytes: &[u8; N], writer: &mut Vec<u8>)
    ensures
        final(writer)@ == old(writer)@ + bytes@,
{
    let _ = borsh::BorshSerialize::serialize(bytes, writer);
}

/// A raw block of `N` bytes: every block is canonical.
impl<const N: usize> WireFormat for [u8; N] {
    open spec fn width() -> nat {
        N as nat
    }

    open spec fn wf(&self) -> bool {
        true
    }

    open spec fn encoding(&self) -> Seq<u8> {
        self@
    }

    open spec fn decoding(input: Seq<u8>) -> Result<Self, DecodeError> {
        match take_block(input, N as nat) {
            Some(block) => Ok(array_of::<N>(block)),
            None => Err(DecodeError::TruncatedInput),
        }
    }

    open spec fn consumed(input: Seq<u8>) -> nat {
        if input.len() >= N {
            N as nat
        } else {
            0
        }
    }

    proof fn lemma_fixed_length(&self) {
    }

    proof fn lemma_round_trip(&self, rest: Seq<u8>) {
        assert((self@ + rest).take(N as int) =~= self@);
        lemma_array_of::<N>(*self);
    }

    proof fn lemma_decoding_exact(input: Seq<u8>) {
        if input.len() >= N {
            lemma_array_of_seq::<N>(input.take(N as int));
        }
    }

    proof fn lemma_truncated(&self, n: nat) {
    }

    fn serialize(&self, writer: &mut Vec<u8>) {
        write_array(self, writer);
    }

    fn deserialize(buf: &mut &[u8]) -> (r: Result<Self, DecodeError>) {
        match read_array::<N>(buf) {
            Some(a) => {
                proof {
                    lemma_array_of::<N>(a);
                }
                Ok(a)
            },
            None => Err(DecodeError::TruncatedInput),
        }
    }
}

/// The value without content: it takes no room on the wire.
impl WireFormat for () {
    open spec fn width() -> nat {
        0
    }

    open spec fn wf(&self) -> bool {
        true
    }

    open spec fn encoding(&self) -> Seq<u8> {
        Seq::empty()
    }

    open spec fn decoding(input: Seq<u8>) -> Result<Self, DecodeError> {
        Ok(())
    }

    open spec fn consumed(input: Seq<u8>) -> nat {
        0
    }

    proof fn lemma_fixed_length(&self) {
    }

    proof fn lemma_round_trip(&self, rest: Seq<u8>) {
    }

    proof fn lemma_decoding_exact(input: Seq<u8>) {
        assert(input.take(0) =~= Seq::<u8>::empty());
    }

    proof fn lemma_truncated(&self, n: nat) {
    }

    fn serialize(&self, writer: &mut Vec<u8>) {
        assert(writer@ + Seq::<u8>::empty() =~= writer@);
    }

    fn deserialize(buf: &mut &[u8]) -> (r: Result<Self, DecodeError>) {
        assert(buf@.skip(0) =~= buf@);
        Ok(())
    }
}

} // verus!
