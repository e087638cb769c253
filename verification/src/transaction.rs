//! Transaction data, its wire encoding and its signature hash.

pub mod components;
pub mod serialize;
pub mod sighash;
pub mod sighash_v5;

use crate::transaction::components::{sapling, transparent};
use vstd::prelude::*;

verus! {

/// The versions of the transaction format. Each has its own way of making
/// the signature hash.
#[derive(Clone, Copy, Debug, PartialEq, Eq)]
pub enum TxVersion {
    MASPv5,
}

/// A stage of authorization of a whole transaction.
pub trait Authorization {
    type TransparentAuth: transparent::Authorization;

    type SaplingAuth: sapling::Authorization;
}

/// Every part is signed.
#[derive(Clone, Copy, Debug, PartialEq, Eq)]
pub struct Authorized;

/// Assembled and proved, but not yet signed.
#[derive(Clone, Copy, Debug, PartialEq, Eq)]
pub struct Unauthorized;

impl Authorization for Authorized {
    type TransparentAuth = transparent::Authorized;

    type SaplingAuth = sapling::Authorized;
}

impl Authorization for Unauthorized {
    type TransparentAuth = transparent::Unauthorized;

    type SaplingAuth = sapling::Unauthorized;
}

/// The data of a transaction.
pub struct TransactionData<A: Authorization> {
    pub version: TxVersion,
    pub consensus_branch_id: u32,
    pub lock_time: u32,
    pub expiry_height: u32,
    pub transparent_bundle: Option<transparent::Bundle<A::TransparentAuth>>,
    pub sapling_bundle: Option<sapling::Bundle<A::SaplingAuth>>,
}

/// The digests of the transparent part of a transaction.
#[derive(Clone, Copy, Debug, PartialEq, Eq)]
pub struct TransparentDigests<A> {
    pub prevouts_digest: A,
    pub sequence_digest: A,
    pub outputs_digest: A,
}

/// The digests of the parts of a transaction, made in an earlier pass over
/// it: of its header, of its transparent part and of its shielded part, the
/// last two only where the transaction has such a part.
#[derive(Clone, Copy, Debug, PartialEq, Eq)]
pub struct TxDigests<A> {
    pub header_digest: A,
    pub transparent_digests: Option<TransparentDigests<A>>,
    pub sapling_digest: Option<A>,
}

} // verus!
