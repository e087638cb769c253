//! Values of the shielded protocol that are not tied to a transaction.

use vstd::prelude::*;

verus! {

/// The tag that a spend reveals so that its note cannot be spent twice.
#[derive(Clone, Copy, Debug, PartialEq, Eq)]
pub struct Nullifier(pub [u8; 32]);

} // verus!
