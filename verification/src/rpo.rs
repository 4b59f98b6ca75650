//! The cryptographic hash behind the commit-reveal scheme.
//!
//! A move commitment is the RPO-256 digest of the three field elements
//! (encoded move, nonce word 1, nonce word 2). The digest itself is opaque to
//! the verifier: it is named by [`rpo_digest3`], a pure function of the three
//! inputs, and the match state machine's contracts compare commitments
//! through that name.

use vstd::prelude::*;

verus! {

/// The RPO-256 digest of three field elements, as four 64-bit values in
/// canonical form. A pure function of its arguments: the same inputs always
/// name the same digest.
pub uninterp spec fn rpo_digest3(m: u64, n1: u64, n2: u64) -> Seq<u64>;

/// Relies on miden_crypto::hash::rpo::Rpo256::hash_elements: the RPO digest of
/// a slice of field elements is computed from those elements alone, and each
/// canonical digest limb is a 64-bit value.
#[verifier::external_body]
pub(crate) fn rpo_hash3(m: u64, n1: u64, n2: u64) -> (r: [u64; 4])
    ensures
        r@ == rpo_digest3(m, n1, n2),
{
    let felts = [
        miden_crypto::Felt::new(m),
        miden_crypto::Felt::new(n1),
        miden_crypto::Felt::new(n2),
    ];
    let digest = miden_crypto::hash::rpo::Rpo256::hash_elements(&felts);
    [
        miden_crypto::field::PrimeField64::as_canonical_u64(&digest[0]),
        miden_crypto::field::PrimeField64::as_canonical_u64(&digest[1]),
        miden_crypto::field::PrimeField64::as_canonical_u64(&digest[2]),
        miden_crypto::field::PrimeField64::as_canonical_u64(&digest[3]),
    ]
}

} // verus!
