//! Commit-reveal primitives: the secret, its hash, and the per-swap seed.
//!
//! The hash locks both contracts of a swap; the preimage unlocks them and
//! cross-links the two chains. The seed deterministically derives the
//! secret and the redeem and refund identities of one swap, so no key
//! material beyond the seed needs to be kept.

use vstd::prelude::*;

use tiny_keccak::Hasher;

verus! {

/// The Keccak-256 digest of a byte string. The digest is a function of the
/// input bytes alone; its value is not modelled here.
pub uninterp spec fn keccak256_of(input: Seq<u8>) -> Seq<u8>;

/// Relies on tiny_keccak's `Keccak::v256` with `update` and `finalize`: the
/// digest depends on the input bytes alone and is 32 bytes long.
#[verifier::external_body]
pub(crate) fn keccak256(input: &Vec<u8>) -> (r: Vec<u8>)
    ensures
        r@ == keccak256_of(input@),
        r@.len() == 32,
{
    let mut hasher = tiny_keccak::Keccak::v256();
    hasher.update(input.as_slice());
    let mut out = [0u8; 32];
    hasher.finalize(&mut out);
    out.to_vec()
}

/// The secret preimage of a swap: 32 bytes, revealed only by the redeeming
/// transaction.
#[derive(Debug, Clone, PartialEq, Eq)]
pub struct Secret(Vec<u8>);

impl Secret {
    /// Whether the secret is well formed: exactly 32 bytes.
    pub closed spec fn wf(&self) -> bool {
        self.0@.len() == 32
    }

    /// The bytes of the secret, for reading.
    pub closed spec fn view(&self) -> Seq<u8> {
        self.0@
    }

    /// Builds a secret from its raw bytes.
    ///
    /// Returns the secret exactly when `bytes` is 32 bytes long.
    pub fn from_vec(bytes: Vec<u8>) -> (r: Option<Secret>)
        ensures
            r is Some <==> bytes@.len() == 32,
            r matches Some(s) ==> s@ == bytes@ && s.wf(),
    {
        if bytes.len() == 32 {
            Some(Secret(bytes))
        } else {
            None
        }
    }

    /// Hands out the raw bytes, for building a redeeming transaction.
    pub fn into_raw_secret(self) -> (r: Vec<u8>)
        ensures
            r@ == self@,
    {
        self.0
    }

    /// Returns a copy with the same bytes.
    pub fn duplicate(&self) -> (r: Secret)
        ensures
            r@ == self@,
            r.wf() <==> self.wf(),
    {
        Secret(crate::bytes::bytes_clone(&self.0))
    }
}

/// The hash of a swap's secret: the only value embedded on chain.
#[derive(Debug, Clone, PartialEq, Eq)]
pub struct SecretHash(Vec<u8>);

impl SecretHash {
    /// Whether the hash is well formed: exactly 32 bytes.
    pub closed spec fn wf(&self) -> bool {
        self.0@.len() == 32
    }

    /// The bytes of the hash.
    pub closed spec fn view(&self) -> Seq<u8> {
        self.0@
    }

    /// Hashes a secret.
    pub fn from_secret(secret: &Secret) -> (r: SecretHash)
        ensures
            r@ == keccak256_of(secret@),
            r.wf(),
    {
        SecretHash(keccak256(&secret.0))
    }

    /// Builds a hash from its raw bytes.
    ///
    /// Returns the hash exactly when `bytes` is 32 bytes long.
    pub fn from_vec(bytes: Vec<u8>) -> (r: Option<SecretHash>)
        ensures
            r is Some <==> bytes@.len() == 32,
            r matches Some(h) ==> h@ == bytes@ && h.wf(),
    {
        if bytes.len() == 32 {
            Some(SecretHash(bytes))
        } else {
            None
        }
    }

    /// The raw bytes of the hash.
    pub fn to_vec(&self) -> (r: Vec<u8>)
        ensures
            r@ == self@,
    {
        self.0.clone()
    }

    /// Returns a copy with the same bytes.
    pub fn duplicate(&self) -> (r: SecretHash)
        ensures
            r@ == self@,
            r.wf() <==> self.wf(),
    {
        SecretHash(crate::bytes::bytes_clone(&self.0))
    }

    /// Returns whether `self` is the hash of `secret`.
    pub fn matches_secret(&self, secret: &Secret) -> (r: bool)
        ensures
            r == (self@ == keccak256_of(secret@)),
    {
        let h = keccak256(&secret.0);
        crate::bytes::bytes_eq(&self.0, &h)
    }
}

/// Domain separation tag for deriving a refund identity from a seed.
pub const REFUND_IDENTITY_TAG: u8 = 1;

/// Domain separation tag for deriving a redeem identity from a seed.
pub const REDEEM_IDENTITY_TAG: u8 = 2;

/// Domain separation tag for deriving the secret from a seed.
pub const SECRET_TAG: u8 = 3;

/// The identity derived from a seed under a domain separation tag: the last
/// 20 bytes of the digest of the tagged seed.
pub open spec fn spec_derived_identity(seed: Seq<u8>, tag: u8) -> Seq<u8> {
    keccak256_of(seed + seq![tag]).subrange(12, 32)
}

/// The secret derived from a seed: the digest of the tagged seed.
pub open spec fn spec_derived_secret(seed: Seq<u8>) -> Seq<u8> {
    keccak256_of(seed + seq![SECRET_TAG])
}

/// The per-swap seed: the one capability from which a swap's identities and
/// secret are derived, always the same way.
#[derive(Debug, Clone, PartialEq, Eq)]
pub struct SwapSeed(Vec<u8>);

impl SwapSeed {
    /// The bytes of the seed.
    pub closed spec fn view(&self) -> Seq<u8> {
        self.0@
    }

    /// Builds a seed from raw bytes.
    pub fn new(bytes: Vec<u8>) -> (r: SwapSeed)
        ensures
            r@ == bytes@,
    {
        SwapSeed(bytes)
    }

    fn derive(&self, tag: u8) -> (r: Vec<u8>)
        ensures
            r@ == keccak256_of(self.0@ + seq![tag]).subrange(12, 32),
            r@.len() == 20,
    {
        let mut tagged = self.0.clone();
        tagged.push(tag);
        proof {
            assert(tagged@ =~= self.0@ + seq![tag]);
        }
        let digest = keccak256(&tagged);
        crate::bytes::bytes_slice(&digest, 12, 32)
    }

    /// The identity that authorizes the refund path, derived from the seed.
    pub fn derive_refund_identity(&self) -> (r: Vec<u8>)
        ensures
            r@ == spec_derived_identity(self@, REFUND_IDENTITY_TAG),
            r@.len() == 20,
    {
        self.derive(REFUND_IDENTITY_TAG)
    }

    /// The identity that authorizes the redeem path, derived from the seed.
    pub fn derive_redeem_identity(&self) -> (r: Vec<u8>)
        ensures
            r@ == spec_derived_identity(self@, REDEEM_IDENTITY_TAG),
            r@.len() == 20,
    {
        self.derive(REDEEM_IDENTITY_TAG)
    }

    /// The swap's secret, derived from the seed.
    pub fn derive_secret(&self) -> (r: Secret)
        ensures
            r@ == spec_derived_secret(self@),
            r.wf(),
    {
        let mut tagged = self.0.clone();
        tagged.push(SECRET_TAG);
        proof {
            assert(tagged@ =~= self.0@ + seq![SECRET_TAG]);
        }
        let digest = keccak256(&tagged);
        Secret(digest)
    }
}

} // verus!
