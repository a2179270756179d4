//! Deriving an Ethereum account address from a private key.
//!
//! The public key comes from the secp256k1 library; the address is the
//! last 20 bytes of the Keccak-256 digest of the uncompressed public key
//! without its leading format byte.

use crate::secret::{keccak256, keccak256_of};
use vstd::prelude::*;

verus! {

/// The uncompressed secp256k1 public key encoding of a secret key. The
/// encoding is a function of the secret key bytes alone; its value is not
/// modelled here.
pub uninterp spec fn public_key_bytes_of(secret_key: Seq<u8>) -> Seq<u8>;

/// Whether 32 bytes form a valid secp256k1 secret key: nonzero and below
/// the curve order. A function of the bytes alone; its value is not
/// modelled here.
pub uninterp spec fn valid_secp256k1_scalar(secret_key: Seq<u8>) -> bool;

/// Relies on secp256k1's `SecretKey::from_byte_array`,
/// `PublicKey::from_secret_key` and `PublicKey::serialize_uncompressed`:
/// key derivation succeeds exactly on a 32 byte valid scalar, the
/// uncompressed encoding is 65 bytes, and both the decision and the
/// encoding depend on the secret key bytes alone.
#[verifier::external_body]
fn secp256k1_public_key(private_key: &Vec<u8>) -> (r: Option<Vec<u8>>)
    ensures
        private_key@.len() == 32 && valid_secp256k1_scalar(private_key@) ==> r is Some,
        r matches Some(pk) ==> private_key@.len() == 32 && valid_secp256k1_scalar(private_key@)
            && pk@ == public_key_bytes_of(private_key@) && pk@.len() == 65,
{
    let bytes: [u8; 32] = match private_key.as_slice().try_into() {
        Ok(b) => b,
        Err(_) => return None,
    };
    let sk = match secp256k1::SecretKey::from_byte_array(bytes) {
        Ok(sk) => sk,
        Err(_) => return None,
    };
    let pk = secp256k1::PublicKey::from_secret_key(&sk);
    Some(pk.serialize_uncompressed().to_vec())
}

/// The address belonging to a private key: the last 20 bytes of the digest
/// of the public key's coordinates.
pub open spec fn spec_address_of(private_key: Seq<u8>) -> Seq<u8> {
    keccak256_of(public_key_bytes_of(private_key).subrange(1, 65)).subrange(12, 32)
}

/// Derives the Ethereum address controlled by `private_key`.
///
/// Returns the address exactly when the key is 32 bytes forming a valid
/// secp256k1 secret key; `None` otherwise.
pub fn derive_address_from_private_key(private_key: &Vec<u8>) -> (r: Option<Vec<u8>>)
    ensures
        r is Some <==> private_key@.len() == 32 && valid_secp256k1_scalar(private_key@),
        r matches Some(a) ==> a@ == spec_address_of(private_key@) && a@.len() == 20,
{
    match secp256k1_public_key(private_key) {
        None => None,
        Some(pk) => {
            let coords = crate::bytes::bytes_slice(&pk, 1, 65);
            let digest = keccak256(&coords);
            Some(crate::bytes::bytes_slice(&digest, 12, 32))
        },
    }
}

} // verus!
