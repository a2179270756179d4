use cnd::key::derive_address_from_private_key;
use cnd::secret::{Secret, SecretHash, SwapSeed};
use cnd::text::hex_to_bytes;

#[test]
fn secret_needs_exactly_32_bytes() {
    assert!(Secret::from_vec(vec![0u8; 31]).is_none());
    assert!(Secret::from_vec(vec![0u8; 33]).is_none());
    let s = Secret::from_vec(vec![0u8; 32]).unwrap();
    assert_eq!(s.into_raw_secret(), vec![0u8; 32]);
}

#[test]
fn secret_hash_is_the_keccak_digest_of_the_secret() {
    // The Keccak-256 digest of 32 zero bytes, computed independently.
    let expected =
        hex_to_bytes("290decd9548b62a8d60345a988386fc84ba6bc95484008f6362f93160ef3e563").unwrap();
    let secret = Secret::from_vec(vec![0u8; 32]).unwrap();
    let hash = SecretHash::from_secret(&secret);
    assert_eq!(hash.to_vec(), expected);
}

#[test]
fn matches_secret_accepts_the_preimage_and_nothing_else() {
    let secret = Secret::from_vec(vec![1u8; 32]).unwrap();
    let other = Secret::from_vec(vec![2u8; 32]).unwrap();
    let hash = SecretHash::from_secret(&secret);
    assert!(hash.matches_secret(&secret));
    assert!(!hash.matches_secret(&other));
}

#[test]
fn seed_derivations_are_deterministic_and_distinct() {
    let seed = SwapSeed::new(vec![42u8; 32]);
    let again = SwapSeed::new(vec![42u8; 32]);
    assert_eq!(seed.derive_refund_identity(), again.derive_refund_identity());
    assert_eq!(seed.derive_redeem_identity(), again.derive_redeem_identity());
    assert_eq!(
        seed.derive_secret().into_raw_secret(),
        again.derive_secret().into_raw_secret()
    );
    assert_ne!(seed.derive_refund_identity(), seed.derive_redeem_identity());
    let other_seed = SwapSeed::new(vec![43u8; 32]);
    assert_ne!(
        seed.derive_refund_identity(),
        other_seed.derive_refund_identity()
    );
}

#[test]
fn derived_identities_are_20_bytes() {
    let seed = SwapSeed::new(vec![9u8; 16]);
    assert_eq!(seed.derive_refund_identity().len(), 20);
    assert_eq!(seed.derive_redeem_identity().len(), 20);
}

#[test]
fn address_of_the_smallest_private_key() {
    // The address belonging to the secp256k1 secret key 1, a fixed point
    // of the ecosystem, computed independently.
    let mut key = vec![0u8; 31];
    key.push(1);
    let address = derive_address_from_private_key(&key).unwrap();
    let expected = hex_to_bytes("7e5f4552091a69125d5dfcb7b8c2659029395bdf").unwrap();
    assert_eq!(address, expected);
}

#[test]
fn invalid_private_keys_are_refused() {
    assert!(derive_address_from_private_key(&vec![1u8; 31]).is_none());
    assert!(derive_address_from_private_key(&vec![1u8; 33]).is_none());
    // Zero is not a valid secp256k1 secret key.
    assert!(derive_address_from_private_key(&vec![0u8; 32]).is_none());
}
