//! The negotiation messages exchanged between the two parties.

use crate::asset::AssetKind;
use crate::rfc003::ledger::LedgerParams;
use crate::secret::SecretHash;
use crate::Timestamp;
use vstd::prelude::*;

verus! {

/// The globally unique identifier of one swap: created at request time,
/// never reused, never mutated.
#[derive(Debug, Clone, Copy, PartialEq, Eq, PartialOrd, Ord, Hash, Structural)]
pub struct SwapId(pub u128);

/// The proposal Alice sends: which assets change hands on which ledgers,
/// under which identities, expiries and secret hash.
#[derive(Debug, Clone, PartialEq, Eq)]
pub struct Request {
    pub alpha_ledger: LedgerParams,
    pub beta_ledger: LedgerParams,
    pub alpha_asset: AssetKind,
    pub beta_asset: AssetKind,
    /// Alice's identity for the refund path of the alpha contract.
    pub alpha_ledger_refund_identity: Vec<u8>,
    /// Alice's identity for the redeem path of the beta contract.
    pub beta_ledger_redeem_identity: Vec<u8>,
    pub alpha_expiry: Timestamp,
    pub beta_expiry: Timestamp,
    /// The hash that locks both contracts.
    pub secret_hash: SecretHash,
}

/// Bob's acceptance: the identities he brings to the two contracts.
#[derive(Debug, Clone, PartialEq, Eq)]
pub struct Accept {
    /// Bob's identity for the redeem path of the alpha contract.
    pub alpha_ledger_redeem_identity: Vec<u8>,
    /// Bob's identity for the refund path of the beta contract.
    pub beta_ledger_refund_identity: Vec<u8>,
}

/// Bob's refusal, with an optional reason.
#[derive(Debug, Clone, PartialEq, Eq)]
pub struct Decline {
    pub reason: Option<String>,
}

} // verus!
