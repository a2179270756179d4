//! The initiator's swap request, and the metadata record kept about it.

use crate::asset::AssetKind;
use crate::rfc003::ledger::{LedgerKind, LedgerParams};
use crate::rfc003::RoleKind;
use vstd::prelude::*;

verus! {

/// The identities the initiator brings to a swap.
#[derive(Debug, Clone, PartialEq, Eq)]
pub struct SwapRequestIdentities {
    /// The initiator's identity for the refund path of the alpha contract.
    pub alpha_ledger_refund_identity: Vec<u8>,
    /// The initiator's identity for the redeem path of the beta contract.
    pub beta_ledger_redeem_identity: Vec<u8>,
}

/// A swap request as the initiator assembles it, before it becomes a
/// protocol message.
#[derive(Debug, Clone, PartialEq, Eq)]
pub struct SwapRequest {
    pub alpha_asset: AssetKind,
    pub beta_asset: AssetKind,
    pub alpha_ledger: LedgerParams,
    pub beta_ledger: LedgerParams,
    /// How long the alpha contract stays locked, in seconds.
    pub alpha_ledger_lock_duration: u64,
    pub identities: SwapRequestIdentities,
    /// Where to reach the counterparty, as `host:port` text.
    pub bob_socket_address: String,
}

/// What is kept about a swap for later dispatch: the chains, the asset
/// kinds and the local role.
#[derive(Debug, Clone, PartialEq, Eq)]
pub struct Metadata {
    pub alpha_ledger: LedgerKind,
    pub beta_ledger: LedgerKind,
    pub alpha_asset: AssetKind,
    pub beta_asset: AssetKind,
    pub role: RoleKind,
}

impl From<SwapRequest> for Metadata {
    fn from(request: SwapRequest) -> (r: Metadata) {
        Metadata {
            alpha_ledger: request.alpha_ledger.kind(),
            beta_ledger: request.beta_ledger.kind(),
            alpha_asset: request.alpha_asset,
            beta_asset: request.beta_asset,
            role: RoleKind::Alice,
        }
    }
}

impl vstd::std_specs::convert::FromSpecImpl<SwapRequest> for Metadata {
    open spec fn obeys_from_spec() -> bool {
        true
    }

    open spec fn from_spec(request: SwapRequest) -> Metadata {
        Metadata {
            alpha_ledger: request.alpha_ledger.spec_kind(),
            beta_ledger: request.beta_ledger.spec_kind(),
            alpha_asset: request.alpha_asset,
            beta_asset: request.beta_asset,
            role: RoleKind::Alice,
        }
    }
}

} // verus!
