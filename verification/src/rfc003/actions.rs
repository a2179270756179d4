//! Action derivation: the next chain-specific transaction a party must
//! broadcast, computed from the swap's current state.
//!
//! These are pure constructors; nothing here submits a transaction.

use crate::asset::{AssetKind, Bitcoin};
use crate::chain::Transaction;
use crate::rfc003::alice::{State, SwapCommunication};
use crate::rfc003::create_swap::{
    alpha_params, beta_params, is_alpha_params_of, is_beta_params_of, spec_htlc_address,
    HtlcParams,
};
use crate::rfc003::ledger::{LedgerParams, Network, OutPoint};
use crate::rfc003::ledger_state::{HtlcLocation, LedgerState};
use crate::rfc003::RoleKind;
use crate::secret::{
    spec_derived_identity, Secret, SwapSeed, REDEEM_IDENTITY_TAG, REFUND_IDENTITY_TAG,
};
use crate::Timestamp;
use vstd::prelude::*;

verus! {

/// A bitcoin funding transaction to broadcast: pay the contract address.
#[derive(Debug, Clone, PartialEq, Eq)]
pub struct SendToAddress {
    /// The contract address to pay.
    pub to: Vec<u8>,
    /// The amount to lock up.
    pub amount: Bitcoin,
    /// The network to broadcast on.
    pub network: Network,
}

/// How a contract output is unlocked when spending it.
#[derive(Debug, Clone, PartialEq, Eq)]
pub enum UnlockMode {
    /// Spend through the refund path, legal once the expiry passed.
    AfterTimeout { identity: Vec<u8>, expiry: Timestamp },
    /// Spend through the redeem path, revealing the secret.
    WithSecret { identity: Vec<u8>, secret: Secret },
}

/// A contract output primed for spending: the outpoint, its value, and
/// how it is unlocked.
#[derive(Debug, Clone, PartialEq, Eq)]
pub struct PrimedInput {
    pub previous_output: OutPoint,
    pub value: Bitcoin,
    pub unlock: UnlockMode,
}

/// A bitcoin spending transaction to broadcast: consume the contract
/// output.
#[derive(Debug, Clone, PartialEq, Eq)]
pub struct SpendOutput {
    pub output: PrimedInput,
    pub network: Network,
}

/// Builds the transaction that funds a bitcoin contract: pay the computed
/// contract address the agreed amount.
pub fn fund_action(htlc_params: &HtlcParams) -> (r: SendToAddress)
    requires
        htlc_params.ledger is Bitcoin,
        htlc_params.asset is Bitcoin,
    ensures
        r.to@ == spec_htlc_address(*htlc_params),
        htlc_params.asset matches AssetKind::Bitcoin(b) ==> r.amount == b,
        htlc_params.ledger matches LedgerParams::Bitcoin(l) ==> r.network == l.network,
{
    let to = htlc_params.compute_address();
    let amount = if let AssetKind::Bitcoin(b) = &htlc_params.asset {
        Bitcoin(b.0)
    } else {
        assert(false);
        Bitcoin(0)
    };
    let network = if let LedgerParams::Bitcoin(l) = &htlc_params.ledger {
        l.network
    } else {
        assert(false);
        Network::Mainnet
    };
    SendToAddress { to, amount, network }
}

/// Builds the transaction that refunds a bitcoin contract after expiry:
/// spend the funded output back to the refund identity derived from the
/// seed, for the value the funding transaction locked up.
pub fn refund_action(
    htlc_params: &HtlcParams,
    htlc_location: OutPoint,
    secret_source: &SwapSeed,
    fund_transaction: &Transaction,
) -> (r: SpendOutput)
    requires
        htlc_params.ledger is Bitcoin,
        fund_transaction.value <= u64::MAX,
    ensures
        r.output.previous_output == htlc_location,
        r.output.value == (Bitcoin(fund_transaction.value as u64)),
        r.output.unlock matches UnlockMode::AfterTimeout { identity, expiry } && identity@
            == spec_derived_identity(secret_source@, REFUND_IDENTITY_TAG) && expiry
            == htlc_params.expiry,
        htlc_params.ledger matches LedgerParams::Bitcoin(l) ==> r.network == l.network,
{
    let network = if let LedgerParams::Bitcoin(l) = &htlc_params.ledger {
        l.network
    } else {
        assert(false);
        Network::Mainnet
    };
    SpendOutput {
        output: PrimedInput {
            previous_output: htlc_location,
            value: Bitcoin(fund_transaction.value as u64),
            unlock: UnlockMode::AfterTimeout {
                identity: secret_source.derive_refund_identity(),
                expiry: htlc_params.expiry,
            },
        },
        network,
    }
}

/// Builds the transaction that redeems a bitcoin contract: spend the
/// funded output to the redeem identity derived from the seed, revealing
/// the secret.
pub fn redeem_action(
    htlc_params: &HtlcParams,
    htlc_location: OutPoint,
    secret_source: &SwapSeed,
    secret: Secret,
) -> (r: SpendOutput)
    requires
        htlc_params.ledger is Bitcoin,
        htlc_params.asset is Bitcoin,
    ensures
        r.output.previous_output == htlc_location,
        htlc_params.asset matches AssetKind::Bitcoin(b) ==> r.output.value == b,
        r.output.unlock matches UnlockMode::WithSecret { identity, secret: s } && identity@
            == spec_derived_identity(secret_source@, REDEEM_IDENTITY_TAG) && s@ == secret@,
        htlc_params.ledger matches LedgerParams::Bitcoin(l) ==> r.network == l.network,
{
    let network = if let LedgerParams::Bitcoin(l) = &htlc_params.ledger {
        l.network
    } else {
        assert(false);
        Network::Mainnet
    };
    let value = if let AssetKind::Bitcoin(b) = &htlc_params.asset {
        Bitcoin(b.0)
    } else {
        assert(false);
        Bitcoin(0)
    };
    SpendOutput {
        output: PrimedInput {
            previous_output: htlc_location,
            value,
            unlock: UnlockMode::WithSecret {
                identity: secret_source.derive_redeem_identity(),
                secret,
            },
        },
        network,
    }
}

/// Whether two contract locations point at the same place.
pub open spec fn spec_location_eq(a: HtlcLocation, b: HtlcLocation) -> bool {
    match (a, b) {
        (HtlcLocation::Bitcoin(x), HtlcLocation::Bitcoin(y)) => x == y,
        (HtlcLocation::Ethereum(x), HtlcLocation::Ethereum(y)) => x@ == y@,
        _ => false,
    }
}

/// Returns a copy of a contract location.
pub fn duplicate_location(l: &HtlcLocation) -> (r: HtlcLocation)
    ensures
        spec_location_eq(r, *l),
{
    match l {
        HtlcLocation::Bitcoin(o) => HtlcLocation::Bitcoin(*o),
        HtlcLocation::Ethereum(a) => HtlcLocation::Ethereum(crate::bytes::bytes_clone(a)),
    }
}

/// The next transaction the local party should broadcast, by kind.
#[derive(Debug, Clone, PartialEq, Eq)]
pub enum NextAction {
    /// Fund the own side's contract.
    Fund { params: HtlcParams },
    /// Redeem the counterparty's contract with the harvested secret.
    Redeem { params: HtlcParams, location: HtlcLocation, secret: Secret },
    /// Refund the own side's contract after its expiry.
    Refund { params: HtlcParams, location: HtlcLocation },
}

/// The contract location held in a deployed, funded, incorrectly funded,
/// redeemed or refunded lifecycle state.
pub open spec fn spec_state_location(s: LedgerState) -> HtlcLocation
    recommends
        s !is NotDeployed,
{
    match s {
        LedgerState::NotDeployed => HtlcLocation::Bitcoin(
            crate::rfc003::ledger::OutPoint { txid: 0, vout: 0 },
        ),
        LedgerState::Deployed { htlc_location } => htlc_location,
        LedgerState::Funded { htlc_location, .. } => htlc_location,
        LedgerState::IncorrectlyFunded { htlc_location, .. } => htlc_location,
        LedgerState::Redeemed { htlc_location, .. } => htlc_location,
        LedgerState::Refunded { htlc_location, .. } => htlc_location,
    }
}

/// When a funding action is due: the swap is accepted, the own side is
/// untouched, the own expiry has not passed - and for Bob only once the
/// alpha side is funded.
pub open spec fn spec_fund_due(state: State, role: RoleKind, now: Timestamp) -> bool {
    let req = state.swap_communication.spec_request();
    &&& state.swap_communication is Accepted
    &&& match role {
        RoleKind::Alice => state.alpha_ledger_state is NotDeployed && !(req.alpha_expiry.0
            < now.0),
        RoleKind::Bob => state.beta_ledger_state is NotDeployed
            && state.alpha_ledger_state is Funded && !(req.beta_expiry.0 < now.0),
    }
}

/// When a redeem action is due: the counterparty's redeeming transaction
/// revealed the secret on the own side, and the other side is funded.
pub open spec fn spec_redeem_due(state: State, role: RoleKind) -> bool {
    &&& state.swap_communication is Accepted
    &&& match role {
        RoleKind::Alice => state.alpha_ledger_state is Redeemed
            && state.beta_ledger_state is Funded,
        RoleKind::Bob => state.beta_ledger_state is Redeemed
            && state.alpha_ledger_state is Funded,
    }
}

/// When a refund action is due: the own side is funded - correctly or
/// not - and the own expiry has passed.
pub open spec fn spec_refund_due(state: State, role: RoleKind, now: Timestamp) -> bool {
    let req = state.swap_communication.spec_request();
    &&& state.swap_communication is Accepted
    &&& match role {
        RoleKind::Alice => (state.alpha_ledger_state is Funded
            || state.alpha_ledger_state is IncorrectlyFunded) && req.alpha_expiry.0 < now.0,
        RoleKind::Bob => (state.beta_ledger_state is Funded
            || state.beta_ledger_state is IncorrectlyFunded) && req.beta_expiry.0 < now.0,
    }
}

/// Derives the next transaction the local party must broadcast, if any.
///
/// Only an accepted swap yields an action; a declined swap never does.
/// Alice funds alpha before its expiry, redeems beta with the secret
/// harvested from alpha's redeeming transaction, and refunds alpha after
/// expiry - also when it was incorrectly funded. Bob mirrors this: he
/// funds beta once alpha is funded, redeems alpha with the secret
/// harvested from beta, and refunds beta after its expiry. An incorrectly
/// funded side is never funded again and never redeemed.
pub fn next_action(state: &State, role: RoleKind, now: Timestamp) -> (r: Option<NextAction>)
    ensures
        state.swap_communication !is Accepted ==> r is None,
        spec_fund_due(*state, role, now) ==> (r matches Some(a) && a matches NextAction::Fund {
            params,
        } && (role == RoleKind::Alice ==> is_alpha_params_of(
            params,
            state.swap_communication.spec_request(),
            state.swap_communication.spec_accept(),
        )) && (role == RoleKind::Bob ==> is_beta_params_of(
            params,
            state.swap_communication.spec_request(),
            state.swap_communication.spec_accept(),
        ))),
        spec_redeem_due(*state, role) ==> (r matches Some(a) && a matches NextAction::Redeem {
            params,
            location,
            secret,
        } && (role == RoleKind::Alice ==> is_beta_params_of(
            params,
            state.swap_communication.spec_request(),
            state.swap_communication.spec_accept(),
        ) && spec_location_eq(location, spec_state_location(state.beta_ledger_state)) && secret@
            == state.alpha_ledger_state->Redeemed_secret@) && (role == RoleKind::Bob
            ==> is_alpha_params_of(
            params,
            state.swap_communication.spec_request(),
            state.swap_communication.spec_accept(),
        ) && spec_location_eq(location, spec_state_location(state.alpha_ledger_state)) && secret@
            == state.beta_ledger_state->Redeemed_secret@)),
        spec_refund_due(*state, role, now) ==> (r matches Some(a) && a matches NextAction::Refund {
            params,
            location,
        } && (role == RoleKind::Alice ==> is_alpha_params_of(
            params,
            state.swap_communication.spec_request(),
            state.swap_communication.spec_accept(),
        ) && spec_location_eq(location, spec_state_location(state.alpha_ledger_state))) && (role
            == RoleKind::Bob ==> is_beta_params_of(
            params,
            state.swap_communication.spec_request(),
            state.swap_communication.spec_accept(),
        ) && spec_location_eq(location, spec_state_location(state.beta_ledger_state)))),
        !spec_fund_due(*state, role, now) && !spec_redeem_due(*state, role) && !spec_refund_due(
            *state,
            role,
            now,
        ) ==> r is None,
{
    let (request, response) = match &state.swap_communication {
        SwapCommunication::Accepted { request, response } => (request, response),
        _ => {
            return None;
        },
    };
    match role {
        RoleKind::Alice => {
            let alpha_expired = crate::expiry_has_passed(request.alpha_expiry, now);
            if matches!(state.alpha_ledger_state, LedgerState::NotDeployed) && !alpha_expired {
                Some(NextAction::Fund { params: alpha_params(request, response) })
            } else if let (
                LedgerState::Redeemed { secret, .. },
                LedgerState::Funded { htlc_location, .. },
            ) = (&state.alpha_ledger_state, &state.beta_ledger_state) {
                Some(
                    NextAction::Redeem {
                        params: beta_params(request, response),
                        location: duplicate_location(htlc_location),
                        secret: secret.duplicate(),
                    },
                )
            } else if alpha_expired {
                match &state.alpha_ledger_state {
                    LedgerState::Funded { htlc_location, .. } => Some(
                        NextAction::Refund {
                            params: alpha_params(request, response),
                            location: duplicate_location(htlc_location),
                        },
                    ),
                    LedgerState::IncorrectlyFunded { htlc_location, .. } => Some(
                        NextAction::Refund {
                            params: alpha_params(request, response),
                            location: duplicate_location(htlc_location),
                        },
                    ),
                    _ => None,
                }
            } else {
                None
            }
        },
        RoleKind::Bob => {
            let beta_expired = crate::expiry_has_passed(request.beta_expiry, now);
            if matches!(state.beta_ledger_state, LedgerState::NotDeployed) && matches!(
                state.alpha_ledger_state,
                LedgerState::Funded { .. },
            ) && !beta_expired {
                Some(NextAction::Fund { params: beta_params(request, response) })
            } else if let (
                LedgerState::Redeemed { secret, .. },
                LedgerState::Funded { htlc_location, .. },
            ) = (&state.beta_ledger_state, &state.alpha_ledger_state) {
                Some(
                    NextAction::Redeem {
                        params: alpha_params(request, response),
                        location: duplicate_location(htlc_location),
                        secret: secret.duplicate(),
                    },
                )
            } else if beta_expired {
                match &state.beta_ledger_state {
                    LedgerState::Funded { htlc_location, .. } => Some(
                        NextAction::Refund {
                            params: beta_params(request, response),
                            location: duplicate_location(htlc_location),
                        },
                    ),
                    LedgerState::IncorrectlyFunded { htlc_location, .. } => Some(
                        NextAction::Refund {
                            params: beta_params(request, response),
                            location: duplicate_location(htlc_location),
                        },
                    ),
                    _ => None,
                }
            } else {
                None
            }
        },
    }
}

} // verus!
