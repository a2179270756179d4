//! The on-chain lifecycle of one side's hash time-locked contract.
//!
//! The lifecycle only ever moves forward: a contract is deployed, funded
//! correctly or incorrectly, and finally redeemed or refunded. Every
//! transition is driven by one watcher event; the reducer here is a pure
//! function of state and event, and never revisits a state.

use crate::asset::{spec_asset_eq, AssetKind};
use crate::rfc003::ledger::OutPoint;
use crate::secret::Secret;
use vstd::prelude::*;

verus! {

/// Where one side's contract lives once deployed.
#[derive(Debug, Clone, PartialEq, Eq)]
pub enum HtlcLocation {
    /// A bitcoin contract is an unspent output.
    Bitcoin(OutPoint),
    /// An ethereum contract is an account address.
    Ethereum(Vec<u8>),
}

/// The lifecycle phase of one side's contract, without its data.
#[derive(Debug, Clone, Copy, PartialEq, Eq, Structural)]
pub enum HtlcState {
    NotDeployed,
    Deployed,
    Funded,
    IncorrectlyFunded,
    Redeemed,
    Refunded,
}

/// The lifecycle state of one side's contract.
#[derive(Debug, Clone, PartialEq, Eq)]
pub enum LedgerState {
    /// No contract has been seen on chain.
    NotDeployed,
    /// The contract exists but has not been funded.
    Deployed { htlc_location: HtlcLocation },
    /// The contract holds exactly the expected asset.
    Funded { htlc_location: HtlcLocation, asset: AssetKind },
    /// The observed funding does not match the expected asset; terminal.
    IncorrectlyFunded { htlc_location: HtlcLocation, asset: AssetKind },
    /// The contract was spent by revealing the secret; terminal.
    Redeemed { htlc_location: HtlcLocation, asset: AssetKind, secret: Secret },
    /// The contract was spent through the refund path; terminal.
    Refunded { htlc_location: HtlcLocation, asset: AssetKind },
}

/// One observation the watcher delivers for one side's contract.
#[derive(Debug, Clone, PartialEq, Eq)]
pub enum LedgerEvent {
    /// The contract appeared on chain.
    Deployed { location: HtlcLocation },
    /// The contract received funding of the given amount.
    Funded { asset: AssetKind },
    /// The contract was spent by a transaction revealing the secret.
    Redeemed { secret: Secret },
    /// The contract was spent through the refund path.
    Refunded,
}

impl LedgerState {
    /// The lifecycle phase of this state.
    pub open spec fn spec_htlc_state(self) -> HtlcState {
        match self {
            LedgerState::NotDeployed => HtlcState::NotDeployed,
            LedgerState::Deployed { .. } => HtlcState::Deployed,
            LedgerState::Funded { .. } => HtlcState::Funded,
            LedgerState::IncorrectlyFunded { .. } => HtlcState::IncorrectlyFunded,
            LedgerState::Redeemed { .. } => HtlcState::Redeemed,
            LedgerState::Refunded { .. } => HtlcState::Refunded,
        }
    }

    /// Returns the lifecycle phase of this state.
    pub fn htlc_state(&self) -> (r: HtlcState)
        ensures
            r == self.spec_htlc_state(),
    {
        match self {
            LedgerState::NotDeployed => HtlcState::NotDeployed,
            LedgerState::Deployed { .. } => HtlcState::Deployed,
            LedgerState::Funded { .. } => HtlcState::Funded,
            LedgerState::IncorrectlyFunded { .. } => HtlcState::IncorrectlyFunded,
            LedgerState::Redeemed { .. } => HtlcState::Redeemed,
            LedgerState::Refunded { .. } => HtlcState::Refunded,
        }
    }

    /// How far along the lifecycle a state is; transitions never lower it.
    pub open spec fn rank(self) -> int {
        match self {
            LedgerState::NotDeployed => 0,
            LedgerState::Deployed { .. } => 1,
            LedgerState::Funded { .. } => 2,
            LedgerState::IncorrectlyFunded { .. } => 3,
            LedgerState::Redeemed { .. } => 3,
            LedgerState::Refunded { .. } => 3,
        }
    }

    /// Whether the lifecycle has ended; a terminal state accepts no event.
    pub open spec fn spec_is_terminal(self) -> bool {
        match self {
            LedgerState::IncorrectlyFunded { .. } => true,
            LedgerState::Redeemed { .. } => true,
            LedgerState::Refunded { .. } => true,
            _ => false,
        }
    }

    /// Returns whether the lifecycle has ended.
    pub fn is_terminal(&self) -> (r: bool)
        ensures
            r == self.spec_is_terminal(),
    {
        match self {
            LedgerState::IncorrectlyFunded { .. } => true,
            LedgerState::Redeemed { .. } => true,
            LedgerState::Refunded { .. } => true,
            _ => false,
        }
    }
}

/// The transition relation of the lifecycle: what one event does to one
/// state, given the asset the contract is expected to hold.
///
/// Exactly the legal next event advances the state; funding with the wrong
/// amount reaches `IncorrectlyFunded`; every other event leaves the state
/// unchanged, so a terminal state absorbs everything.
pub open spec fn spec_apply_event(s: LedgerState, e: LedgerEvent, expected: AssetKind) -> LedgerState {
    match (s, e) {
        (LedgerState::NotDeployed, LedgerEvent::Deployed { location }) => LedgerState::Deployed {
            htlc_location: location,
        },
        (LedgerState::Deployed { htlc_location }, LedgerEvent::Funded { asset }) => if spec_asset_eq(
            asset,
            expected,
        ) {
            LedgerState::Funded { htlc_location, asset }
        } else {
            LedgerState::IncorrectlyFunded { htlc_location, asset }
        },
        (
            LedgerState::Funded { htlc_location, asset },
            LedgerEvent::Redeemed { secret },
        ) => LedgerState::Redeemed { htlc_location, asset, secret },
        (LedgerState::Funded { htlc_location, asset }, LedgerEvent::Refunded) => LedgerState::Refunded {
            htlc_location,
            asset,
        },
        (s, _) => s,
    }
}

/// Applies one watcher event to one side's lifecycle state.
pub fn apply_event(s: LedgerState, e: LedgerEvent, expected: &AssetKind) -> (r: LedgerState)
    ensures
        r == spec_apply_event(s, e, *expected),
{
    match (s, e) {
        (LedgerState::NotDeployed, LedgerEvent::Deployed { location }) => LedgerState::Deployed {
            htlc_location: location,
        },
        (LedgerState::Deployed { htlc_location }, LedgerEvent::Funded { asset }) => {
            if crate::asset::asset_kind_eq(&asset, expected) {
                LedgerState::Funded { htlc_location, asset }
            } else {
                LedgerState::IncorrectlyFunded { htlc_location, asset }
            }
        },
        (
            LedgerState::Funded { htlc_location, asset },
            LedgerEvent::Redeemed { secret },
        ) => LedgerState::Redeemed { htlc_location, asset, secret },
        (LedgerState::Funded { htlc_location, asset }, LedgerEvent::Refunded) => LedgerState::Refunded {
            htlc_location,
            asset,
        },
        (s, _) => s,
    }
}

/// One transition never moves the lifecycle backward, and a terminal state
/// absorbs every event.
pub proof fn lemma_apply_event_monotonic(s: LedgerState, e: LedgerEvent, expected: AssetKind)
    ensures
        spec_apply_event(s, e, expected).rank() >= s.rank(),
        s.spec_is_terminal() ==> spec_apply_event(s, e, expected) == s,
{
}

/// The lifecycle state after a whole sequence of watcher events.
pub open spec fn spec_apply_events(
    s: LedgerState,
    es: Seq<LedgerEvent>,
    expected: AssetKind,
) -> LedgerState
    decreases es.len(),
{
    if es.len() == 0 {
        s
    } else {
        spec_apply_events(spec_apply_event(s, es[0], expected), es.drop_first(), expected)
    }
}

/// The lifecycle is monotonic under every sequence of watcher events: the
/// state never moves backward, and once a terminal state is reached no
/// event changes it.
pub proof fn lemma_lifecycle_monotonic(s: LedgerState, es: Seq<LedgerEvent>, expected: AssetKind)
    ensures
        spec_apply_events(s, es, expected).rank() >= s.rank(),
        s.spec_is_terminal() ==> spec_apply_events(s, es, expected) == s,
    decreases es.len(),
{
    if es.len() > 0 {
        lemma_apply_event_monotonic(s, es[0], expected);
        lemma_lifecycle_monotonic(spec_apply_event(s, es[0], expected), es.drop_first(), expected);
    }
}

} // verus!
