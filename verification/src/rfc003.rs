//! The swap protocol core: negotiation messages, per-ledger lifecycle,
//! parameters of the hash time-locked contracts, and the errors the
//! protocol surfaces.

pub mod actions;
pub mod alice;
pub mod create_swap;
pub mod ledger;
pub mod ledger_state;
pub mod messages;
pub mod state_store;

use crate::rfc003::messages::Request;
use crate::Timestamp;
use vstd::prelude::*;

verus! {

/// Which party this node plays in a swap.
#[derive(Debug, Clone, Copy, PartialEq, Eq, Structural)]
pub enum RoleKind {
    /// The initiator: proposes the swap and owns the secret's fate on the
    /// beta ledger.
    Alice,
    /// The counterparty: accepts or declines, funds the beta ledger.
    Bob,
}

/// Returns whether the alpha-side expiry lies in the past.
pub fn alpha_expiry_has_passed(request: &Request, now: Timestamp) -> (r: bool)
    ensures
        r == (request.alpha_expiry.0 < now.0),
{
    crate::expiry_has_passed(request.alpha_expiry, now)
}

/// Returns whether the beta-side expiry lies in the past.
pub fn beta_expiry_has_passed(request: &Request, now: Timestamp) -> (r: bool)
    ensures
        r == (request.beta_expiry.0 < now.0),
{
    crate::expiry_has_passed(request.beta_expiry, now)
}

/// The conditions under which a swap cannot make progress.
///
/// Protocol violations are not errors: a wrong funding amount becomes the
/// terminal `IncorrectlyFunded` state. Errors are reserved for connector
/// failures, exhausted waiting budgets and internal disagreements between
/// the core and its connector.
#[derive(Debug, Clone, PartialEq, Eq)]
pub enum Error {
    /// The blockchain connector failed; the caller decides whether to
    /// restart the watch.
    Btsieve,
    /// A waiting budget ran out before the awaited event was observed.
    TimerError,
    /// A funding transaction did not pay what the contract parameters ask.
    IncorrectFunding,
    /// The connector and the core disagree, for instance about a block the
    /// connector vouched for; not retriable.
    Internal(String),
}

} // verus!
