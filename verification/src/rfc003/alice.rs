//! The full state of one swap as one party holds it.
//!
//! A swap's state is its negotiation phase plus the independent lifecycle
//! of each ledger side, together with the seed its identities and secret
//! are derived from. Events replace the state wholesale; nothing is
//! mutated in place.

pub mod swap_request;

use crate::rfc003::ledger_state::{spec_apply_event, apply_event, LedgerEvent, LedgerState};
use crate::rfc003::messages::{Accept, Decline, Request};
use crate::rfc003::Error;
use crate::secret::SwapSeed;
use vstd::prelude::*;
use vstd::string::*;

verus! {

/// The negotiation phase of a swap: proposed, then accepted or declined.
#[derive(Debug, Clone, PartialEq, Eq)]
pub enum SwapCommunication {
    Proposed { request: Request },
    Accepted { request: Request, response: Accept },
    Declined { request: Request, response: Decline },
}

impl SwapCommunication {
    /// The request the negotiation is about, whatever its phase.
    pub open spec fn spec_request(&self) -> Request {
        match self {
            SwapCommunication::Proposed { request } => *request,
            SwapCommunication::Accepted { request, .. } => *request,
            SwapCommunication::Declined { request, .. } => *request,
        }
    }

    /// The acceptance of an accepted negotiation.
    pub open spec fn spec_accept(&self) -> Accept
        recommends
            self is Accepted,
    {
        self->Accepted_response
    }

    /// Returns the request the negotiation is about.
    pub fn request(&self) -> (r: &Request)
        ensures
            *r == self.spec_request(),
    {
        match self {
            SwapCommunication::Proposed { request } => request,
            SwapCommunication::Accepted { request, .. } => request,
            SwapCommunication::Declined { request, .. } => request,
        }
    }
}

/// Everything one party holds about one swap: the negotiation phase, both
/// contract lifecycles, and the seed that derives identities and secret.
#[derive(Debug, Clone, PartialEq, Eq)]
pub struct State {
    pub swap_communication: SwapCommunication,
    pub alpha_ledger_state: LedgerState,
    pub beta_ledger_state: LedgerState,
    /// Used to derive identities and also to generate the secret.
    pub secret_source: SwapSeed,
}

impl State {
    /// The state right after proposing: nothing on chain yet.
    pub fn proposed(request: Request, secret_source: SwapSeed) -> (r: State)
        ensures
            r.swap_communication == (SwapCommunication::Proposed { request }),
            r.alpha_ledger_state == LedgerState::NotDeployed,
            r.beta_ledger_state == LedgerState::NotDeployed,
            r.secret_source == secret_source,
    {
        State {
            swap_communication: SwapCommunication::Proposed { request },
            alpha_ledger_state: LedgerState::NotDeployed,
            beta_ledger_state: LedgerState::NotDeployed,
            secret_source,
        }
    }

    /// The state right after the counterparty accepted.
    pub fn accepted(request: Request, response: Accept, secret_source: SwapSeed) -> (r: State)
        ensures
            r.swap_communication == (SwapCommunication::Accepted { request, response }),
            r.alpha_ledger_state == LedgerState::NotDeployed,
            r.beta_ledger_state == LedgerState::NotDeployed,
            r.secret_source == secret_source,
    {
        State {
            swap_communication: SwapCommunication::Accepted { request, response },
            alpha_ledger_state: LedgerState::NotDeployed,
            beta_ledger_state: LedgerState::NotDeployed,
            secret_source,
        }
    }

    /// The state right after the counterparty declined: terminal for the
    /// negotiation, and both ledger sides stay untouched.
    pub fn declined(request: Request, response: Decline, secret_source: SwapSeed) -> (r: State)
        ensures
            r.swap_communication == (SwapCommunication::Declined { request, response }),
            r.alpha_ledger_state == LedgerState::NotDeployed,
            r.beta_ledger_state == LedgerState::NotDeployed,
            r.secret_source == secret_source,
    {
        State {
            swap_communication: SwapCommunication::Declined { request, response },
            alpha_ledger_state: LedgerState::NotDeployed,
            beta_ledger_state: LedgerState::NotDeployed,
            secret_source,
        }
    }

    /// Returns the request this swap is about.
    pub fn request(&self) -> (r: &Request)
        ensures
            *r == self.swap_communication.spec_request(),
    {
        self.swap_communication.request()
    }

    /// Returns the asset the alpha-side contract must hold.
    pub fn expected_alpha_asset(&self) -> (r: &crate::asset::AssetKind)
        ensures
            *r == self.swap_communication.spec_request().alpha_asset,
    {
        &self.swap_communication.request().alpha_asset
    }

    /// Returns the asset the beta-side contract must hold.
    pub fn expected_beta_asset(&self) -> (r: &crate::asset::AssetKind)
        ensures
            *r == self.swap_communication.spec_request().beta_asset,
    {
        &self.swap_communication.request().beta_asset
    }

    /// Applies one watcher event to the alpha side, replacing the state
    /// wholesale; everything else is carried over unchanged.
    ///
    /// A declined swap accepts no further ledger events: an event arriving
    /// after a decline is a violation of the protocol's legal state
    /// combinations and surfaces as an internal error, aborting this
    /// swap's watch.
    pub fn apply_alpha_event(self, event: LedgerEvent) -> (r: Result<State, Error>)
        ensures
            self.swap_communication is Declined <==> r is Err,
            r matches Err(e) ==> e is Internal,
            r matches Ok(s) ==> ({
                &&& s.alpha_ledger_state == spec_apply_event(
                    self.alpha_ledger_state,
                    event,
                    self.swap_communication.spec_request().alpha_asset,
                )
                &&& s.beta_ledger_state == self.beta_ledger_state
                &&& s.swap_communication == self.swap_communication
                &&& s.secret_source == self.secret_source
            }),
    {
        let State { swap_communication, alpha_ledger_state, beta_ledger_state, secret_source } =
            self;
        if matches!(swap_communication, SwapCommunication::Declined { .. }) {
            return Err(Error::Internal(String::from_str("ledger event for a declined swap")));
        }
        let new_alpha = apply_event(
            alpha_ledger_state,
            event,
            &swap_communication.request().alpha_asset,
        );
        Ok(
            State {
                swap_communication,
                alpha_ledger_state: new_alpha,
                beta_ledger_state,
                secret_source,
            },
        )
    }

    /// Applies one watcher event to the beta side, replacing the state
    /// wholesale; everything else is carried over unchanged.
    ///
    /// A declined swap accepts no further ledger events: an event arriving
    /// after a decline is a violation of the protocol's legal state
    /// combinations and surfaces as an internal error, aborting this
    /// swap's watch.
    pub fn apply_beta_event(self, event: LedgerEvent) -> (r: Result<State, Error>)
        ensures
            self.swap_communication is Declined <==> r is Err,
            r matches Err(e) ==> e is Internal,
            r matches Ok(s) ==> ({
                &&& s.beta_ledger_state == spec_apply_event(
                    self.beta_ledger_state,
                    event,
                    self.swap_communication.spec_request().beta_asset,
                )
                &&& s.alpha_ledger_state == self.alpha_ledger_state
                &&& s.swap_communication == self.swap_communication
                &&& s.secret_source == self.secret_source
            }),
    {
        let State { swap_communication, alpha_ledger_state, beta_ledger_state, secret_source } =
            self;
        if matches!(swap_communication, SwapCommunication::Declined { .. }) {
            return Err(Error::Internal(String::from_str("ledger event for a declined swap")));
        }
        let new_beta = apply_event(
            beta_ledger_state,
            event,
            &swap_communication.request().beta_asset,
        );
        Ok(
            State {
                swap_communication,
                alpha_ledger_state,
                beta_ledger_state: new_beta,
                secret_source,
            },
        )
    }
}

} // verus!
