//! The in-memory store owning each swap's full state.
//!
//! Every swap's state lives in exactly one entry, keyed by the swap's
//! identifier; an update replaces the entry wholesale, never a field in
//! place. The negotiation layer drives entries through `propose`,
//! `accept` and `decline`; the watcher's events arrive as whole replaced
//! states through `update`.

use crate::rfc003::alice::{State, SwapCommunication};
use crate::rfc003::ledger_state::LedgerState;
use crate::rfc003::messages::{Accept, Decline, Request, SwapId};
use crate::secret::SwapSeed;
use std::collections::HashMap;
use vstd::prelude::*;

verus! {

broadcast use vstd::std_specs::hash::group_hash_axioms;

/// The store: one entry per swap, keyed by the identifier's value.
pub struct InMemoryStateStore {
    entries: HashMap<u128, State>,
}

impl InMemoryStateStore {
    /// The stored states, by swap identifier.
    pub closed spec fn view(&self) -> Map<u128, State> {
        self.entries@
    }

    /// An empty store.
    pub fn new() -> (r: InMemoryStateStore)
        ensures
            r@ == Map::<u128, State>::empty(),
    {
        InMemoryStateStore { entries: HashMap::new() }
    }

    /// Creates the entry for a newly proposed swap. The identifier is
    /// chosen by the caller, fresh for every swap, and never reused.
    pub fn propose(&mut self, id: SwapId, request: Request, secret_source: SwapSeed)
        ensures
            final(self)@ == old(self)@.insert(
                id.0,
                (State {
                    swap_communication: SwapCommunication::Proposed { request },
                    alpha_ledger_state: LedgerState::NotDeployed,
                    beta_ledger_state: LedgerState::NotDeployed,
                    secret_source,
                }),
            ),
    {
        let state = State::proposed(request, secret_source);
        self.entries.insert(id.0, state);
    }

    /// Records the counterparty's acceptance of a proposed swap.
    ///
    /// Succeeds exactly when the swap exists and its negotiation is still
    /// in the proposed phase; then the entry is replaced by the accepted
    /// state carrying the stored request and seed. Any other store is
    /// left unchanged.
    pub fn accept(&mut self, id: SwapId, response: Accept) -> (r: bool)
        ensures
            r == (old(self)@.contains_key(id.0)
                && old(self)@[id.0].swap_communication is Proposed),
            r ==> final(self)@ == old(self)@.insert(
                id.0,
                (State {
                    swap_communication: SwapCommunication::Accepted {
                        request: old(self)@[id.0].swap_communication->Proposed_request,
                        response,
                    },
                    alpha_ledger_state: LedgerState::NotDeployed,
                    beta_ledger_state: LedgerState::NotDeployed,
                    secret_source: old(self)@[id.0].secret_source,
                }),
            ),
            !r ==> final(self)@ == old(self)@,
    {
        match self.entries.remove(&id.0) {
            None => false,
            Some(state) => {
                let State {
                    swap_communication,
                    alpha_ledger_state,
                    beta_ledger_state,
                    secret_source,
                } = state;
                match swap_communication {
                    SwapCommunication::Proposed { request } => {
                        let accepted = State::accepted(request, response, secret_source);
                        self.entries.insert(id.0, accepted);
                        proof {
                            assert(self.entries@ =~= old(self)@.insert(
                                id.0,
                                (State {
                                    swap_communication: SwapCommunication::Accepted {
                                        request: old(
                                            self,
                                        )@[id.0].swap_communication->Proposed_request,
                                        response,
                                    },
                                    alpha_ledger_state: LedgerState::NotDeployed,
                                    beta_ledger_state: LedgerState::NotDeployed,
                                    secret_source: old(self)@[id.0].secret_source,
                                }),
                            ));
                        }
                        true
                    },
                    other => {
                        let unchanged = State {
                            swap_communication: other,
                            alpha_ledger_state,
                            beta_ledger_state,
                            secret_source,
                        };
                        self.entries.insert(id.0, unchanged);
                        proof {
                            assert(self.entries@ =~= old(self)@);
                        }
                        false
                    },
                }
            },
        }
    }

    /// Records the counterparty's refusal of a proposed swap.
    ///
    /// Succeeds exactly when the swap exists and its negotiation is still
    /// in the proposed phase; then the entry is replaced by the declined
    /// state, terminal for the negotiation, with both ledger sides left
    /// untouched. Any other store is left unchanged.
    pub fn decline(&mut self, id: SwapId, response: Decline) -> (r: bool)
        ensures
            r == (old(self)@.contains_key(id.0)
                && old(self)@[id.0].swap_communication is Proposed),
            r ==> final(self)@ == old(self)@.insert(
                id.0,
                (State {
                    swap_communication: SwapCommunication::Declined {
                        request: old(self)@[id.0].swap_communication->Proposed_request,
                        response,
                    },
                    alpha_ledger_state: LedgerState::NotDeployed,
                    beta_ledger_state: LedgerState::NotDeployed,
                    secret_source: old(self)@[id.0].secret_source,
                }),
            ),
            !r ==> final(self)@ == old(self)@,
    {
        match self.entries.remove(&id.0) {
            None => false,
            Some(state) => {
                let State {
                    swap_communication,
                    alpha_ledger_state,
                    beta_ledger_state,
                    secret_source,
                } = state;
                match swap_communication {
                    SwapCommunication::Proposed { request } => {
                        let declined = State::declined(request, response, secret_source);
                        self.entries.insert(id.0, declined);
                        proof {
                            assert(self.entries@ =~= old(self)@.insert(
                                id.0,
                                (State {
                                    swap_communication: SwapCommunication::Declined {
                                        request: old(
                                            self,
                                        )@[id.0].swap_communication->Proposed_request,
                                        response,
                                    },
                                    alpha_ledger_state: LedgerState::NotDeployed,
                                    beta_ledger_state: LedgerState::NotDeployed,
                                    secret_source: old(self)@[id.0].secret_source,
                                }),
                            ));
                        }
                        true
                    },
                    other => {
                        let unchanged = State {
                            swap_communication: other,
                            alpha_ledger_state,
                            beta_ledger_state,
                            secret_source,
                        };
                        self.entries.insert(id.0, unchanged);
                        proof {
                            assert(self.entries@ =~= old(self)@);
                        }
                        false
                    },
                }
            },
        }
    }

    /// Returns the full state of one swap, if the store holds it.
    pub fn current_state(&self, id: SwapId) -> (r: Option<&State>)
        ensures
            r matches Some(s) ==> self@.contains_key(id.0) && *s == self@[id.0],
            r is None ==> !self@.contains_key(id.0),
    {
        self.entries.get(&id.0)
    }

    /// Replaces one swap's state wholesale, as an arrived watcher event
    /// demands.
    pub fn update(&mut self, id: SwapId, state: State)
        ensures
            final(self)@ == old(self)@.insert(id.0, state),
    {
        self.entries.insert(id.0, state);
    }
}

} // verus!
