use cnd::asset::{AssetKind, Bitcoin, Ether};
use cnd::btsieve::{matching_transaction, Connector};
use cnd::chain::{Block, Transaction, TransactionReceipt};
use cnd::rfc003::actions::{next_action, NextAction};
use cnd::rfc003::alice::{State, SwapCommunication};
use cnd::rfc003::create_swap::{alpha_params, beta_params, extract_secret, observed_funding};
use cnd::rfc003::ledger::{Bitcoin as BitcoinLedger, Ethereum, LedgerParams, Network, OutPoint};
use cnd::rfc003::ledger_state::{apply_event, HtlcLocation, LedgerEvent, LedgerState};
use cnd::rfc003::messages::{Accept, Decline, Request};
use cnd::rfc003::{alpha_expiry_has_passed, beta_expiry_has_passed, Error, RoleKind};
use cnd::secret::{Secret, SecretHash, SwapSeed};
use cnd::Timestamp;

struct SimConnector {
    heads: Vec<Block>,
    head_calls: usize,
    blocks: Vec<Block>,
    receipts: Vec<(u64, TransactionReceipt)>,
}

impl Connector for SimConnector {
    fn latest_block(&mut self) -> Result<Option<Block>, Error> {
        let i = if self.head_calls < self.heads.len() {
            self.head_calls
        } else {
            self.heads.len() - 1
        };
        self.head_calls += 1;
        Ok(Some(self.heads[i].clone()))
    }

    fn block_by_hash(&mut self, hash: u64) -> Result<Option<Block>, Error> {
        Ok(self.blocks.iter().find(|b| b.hash == Some(hash)).cloned())
    }

    fn receipt_by_hash(&mut self, transaction_hash: u64) -> Result<Option<TransactionReceipt>, Error> {
        Ok(self
            .receipts
            .iter()
            .find(|(h, _)| *h == transaction_hash)
            .map(|(_, r)| r.clone()))
    }

    fn wait_before_next_poll(&mut self) {}
}

fn single_block_chain(transactions: Vec<Transaction>) -> SimConnector {
    let b = Block {
        hash: Some(1),
        parent_hash: 0,
        timestamp: 10,
        transactions: transactions.clone(),
    };
    SimConnector {
        heads: vec![b.clone()],
        head_calls: 0,
        blocks: vec![b],
        receipts: transactions
            .iter()
            .map(|t| {
                (
                    t.hash,
                    TransactionReceipt {
                        successful: true,
                        logs: Vec::new(),
                    },
                )
            })
            .collect(),
    }
}

fn payment(hash: u64, to: Vec<u8>, value: u128, input: Vec<u8>) -> Transaction {
    Transaction {
        hash,
        from: vec![0xaa; 20],
        to: Some(to),
        value,
        input,
    }
}

fn one_btc_for_ten_eth() -> (Request, Accept, SwapSeed) {
    let seed = SwapSeed::new(vec![21u8; 32]);
    let secret = seed.derive_secret();
    let bob_seed = SwapSeed::new(vec![22u8; 32]);
    let request = Request {
        alpha_ledger: LedgerParams::Bitcoin(BitcoinLedger {
            network: Network::Regtest,
        }),
        beta_ledger: LedgerParams::Ethereum(Ethereum { chain_id: 1 }),
        // 1.0 BTC in satoshis against 10 ETH in wei.
        alpha_asset: AssetKind::Bitcoin(Bitcoin(100_000_000)),
        beta_asset: AssetKind::Ether(Ether::from_wei(10_000_000_000_000_000_000u128)),
        alpha_ledger_refund_identity: seed.derive_refund_identity(),
        beta_ledger_redeem_identity: seed.derive_redeem_identity(),
        alpha_expiry: Timestamp(1_000),
        beta_expiry: Timestamp(800),
        secret_hash: SecretHash::from_secret(&secret),
    };
    let accept = Accept {
        alpha_ledger_redeem_identity: bob_seed.derive_redeem_identity(),
        beta_ledger_refund_identity: bob_seed.derive_refund_identity(),
    };
    (request, accept, seed)
}

#[test]
fn lifecycle_advances_only_on_the_legal_event() {
    let expected = AssetKind::Bitcoin(Bitcoin(100));
    let location = HtlcLocation::Bitcoin(OutPoint { txid: 5, vout: 0 });

    let deployed = apply_event(
        LedgerState::NotDeployed,
        LedgerEvent::Deployed {
            location: location.clone(),
        },
        &expected,
    );
    assert_eq!(
        deployed,
        LedgerState::Deployed {
            htlc_location: location.clone()
        }
    );

    let funded = apply_event(
        deployed.clone(),
        LedgerEvent::Funded {
            asset: AssetKind::Bitcoin(Bitcoin(100)),
        },
        &expected,
    );
    assert_eq!(
        funded,
        LedgerState::Funded {
            htlc_location: location.clone(),
            asset: AssetKind::Bitcoin(Bitcoin(100)),
        }
    );

    let secret = Secret::from_vec(vec![9u8; 32]).unwrap();
    let redeemed = apply_event(
        funded.clone(),
        LedgerEvent::Redeemed {
            secret: secret.clone(),
        },
        &expected,
    );
    assert_eq!(
        redeemed,
        LedgerState::Redeemed {
            htlc_location: location.clone(),
            asset: AssetKind::Bitcoin(Bitcoin(100)),
            secret,
        }
    );

    let refunded = apply_event(funded, LedgerEvent::Refunded, &expected);
    assert!(matches!(refunded, LedgerState::Refunded { .. }));
}

#[test]
fn wrong_funding_amount_reaches_incorrectly_funded() {
    let expected = AssetKind::Bitcoin(Bitcoin(100_000_000));
    let location = HtlcLocation::Bitcoin(OutPoint { txid: 5, vout: 0 });
    let deployed = LedgerState::Deployed {
        htlc_location: location.clone(),
    };
    let state = apply_event(
        deployed,
        LedgerEvent::Funded {
            asset: AssetKind::Bitcoin(Bitcoin(50_000_000)),
        },
        &expected,
    );
    assert_eq!(
        state,
        LedgerState::IncorrectlyFunded {
            htlc_location: location,
            asset: AssetKind::Bitcoin(Bitcoin(50_000_000)),
        }
    );
}

/// Monotonic lifecycle on a concrete event sequence: out-of-order events
/// are ignored, and a terminal state absorbs everything that follows.
#[test]
fn lifecycle_never_moves_backward() {
    let expected = AssetKind::Bitcoin(Bitcoin(100));
    let location = HtlcLocation::Bitcoin(OutPoint { txid: 5, vout: 0 });
    let secret = Secret::from_vec(vec![4u8; 32]).unwrap();

    // A redeem before funding changes nothing.
    let still_not_deployed = apply_event(
        LedgerState::NotDeployed,
        LedgerEvent::Redeemed {
            secret: secret.clone(),
        },
        &expected,
    );
    assert_eq!(still_not_deployed, LedgerState::NotDeployed);

    // Walk to the terminal state, then throw every event at it.
    let redeemed = LedgerState::Redeemed {
        htlc_location: location.clone(),
        asset: expected.clone(),
        secret: secret.clone(),
    };
    let events = vec![
        LedgerEvent::Deployed {
            location: location.clone(),
        },
        LedgerEvent::Funded {
            asset: expected.clone(),
        },
        LedgerEvent::Redeemed { secret },
        LedgerEvent::Refunded,
    ];
    let mut state = redeemed.clone();
    for event in events {
        state = apply_event(state, event, &expected);
        assert_eq!(state, redeemed);
    }
}

#[test]
fn state_constructors_start_with_untouched_ledgers() {
    let (request, accept, seed) = one_btc_for_ten_eth();
    let proposed = State::proposed(request.clone(), seed.clone());
    assert_eq!(proposed.alpha_ledger_state, LedgerState::NotDeployed);
    assert_eq!(proposed.beta_ledger_state, LedgerState::NotDeployed);
    assert!(matches!(
        proposed.swap_communication,
        SwapCommunication::Proposed { .. }
    ));
    assert_eq!(proposed.request(), &request);

    let accepted = State::accepted(request.clone(), accept, seed.clone());
    assert!(matches!(
        accepted.swap_communication,
        SwapCommunication::Accepted { .. }
    ));
    assert_eq!(accepted.expected_alpha_asset(), &request.alpha_asset);
    assert_eq!(accepted.expected_beta_asset(), &request.beta_asset);

    let declined = State::declined(
        request.clone(),
        Decline {
            reason: Some("no".to_string()),
        },
        seed,
    );
    assert!(matches!(
        declined.swap_communication,
        SwapCommunication::Declined { .. }
    ));
    assert_eq!(declined.alpha_ledger_state, LedgerState::NotDeployed);
}

#[test]
fn declined_swap_refuses_ledger_events() {
    let (request, _, seed) = one_btc_for_ten_eth();
    let declined = State::declined(request, Decline { reason: None }, seed);
    let location = HtlcLocation::Bitcoin(OutPoint { txid: 9, vout: 0 });

    let alpha_result = declined.clone().apply_alpha_event(LedgerEvent::Deployed {
        location: location.clone(),
    });
    assert!(matches!(alpha_result, Err(Error::Internal(_))));

    let beta_result = declined.apply_beta_event(LedgerEvent::Deployed { location });
    assert!(matches!(beta_result, Err(Error::Internal(_))));
}

#[test]
fn declined_swap_yields_no_action() {
    let (request, _, seed) = one_btc_for_ten_eth();
    let declined = State::declined(request, Decline { reason: None }, seed);
    assert_eq!(next_action(&declined, RoleKind::Alice, Timestamp(0)), None);
    assert_eq!(next_action(&declined, RoleKind::Bob, Timestamp(0)), None);
}

#[test]
fn expiry_checks_compare_against_now() {
    let (request, _, _) = one_btc_for_ten_eth();
    assert!(!alpha_expiry_has_passed(&request, Timestamp(1_000)));
    assert!(alpha_expiry_has_passed(&request, Timestamp(1_001)));
    assert!(!beta_expiry_has_passed(&request, Timestamp(800)));
    assert!(beta_expiry_has_passed(&request, Timestamp(801)));
}

/// The end-to-end scenario: Alice proposes 1 BTC against 10 ETH, Bob
/// accepts, both sides fund exactly, Bob redeems alpha revealing the
/// secret, and action derivation tells Alice to redeem beta with it.
#[test]
fn full_swap_reaches_redeemed_on_both_sides() {
    let (request, accept, seed) = one_btc_for_ten_eth();
    let mut state = State::accepted(request.clone(), accept.clone(), seed);

    // The watcher finds the bitcoin funding transaction: it pays the
    // computed contract address exactly 1.0 BTC before expiry.
    let alpha = alpha_params(&request, &accept);
    let alpha_address = alpha.compute_address();
    let fund_tx = payment(101, alpha_address.clone(), 100_000_000, Vec::new());
    let mut chain = single_block_chain(vec![fund_tx]);
    let found = matching_transaction(&mut chain, &alpha.fund_pattern(), None, 3, 10)
        .expect("the funding transaction must match");
    let location = HtlcLocation::Bitcoin(OutPoint {
        txid: found.transaction.hash,
        vout: 0,
    });
    state = state
        .apply_alpha_event(LedgerEvent::Deployed {
            location: location.clone(),
        })
        .expect("an accepted swap takes events");
    let observed = observed_funding(state.expected_alpha_asset(), &found.transaction).unwrap();
    state = state
        .apply_alpha_event(LedgerEvent::Funded { asset: observed })
        .expect("an accepted swap takes events");
    assert!(matches!(state.alpha_ledger_state, LedgerState::Funded { .. }));

    // The watcher then finds the ethereum funding transaction paying the
    // beta contract 10 ETH.
    let beta = beta_params(&request, &accept);
    let beta_address = beta.compute_address();
    let beta_fund_tx = payment(
        201,
        beta_address.clone(),
        10_000_000_000_000_000_000u128,
        Vec::new(),
    );
    let mut beta_chain = single_block_chain(vec![beta_fund_tx]);
    let beta_found = matching_transaction(&mut beta_chain, &beta.fund_pattern(), None, 3, 10)
        .expect("the beta funding transaction must match");
    let beta_location = HtlcLocation::Ethereum(beta_address.clone());
    state = state
        .apply_beta_event(LedgerEvent::Deployed {
            location: beta_location.clone(),
        })
        .expect("an accepted swap takes events");
    let beta_observed =
        observed_funding(state.expected_beta_asset(), &beta_found.transaction).unwrap();
    state = state
        .apply_beta_event(LedgerEvent::Funded {
            asset: beta_observed,
        })
        .expect("an accepted swap takes events");
    assert!(matches!(state.beta_ledger_state, LedgerState::Funded { .. }));

    // Bob redeems on bitcoin, revealing the secret in the call data.
    let secret = SwapSeed::new(vec![21u8; 32]).derive_secret();
    let redeem_tx = payment(102, alpha_address, 0, secret.clone().into_raw_secret());
    let mut redeem_chain = single_block_chain(vec![redeem_tx]);
    let redeem_found =
        matching_transaction(&mut redeem_chain, &alpha.redeem_pattern(), None, 3, 10)
            .expect("the redeeming transaction must match");
    let harvested = extract_secret(&redeem_found.transaction, &request.secret_hash)
        .expect("the revealed secret must hash to the lock");
    state = state
        .apply_alpha_event(LedgerEvent::Redeemed {
            secret: harvested.clone(),
        })
        .expect("an accepted swap takes events");
    assert!(matches!(
        state.alpha_ledger_state,
        LedgerState::Redeemed { .. }
    ));

    // Action derivation now tells Alice to redeem beta with the
    // harvested secret.
    let action = next_action(&state, RoleKind::Alice, Timestamp(100))
        .expect("alice must have a redeem action");
    match action {
        NextAction::Redeem {
            location, secret, ..
        } => {
            assert_eq!(location, beta_location);
            assert_eq!(
                secret.into_raw_secret(),
                harvested.clone().into_raw_secret()
            );
        }
        other => panic!("expected a redeem action, got {:?}", other),
    }

    // Applying that redeem on beta finishes the swap.
    state = state
        .apply_beta_event(LedgerEvent::Redeemed { secret: harvested })
        .expect("an accepted swap takes events");
    assert!(matches!(
        state.beta_ledger_state,
        LedgerState::Redeemed { .. }
    ));
}

/// The underfunding scenario: the bitcoin funding pays 0.5 BTC instead of
/// 1.0, the lifecycle reaches `IncorrectlyFunded`, and no fund or redeem
/// action is offered afterward.
#[test]
fn underfunded_swap_offers_no_fund_or_redeem_action() {
    let (request, accept, seed) = one_btc_for_ten_eth();
    let mut state = State::accepted(request.clone(), accept.clone(), seed);

    let alpha = alpha_params(&request, &accept);
    let alpha_address = alpha.compute_address();
    // 0.5 BTC instead of the expected 1.0.
    let fund_tx = payment(301, alpha_address, 50_000_000, Vec::new());
    let mut chain = single_block_chain(vec![fund_tx]);
    let found = matching_transaction(&mut chain, &alpha.fund_pattern(), None, 3, 10)
        .expect("even a wrong funding must be delivered");
    let location = HtlcLocation::Bitcoin(OutPoint {
        txid: found.transaction.hash,
        vout: 0,
    });
    state = state
        .apply_alpha_event(LedgerEvent::Deployed { location })
        .expect("an accepted swap takes events");
    let observed = observed_funding(state.expected_alpha_asset(), &found.transaction).unwrap();
    state = state
        .apply_alpha_event(LedgerEvent::Funded { asset: observed })
        .expect("an accepted swap takes events");
    assert!(matches!(
        state.alpha_ledger_state,
        LedgerState::IncorrectlyFunded { .. }
    ));

    // Before expiry: nothing to do - in particular no fund and no redeem.
    assert_eq!(next_action(&state, RoleKind::Alice, Timestamp(100)), None);
    assert_eq!(next_action(&state, RoleKind::Bob, Timestamp(100)), None);

    // After expiry the only offered action is the refund.
    let after_expiry = next_action(&state, RoleKind::Alice, Timestamp(2_000))
        .expect("alice must be able to refund");
    assert!(matches!(after_expiry, NextAction::Refund { .. }));
    assert_eq!(next_action(&state, RoleKind::Bob, Timestamp(2_000)), None);
}
