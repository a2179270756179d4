use cnd::asset::{AssetKind, Bitcoin, Ether};
use cnd::db::{
    comm_from_record, comm_to_record, ledger_state_from_record, ledger_state_to_record,
    DecimalU256, EthereumAddress, LedgerStateRecord, Satoshis,
};
use cnd::rfc003::alice::SwapCommunication;
use cnd::rfc003::ledger::{Bitcoin as BitcoinLedger, Ethereum, LedgerParams, Network, OutPoint};
use cnd::rfc003::ledger_state::{HtlcLocation, HtlcState, LedgerState};
use cnd::rfc003::messages::{Accept, Decline, Request};
use cnd::secret::{Secret, SecretHash, SwapSeed};
use cnd::Timestamp;

fn sample_request() -> Request {
    let seed = SwapSeed::new(vec![7u8; 32]);
    let secret = seed.derive_secret();
    Request {
        alpha_ledger: LedgerParams::Bitcoin(BitcoinLedger {
            network: Network::Regtest,
        }),
        beta_ledger: LedgerParams::Ethereum(Ethereum { chain_id: 17 }),
        alpha_asset: AssetKind::Bitcoin(Bitcoin(100_000_000)),
        beta_asset: AssetKind::Ether(Ether::from_wei(10_000_000_000_000_000_000u128)),
        alpha_ledger_refund_identity: seed.derive_refund_identity(),
        beta_ledger_redeem_identity: seed.derive_redeem_identity(),
        alpha_expiry: Timestamp(2_000_000_000),
        beta_expiry: Timestamp(1_900_000_000),
        secret_hash: SecretHash::from_secret(&secret),
    }
}

#[test]
fn proposed_swap_communication_round_trips() {
    let value = SwapCommunication::Proposed {
        request: sample_request(),
    };
    let restored = comm_from_record(comm_to_record(value.clone()));
    assert_eq!(restored, Some(value));
}

#[test]
fn accepted_swap_communication_round_trips() {
    let value = SwapCommunication::Accepted {
        request: sample_request(),
        response: Accept {
            alpha_ledger_redeem_identity: vec![9u8; 20],
            beta_ledger_refund_identity: vec![8u8; 20],
        },
    };
    let restored = comm_from_record(comm_to_record(value.clone()));
    assert_eq!(restored, Some(value));
}

#[test]
fn declined_swap_communication_round_trips() {
    let value = SwapCommunication::Declined {
        request: sample_request(),
        response: Decline {
            reason: Some("rate expired".to_string()),
        },
    };
    let restored = comm_from_record(comm_to_record(value.clone()));
    assert_eq!(restored, Some(value));
}

#[test]
fn every_ledger_state_round_trips() {
    let location = HtlcLocation::Bitcoin(OutPoint { txid: 11, vout: 1 });
    let eth_location = HtlcLocation::Ethereum(vec![5u8; 20]);
    let asset = AssetKind::Bitcoin(Bitcoin(55));
    let secret = Secret::from_vec(vec![3u8; 32]).unwrap();
    let values = vec![
        LedgerState::NotDeployed,
        LedgerState::Deployed {
            htlc_location: location.clone(),
        },
        LedgerState::Funded {
            htlc_location: eth_location.clone(),
            asset: asset.clone(),
        },
        LedgerState::IncorrectlyFunded {
            htlc_location: location.clone(),
            asset: asset.clone(),
        },
        LedgerState::Redeemed {
            htlc_location: location.clone(),
            asset: asset.clone(),
            secret,
        },
        LedgerState::Refunded {
            htlc_location: location,
            asset,
        },
    ];
    for value in values {
        let restored = ledger_state_from_record(ledger_state_to_record(value.clone()));
        assert_eq!(restored, Some(value));
    }
}

#[test]
fn incoherent_record_is_refused() {
    let record = LedgerStateRecord {
        phase: HtlcState::Funded,
        location: None,
        asset: None,
        secret: None,
    };
    assert_eq!(ledger_state_from_record(record), None);
}

#[test]
fn satoshis_text_round_trips() {
    assert_eq!(Satoshis(0).to_text(), "0");
    assert_eq!(Satoshis(123_456).to_text(), "123456");
    assert_eq!(Satoshis(u64::MAX).to_text(), "18446744073709551615");
    assert_eq!(Satoshis::parse_text("0"), Some(Satoshis(0)));
    assert_eq!(Satoshis::parse_text("123456"), Some(Satoshis(123_456)));
    assert_eq!(
        Satoshis::parse_text("18446744073709551615"),
        Some(Satoshis(u64::MAX))
    );
}

#[test]
fn satoshis_parse_refuses_junk_and_overflow() {
    assert_eq!(Satoshis::parse_text(""), None);
    assert_eq!(Satoshis::parse_text("12 "), None);
    assert_eq!(Satoshis::parse_text("0x10"), None);
    assert_eq!(Satoshis::parse_text("18446744073709551616"), None);
}

#[test]
fn decimal_u256_text_round_trips() {
    let v = DecimalU256(340_282_366_920_938_463_463_374_607_431_768_211_455u128);
    let text = v.to_text();
    assert_eq!(text, "340282366920938463463374607431768211455");
    assert_eq!(DecimalU256::parse_text(&text), Some(v));
    assert_eq!(
        DecimalU256::parse_text("340282366920938463463374607431768211456"),
        None
    );
}

#[test]
fn ethereum_address_text_round_trips() {
    let addr = EthereumAddress(vec![
        0x00, 0xff, 0x1a, 0x2b, 0x3c, 0x4d, 0x5e, 0x6f, 0x70, 0x81, 0x92, 0xa3, 0xb4, 0xc5, 0xd6,
        0xe7, 0xf8, 0x09, 0x10, 0x21,
    ]);
    let text = addr.to_text();
    assert_eq!(text, "00ff1a2b3c4d5e6f708192a3b4c5d6e7f8091021");
    assert_eq!(EthereumAddress::parse_text(&text), Some(addr));
}

#[test]
fn ethereum_address_parse_refuses_bad_text() {
    // Too short, odd shapes, uppercase and non-hex characters.
    assert_eq!(EthereumAddress::parse_text(""), None);
    assert_eq!(EthereumAddress::parse_text("00ff"), None);
    assert_eq!(
        EthereumAddress::parse_text("00FF1A2B3C4D5E6F708192A3B4C5D6E7F8091021"),
        None
    );
    assert_eq!(
        EthereumAddress::parse_text("zzff1a2b3c4d5e6f708192a3b4c5d6e7f8091021"),
        None
    );
}
