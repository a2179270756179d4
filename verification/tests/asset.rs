use cnd::asset::{asset_kind_eq, AssetKind, Bitcoin, Erc20, Erc20Quantity, Ether, MAX_ETHER_WEI};
use std::str::FromStr;

#[test]
fn one_plus_one_equals_two() {
    let one = Ether::from(1u8);
    let two = one.clone().checked_add(one);

    assert_eq!(two, Some(Ether::from(2u8)))
}

#[test]
fn checked_add_refuses_a_sum_above_the_maximum() {
    let max = Ether::max_value();
    let one = Ether::from(1u8);
    assert_eq!(max.checked_add(one), None);
}

#[test]
fn checked_add_refuses_an_operand_above_the_maximum() {
    let too_big = Ether::from_wei(MAX_ETHER_WEI + 1);
    assert_eq!(too_big.checked_add(Ether::zero()), None);
    assert_eq!(Ether::zero().checked_add(too_big), None);
}

#[test]
fn checked_add_at_the_boundary_succeeds() {
    let almost = Ether::from_wei(MAX_ETHER_WEI - 1);
    let one = Ether::from(1u8);
    assert_eq!(almost.checked_add(one), Some(Ether::max_value()));
}

#[test]
fn wei_round_trips_through_from_wei() {
    let e = Ether::from_wei(123_456_789);
    assert_eq!(e.wei(), 123_456_789u128);
    assert_eq!(Ether::zero().wei(), 0u128);
}

#[test]
fn ether_from_wei_dec_str_reads_a_quintillion() {
    let e = Ether::from_wei_dec_str("1000000000000000000").unwrap();
    assert_eq!(e.wei(), 1_000_000_000_000_000_000u128);
}

#[test]
fn ether_from_wei_dec_str_refuses_junk() {
    assert_eq!(Ether::from_wei_dec_str(""), None);
    assert_eq!(Ether::from_wei_dec_str("12a"), None);
    assert_eq!(Ether::from_wei_dec_str("-5"), None);
    // One more than the largest 128 bit value.
    assert_eq!(
        Ether::from_wei_dec_str("340282366920938463463374607431768211456"),
        None
    );
}

#[test]
fn ether_wei_text_round_trips() {
    let e = Ether::from_wei(987_654_321_000u128);
    let text = e.to_wei_dec_str();
    assert_eq!(text, "987654321000");
    assert_eq!(Ether::from_wei_dec_str(&text), Some(e));
}

#[test]
fn ether_quantity_from_str() {
    assert_eq!(
        Ether::from_str("1.000000001").unwrap().wei(),
        1_000_000_001_000_000_000u128
    )
}

#[test]
fn whole_ether_text_scales_to_wei() {
    assert_eq!(
        Ether::from_eth_str("100").unwrap().wei(),
        100_000_000_000_000_000_000u128
    );
    assert_eq!(Ether::from_eth_str("0").unwrap().wei(), 0);
}

#[test]
fn fractional_ether_text_scales_to_wei() {
    assert_eq!(
        Ether::from_eth_str("1234.000001").unwrap().wei(),
        1_234_000_001_000_000_000_000u128
    );
    assert_eq!(
        Ether::from_eth_str("0.000000000000000001").unwrap().wei(),
        1
    );
}

#[test]
fn malformed_ether_text_is_refused() {
    assert!(Ether::from_eth_str("").is_none());
    assert!(Ether::from_eth_str(".5").is_none());
    assert!(Ether::from_eth_str("1.").is_none());
    assert!(Ether::from_eth_str("1.2.3").is_none());
    assert!(Ether::from_eth_str("1,5").is_none());
    // Nineteen fraction digits: finer than one wei.
    assert!(Ether::from_eth_str("0.0000000000000000001").is_none());
    assert!(Ether::from_str("nonsense").is_err());
}

#[test]
fn asset_kind_eq_compares_kind_and_amount() {
    let btc = AssetKind::Bitcoin(Bitcoin::from_sat(42));
    let btc_same = AssetKind::Bitcoin(Bitcoin(42));
    let btc_other = AssetKind::Bitcoin(Bitcoin(43));
    let eth = AssetKind::Ether(Ether::from_wei(42));
    assert!(asset_kind_eq(&btc, &btc_same));
    assert!(!asset_kind_eq(&btc, &btc_other));
    assert!(!asset_kind_eq(&btc, &eth));
}

#[test]
fn asset_kind_eq_compares_token_contracts() {
    let token_a = AssetKind::Erc20(Erc20::new(vec![1u8; 20], Erc20Quantity(7)));
    let token_a_again = AssetKind::Erc20(Erc20::new(vec![1u8; 20], Erc20Quantity(7)));
    let token_b = AssetKind::Erc20(Erc20::new(vec![2u8; 20], Erc20Quantity(7)));
    let token_a_more = AssetKind::Erc20(Erc20::new(vec![1u8; 20], Erc20Quantity(8)));
    assert!(asset_kind_eq(&token_a, &token_a_again));
    assert!(!asset_kind_eq(&token_a, &token_b));
    assert!(!asset_kind_eq(&token_a, &token_a_more));
}

#[test]
fn bitcoin_sat_accessors() {
    let b = Bitcoin::from_sat(100_000_000);
    assert_eq!(b.as_sat(), 100_000_000);
}
