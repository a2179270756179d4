use cnd::config::serde_duration::{duration_secs_text, Ser};
use cnd::http_api::{new_action_link, swap_id_text, swap_path};
use cnd::rfc003::messages::SwapId;
use cnd::text::{bytes_to_hex, hex_to_bytes, parse_u128_dec, parse_u64_dec, u128_to_dec};

#[test]
fn swap_id_text_is_the_hyphenated_form() {
    assert_eq!(
        swap_id_text(SwapId(0)),
        "00000000-0000-0000-0000-000000000000"
    );
    assert_eq!(
        swap_id_text(SwapId(0x1234_5678_9abc_def0_1234_5678_9abc_def0)),
        "12345678-9abc-def0-1234-56789abcdef0"
    );
}

#[test]
fn swap_path_prefixes_the_protocol_segments() {
    assert_eq!(
        swap_path(SwapId(1)),
        "/swaps/rfc003/00000000-0000-0000-0000-000000000001"
    );
}

#[test]
fn new_action_link_appends_the_action() {
    assert_eq!(
        new_action_link(&SwapId(1), "accept"),
        "/swaps/rfc003/00000000-0000-0000-0000-000000000001/accept"
    );
}

#[test]
fn durations_are_stored_as_second_counts() {
    assert_eq!(duration_secs_text(0), "0");
    assert_eq!(duration_secs_text(42), "42");
    let inner: u64 = 7;
    let wrapped = Ser::new(&inner);
    assert_eq!(*wrapped.0, 7);
}

#[test]
fn decimal_text_renders_and_parses_exactly() {
    assert_eq!(u128_to_dec(0), "0");
    assert_eq!(u128_to_dec(105), "105");
    assert_eq!(parse_u128_dec("105"), Some(105));
    assert_eq!(parse_u128_dec("007"), Some(7));
    assert_eq!(parse_u64_dec("18446744073709551615"), Some(u64::MAX));
    assert_eq!(parse_u64_dec("18446744073709551616"), None);
}

#[test]
fn hex_text_renders_and_parses_exactly() {
    assert_eq!(bytes_to_hex(&vec![]), "");
    assert_eq!(bytes_to_hex(&vec![0x00, 0xff, 0x1a]), "00ff1a");
    assert_eq!(hex_to_bytes("00ff1a"), Some(vec![0x00, 0xff, 0x1a]));
    assert_eq!(hex_to_bytes("0f"), Some(vec![0x0f]));
    assert_eq!(hex_to_bytes("f"), None);
    assert_eq!(hex_to_bytes("0F"), None);
    assert_eq!(hex_to_bytes("zz"), None);
}
