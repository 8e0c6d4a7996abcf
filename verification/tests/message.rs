use capslock_sync::message::encode_state;
use capslock_sync::message::parse_payload;

#[test]
fn encode_on_is_one() {
    assert_eq!(encode_state(true).as_str(), "1");
}

#[test]
fn encode_off_is_zero() {
    assert_eq!(encode_state(false).as_str(), "0");
}

#[test]
fn parse_one_is_on() {
    assert_eq!(parse_payload("1"), Some(true));
}

#[test]
fn parse_zero_is_off() {
    assert_eq!(parse_payload("0"), Some(false));
}

#[test]
fn parse_rejects_banana() {
    assert_eq!(parse_payload("banana"), None);
}

#[test]
fn parse_rejects_empty() {
    assert_eq!(parse_payload(""), None);
}

#[test]
fn parse_rejects_two_characters() {
    assert_eq!(parse_payload("10"), None);
    assert_eq!(parse_payload("11"), None);
}

#[test]
fn parse_rejects_other_digit() {
    assert_eq!(parse_payload("2"), None);
}

#[test]
fn parse_rejects_padded_payload() {
    assert_eq!(parse_payload("1 "), None);
    assert_eq!(parse_payload(" 0"), None);
}

#[test]
fn round_trip_both_states() {
    assert_eq!(parse_payload(encode_state(true).as_str()), Some(true));
    assert_eq!(parse_payload(encode_state(false).as_str()), Some(false));
}
