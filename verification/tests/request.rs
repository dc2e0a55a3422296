use computress::decimal::{digits_to_u64, u64_to_string};
use computress::request::{approval_controls, ControlStyle, NameRequest, ParseError};

fn req(player_uid: u64, requested_name: &str) -> NameRequest {
    NameRequest { player_uid, requested_name: requested_name.to_string() }
}

#[test]
fn render_fixed_shape() {
    let r = req(42, "Steve");
    assert_eq!(r.render_message(), "Name request from Player 42: **Steve**");
}

#[test]
fn render_zero_uid() {
    let r = req(0, "A");
    assert_eq!(r.render_message(), "Name request from Player 0: **A**");
}

#[test]
fn round_trip_simple() {
    let r = req(42, "Steve");
    let out = NameRequest::parse_from_notification_message(&r.render_message()).unwrap();
    assert_eq!(out.player_uid, 42);
    assert_eq!(out.requested_name, "Steve");
}

#[test]
fn round_trip_max_uid() {
    let r = req(u64::MAX, "x");
    let out = NameRequest::parse_from_notification_message(&r.render_message()).unwrap();
    assert_eq!(out.player_uid, u64::MAX);
    assert_eq!(out.requested_name, "x");
}

#[test]
fn round_trip_name_with_delimiter() {
    // A name holding the bold delimiter survives, because recovery takes the
    // name greedily to the closing delimiter at the very end of the text.
    let r = req(7, "a**b");
    let out = NameRequest::parse_from_notification_message(&r.render_message()).unwrap();
    assert_eq!(out.requested_name, "a**b");
}

#[test]
fn round_trip_name_ending_in_stars() {
    let r = req(7, "ab**");
    let rendered = r.render_message();
    assert_eq!(rendered, "Name request from Player 7: **ab****");
    let out = NameRequest::parse_from_notification_message(&rendered).unwrap();
    assert_eq!(out.requested_name, "ab**");
}

#[test]
fn round_trip_unicode_name() {
    let r = req(9000, "Стив 🚀");
    let out = NameRequest::parse_from_notification_message(&r.render_message()).unwrap();
    assert_eq!(out.player_uid, 9000);
    assert_eq!(out.requested_name, "Стив 🚀");
}

#[test]
fn parse_valid_message() {
    let out = NameRequest::parse_from_notification_message("Name request from Player 7: **X**")
        .unwrap();
    assert_eq!(out.player_uid, 7);
    assert_eq!(out.requested_name, "X");
}

#[test]
fn parse_rejects_empty() {
    let r = NameRequest::parse_from_notification_message("");
    assert!(matches!(r, Err(ParseError::Malformed)));
}

#[test]
fn parse_rejects_wrong_prefix() {
    let r = NameRequest::parse_from_notification_message("Name request for Player 7: **X**");
    assert!(matches!(r, Err(ParseError::Malformed)));
}

#[test]
fn parse_rejects_missing_digits() {
    let r = NameRequest::parse_from_notification_message("Name request from Player : **X**");
    assert!(matches!(r, Err(ParseError::Malformed)));
}

#[test]
fn parse_rejects_missing_separator() {
    let r = NameRequest::parse_from_notification_message("Name request from Player 7 **X**");
    assert!(matches!(r, Err(ParseError::Malformed)));
}

#[test]
fn parse_rejects_single_star_delimiters() {
    let r = NameRequest::parse_from_notification_message("Name request from Player 7: *X*");
    assert!(matches!(r, Err(ParseError::Malformed)));
}

#[test]
fn parse_rejects_missing_trailing_delimiter() {
    let r = NameRequest::parse_from_notification_message("Name request from Player 7: **X");
    assert!(matches!(r, Err(ParseError::Malformed)));
}

#[test]
fn parse_rejects_empty_name() {
    let r = NameRequest::parse_from_notification_message("Name request from Player 7: ****");
    assert!(matches!(r, Err(ParseError::Malformed)));
}

#[test]
fn parse_rejects_newline_in_name() {
    let r = NameRequest::parse_from_notification_message("Name request from Player 7: **a\nb**");
    assert!(matches!(r, Err(ParseError::Malformed)));
}

#[test]
fn parse_rejects_trailing_text() {
    let r = NameRequest::parse_from_notification_message("Name request from Player 7: **X** ");
    assert!(matches!(r, Err(ParseError::Malformed)));
}

#[test]
fn parse_rejects_oversized_identifier() {
    let msg = "Name request from Player 99999999999999999999999: **X**";
    let r = NameRequest::parse_from_notification_message(msg);
    assert!(matches!(r, Err(ParseError::InvalidIdentifier)));
}

#[test]
fn parse_accepts_leading_zeros() {
    let out = NameRequest::parse_from_notification_message("Name request from Player 007: **X**")
        .unwrap();
    assert_eq!(out.player_uid, 7);
}

#[test]
fn controls_are_approve_then_deny() {
    let c = approval_controls();
    assert_eq!(c.len(), 2);
    assert_eq!(c[0].custom_id, "namereq_approve");
    assert_eq!(c[0].label, "Approve");
    assert!(matches!(c[0].style, ControlStyle::Affirmative));
    assert_eq!(c[1].custom_id, "namereq_deny");
    assert_eq!(c[1].label, "Deny");
    assert!(matches!(c[1].style, ControlStyle::Destructive));
}

#[test]
fn decimal_rendering() {
    assert_eq!(u64_to_string(0), "0");
    assert_eq!(u64_to_string(1), "1");
    assert_eq!(u64_to_string(10), "10");
    assert_eq!(u64_to_string(208), "208");
    assert_eq!(u64_to_string(u64::MAX), "18446744073709551615");
}

#[test]
fn decimal_parsing() {
    assert_eq!(digits_to_u64("123", 0, 3), Some(123));
    assert_eq!(digits_to_u64("18446744073709551615", 0, 20), Some(u64::MAX));
    assert_eq!(digits_to_u64("18446744073709551616", 0, 20), None);
}
