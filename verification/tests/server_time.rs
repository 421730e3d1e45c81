use sarbot::server_time::{server_time_from_body, server_time_text};

#[test]
fn epoch_is_midnight_first_of_january_1970() {
    assert_eq!(server_time_text(0).unwrap(), "1970-01-01 00:00:00");
}

#[test]
fn milliseconds_are_dropped_from_the_text() {
    assert_eq!(server_time_text(1499827319559).unwrap(), "2017-07-12 02:41:59");
    assert_eq!(server_time_text(-1500).unwrap(), "1969-12-31 23:59:58");
}

#[test]
fn instants_beyond_chrono_have_no_text() {
    assert!(server_time_text(i64::MAX).is_none());
    assert!(server_time_text(i64::MIN).is_none());
}

#[test]
fn server_time_read_from_response_body() {
    assert_eq!(
        server_time_from_body(br#"{"serverTime":1499827319559}"#).unwrap(),
        "2017-07-12 02:41:59"
    );
}

#[test]
fn body_without_integer_server_time_has_no_text() {
    assert!(server_time_from_body(b"not json").is_none());
    assert!(server_time_from_body(br#"{"serverTime":"1499827319559"}"#).is_none());
    assert!(server_time_from_body(br#"{"time":1}"#).is_none());
    assert!(server_time_from_body(br#"{"serverTime":9223372036854775807}"#).is_none());
}
