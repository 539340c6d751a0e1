use http_horse::reconcile::ChangeNotification;
use http_horse::sse::{escape_json, notification_frame, sse_frame, u64_to_decimal};
use http_horse::FSEventObserverDisconnectedError;

#[test]
fn decimal_digits_are_exact() {
    assert_eq!(u64_to_decimal(0), b"0".to_vec());
    assert_eq!(u64_to_decimal(7), b"7".to_vec());
    assert_eq!(u64_to_decimal(42), b"42".to_vec());
    assert_eq!(u64_to_decimal(600_000), b"600000".to_vec());
    assert_eq!(u64_to_decimal(1_000_000_007), b"1000000007".to_vec());
    assert_eq!(
        u64_to_decimal(u64::MAX),
        b"18446744073709551615".to_vec()
    );
}

#[test]
fn json_escaping_is_exact() {
    assert_eq!(escape_json(b"plain path"), b"plain path".to_vec());
    assert_eq!(escape_json(b"a\"b"), b"a\\\"b".to_vec());
    assert_eq!(escape_json(b"a\\b"), b"a\\\\b".to_vec());
    assert_eq!(escape_json(b"a\nb"), b"a\\u000ab".to_vec());
    assert_eq!(escape_json(b"\x00"), b"\\u0000".to_vec());
    assert_eq!(escape_json(b"\x1f"), b"\\u001f".to_vec());
    assert_eq!(escape_json(b""), b"".to_vec());
}

#[test]
fn frames_carry_a_data_line_and_a_blank_line() {
    assert_eq!(sse_frame(b"hi"), b"data: hi\n\n".to_vec());
    assert_eq!(sse_frame(b""), b"data: \n\n".to_vec());
}

#[test]
fn notification_frame_is_exact() {
    let n = ChangeNotification { sequence_number: 12, summary: b"write /p/x".to_vec() };
    assert_eq!(
        notification_frame(&n),
        b"data: {\"seq\": 12, \"summary\": \"write /p/x\"}\n\n".to_vec()
    );
}

#[test]
fn observer_disconnected_message() {
    let e = FSEventObserverDisconnectedError;
    assert_eq!(e.message(), "FS Event Observer has disconnected");
}
