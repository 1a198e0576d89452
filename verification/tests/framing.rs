use kraken_collector::collectors::camera::camera_metadata;
use kraken_collector::collectors::serial::serial_metadata;
use kraken_collector::collectors::tcp::tcp_metadata;
use kraken_collector::collectors::bjig::bjig_metadata;
use kraken_collector::json::{append_i64, append_u64, json_object1_string, json_quoted_string};

#[test]
fn plain_text_is_quoted_verbatim() {
    assert_eq!(json_quoted_string("abc"), "\"abc\"");
    assert_eq!(json_quoted_string(""), "\"\"");
}

#[test]
fn quotes_backslashes_and_controls_are_escaped() {
    assert_eq!(json_quoted_string("a\"b"), "\"a\\\"b\"");
    assert_eq!(json_quoted_string("a\\b"), "\"a\\\\b\"");
    assert_eq!(json_quoted_string("a\nb\tc"), "\"a\\u000ab\\u0009c\"");
    assert_eq!(json_quoted_string("\u{1}"), "\"\\u0001\"");
}

#[test]
fn decimal_formatting_is_exact() {
    let mut s = String::new();
    append_u64(&mut s, 0);
    assert_eq!(s, "0");
    let mut s = String::new();
    append_u64(&mut s, 1234567890);
    assert_eq!(s, "1234567890");
    let mut s = String::new();
    append_i64(&mut s, -42);
    assert_eq!(s, "-42");
    let mut s = String::new();
    append_i64(&mut s, i64::MIN);
    assert_eq!(s, "-9223372036854775808");
}

#[test]
fn single_member_objects_are_framed_exactly() {
    assert_eq!(json_object1_string("k", "v"), "{\"k\":\"v\"}");
    assert_eq!(json_object1_string("k", "a\"b"), "{\"k\":\"a\\\"b\"}");
}

#[test]
fn adapter_metadata_is_framed_exactly() {
    assert_eq!(tcp_metadata("10.0.0.1:4711"), "{\"peer_addr\":\"10.0.0.1:4711\"}");
    assert_eq!(serial_metadata("meter"), "{\"device_name\":\"meter\"}");
    assert_eq!(
        camera_metadata("image/jpeg", "front door", "Index(0)"),
        "{\"format\":\"image/jpeg\",\"camera_name\":\"front door\",\"camera_index\":\"Index(0)\"}"
    );
    assert_eq!(bjig_metadata(false), "{\"bjig\":\"data\"}");
    assert_eq!(bjig_metadata(true), "{\"bjig\":\"alert\"}");
}
