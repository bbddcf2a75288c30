use tween_accounts::ids::parse_ulid;
use tween_accounts::instant::Instant;
use tween_accounts::json::JsonValue;
use tween_accounts::numerals::padded;
use tween_accounts::text::byte_len;
use tween_accounts::text::chars_of;
use tween_accounts::text::has_prefix_at;
use tween_accounts::text::same_text;
use tween_accounts::text::string_from;
use tween_accounts::text::string_up_to;
use tween_accounts::users::username::username_valid;
use tween_accounts::users::username::valid_username_character;

#[test]
fn texts_are_taken_apart_and_put_together() {
    let chars = chars_of("héllo");
    assert_eq!(chars, vec!['h', 'é', 'l', 'l', 'o']);
    assert_eq!(string_from(&chars, 1), "éllo");
    assert_eq!(string_from(&chars, 5), "");
    assert_eq!(string_up_to(&chars, 2), "hé");
    assert_eq!(byte_len("héllo"), 6);
    assert!(has_prefix_at(&chars, 2, "ll"));
    assert!(!has_prefix_at(&chars, 2, "llox"));
    assert!(!has_prefix_at(&chars, 0, "he"));
    assert!(same_text("a", "a"));
    assert!(!same_text("a", "ab"));
    assert!(!same_text("a", "b"));
}

#[test]
fn ulids_are_read_in_either_case() {
    assert_eq!(parse_ulid("00000000000000000000000000"), Some(0));
    assert_eq!(parse_ulid("0000000000000000000000000Z"), Some(31));
    assert_eq!(parse_ulid("0000000000000000000000001z"), Some(63));
    assert_eq!(parse_ulid("7ZZZZZZZZZZZZZZZZZZZZZZZZZ"), Some(u128::MAX));
    // The bits above the 128th are lost.
    assert_eq!(parse_ulid("8000000000000000000000000Z"), Some(31));
    assert_eq!(parse_ulid("0000000000000000000000000I"), None);
    assert_eq!(parse_ulid(" 0000000000000000000000000"), None);
    assert_eq!(parse_ulid("é000000000000000000000000"), None);
}

#[test]
fn numbers_are_padded() {
    assert_eq!(padded(0, 6), "000000");
    assert_eq!(padded(42, 6), "000042");
    assert_eq!(padded(1_234_567, 6), "1234567");
    assert_eq!(padded(u32::MAX, 0), "4294967295");
}

#[test]
fn instants_are_compared_to_the_nanosecond() {
    let start = Instant { seconds: 100, nanos: 5 };
    let end = Instant { seconds: 3700, nanos: 5 };
    assert!(!end.is_later_by_more_than(&start, 3600));
    assert!(Instant { seconds: 3700, nanos: 6 }.is_later_by_more_than(&start, 3600));
    assert!(end.is_after(&start));
    assert!(!start.is_after(&start));
    assert!(!Instant { seconds: i64::MIN, nanos: 0 }.is_after(&start));
}

#[test]
fn json_values_are_read() {
    let json = |text: &str| {
        let value: serde_json::Value = serde_json::from_str(text).unwrap();
        JsonValue::from_value(&value)
    };
    let value = json(r#"{"a": "x", "b": [null, true, 1.50, -7]}"#);
    assert_eq!(value.text_member("a"), Some("x"));
    assert_eq!(value.text_member("b"), None);
    assert_eq!(
        value.member("b"),
        Some(&JsonValue::Array(vec![
            JsonValue::Null,
            JsonValue::Bool(true),
            JsonValue::Number("1.5".to_owned()),
            JsonValue::Number("-7".to_owned()),
        ]))
    );
    assert_eq!(value.member("c"), None);
    assert_eq!(json("\"s\"").as_text(), Some("s"));
}

#[test]
fn usernames_are_checked() {
    assert!(username_valid("alice"));
    assert!(username_valid("a_b-c.d/e+f=9"));
    assert!(username_valid(&"a".repeat(255)));
    assert!(!username_valid(&"a".repeat(256)));
    assert!(!username_valid(""));
    assert!(!username_valid("_alice"));
    assert!(!username_valid("Alice"));
    assert!(!username_valid("al ice"));
    assert!(!username_valid("alicé"));
    assert!(valid_username_character('z'));
    assert!(!valid_username_character('Z'));
    assert!(!valid_username_character('@'));
}
