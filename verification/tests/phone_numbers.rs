use tween_accounts::phone_number::dial_code;
use tween_accounts::phone_number::normalize_phone;

#[test]
fn national_numbers_get_their_country_code() {
    assert_eq!(
        normalize_phone("NG", "8012345678").as_deref(),
        Some("+2348012345678")
    );
    // The trunk prefix is dropped, or the carrier rejects the number.
    assert_eq!(
        normalize_phone("ng", "08012345678").as_deref(),
        Some("+2348012345678")
    );
    assert_eq!(
        normalize_phone("GB", "07400123456").as_deref(),
        Some("+447400123456")
    );
    assert_eq!(
        normalize_phone("GB", "7400123456").as_deref(),
        Some("+447400123456")
    );
}

#[test]
fn international_numbers_are_left_alone() {
    assert_eq!(
        normalize_phone("NG", "+2348012345678").as_deref(),
        Some("+2348012345678")
    );
    assert_eq!(
        normalize_phone("NG", "002348012345678").as_deref(),
        Some("+2348012345678")
    );
    // Country code sent without the plus is not doubled up.
    assert_eq!(
        normalize_phone("NG", "2348012345678").as_deref(),
        Some("+2348012345678")
    );
    assert_eq!(
        normalize_phone("NG", "+234 801 234 5678").as_deref(),
        Some("+2348012345678")
    );
}

#[test]
fn unusable_numbers_are_rejected() {
    assert_eq!(normalize_phone("NG", ""), None);
    assert_eq!(normalize_phone("NG", "abc"), None);
    assert_eq!(normalize_phone("NG", "123"), None);
    assert_eq!(normalize_phone("NG", "+1234567890123456"), None);
    // No dial code for this country and no international prefix.
    assert_eq!(normalize_phone("ZZ", "8012345678"), None);
}

#[test]
fn every_market_has_its_dial_code() {
    let codes = [
        ("NG", "234"),
        ("GH", "233"),
        ("KE", "254"),
        ("ZA", "27"),
        ("EG", "20"),
        ("CI", "225"),
        ("CM", "237"),
        ("SN", "221"),
        ("UG", "256"),
        ("TZ", "255"),
        ("RW", "250"),
        ("US", "1"),
        ("CA", "1"),
        ("GB", "44"),
    ];
    for (country, code) in codes {
        assert_eq!(dial_code(country), Some(code));
        assert_eq!(dial_code(&country.to_lowercase()), Some(code));
    }
    assert_eq!(dial_code("ZZ"), None);
    assert_eq!(dial_code(""), None);
}

#[test]
fn lengths_at_the_limits() {
    assert_eq!(normalize_phone("NG", "+12345678").as_deref(), Some("+12345678"));
    assert_eq!(normalize_phone("NG", "+1234567"), None);
    assert_eq!(
        normalize_phone("NG", "+123456789012345").as_deref(),
        Some("+123456789012345")
    );
}

#[test]
fn no_country_code_starts_with_a_zero() {
    assert_eq!(normalize_phone("NG", "+0123456789"), None);
    assert_eq!(normalize_phone("NG", "000123456789"), None);
    assert_eq!(normalize_phone("ZZ", "+02348012345678"), None);
    // Behind the country code a zero is a digit like any other.
    assert_eq!(normalize_phone("NG", "+1023456789").as_deref(), Some("+1023456789"));
}

#[test]
fn normalizing_twice_is_normalizing_once() {
    let once = normalize_phone("GB", "07400 123-456").unwrap();
    assert_eq!(once, "+447400123456");
    assert_eq!(normalize_phone("NG", &once), Some(once.clone()));
    assert_eq!(normalize_phone("??", &once), Some(once));
}

#[test]
fn punctuation_and_white_space_are_ignored() {
    assert_eq!(
        normalize_phone("US", "\u{3000}(212) 555-0100\n").as_deref(),
        Some("+12125550100")
    );
    // A plus that is not at the front is punctuation.
    assert_eq!(
        normalize_phone("US", "212+5550100").as_deref(),
        Some("+12125550100")
    );
}
