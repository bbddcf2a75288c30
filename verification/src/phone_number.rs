//! Phone numbers in E.164.

use crate::text::chars_of;
use crate::text::has_prefix_at;
use crate::text::same_text;
use crate::text::string_from;
use vstd::prelude::*;

verus! {

/// The digits of `s`, in order.
pub open spec fn digits_of(s: Seq<char>) -> Seq<char> {
    s.filter(|c: char| crate::text::is_digit(c))
}

/// The dial code of a country, which is given by its two letters in upper case.
pub open spec fn dial_code_of(country: Seq<char>) -> Option<Seq<char>> {
    if country == "NG"@ {
        Some("234"@)
    } else if country == "GH"@ {
        Some("233"@)
    } else if country == "KE"@ {
        Some("254"@)
    } else if country == "ZA"@ {
        Some("27"@)
    } else if country == "EG"@ {
        Some("20"@)
    } else if country == "CI"@ {
        Some("225"@)
    } else if country == "CM"@ {
        Some("237"@)
    } else if country == "SN"@ {
        Some("221"@)
    } else if country == "UG"@ {
        Some("256"@)
    } else if country == "TZ"@ {
        Some("255"@)
    } else if country == "RW"@ {
        Some("250"@)
    } else if country == "US"@ || country == "CA"@ {
        Some("1"@)
    } else if country == "GB"@ {
        Some("44"@)
    } else {
        None
    }
}

/// `country` with its ASCII letters in upper case.
pub open spec fn country_key(country: Seq<char>) -> Seq<char> {
    country.map_values(|c: char| crate::text::ascii_upper(c))
}

/// A national number without its trunk prefix.
pub open spec fn without_trunk(digits: Seq<char>) -> Seq<char> {
    if digits.len() > 0 && digits[0] == '0' {
        digits.skip(1)
    } else {
        digits
    }
}

/// The digits of the complete number, country code first: those of a number that
/// was sent with a plus or the international prefix `00`, or else those of a
/// number of `country`.
pub open spec fn complete_digits(country: Seq<char>, plus: bool, digits: Seq<char>) -> Option<
    Seq<char>,
> {
    if plus {
        Some(digits)
    } else if seq!['0', '0'].is_prefix_of(digits) {
        Some(digits.skip(2))
    } else {
        match dial_code_of(country_key(country)) {
            None => None,
            Some(code) => if code.is_prefix_of(digits) {
                Some(digits)
            } else {
                Some(code + without_trunk(digits))
            },
        }
    }
}

/// Whether `s` has the form of an E.164 number: a plus and 8 to 15 digits, of
/// which the first is no zero, as no country code starts with one.
pub open spec fn is_e164(s: Seq<char>) -> bool {
    &&& 9 <= s.len() <= 16
    &&& s[0] == '+'
    &&& s[1] != '0'
    &&& forall|i: int| 1 <= i < s.len() ==> crate::text::is_digit(#[trigger] s[i])
}

/// The E.164 form of a number as it was submitted, where it has one.
pub open spec fn e164(country: Seq<char>, raw: Seq<char>) -> Option<Seq<char>> {
    let text = crate::text::trimmed(raw);
    let digits = digits_of(text);
    let plus = text.len() > 0 && text[0] == '+';
    if digits.len() == 0 {
        None
    } else {
        match complete_digits(country, plus, digits) {
            Some(number) => if 8 <= number.len() <= 15 && number[0] != '0' {
                Some(seq!['+'] + number)
            } else {
                None
            },
            None => None,
        }
    }
}

/// Dial codes of the markets that numbers are verified in.
pub fn dial_code(country: &str) -> (r: Option<&'static str>)
    ensures
        match r {
            Some(code) => dial_code_of(country_key(country@)) == Some(code@),
            None => dial_code_of(country_key(country@)) is None,
        },
{
    let key = country.to_ascii_uppercase();
    if same_text(&key, "NG") {
        Some("234")
    } else if same_text(&key, "GH") {
        Some("233")
    } else if same_text(&key, "KE") {
        Some("254")
    } else if same_text(&key, "ZA") {
        Some("27")
    } else if same_text(&key, "EG") {
        Some("20")
    } else if same_text(&key, "CI") {
        Some("225")
    } else if same_text(&key, "CM") {
        Some("237")
    } else if same_text(&key, "SN") {
        Some("221")
    } else if same_text(&key, "UG") {
        Some("256")
    } else if same_text(&key, "TZ") {
        Some("255")
    } else if same_text(&key, "RW") {
        Some("250")
    } else if same_text(&key, "US") || same_text(&key, "CA") {
        Some("1")
    } else if same_text(&key, "GB") {
        Some("44")
    } else {
        None
    }
}

/// The digits among some characters.
fn digits_among(chars: &Vec<char>) -> (r: Vec<char>)
    ensures
        r@ == digits_of(chars@),
{
    let mut r: Vec<char> = Vec::new();
    let mut i: usize = 0;
    while i < chars.len()
        invariant
            0 <= i <= chars@.len(),
            r@ == digits_of(chars@.take(i as int)),
        decreases chars@.len() - i,
    {
        let c = chars[i];
        proof {
            let p = |c: char| crate::text::is_digit(c);
            assert(chars@.take(i + 1) =~= chars@.take(i as int).push(c));
            assert(chars@.take(i + 1).drop_last() =~= chars@.take(i as int));
            reveal(Seq::filter);
        }
        if '0' <= c && c <= '9' {
            r.push(c);
        }
        i = i + 1;
    }
    assert(chars@.take(chars@.len() as int) =~= chars@);
    r
}

/// Normalise a submitted number to E.164, or `None` if it cannot be one.
///
/// A number that already carries its country code (`+234…`) is kept as it is;
/// otherwise the dial code for `country` is prepended. Punctuation is ignored.
#[must_use]
pub fn normalize_phone(country: &str, raw: &str) -> (r: Option<String>)
    ensures
        match r {
            Some(number) => e164(country@, raw@) == Some(number@),
            None => e164(country@, raw@) is None,
        },
{
    let text = chars_of(raw.trim());
    let plus: bool = text.len() > 0 && text[0] == '+';
    let digits = digits_among(&text);
    if digits.len() == 0 {
        return None;
    }
    proof {
        reveal_strlit("00");
        reveal_strlit("0");
        assert("00"@ =~= seq!['0', '0']);
        assert(digits@.skip(0) =~= digits@);
    }
    let number: String = if plus {
        string_from(&digits, 0)
    } else if has_prefix_at(&digits, 0, "00") {
        // The ITU international prefix means the number is already complete.
        string_from(&digits, 2)
    } else {
        match dial_code(country) {
            None => {
                return None;
            },
            Some(code) => {
                // Some clients send the country code without the plus.
                if has_prefix_at(&digits, 0, code) {
                    string_from(&digits, 0)
                } else {
                    // National numbers are usually written with a trunk prefix,
                    // which E.164 drops.
                    let national: String = if digits[0] == '0' {
                        string_from(&digits, 1)
                    } else {
                        string_from(&digits, 0)
                    };
                    let mut whole = code.to_owned();
                    whole.append(&national);
                    whole
                }
            },
        }
    };
    // E.164 is at most 15 digits; the shortest assigned numbers are 8. It starts
    // with a country code, and none of those starts with a zero.
    let whole = chars_of(&number);
    if whole.len() < 8 || whole.len() > 15 || whole[0] == '0' {
        return None;
    }
    let mut r = "+".to_owned();
    r.append(&number);
    proof {
        reveal_strlit("+");
        assert("+"@ =~= seq!['+']);
    }
    Some(r)
}

proof fn digits_are_digits(s: Seq<char>)
    ensures
        forall|i: int| 0 <= i < digits_of(s).len() ==> crate::text::is_digit(
            #[trigger] digits_of(s)[i],
        ),
{
    let p = |c: char| crate::text::is_digit(c);
    assert forall|i: int| 0 <= i < digits_of(s).len() implies crate::text::is_digit(
        #[trigger] digits_of(s)[i],
    ) by {
        s.lemma_filter_pred(p, i);
    }
}

proof fn digits_of_digits(s: Seq<char>)
    requires
        forall|i: int| 0 <= i < s.len() ==> crate::text::is_digit(#[trigger] s[i]),
    ensures
        digits_of(s) == s,
    decreases s.len(),
{
    reveal(Seq::filter);
    if s.len() > 0 {
        digits_of_digits(s.drop_last());
        assert(s =~= s.drop_last().push(s.last()));
    }
}

proof fn digits_after_plus(s: Seq<char>)
    requires
        s.len() > 0,
        s[0] == '+',
    ensures
        digits_of(s) == digits_of(s.skip(1)),
    decreases s.len(),
{
    reveal(Seq::filter);
    if s.len() == 1 {
        assert(s.drop_last() =~= Seq::<char>::empty());
        assert(s.skip(1) =~= Seq::<char>::empty());
    } else {
        digits_after_plus(s.drop_last());
        assert(s.drop_last().skip(1) =~= s.skip(1).drop_last());
    }
}

proof fn dial_codes_are_digits(country: Seq<char>)
    ensures
        dial_code_of(country) matches Some(code) ==> 1 <= code.len() <= 3 && forall|i: int|
            0 <= i < code.len() ==> crate::text::is_digit(#[trigger] code[i]),
{
    reveal_strlit("234");
    reveal_strlit("233");
    reveal_strlit("254");
    reveal_strlit("27");
    reveal_strlit("20");
    reveal_strlit("225");
    reveal_strlit("237");
    reveal_strlit("221");
    reveal_strlit("256");
    reveal_strlit("255");
    reveal_strlit("250");
    reveal_strlit("1");
    reveal_strlit("44");
}

/// A normalised number is a plus and 8 to 15 digits, of which the first is no
/// zero.
pub proof fn law_normalized_numbers_are_e164(country: Seq<char>, raw: Seq<char>)
    ensures
        e164(country, raw) matches Some(number) ==> is_e164(number),
{
    digits_are_digits(crate::text::trimmed(raw));
    dial_codes_are_digits(country_key(country));
}

/// A number that is already in E.164 is kept as it is, whatever the country.
pub proof fn law_e164_numbers_are_kept(country: Seq<char>, number: Seq<char>)
    requires
        is_e164(number),
    ensures
        e164(country, number) == Some(number),
{
    assert(!crate::text::is_white_space(number[0]));
    assert(crate::text::is_digit(number.last()));
    assert(crate::text::trimmed(number) == number);
    digits_after_plus(number);
    assert forall|i: int| 0 <= i < number.skip(1).len() implies crate::text::is_digit(
        #[trigger] number.skip(1)[i],
    ) by {
        assert(number.skip(1)[i] == number[i + 1]);
    }
    digits_of_digits(number.skip(1));
    assert(seq!['+'] + number.skip(1) =~= number);
}

/// Normalising a normalised number changes nothing, whatever the country.
pub proof fn law_normalizing_is_idempotent(
    country: Seq<char>,
    raw: Seq<char>,
    other_country: Seq<char>,
)
    ensures
        e164(country, raw) matches Some(number) ==> e164(other_country, number) == Some(number),
{
    law_normalized_numbers_are_e164(country, raw);
    if let Some(number) = e164(country, raw) {
        law_e164_numbers_are_kept(other_country, number);
    }
}

/// Punctuation is ignored: of what was submitted, only the digits count, and
/// whether a plus comes first.
pub proof fn law_punctuation_is_ignored(country: Seq<char>, raw: Seq<char>, other: Seq<char>)
    requires
        digits_of(crate::text::trimmed(raw)) == digits_of(crate::text::trimmed(other)),
        seq!['+'].is_prefix_of(crate::text::trimmed(raw)) == seq!['+'].is_prefix_of(
            crate::text::trimmed(other),
        ),
    ensures
        e164(country, raw) == e164(country, other),
{
    let plus = seq!['+'];
    assert forall|s: Seq<char>| #[trigger]
        plus.is_prefix_of(s) == (s.len() > 0 && s[0] == '+') by {
        if s.len() > 0 {
            assert(s.subrange(0, 1) =~= seq![s[0]]);
            assert(seq![s[0]][0] == s[0]);
            assert(plus[0] == '+');
        }
    }
}

/// Whether `country` is spelled with these two letters, each in upper or lower case.
pub open spec fn is_spelled(country: Seq<char>, first: char, second: char) -> bool {
    &&& country.len() == 2
    &&& country[0] == first || country[0] as int == first as int + 32
    &&& country[1] == second || country[1] as int == second as int + 32
}

proof fn key_is_spelled(country: Seq<char>, first: char, second: char)
    requires
        'A' <= first <= 'Z',
        'A' <= second <= 'Z',
    ensures
        country_key(country) == seq![first, second] <==> is_spelled(country, first, second),
{
    let key = country_key(country);
    if is_spelled(country, first, second) {
        assert(key =~= seq![first, second]);
    }
    if key == seq![first, second] {
        assert(seq![first, second].len() == 2);
        assert(key.len() == country.len());
        assert(key[0] == first && key[1] == second);
        assert(key[0] == crate::text::ascii_upper(country[0]));
        assert(key[1] == crate::text::ascii_upper(country[1]));
    }
}

/// These are the dial codes of the markets, by the letters of the country in either case;
/// no other country has one.
pub proof fn law_dial_codes_go_by_the_letters_of_the_country(country: Seq<char>)
    ensures
        ({
            let code = dial_code_of(country_key(country));
            &&& is_spelled(country, 'N', 'G') ==> code == Some("234"@)
            &&& is_spelled(country, 'G', 'H') ==> code == Some("233"@)
            &&& is_spelled(country, 'K', 'E') ==> code == Some("254"@)
            &&& is_spelled(country, 'Z', 'A') ==> code == Some("27"@)
            &&& is_spelled(country, 'E', 'G') ==> code == Some("20"@)
            &&& is_spelled(country, 'C', 'I') ==> code == Some("225"@)
            &&& is_spelled(country, 'C', 'M') ==> code == Some("237"@)
            &&& is_spelled(country, 'S', 'N') ==> code == Some("221"@)
            &&& is_spelled(country, 'U', 'G') ==> code == Some("256"@)
            &&& is_spelled(country, 'T', 'Z') ==> code == Some("255"@)
            &&& is_spelled(country, 'R', 'W') ==> code == Some("250"@)
            &&& is_spelled(country, 'U', 'S') ==> code == Some("1"@)
            &&& is_spelled(country, 'C', 'A') ==> code == Some("1"@)
            &&& is_spelled(country, 'G', 'B') ==> code == Some("44"@)
            &&& code is Some ==> {
                ||| is_spelled(country, 'N', 'G')
                ||| is_spelled(country, 'G', 'H')
                ||| is_spelled(country, 'K', 'E')
                ||| is_spelled(country, 'Z', 'A')
                ||| is_spelled(country, 'E', 'G')
                ||| is_spelled(country, 'C', 'I')
                ||| is_spelled(country, 'C', 'M')
                ||| is_spelled(country, 'S', 'N')
                ||| is_spelled(country, 'U', 'G')
                ||| is_spelled(country, 'T', 'Z')
                ||| is_spelled(country, 'R', 'W')
                ||| is_spelled(country, 'U', 'S')
                ||| is_spelled(country, 'C', 'A')
                ||| is_spelled(country, 'G', 'B')
            }
        }),
{
    reveal_strlit("NG");
    reveal_strlit("GH");
    reveal_strlit("KE");
    reveal_strlit("ZA");
    reveal_strlit("EG");
    reveal_strlit("CI");
    reveal_strlit("CM");
    reveal_strlit("SN");
    reveal_strlit("UG");
    reveal_strlit("TZ");
    reveal_strlit("RW");
    reveal_strlit("US");
    reveal_strlit("CA");
    reveal_strlit("GB");
    assert("NG"@ =~= seq!['N', 'G']);
    assert("GH"@ =~= seq!['G', 'H']);
    assert("KE"@ =~= seq!['K', 'E']);
    assert("ZA"@ =~= seq!['Z', 'A']);
    assert("EG"@ =~= seq!['E', 'G']);
    assert("CI"@ =~= seq!['C', 'I']);
    assert("CM"@ =~= seq!['C', 'M']);
    assert("SN"@ =~= seq!['S', 'N']);
    assert("UG"@ =~= seq!['U', 'G']);
    assert("TZ"@ =~= seq!['T', 'Z']);
    assert("RW"@ =~= seq!['R', 'W']);
    assert("US"@ =~= seq!['U', 'S']);
    assert("CA"@ =~= seq!['C', 'A']);
    assert("GB"@ =~= seq!['G', 'B']);
    key_is_spelled(country, 'N', 'G');
    key_is_spelled(country, 'G', 'H');
    key_is_spelled(country, 'K', 'E');
    key_is_spelled(country, 'Z', 'A');
    key_is_spelled(country, 'E', 'G');
    key_is_spelled(country, 'C', 'I');
    key_is_spelled(country, 'C', 'M');
    key_is_spelled(country, 'S', 'N');
    key_is_spelled(country, 'U', 'G');
    key_is_spelled(country, 'T', 'Z');
    key_is_spelled(country, 'R', 'W');
    key_is_spelled(country, 'U', 'S');
    key_is_spelled(country, 'C', 'A');
    key_is_spelled(country, 'G', 'B');
}

/// The digits of a text are those of its start, and its last character if that is one of
/// `0` to `9`.
pub proof fn law_digits_are_kept_in_order(s: Seq<char>, c: char)
    ensures
        digits_of(Seq::empty()) == Seq::<char>::empty(),
        '0' <= c <= '9' ==> digits_of(s.push(c)) == digits_of(s).push(c),
        !('0' <= c <= '9') ==> digits_of(s.push(c)) == digits_of(s),
{
    reveal(Seq::filter);
    assert(s.push(c).drop_last() =~= s);
}

/// No country code starts with a zero.
proof fn dial_codes_start_with_no_zero(country: Seq<char>)
    ensures
        dial_code_of(country) matches Some(code) ==> code.len() > 0 && code[0] != '0',
{
    dial_codes_are_digits(country);
    reveal_strlit("234");
    reveal_strlit("233");
    reveal_strlit("254");
    reveal_strlit("27");
    reveal_strlit("20");
    reveal_strlit("225");
    reveal_strlit("237");
    reveal_strlit("221");
    reveal_strlit("256");
    reveal_strlit("255");
    reveal_strlit("250");
    reveal_strlit("1");
    reveal_strlit("44");
}

/// A number that was sent with a plus is complete, whatever the country: it is the plus and
/// its digits, if those are 8 to 15 and do not start with a zero, and no number otherwise.
pub proof fn law_numbers_with_a_plus_are_complete(country: Seq<char>, raw: Seq<char>)
    requires
        crate::text::trimmed(raw).len() > 0,
        crate::text::trimmed(raw)[0] == '+',
    ensures
        ({
            let number = digits_of(crate::text::trimmed(raw));
            e164(country, raw) == if 8 <= number.len() <= 15 && number[0] != '0' {
                Some(seq!['+'] + number)
            } else {
                None
            }
        }),
{
}

/// The prefix `00` stands for a plus, whatever the country: a number that was sent with it
/// is the same as the one that was sent with a plus in its place.
pub proof fn law_the_international_prefix_stands_for_a_plus(
    country: Seq<char>,
    other_country: Seq<char>,
    raw: Seq<char>,
    with_plus: Seq<char>,
)
    requires
        ({
            let text = crate::text::trimmed(raw);
            let plus_text = crate::text::trimmed(with_plus);
            &&& text.len() > 0 ==> text[0] != '+'
            &&& plus_text.len() > 0 && plus_text[0] == '+'
            &&& digits_of(text) == seq!['0', '0'] + digits_of(plus_text)
        }),
    ensures
        e164(country, raw) == e164(other_country, with_plus),
{
    let digits = digits_of(crate::text::trimmed(raw));
    let number = digits_of(crate::text::trimmed(with_plus));
    assert(digits.subrange(0, 2) =~= seq!['0', '0']);
    assert(digits.skip(2) =~= number);
}

/// A number that was sent with the code of its country but without the plus is the same as
/// the one that was sent with the plus.
pub proof fn law_country_codes_may_come_without_the_plus(
    country: Seq<char>,
    code: Seq<char>,
    rest: Seq<char>,
    raw: Seq<char>,
    with_plus: Seq<char>,
)
    requires
        dial_code_of(country_key(country)) == Some(code),
        ({
            let text = crate::text::trimmed(raw);
            let plus_text = crate::text::trimmed(with_plus);
            &&& text.len() > 0 ==> text[0] != '+'
            &&& plus_text.len() > 0 && plus_text[0] == '+'
            &&& digits_of(text) == code + rest
            &&& digits_of(plus_text) == code + rest
        }),
    ensures
        e164(country, raw) == e164(country, with_plus),
{
    dial_codes_start_with_no_zero(country_key(country));
    assert((code + rest).subrange(0, code.len() as int) =~= code);
    assert((code + rest)[0] == code[0]);
    if seq!['0', '0'].is_prefix_of(code + rest) {
        assert(seq!['0', '0'][0] == (code + rest)[0]);
    }
}

/// A national number is completed with the code of its country, and may be written with or
/// without the trunk prefix, a zero: with it and without it, it comes to the same, which is
/// the number that has the plus and the code in place of the zero.
pub proof fn law_the_trunk_prefix_is_dropped(
    country: Seq<char>,
    code: Seq<char>,
    national: Seq<char>,
    with_trunk: Seq<char>,
    without: Seq<char>,
)
    requires
        dial_code_of(country_key(country)) == Some(code),
        national.len() > 0 ==> national[0] != '0',
        ({
            let text = crate::text::trimmed(with_trunk);
            &&& text.len() > 0 ==> text[0] != '+'
            &&& digits_of(text) == seq!['0'] + national
        }),
        ({
            let text = crate::text::trimmed(without);
            &&& text.len() > 0 ==> text[0] != '+'
            &&& digits_of(text) == national
        }),
    ensures
        e164(country, with_trunk) == if 8 <= code.len() + national.len() <= 15 {
            Some(seq!['+'] + code + national)
        } else {
            None
        },
        national.len() > 0 && !code.is_prefix_of(national) ==> e164(country, without) == e164(
            country,
            with_trunk,
        ),
{
    dial_codes_start_with_no_zero(country_key(country));
    dial_codes_are_digits(country_key(country));
    let digits = seq!['0'] + national;
    assert(digits[0] == '0');
    if code.is_prefix_of(digits) {
        assert(code[0] == digits[0]);
    }
    if seq!['0', '0'].is_prefix_of(digits) {
        assert(seq!['0', '0'][1] == digits[1]);
        assert(digits[1] == national[0]);
    }
    assert(digits.skip(1) =~= national);
    if seq!['0', '0'].is_prefix_of(national) {
        assert(seq!['0', '0'][0] == national[0]);
    }
    assert((code + national)[0] == code[0]);
    assert(seq!['+'] + (code + national) =~= seq!['+'] + code + national);
}

/// Without a digit there is no number, and neither is there one where nothing tells the
/// country code: no plus, no prefix `00` and no country with a dial code.
pub proof fn law_numbers_need_digits_and_a_country_code(country: Seq<char>, raw: Seq<char>)
    ensures
        ({
            let text = crate::text::trimmed(raw);
            let digits = digits_of(text);
            &&& digits.len() == 0 ==> e164(country, raw) is None
            &&& !(text.len() > 0 && text[0] == '+') && !(digits.len() >= 2 && digits[0] == '0'
                && digits[1] == '0') && dial_code_of(country_key(country)) is None ==> e164(
                country,
                raw,
            ) is None
        }),
{
    let digits = digits_of(crate::text::trimmed(raw));
    if seq!['0', '0'].is_prefix_of(digits) {
        assert(seq!['0', '0'][0] == digits[0]);
        assert(seq!['0', '0'][1] == digits[1]);
    }
}

/// The trunk zero makes no difference, whatever the length of the number: written with it
/// and without it, the digits of a national number are completed with the plus and the code
/// of the country, wherever that comes to 8 to 15 digits.
pub proof fn law_national_digits_are_completed(
    country: Seq<char>,
    code: Seq<char>,
    national: Seq<char>,
)
    requires
        dial_code_of(country_key(country)) == Some(code),
        national.len() > 0,
        forall|i: int| 0 <= i < national.len() ==> '0' <= #[trigger] national[i] <= '9',
        national[0] != '0',
        !code.is_prefix_of(national),
        8 <= code.len() + national.len() <= 15,
    ensures
        e164(country, seq!['0'] + national) == Some(seq!['+'] + code + national),
        e164(country, national) == Some(seq!['+'] + code + national),
{
    let with_trunk = seq!['0'] + national;
    assert forall|i: int| 0 <= i < with_trunk.len() implies crate::text::is_digit(
        #[trigger] with_trunk[i],
    ) by {
        if i > 0 {
            assert(with_trunk[i] == national[i - 1]);
        }
    }
    assert forall|i: int| 0 <= i < national.len() implies crate::text::is_digit(
        #[trigger] national[i],
    ) by {
        assert('0' <= national[i] <= '9');
    }
    assert(with_trunk.last() == national.last());
    digits_of_digits(with_trunk);
    digits_of_digits(national);
    crate::text::law_trimmed_text_is_kept(with_trunk);
    crate::text::law_trimmed_text_is_kept(national);
    law_the_trunk_prefix_is_dropped(country, code, national, with_trunk, national);
}

} // verus!
