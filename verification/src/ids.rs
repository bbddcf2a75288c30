//! Identifiers: 128-bit values written as ULIDs.

use vstd::prelude::*;

verus! {

/// The error of a failed ULID decoding.
#[verifier::external_type_specification]
#[verifier::external_body]
pub struct ExDecodeError(ulid::DecodeError);

/// The number of characters of a ULID.
pub const ULID_LEN: usize = 26;

/// One more than the largest 128-bit value.
pub open spec fn ulid_bound() -> int {
    u128::MAX + 1
}

/// The characters of Crockford's Base32, in the order of their values.
pub open spec fn base32_alphabet() -> Seq<char> {
    seq![
        '0', '1', '2', '3', '4', '5', '6', '7', '8', '9', 'A', 'B', 'C', 'D', 'E', 'F',
        'G', 'H', 'J', 'K', 'M', 'N', 'P', 'Q', 'R', 'S', 'T', 'V', 'W', 'X', 'Y', 'Z',
    ]
}

/// Whether `c` stands for the value `d` in Base32; letters may be of either case.
pub open spec fn is_base32_digit(c: char, d: int) -> bool {
    0 <= d < 32 && base32_alphabet()[d] == crate::text::ascii_upper(c)
}

/// The value that `c` stands for in Base32, where it stands for one.
pub open spec fn base32_digit(c: char) -> int {
    choose|d: int| is_base32_digit(c, d)
}

/// Whether `c` stands for a value in Base32.
pub open spec fn is_base32(c: char) -> bool {
    exists|d: int| is_base32_digit(c, d)
}

/// Whether every character of `s` stands for a value in Base32.
pub open spec fn all_base32(s: Seq<char>) -> bool {
    forall|i: int| 0 <= i < s.len() ==> is_base32(#[trigger] s[i])
}

/// The number that `s` writes in Base32, most significant character first.
pub open spec fn base32_value(s: Seq<char>) -> int
    decreases s.len(),
{
    if s.len() == 0 {
        0
    } else {
        32 * base32_value(s.drop_last()) + base32_digit(s.last())
    }
}

/// The last `n` Base32 characters of `value`.
pub open spec fn base32_text(value: int, n: nat) -> Seq<char>
    decreases n,
{
    if n == 0 {
        Seq::empty()
    } else {
        base32_text(value / 32, (n - 1) as nat).push(base32_alphabet()[value % 32])
    }
}

/// The identifier that `s` writes, where it writes one.
pub open spec fn ulid_of(s: Seq<char>) -> Option<u128> {
    if s.len() == ULID_LEN && all_base32(s) {
        Some((base32_value(s) % ulid_bound()) as u128)
    } else {
        None
    }
}

/// The text of an identifier.
pub open spec fn ulid_text(id: u128) -> Seq<char> {
    base32_text(id as int, ULID_LEN as nat)
}

/// `ulid::Ulid::from_string` decodes a string of 26 Base32 characters, of either
/// case, and fails on every other string. Bits above the 128th are lost.
#[verifier::external_body]
fn decode_ulid(s: &str) -> (r: Result<u128, ulid::DecodeError>)
    ensures
        match r {
            Ok(id) => ulid_of(s@) == Some(id),
            Err(_) => ulid_of(s@) is None,
        },
{
    ulid::Ulid::from_string(s).map(|id| id.0)
}

/// `ulid::Ulid::to_string` writes an identifier as 26 Base32 characters, upper
/// case, most significant first.
#[verifier::external_body]
pub(crate) fn encode_ulid(id: u128) -> (r: String)
    ensures
        r@ == ulid_text(id),
{
    ulid::Ulid(id).to_string()
}

/// The identifier whose big-endian bytes are `bytes`.
pub open spec fn big_endian(bytes: Seq<u8>) -> int
    decreases bytes.len(),
{
    if bytes.len() == 0 {
        0
    } else {
        256 * big_endian(bytes.drop_last()) + bytes.last()
    }
}

/// `ulid::Ulid::from_bytes` takes the bytes of an identifier in big-endian order.
#[verifier::external_body]
pub(crate) fn ulid_from_bytes(bytes: [u8; 16]) -> (r: u128)
    ensures
        r as int == big_endian(bytes@),
{
    ulid::Ulid::from_bytes(bytes).0
}

/// `ulid::Ulid` made from a `uuid::Uuid` is the identifier with the same bytes, in
/// big-endian order.
#[verifier::external_body]
pub(crate) fn ulid_from_uuid(uuid: [u8; 16]) -> (r: u128)
    ensures
        r as int == big_endian(uuid@),
{
    ulid::Ulid::from(uuid::Uuid::from_bytes(uuid)).0
}

/// `uuid::Uuid` made from a `ulid::Ulid` has the bytes of the identifier, in
/// big-endian order.
#[verifier::external_body]
pub(crate) fn uuid_from_ulid(id: u128) -> (r: [u8; 16])
    ensures
        big_endian(r@) == id as int,
{
    uuid::Uuid::from(ulid::Ulid(id)).into_bytes()
}

/// The identifier that a string writes, if it is a ULID.
pub fn parse_ulid(s: &str) -> (r: Option<u128>)
    ensures
        r == ulid_of(s@),
{
    match decode_ulid(s) {
        Ok(id) => Some(id),
        Err(_) => None,
    }
}

proof fn alphabet_is_upper(d: int)
    requires
        0 <= d < 32,
    ensures
        crate::text::ascii_upper(base32_alphabet()[d]) == base32_alphabet()[d],
        is_base32_digit(base32_alphabet()[d], d),
        !crate::text::is_white_space(base32_alphabet()[d]),
{
}

proof fn base32_digit_is_unique(c: char, d: int)
    requires
        is_base32_digit(c, d),
    ensures
        base32_digit(c) == d,
{
    let e = base32_digit(c);
    assert(is_base32_digit(c, e));
    assert(base32_alphabet()[d] == base32_alphabet()[e]);
}

proof fn base32_text_writes_the_value(value: int, n: nat)
    requires
        0 <= value < vstd::arithmetic::power::pow(32, n),
    ensures
        base32_text(value, n).len() == n,
        all_base32(base32_text(value, n)),
        base32_value(base32_text(value, n)) == value,
        forall|i: int| 0 <= i < n ==> !crate::text::is_white_space(#[trigger] base32_text(value, n)[i]),
    decreases n,
{
    reveal(vstd::arithmetic::power::pow);
    if n > 0 {
        let m = (n - 1) as nat;
        assert(value / 32 < vstd::arithmetic::power::pow(32, m));
        base32_text_writes_the_value(value / 32, m);
        let head = base32_text(value / 32, m);
        let s = base32_text(value, n);
        assert(s.drop_last() =~= head);
        alphabet_is_upper(value % 32);
        base32_digit_is_unique(s.last(), value % 32);
        assert forall|i: int| 0 <= i < s.len() implies is_base32(#[trigger] s[i]) by {
            if i < m {
                assert(s[i] == head[i]);
            } else {
                assert(is_base32_digit(s[i], value % 32));
            }
        }
        assert forall|i: int| 0 <= i < n implies !crate::text::is_white_space(#[trigger] s[i]) by {
            if i < m {
                assert(s[i] == head[i]);
            }
        }
    }
}

/// The text of an identifier reads back as that identifier, and white space
/// around it, which it has none of, makes no difference.
pub proof fn law_ulid_text_reads_back(id: u128)
    ensures
        ulid_of(ulid_text(id)) == Some(id),
        crate::text::trimmed(ulid_text(id)) == ulid_text(id),
{
    assert(ulid_bound() <= vstd::arithmetic::power::pow(32, 26)) by {
        reveal(vstd::arithmetic::power::pow);
        reveal_with_fuel(vstd::arithmetic::power::pow, 27);
    }
    base32_text_writes_the_value(id as int, ULID_LEN as nat);
    let s = ulid_text(id);
    assert(!crate::text::is_white_space(s[0]));
    assert(!crate::text::is_white_space(s.last()));
}

/// Two identifiers with the same text are the same.
pub proof fn law_ulid_text_is_injective(a: u128, b: u128)
    requires
        ulid_text(a) == ulid_text(b),
    ensures
        a == b,
{
    law_ulid_text_reads_back(a);
    law_ulid_text_reads_back(b);
}

} // verus!
