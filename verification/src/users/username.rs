//! Usernames.

use crate::text::chars_of;
use vstd::prelude::*;

verus! {

/// Whether a username may hold this character.
pub open spec fn is_username_character(c: char) -> bool {
    ||| 'a' <= c <= 'z'
    ||| '0' <= c <= '9'
    ||| c == '='
    ||| c == '_'
    ||| c == '-'
    ||| c == '.'
    ||| c == '/'
    ||| c == '+'
}

/// Whether `s` may be a username: 1 to 255 of the characters that one may hold, not
/// with an underscore first.
pub open spec fn is_valid_username(s: Seq<char>) -> bool {
    &&& 1 <= s.len() <= 255
    &&& s[0] != '_'
    &&& forall|i: int| 0 <= i < s.len() ==> is_username_character(#[trigger] s[i])
}

/// Whether a username may hold this character.
pub fn valid_username_character(c: char) -> (r: bool)
    ensures
        r == is_username_character(c),
{
    ('a' <= c && c <= 'z') || ('0' <= c && c <= '9') || c == '=' || c == '_' || c == '-' || c
        == '.' || c == '/' || c == '+'
}

/// Whether a text may be a username.
pub fn username_valid(username: &str) -> (r: bool)
    ensures
        r == is_valid_username(username@),
{
    let chars = chars_of(username);
    if chars.len() == 0 || chars.len() > 255 {
        return false;
    }
    // Should not start with an underscore
    if chars[0] == '_' {
        return false;
    }
    // Should only contain valid characters
    let mut i: usize = 0;
    while i < chars.len()
        invariant
            0 <= i <= chars@.len(),
            chars@ == username@,
            forall|j: int| 0 <= j < i ==> is_username_character(#[trigger] chars@[j]),
        decreases chars@.len() - i,
    {
        if !valid_username_character(chars[i]) {
            return false;
        }
        i = i + 1;
    }
    true
}

/// A valid username takes as many bytes as it has characters.
pub proof fn law_username_length_is_in_bytes(username: Seq<char>)
    requires
        is_valid_username(username),
    ensures
        1 <= vstd::utf8::encode_utf8(username).len() <= 255,
{
    assert forall|i: int| 0 <= i < username.len() implies 0 <= (#[trigger] username[i]) as nat <= 127 by {
        assert(is_username_character(username[i]));
    }
    vstd::utf8::is_ascii_chars_encode_utf8(username);
}

/// A username is 1 to 255 characters, each of them a lower case letter, a digit or one of
/// `=`, `_`, `-`, `.`, `/` and `+`, and it does not start with an underscore. Every such text
/// is one.
pub proof fn law_usernames_are_these(username: Seq<char>)
    ensures
        is_valid_username(username) <==> {
            &&& 1 <= username.len() <= 255
            &&& username[0] as int != 95
            &&& forall|i: int|
                0 <= i < username.len() ==> {
                    let n = #[trigger] username[i] as int;
                    ||| 97 <= n <= 122
                    ||| 48 <= n <= 57
                    ||| n == 61
                    ||| n == 95
                    ||| n == 45
                    ||| n == 46
                    ||| n == 47
                    ||| n == 43
                }
        },
{
    if is_valid_username(username) {
        assert forall|i: int| 0 <= i < username.len() implies ({
            let n = #[trigger] username[i] as int;
            ||| 97 <= n <= 122
            ||| 48 <= n <= 57
            ||| n == 61
            ||| n == 95
            ||| n == 45
            ||| n == 46
            ||| n == 47
            ||| n == 43
        }) by {
            assert(is_username_character(username[i]));
        }
    }
}

/// These are the characters that a username may hold.
pub proof fn law_username_characters_are_these(c: char)
    ensures
        is_username_character(c) <==> {
            let n = c as int;
            ||| 97 <= n <= 122
            ||| 48 <= n <= 57
            ||| n == 61
            ||| n == 95
            ||| n == 45
            ||| n == 46
            ||| n == 47
            ||| n == 43
        },
{
}

} // verus!
