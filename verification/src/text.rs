//! Strings as sequences of characters.

use vstd::prelude::*;

verus! {

/// Whether `c` has the Unicode property `White_Space`.
pub open spec fn is_white_space(c: char) -> bool {
    ||| '\u{9}' <= c <= '\u{d}'
    ||| c == ' '
    ||| c == '\u{85}'
    ||| c == '\u{a0}'
    ||| c == '\u{1680}'
    ||| '\u{2000}' <= c <= '\u{200a}'
    ||| c == '\u{2028}'
    ||| c == '\u{2029}'
    ||| c == '\u{202f}'
    ||| c == '\u{205f}'
    ||| c == '\u{3000}'
}

/// `s` without the white space it starts with.
pub open spec fn without_leading_space(s: Seq<char>) -> Seq<char>
    decreases s.len(),
{
    if s.len() > 0 && is_white_space(s[0]) {
        without_leading_space(s.drop_first())
    } else {
        s
    }
}

/// `s` without the white space it ends with.
pub open spec fn without_trailing_space(s: Seq<char>) -> Seq<char>
    decreases s.len(),
{
    if s.len() > 0 && is_white_space(s.last()) {
        without_trailing_space(s.drop_last())
    } else {
        s
    }
}

/// `s` without white space at either end.
pub open spec fn trimmed(s: Seq<char>) -> Seq<char> {
    without_trailing_space(without_leading_space(s))
}

/// `str::trim` removes the white space, as Unicode defines it, at both ends.
pub assume_specification[ str::trim ](s: &str) -> (r: &str)
    ensures
        r@ == trimmed(s@),
;

/// Whether `c` is one of the digits `0` to `9`.
pub open spec fn is_digit(c: char) -> bool {
    '0' <= c <= '9'
}

/// The upper case form of an ASCII letter; any other character is left alone.
pub open spec fn ascii_upper(c: char) -> char {
    if 'a' <= c <= 'z' {
        ((c as u32) - 32) as char
    } else {
        c
    }
}

/// The lower case form of an ASCII letter; any other character is left alone.
pub open spec fn ascii_lower(c: char) -> char {
    if 'A' <= c <= 'Z' {
        ((c as u32) + 32) as char
    } else {
        c
    }
}

/// `str::to_ascii_uppercase` maps the letters `a` to `z` to `A` to `Z` and leaves
/// every other character as it is.
pub assume_specification[ str::to_ascii_uppercase ](s: &str) -> (r: String)
    ensures
        r@ == s@.map_values(|c: char| ascii_upper(c)),
;

/// What `str::to_lowercase` makes of a string.
pub uninterp spec fn lowercase(s: Seq<char>) -> Seq<char>;

/// `str::to_lowercase` maps a string by the Unicode rules, which the name
/// [`lowercase`] stands for. On ASCII strings these touch the letters `A` to `Z`
/// alone.
pub assume_specification[ str::to_lowercase ](s: &str) -> (r: String)
    ensures
        r@ == lowercase(s@),
        vstd::utf8::is_ascii_chars(s@) ==> r@ == s@.map_values(|c: char| ascii_lower(c)),
;

/// `String::push` appends one character.
pub assume_specification[ String::push ](s: &mut String, c: char)
    ensures
        final(s)@ == old(s)@.push(c),
;

/// How many bytes `s` takes in UTF-8.
pub open spec fn utf8_len(s: Seq<char>) -> nat {
    vstd::utf8::encode_utf8(s).len()
}

/// How many bytes a string takes.
pub fn byte_len(s: &str) -> (r: usize)
    ensures
        r == utf8_len(s@),
{
    s.as_bytes().len()
}

/// The characters of a string.
pub fn chars_of(s: &str) -> (r: Vec<char>)
    ensures
        r@ == s@,
{
    let mut r: Vec<char> = Vec::new();
    for c in it: s.chars()
        invariant
            r@ == s@.take(it.index() as int),
            it.seq() == s@,
    {
        r.push(c);
    }
    r
}

/// The string made of the characters from `from` on.
pub fn string_from(chars: &Vec<char>, from: usize) -> (r: String)
    requires
        from <= chars@.len(),
    ensures
        r@ == chars@.skip(from as int),
{
    let mut r = String::new();
    let mut i: usize = from;
    while i < chars.len()
        invariant
            from <= i <= chars@.len(),
            r@ == chars@.subrange(from as int, i as int),
        decreases chars@.len() - i,
    {
        r.push(chars[i]);
        i = i + 1;
        proof {
            assert(chars@.subrange(from as int, i as int) =~= chars@.subrange(
                from as int,
                i - 1,
            ).push(chars@[i - 1]));
        }
    }
    r
}

/// The string made of the first `n` characters.
pub fn string_up_to(chars: &Vec<char>, n: usize) -> (r: String)
    requires
        n <= chars@.len(),
    ensures
        r@ == chars@.take(n as int),
{
    let mut r = String::new();
    let mut i: usize = 0;
    while i < n
        invariant
            0 <= i <= n <= chars@.len(),
            r@ == chars@.take(i as int),
        decreases n - i,
    {
        r.push(chars[i]);
        i = i + 1;
        proof {
            assert(chars@.take(i as int) =~= chars@.take(i - 1).push(chars@[i - 1]));
        }
    }
    r
}

/// The contents of a text that may be missing.
pub open spec fn contents(text: Option<String>) -> Option<Seq<char>> {
    match text {
        Some(text) => Some(text@),
        None => None,
    }
}

/// A copy of a text that may be missing.
pub fn same_if_any(text: &Option<String>) -> (r: Option<String>)
    ensures
        r == *text,
{
    match text {
        Some(text) => Some(text.clone()),
        None => None,
    }
}

/// Whether the characters from `from` on start with those of `prefix`.
pub fn has_prefix_at(chars: &Vec<char>, from: usize, prefix: &str) -> (r: bool)
    requires
        from <= chars@.len(),
    ensures
        r == prefix@.is_prefix_of(chars@.skip(from as int)),
{
    let p = chars_of(prefix);
    let n: usize = chars.len();
    if p.len() > n - from {
        return false;
    }
    let mut i: usize = 0;
    while i < p.len()
        invariant
            0 <= i <= p@.len(),
            p@ == prefix@,
            p@.len() + from <= n == chars@.len(),
            forall|j: int| 0 <= j < i ==> p@[j] == chars@.skip(from as int)[j],
        decreases p@.len() - i,
    {
        if p[i] != chars[from + i] {
            assert(chars@.skip(from as int)[i as int] == chars@[from + i]);
            assert(!prefix@.is_prefix_of(chars@.skip(from as int)));
            return false;
        }
        i = i + 1;
    }
    assert(prefix@ =~= chars@.skip(from as int).subrange(0, prefix@.len() as int));
    true
}

/// Whether two strings hold the same characters.
pub fn same_text(a: &str, b: &str) -> (r: bool)
    ensures
        r == (a@ == b@),
{
    let x = chars_of(a);
    let y = chars_of(b);
    if x.len() != y.len() {
        return false;
    }
    let mut i: usize = 0;
    while i < x.len()
        invariant
            0 <= i <= x@.len(),
            x@ == a@,
            y@ == b@,
            x@.len() == y@.len(),
            forall|j: int| 0 <= j < i ==> x@[j] == y@[j],
        decreases x@.len() - i,
    {
        if x[i] != y[i] {
            return false;
        }
        i = i + 1;
    }
    assert(a@ =~= b@);
    true
}

/// What was trimmed has nothing left to trim.
pub proof fn law_trimming_is_idempotent(s: Seq<char>)
    ensures
        trimmed(trimmed(s)) == trimmed(s),
{
    let a = without_leading_space(s);
    leading_space_is_gone(s);
    trailing_space_is_gone(a);
    let t = without_trailing_space(a);
    if t.len() > 0 {
        assert(t[0] == a[0]);
    }
    leading_space_is_gone(t);
    trailing_space_is_gone(t);
    assert(without_leading_space(t) == t);
}

proof fn leading_space_is_gone(s: Seq<char>)
    ensures
        ({
            let r = without_leading_space(s);
            r.len() > 0 ==> !is_white_space(r[0])
        }),
    decreases s.len(),
{
    if s.len() > 0 && is_white_space(s[0]) {
        leading_space_is_gone(s.drop_first());
    }
}

proof fn trailing_space_is_gone(s: Seq<char>)
    ensures
        ({
            let r = without_trailing_space(s);
            &&& r.len() > 0 ==> !is_white_space(r.last())
            &&& r.len() <= s.len()
            &&& forall|i: int| 0 <= i < r.len() ==> r[i] == s[i]
        }),
    decreases s.len(),
{
    if s.len() > 0 && is_white_space(s.last()) {
        trailing_space_is_gone(s.drop_last());
    }
}

/// The white space is at these code points, and nowhere else.
pub proof fn law_white_space_is_at_its_code_points(c: char)
    ensures
        is_white_space(c) <==> {
            let n = c as int;
            ||| 9 <= n <= 13
            ||| n == 32
            ||| n == 133
            ||| n == 160
            ||| n == 5760
            ||| 8192 <= n <= 8202
            ||| n == 8232
            ||| n == 8233
            ||| n == 8239
            ||| n == 8287
            ||| n == 12288
        },
{
}

/// The digits are at the code points 48 to 57. An ASCII letter and its form in the other
/// case are 32 code points apart, and no other character has one.
pub proof fn law_ascii_is_at_its_code_points(c: char)
    ensures
        is_digit(c) <==> 48 <= c as int <= 57,
        97 <= c as int <= 122 ==> ascii_upper(c) as int == c as int - 32 && ascii_lower(c) == c,
        65 <= c as int <= 90 ==> ascii_lower(c) as int == c as int + 32 && ascii_upper(c) == c,
        !(97 <= c as int <= 122) && !(65 <= c as int <= 90) ==> ascii_upper(c) == c
            && ascii_lower(c) == c,
{
}

/// Trimming takes the white space at both ends away, and nothing else: what neither
/// starts nor ends with white space is all that is left of it, whatever white space
/// stands before and after.
pub proof fn law_trimming_leaves_what_stands_between(
    before: Seq<char>,
    s: Seq<char>,
    after: Seq<char>,
)
    requires
        forall|i: int| 0 <= i < before.len() ==> is_white_space(#[trigger] before[i]),
        forall|i: int| 0 <= i < after.len() ==> is_white_space(#[trigger] after[i]),
        s.len() > 0 ==> !is_white_space(s[0]) && !is_white_space(s.last()),
    ensures
        trimmed(before + s + after) == s,
{
    leading_space_goes(before, s + after);
    assert(before + s + after =~= before + (s + after));
    if s.len() > 0 {
        assert((s + after)[0] == s[0]);
        assert(without_leading_space(s + after) == s + after);
        trailing_space_goes(s, after);
    } else {
        assert(s + after =~= after + s);
        leading_space_goes(after, s);
        assert(without_leading_space(s) == s);
    }
    assert(without_trailing_space(s) == s);
}

/// What is trimmed stands in the text between white space, and has none at its ends.
pub proof fn law_trimmed_text_stands_between_white_space(s: Seq<char>)
    ensures
        exists|before: Seq<char>, after: Seq<char>|
            {
                &&& s == #[trigger] (before + trimmed(s) + after)
                &&& forall|i: int| 0 <= i < before.len() ==> is_white_space(#[trigger] before[i])
                &&& forall|i: int| 0 <= i < after.len() ==> is_white_space(#[trigger] after[i])
            },
        trimmed(s).len() > 0 ==> !is_white_space(trimmed(s)[0]) && !is_white_space(
            trimmed(s).last(),
        ),
{
    let a = without_leading_space(s);
    let before = leading_space(s);
    leading_space_is_gone(s);
    let t = without_trailing_space(a);
    let after = trailing_space(a);
    trailing_space_is_gone(a);
    if t.len() > 0 {
        assert(t[0] == a[0]);
    }
    assert(s =~= before + trimmed(s) + after) by {
        assert(before + (t + after) =~= before + t + after);
    }
}

proof fn leading_space(s: Seq<char>) -> (before: Seq<char>)
    ensures
        s == before + without_leading_space(s),
        forall|i: int| 0 <= i < before.len() ==> is_white_space(#[trigger] before[i]),
    decreases s.len(),
{
    if s.len() > 0 && is_white_space(s[0]) {
        let rest = leading_space(s.drop_first());
        let before = seq![s[0]] + rest;
        assert(without_leading_space(s) == without_leading_space(s.drop_first()));
        assert(s =~= seq![s[0]] + s.drop_first());
        assert(before + without_leading_space(s) =~= seq![s[0]] + (rest + without_leading_space(s)));
        before
    } else {
        assert(s =~= Seq::<char>::empty() + s);
        Seq::<char>::empty()
    }
}

proof fn trailing_space(s: Seq<char>) -> (after: Seq<char>)
    ensures
        s == without_trailing_space(s) + after,
        forall|i: int| 0 <= i < after.len() ==> is_white_space(#[trigger] after[i]),
    decreases s.len(),
{
    if s.len() > 0 && is_white_space(s.last()) {
        let rest = trailing_space(s.drop_last());
        let after = rest.push(s.last());
        assert(without_trailing_space(s) == without_trailing_space(s.drop_last()));
        assert(s =~= s.drop_last().push(s.last()));
        assert(without_trailing_space(s) + after =~= (without_trailing_space(s) + rest).push(
            s.last(),
        ));
        after
    } else {
        assert(s =~= s + Seq::<char>::empty());
        Seq::<char>::empty()
    }
}

proof fn leading_space_goes(before: Seq<char>, s: Seq<char>)
    requires
        forall|i: int| 0 <= i < before.len() ==> is_white_space(#[trigger] before[i]),
    ensures
        without_leading_space(before + s) == without_leading_space(s),
    decreases before.len(),
{
    if before.len() > 0 {
        assert((before + s)[0] == before[0]);
        assert((before + s).drop_first() =~= before.drop_first() + s);
        leading_space_goes(before.drop_first(), s);
    } else {
        assert(before + s =~= s);
    }
}

proof fn trailing_space_goes(s: Seq<char>, after: Seq<char>)
    requires
        forall|i: int| 0 <= i < after.len() ==> is_white_space(#[trigger] after[i]),
    ensures
        without_trailing_space(s + after) == without_trailing_space(s),
    decreases after.len(),
{
    if after.len() > 0 {
        assert((s + after).last() == after.last());
        assert((s + after).drop_last() =~= s + after.drop_last());
        trailing_space_goes(s, after.drop_last());
    } else {
        assert(s + after =~= s);
    }
}

/// A text without white space at its ends is trimmed already.
pub proof fn law_trimmed_text_is_kept(s: Seq<char>)
    requires
        s.len() > 0 ==> !is_white_space(s[0]) && !is_white_space(s.last()),
    ensures
        trimmed(s) == s,
{
    assert(Seq::<char>::empty() + s + Seq::<char>::empty() =~= s);
    law_trimming_leaves_what_stands_between(Seq::empty(), s, Seq::empty());
}

/// A text takes as many bytes as its UTF-8 form has.
pub proof fn law_byte_lengths_are_those_of_utf8(s: Seq<char>)
    ensures
        utf8_len(s) == vstd::utf8::encode_utf8(s).len(),
{
}

/// The contents of a text that may be missing are those of the text, where there is one.
pub proof fn law_contents_are_those_of_the_text(text: Option<String>)
    ensures
        text is None <==> contents(text) is None,
        text matches Some(t) ==> contents(text) == Some(t@),
{
}

} // verus!
