//! Numbers in decimal.

use vstd::prelude::*;

verus! {

/// The character of a decimal digit.
pub open spec fn digit_char(d: int) -> char {
    ('0' as int + d) as char
}

/// The digits of `n`, most significant first, without leading zeros.
pub open spec fn decimal(n: nat) -> Seq<char>
    decreases n,
{
    if n < 10 {
        seq![digit_char(n as int)]
    } else {
        decimal(n / 10).push(digit_char((n % 10) as int))
    }
}

/// `s` with zeros before it, to a length of at least `width`.
pub open spec fn zero_padded(s: Seq<char>, width: nat) -> Seq<char> {
    if s.len() < width {
        Seq::new((width - s.len()) as nat, |i: int| '0') + s
    } else {
        s
    }
}

fn char_of_digit(d: u32) -> (r: char)
    requires
        d < 10,
    ensures
        r == digit_char(d as int),
{
    match d {
        0 => '0',
        1 => '1',
        2 => '2',
        3 => '3',
        4 => '4',
        5 => '5',
        6 => '6',
        7 => '7',
        8 => '8',
        _ => '9',
    }
}

fn digits(n: u32) -> (r: Vec<char>)
    ensures
        r@ == decimal(n as nat),
    decreases n,
{
    if n < 10 {
        let mut r: Vec<char> = Vec::new();
        r.push(char_of_digit(n));
        r
    } else {
        let mut r = digits(n / 10);
        r.push(char_of_digit(n % 10));
        r
    }
}

/// The digits of a number, with zeros before them to a length of at least `width`.
pub fn padded(n: u32, width: usize) -> (r: String)
    ensures
        r@ == zero_padded(decimal(n as nat), width as nat),
{
    let ds = digits(n);
    let mut r = String::new();
    let k: usize = ds.len();
    if k < width {
        let zeros: usize = width - k;
        let mut i: usize = 0;
        while i < zeros
            invariant
                0 <= i <= zeros,
                r@ == Seq::new(i as nat, |j: int| '0'),
            decreases zeros - i,
        {
            r.push('0');
            i = i + 1;
            proof {
                assert(Seq::new(i as nat, |j: int| '0') =~= Seq::new(
                    (i - 1) as nat,
                    |j: int| '0',
                ).push('0'));
            }
        }
    }
    let ghost front = r@;
    let mut i: usize = 0;
    while i < ds.len()
        invariant
            0 <= i <= ds@.len(),
            r@ == front + ds@.take(i as int),
        decreases ds@.len() - i,
    {
        r.push(ds[i]);
        i = i + 1;
        proof {
            assert(ds@.take(i as int) =~= ds@.take(i - 1).push(ds@[i - 1]));
        }
    }
    proof {
        assert(ds@.take(i as int) =~= ds@);
        assert(front + ds@ =~= zero_padded(ds@, width as nat));
    }
    r
}

/// The number that a row of digits writes.
pub open spec fn value_of(s: Seq<char>) -> int
    decreases s.len(),
{
    if s.len() == 0 {
        0
    } else {
        10 * value_of(s.drop_last()) + (s.last() as int - '0' as int)
    }
}

/// The digits of a number are digits, write that number, and are as few as it needs.
pub proof fn law_decimal_writes_the_number(n: nat, width: nat)
    requires
        width > 0,
        n < vstd::arithmetic::power::pow(10, width),
    ensures
        0 < decimal(n).len() <= width,
        forall|i: int| 0 <= i < decimal(n).len() ==> crate::text::is_digit(#[trigger] decimal(n)[i]),
        value_of(decimal(n)) == n,
    decreases width,
{
    reveal(vstd::arithmetic::power::pow);
    if n < 10 {
        assert(decimal(n).drop_last() =~= Seq::<char>::empty());
        assert(value_of(decimal(n).drop_last()) == 0);
    } else {
        assert(vstd::arithmetic::power::pow(10, 1) == 10) by {
            reveal_with_fuel(vstd::arithmetic::power::pow, 2);
        }
        let m = (width - 1) as nat;
        assert(n / 10 < vstd::arithmetic::power::pow(10, m));
        law_decimal_writes_the_number(n / 10, m);
        assert(decimal(n).drop_last() =~= decimal(n / 10));
    }
}

proof fn zeros_add_nothing(s: Seq<char>, zeros: nat)
    ensures
        value_of(Seq::new(zeros, |i: int| '0') + s) == value_of(s),
    decreases s.len(), zeros,
{
    let all = Seq::new(zeros, |i: int| '0') + s;
    if s.len() > 0 {
        assert(all.drop_last() =~= Seq::new(zeros, |i: int| '0') + s.drop_last());
        zeros_add_nothing(s.drop_last(), zeros);
    } else if zeros > 0 {
        assert(all.drop_last() =~= Seq::new((zeros - 1) as nat, |i: int| '0') + s);
        zeros_add_nothing(s, (zeros - 1) as nat);
    } else {
        assert(all =~= s);
    }
}

/// A number below `10^width`, padded to `width`, is `width` digits that write it.
pub proof fn law_padded_numbers_have_their_width(n: nat, width: nat)
    requires
        width > 0,
        n < vstd::arithmetic::power::pow(10, width),
    ensures
        zero_padded(decimal(n), width).len() == width,
        forall|i: int|
            0 <= i < width ==> crate::text::is_digit(#[trigger] zero_padded(decimal(n), width)[i]),
        value_of(zero_padded(decimal(n), width)) == n,
{
    law_decimal_writes_the_number(n, width);
    let s = decimal(n);
    let p = zero_padded(s, width);
    if s.len() < width {
        let zeros = (width - s.len()) as nat;
        zeros_add_nothing(s, zeros);
        assert forall|i: int| 0 <= i < width implies crate::text::is_digit(#[trigger] p[i]) by {
            if i >= zeros {
                assert(p[i] == s[i - zeros]);
            }
        }
    }
}

/// A row of digits that is as long as the width, or longer, is left as it is.
pub proof fn law_long_numbers_are_not_padded(s: Seq<char>, width: nat)
    requires
        s.len() >= width,
    ensures
        zero_padded(s, width) == s,
{
}

/// The value of a row of digits is that of the rows of single digits, ten times as much for
/// each place.
pub proof fn law_places_count_ten_times(s: Seq<char>, c: char)
    ensures
        value_of(Seq::empty()) == 0,
        value_of(s.push(c)) == 10 * value_of(s) + (c as int - 48),
{
    assert(s.push(c).drop_last() =~= s);
}

} // verus!
