//! Character-level helpers over `String` and `&str`, and decimal rendering of integers.
use vstd::prelude::*;
use vstd::string::*;

verus! {

/// `String::push`: appends one character.
#[verifier::external_body]
pub(crate) fn push_char(s: &mut String, c: char)
    ensures
        final(s)@ == old(s)@.push(c),
{
    s.push(c);
}

/// The characters of a string slice, in order.
pub fn chars_of(s: &str) -> (v: Vec<char>)
    ensures
        v@ == s@,
{
    let mut v: Vec<char> = Vec::new();
    for c in it: s.chars()
        invariant
            v@ == it.seq().take(it.index() as int),
    {
        v.push(c);
    }
    v
}

} // verus!

verus! {

/// The ASCII character of a decimal digit value `d` (0..=9).
pub open spec fn digit_char(d: int) -> char {
    (d + 48) as char
}

/// Whether `c` is an ASCII decimal digit.
pub open spec fn is_ascii_digit(c: char) -> bool {
    '0' <= c && c <= '9'
}

/// The value of an ASCII decimal digit character.
pub open spec fn digit_value(c: char) -> int {
    c as int - 48
}

/// The decimal digits of a natural number, most significant first, without leading zeros.
pub open spec fn nat_digits(n: nat) -> Seq<char>
    decreases n,
{
    if n < 10 {
        seq![digit_char(n as int)]
    } else {
        nat_digits(n / 10).push(digit_char((n % 10) as int))
    }
}

/// The decimal text of an integer as `Display` renders it: a `-` for negative values,
/// then the digits of the magnitude.
pub open spec fn decimal(x: int) -> Seq<char> {
    if x < 0 {
        seq!['-'] + nat_digits((-x) as nat)
    } else {
        nat_digits(x as nat)
    }
}

fn digit_to_char(d: u64) -> (c: char)
    requires
        d < 10,
    ensures
        c == digit_char(d as int),
{
    let b: u8 = 48u8 + d as u8;
    b as char
}

/// Appends the decimal digits of `n` to `out`.
pub fn push_digits(out: &mut String, n: u64)
    ensures
        final(out)@ == old(out)@ + nat_digits(n as nat),
    decreases n,
{
    if n >= 10 {
        push_digits(out, n / 10);
    }
    push_char(out, digit_to_char(n % 10));
    proof {
        assert(nat_digits(n as nat) == if n < 10 {
            seq![digit_char(n as int)]
        } else {
            nat_digits((n / 10) as nat).push(digit_char((n % 10) as int))
        });
    }
}

/// Appends the decimal digits of `n` to `out`.
pub fn push_u128(out: &mut String, n: u128)
    ensures
        final(out)@ == old(out)@ + nat_digits(n as nat),
    decreases n,
{
    if n >= 10 {
        push_u128(out, n / 10);
    }
    push_char(out, digit_to_char((n % 10) as u64));
    proof {
        assert(nat_digits(n as nat) == if n < 10 {
            seq![digit_char(n as int)]
        } else {
            nat_digits((n / 10) as nat).push(digit_char((n % 10) as int))
        });
    }
}

/// Appends the decimal text of `x` (as `Display` renders an `i64`) to `out`.
pub fn push_i64(out: &mut String, x: i64)
    ensures
        final(out)@ == old(out)@ + decimal(x as int),
{
    if x < 0 {
        push_char(out, '-');
        let m: u64 = ((-(x + 1)) as u64) + 1;
        push_digits(out, m);
    } else {
        push_digits(out, x as u64);
    }
}

/// The decimal text of `x`, as `x.to_string()` gives it.
pub fn i64_to_string(x: i64) -> (s: String)
    ensures
        s@ == decimal(x as int),
{
    let mut s = String::new();
    push_i64(&mut s, x);
    s
}

} // verus!
