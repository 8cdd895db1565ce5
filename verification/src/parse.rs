//! Integer parsing with the rules of `str::parse::<i64>`, whitespace trimming, and the
//! amount and identifier parsers built on them.
use vstd::prelude::*;
use crate::strings::{chars_of, decimal, digit_char, digit_value, is_ascii_digit, nat_digits};

verus! {

/// The value of a sequence of ASCII digits read in base 10.
pub open spec fn digits_value(s: Seq<char>) -> int
    decreases s.len(),
{
    if s.len() == 0 {
        0
    } else {
        digits_value(s.drop_last()) * 10 + digit_value(s.last())
    }
}

/// Whether every character of `s` is an ASCII digit.
pub open spec fn all_digits(s: Seq<char>) -> bool {
    forall|i: int| 0 <= i < s.len() ==> is_ascii_digit(#[trigger] s[i])
}

/// What `str::parse::<i64>` gives for the text `s`: an optional `+` or `-`, then one or
/// more ASCII digits whose signed value fits in an `i64`; anything else is an error (`None`).
pub open spec fn parse_i64_spec(s: Seq<char>) -> Option<i64> {
    if s.len() == 0 {
        None
    } else {
        let neg = s[0] == '-';
        let body = if s[0] == '-' || s[0] == '+' { s.drop_first() } else { s };
        if body.len() == 0 || !all_digits(body) {
            None
        } else {
            let v = if neg { -digits_value(body) } else { digits_value(body) };
            if i64::MIN <= v && v <= i64::MAX {
                Some(v as i64)
            } else {
                None
            }
        }
    }
}

proof fn lemma_digits_value_nonneg(s: Seq<char>)
    requires
        all_digits(s),
    ensures
        digits_value(s) >= 0,
    decreases s.len(),
{
    if s.len() > 0 {
        assert(is_ascii_digit(s[s.len() - 1]));
        lemma_digits_value_nonneg(s.drop_last());
    }
}

/// Parses the characters `s[start..]` as ASCII digits; `None` when one is not a digit or the
/// value exceeds `limit`.
fn digits_upto(s: &Vec<char>, start: usize, limit: u64) -> (r: Option<u64>)
    requires
        start <= s@.len(),
    ensures
        match r {
            Some(v) => all_digits(s@.skip(start as int)) && v as int == digits_value(
                s@.skip(start as int),
            ) && v <= limit,
            None => !all_digits(s@.skip(start as int)) || digits_value(s@.skip(start as int))
                > limit,
        },
{
    let mut acc: u64 = 0;
    let mut i = start;
    let ghost body = s@.skip(start as int);
    while i < s.len()
        invariant
            start <= i <= s@.len(),
            body == s@.skip(start as int),
            all_digits(body.take(i - start)),
            acc as int == digits_value(body.take(i - start)),
            acc <= limit,
        decreases s.len() - i,
    {
        let c = s[i];
        let ghost pre = body.take(i - start);
        assert(body.take(i + 1 - start).drop_last() =~= pre);
        assert(body.take(i + 1 - start).last() == c);
        if !('0' <= c && c <= '9') {
            assert(!is_ascii_digit(body[i - start]));
            return None;
        }
        let d: u64 = (c as u32 - 48) as u64;
        let next: u128 = (acc as u128) * 10 + d as u128;
        if next > limit as u128 {
            proof {
                if all_digits(body) {
                    lemma_prefix_value_bound(body, i + 1 - start);
                }
            }
            return None;
        }
        acc = next as u64;
        i = i + 1;
        proof {
            assert(all_digits(body.take(i - start)));
        }
    }
    assert(body.take(i - start) =~= body);
    Some(acc)
}

/// A prefix of a digit string is worth no more than the whole string.
proof fn lemma_prefix_value_bound(s: Seq<char>, k: int)
    requires
        0 <= k <= s.len(),
        all_digits(s),
    ensures
        digits_value(s.take(k)) <= digits_value(s),
    decreases s.len() - k,
{
    if k < s.len() {
        lemma_prefix_value_bound(s, k + 1);
        assert(s.take(k + 1).drop_last() =~= s.take(k));
        assert(is_ascii_digit(s[k]));
        assert(all_digits(s.take(k)));
        lemma_digits_value_nonneg(s.take(k));
    } else {
        assert(s.take(k) =~= s);
    }
}

/// `str::parse::<i64>` on a character sequence.
pub fn parse_i64(s: &Vec<char>) -> (r: Option<i64>)
    ensures
        r == parse_i64_spec(s@),
{
    if s.len() == 0 {
        return None;
    }
    let neg = s[0] == '-';
    let start: usize = if s[0] == '-' || s[0] == '+' { 1 } else { 0 };
    proof {
        if start == 1 {
            assert(s@.skip(1) =~= s@.drop_first());
        } else {
            assert(s@.skip(0) =~= s@);
        }
    }
    if start == s.len() {
        return None;
    }
    let limit: u64 = if neg { 9223372036854775808 } else { 9223372036854775807 };
    match digits_upto(s, start, limit) {
        None => None,
        Some(v) => {
            if neg {
                if v == 9223372036854775808 {
                    Some(i64::MIN)
                } else {
                    Some(-(v as i64))
                }
            } else {
                Some(v as i64)
            }
        }
    }
}

/// `str::parse::<i64>` on a string slice.
pub fn parse_i64_str(s: &str) -> (r: Option<i64>)
    ensures
        r == parse_i64_spec(s@),
{
    let v = chars_of(s);
    parse_i64(&v)
}

} // verus!

verus! {

/// The decimal digits of a natural number are ASCII digits worth that number.
pub proof fn lemma_nat_digits(n: nat)
    ensures
        nat_digits(n).len() >= 1,
        all_digits(nat_digits(n)),
        digits_value(nat_digits(n)) == n,
    decreases n,
{
    if n >= 10 {
        lemma_nat_digits(n / 10);
        let s = nat_digits(n);
        assert(s.drop_last() =~= nat_digits(n / 10));
        assert(digit_value(digit_char((n % 10) as int)) == n % 10);
        assert(s.last() == digit_char((n % 10) as int));
        assert((n / 10) * 10 + n % 10 == n);
        assert(digits_value(s) == digits_value(s.drop_last()) * 10 + digit_value(s.last()));
        assert forall|i: int| 0 <= i < s.len() implies is_ascii_digit(#[trigger] s[i]) by {
            if i < s.len() - 1 {
                assert(s[i] == nat_digits(n / 10)[i]);
            }
        }
    } else {
        let s = nat_digits(n);
        assert(s.drop_last() =~= Seq::<char>::empty());
        assert(digit_value(digit_char(n as int)) == n);
        assert(digits_value(s.drop_last()) == 0);
        assert(digits_value(s) == digits_value(s.drop_last()) * 10 + digit_value(s.last()));
    }
}

/// Reading back the decimal text of an `i64` gives the same number.
pub proof fn lemma_parse_decimal(x: i64)
    ensures
        parse_i64_spec(decimal(x as int)) == Some(x),
{
    if x < 0 {
        let m = (-x) as nat;
        lemma_nat_digits(m);
        let s = decimal(x as int);
        assert(s.drop_first() =~= nat_digits(m));
    } else {
        lemma_nat_digits(x as nat);
        let d = nat_digits(x as nat);
        assert(is_ascii_digit(d[0]));
    }
}

/// Whether `c` is white space as `char::is_whitespace` counts it (the Unicode `White_Space`
/// property).
pub open spec fn is_white_space(c: char) -> bool {
    ||| ('\u{9}' <= c && c <= '\u{d}')
    ||| c == ' '
    ||| c == '\u{85}'
    ||| c == '\u{a0}'
    ||| c == '\u{1680}'
    ||| ('\u{2000}' <= c && c <= '\u{200a}')
    ||| c == '\u{2028}'
    ||| c == '\u{2029}'
    ||| c == '\u{202f}'
    ||| c == '\u{205f}'
    ||| c == '\u{3000}'
}

/// `char::is_whitespace`.
pub fn white_space(c: char) -> (r: bool)
    ensures
        r == is_white_space(c),
{
    ('\u{9}' <= c && c <= '\u{d}') || c == ' ' || c == '\u{85}' || c == '\u{a0}' || c
        == '\u{1680}' || ('\u{2000}' <= c && c <= '\u{200a}') || c == '\u{2028}' || c
        == '\u{2029}' || c == '\u{202f}' || c == '\u{205f}' || c == '\u{3000}'
}

/// `s` without its leading white space.
pub open spec fn trim_start_spec(s: Seq<char>) -> Seq<char>
    decreases s.len(),
{
    if s.len() > 0 && is_white_space(s[0]) {
        trim_start_spec(s.drop_first())
    } else {
        s
    }
}

/// `s` without its trailing white space.
pub open spec fn trim_end_spec(s: Seq<char>) -> Seq<char>
    decreases s.len(),
{
    if s.len() > 0 && is_white_space(s.last()) {
        trim_end_spec(s.drop_last())
    } else {
        s
    }
}

/// `str::trim`: `s` without leading and trailing white space.
pub open spec fn trim_spec(s: Seq<char>) -> Seq<char> {
    trim_end_spec(trim_start_spec(s))
}

/// `str::trim` on a character sequence.
pub fn trim_chars(s: &Vec<char>) -> (r: Vec<char>)
    ensures
        r@ == trim_spec(s@),
{
    let mut a: usize = 0;
    assert(s@.skip(0) =~= s@);
    while a < s.len() && white_space(s[a])
        invariant
            a <= s@.len(),
            trim_start_spec(s@) == trim_start_spec(s@.skip(a as int)),
        decreases s.len() - a,
    {
        assert(s@.skip(a as int).drop_first() =~= s@.skip(a + 1));
        a = a + 1;
    }
    let ghost t = s@.skip(a as int);
    assert(trim_start_spec(t) == t);
    let mut b: usize = s.len();
    while b > a && white_space(s[b - 1])
        invariant
            a <= b <= s@.len(),
            trim_end_spec(t) == trim_end_spec(s@.subrange(a as int, b as int)),
            t == s@.skip(a as int),
        decreases b,
    {
        assert(s@.subrange(a as int, b as int).drop_last() =~= s@.subrange(a as int, b - 1));
        b = b - 1;
    }
    assert(trim_end_spec(s@.subrange(a as int, b as int)) == s@.subrange(a as int, b as int));
    let mut r: Vec<char> = Vec::new();
    let mut i = a;
    while i < b
        invariant
            a <= i <= b <= s@.len(),
            r@ == s@.subrange(a as int, i as int),
        decreases b - i,
    {
        r.push(s[i]);
        i = i + 1;
        assert(r@ =~= s@.subrange(a as int, i as int));
    }
    proof {
        if a == s@.len() {
            assert(t =~= Seq::<char>::empty());
        }
    }
    r
}

/// What `str::to_lowercase` gives for a text: the Unicode lowercase mapping, which is not
/// restated here.
pub uninterp spec fn lowercase(s: Seq<char>) -> Seq<char>;

/// `str::to_lowercase`.
#[verifier::external_body]
pub(crate) fn to_lowercase(s: &str) -> (r: String)
    ensures
        r@ == lowercase(s@),
{
    s.to_lowercase()
}

} // verus!

verus! {

/// Whether `s` begins with `p`.
pub open spec fn starts_with(s: Seq<char>, p: Seq<char>) -> bool {
    p.len() <= s.len() && s.take(p.len() as int) == p
}

/// Whether `p` occurs in `s` as a contiguous piece.
pub open spec fn contains_seq(s: Seq<char>, p: Seq<char>) -> bool {
    exists|i: int| 0 <= i && i + p.len() <= s.len() && #[trigger] s.subrange(i, i + p.len()) == p
}

/// Whether `s[i..]` begins with `p`.
fn matches_at(s: &Vec<char>, i: usize, p: &Vec<char>) -> (r: bool)
    requires
        i <= s@.len(),
    ensures
        r == (i + p@.len() <= s@.len() && s@.subrange(i as int, i + p@.len()) == p@),
{
    if p.len() > s.len() - i {
        return false;
    }
    let mut j: usize = 0;
    while j < p.len()
        invariant
            i + p@.len() <= s@.len(),
            s@.len() == s.len(),
            p@.len() == p.len(),
            j <= p@.len(),
            forall|k: int| 0 <= k < j ==> s@[i + k] == p@[k],
        decreases p.len() - j,
    {
        if s[i + j] != p[j] {
            assert(s@.subrange(i as int, i + p@.len())[j as int] != p@[j as int]);
            return false;
        }
        j = j + 1;
    }
    assert(s@.subrange(i as int, i + p@.len()) =~= p@);
    true
}

/// Whether `s` begins with `p`.
pub fn has_prefix(s: &Vec<char>, p: &Vec<char>) -> (r: bool)
    ensures
        r == starts_with(s@, p@),
{
    let r = matches_at(s, 0, p);
    assert(s@.subrange(0, p@.len() as int) =~= s@.take(p@.len() as int));
    r
}

/// Whether `p` occurs in `s`.
pub fn has_infix(s: &Vec<char>, p: &Vec<char>) -> (r: bool)
    ensures
        r == contains_seq(s@, p@),
{
    if p.len() > s.len() {
        return false;
    }
    let mut i: usize = 0;
    if p.len() == 0 {
        assert(s@.subrange(0, 0 + p@.len() as int) =~= p@);
        return true;
    }
    let last = s.len() - p.len();
    while i <= last
        invariant
            p@.len() <= s@.len(),
            last == s@.len() - p@.len(),
            i <= last + 1,
            p@.len() > 0,
            forall|k: int|
                0 <= k < i && k + p@.len() <= s@.len() ==> #[trigger] s@.subrange(k, k + p@.len())
                    != p@,
        decreases s.len() - i,
    {
        if matches_at(s, i, p) {
            return true;
        }
        i = i + 1;
    }
    false
}

/// The text "http".
pub open spec fn http_text() -> Seq<char> {
    seq!['h', 't', 't', 'p']
}

/// The text "t.me".
pub open spec fn tme_text() -> Seq<char> {
    seq!['t', '.', 'm', 'e']
}

/// The amount a normalized (trimmed, lowercased) bet text stands for: `-1` for links, a
/// number with a trailing `k` or Cyrillic `к` stands for thousands (the product wraps on
/// overflow), a plain number for itself, and `0` for anything else.
pub open spec fn amount_spec(t: Seq<char>) -> i64 {
    if starts_with(t, http_text()) || contains_seq(t, tme_text()) {
        -1i64
    } else if t.len() > 0 && (t.last() == 'k' || t.last() == 'к') && parse_i64_spec(
        t.drop_last(),
    ) is Some {
        parse_i64_spec(t.drop_last())->0.wrapping_mul(1000)
    } else if parse_i64_spec(t) is Some {
        parse_i64_spec(t)->0
    } else {
        0i64
    }
}

fn http_vec() -> (v: Vec<char>)
    ensures
        v@ == http_text(),
{
    let v = vec!['h', 't', 't', 'p'];
    assert(v@ =~= http_text());
    v
}

fn tme_vec() -> (v: Vec<char>)
    ensures
        v@ == tme_text(),
{
    let v = vec!['t', '.', 'm', 'e'];
    assert(v@ =~= tme_text());
    v
}

/// The amount that a bet text already trimmed and lowercased stands for.
pub fn amount_of_normalized(t: &Vec<char>) -> (r: i64)
    ensures
        r == amount_spec(t@),
{
    if has_prefix(t, &http_vec()) || has_infix(t, &tme_vec()) {
        return -1;
    }
    let n = t.len();
    if n > 0 && (t[n - 1] == 'k' || t[n - 1] == 'к') {
        let mut body: Vec<char> = Vec::new();
        let mut i: usize = 0;
        while i < n - 1
            invariant
                n == t@.len(),
                n > 0,
                i <= n - 1,
                body@ == t@.take(i as int),
            decreases n - 1 - i,
        {
            body.push(t[i]);
            i = i + 1;
            assert(body@ =~= t@.take(i as int));
        }
        assert(body@ =~= t@.drop_last());
        if let Some(v) = parse_i64(&body) {
            return v.wrapping_mul(1000);
        }
    }
    match parse_i64(t) {
        Some(v) => v,
        None => 0,
    }
}

/// The amount of a bet text such as `50`, `5k` or `5к`: it is trimmed and lowercased, then
/// read as `amount_spec` says. `-1` marks a link.
pub fn parse_amount(input: &str) -> (r: i64)
    ensures
        r == amount_spec(lowercase(trim_spec(input@))),
{
    let chars = chars_of(input);
    let trimmed = trim_chars(&chars);
    let mut trimmed_text = String::new();
    let mut i: usize = 0;
    while i < trimmed.len()
        invariant
            i <= trimmed@.len(),
            trimmed_text@ == trimmed@.take(i as int),
        decreases trimmed.len() - i,
    {
        crate::strings::push_char(&mut trimmed_text, trimmed[i]);
        i = i + 1;
        assert(trimmed_text@ =~= trimmed@.take(i as int));
    }
    assert(trimmed_text@ =~= trimmed@);
    let lowered = to_lowercase(trimmed_text.as_str());
    let lowered_chars = chars_of(lowered.as_str());
    amount_of_normalized(&lowered_chars)
}

/// The identifier a user argument stands for, as `str::parse::<i64>` reads it, where a
/// leading `_` stands for a minus sign (`_100` is `-100`).
pub open spec fn user_id_spec(s: Seq<char>) -> Option<i64> {
    if parse_i64_spec(s) is Some {
        parse_i64_spec(s)
    } else if s.len() > 0 && s[0] == '_' {
        parse_i64_spec(seq!['-'] + s.drop_first())
    } else {
        None
    }
}

/// Reads a user or chat identifier: a number, or `_` followed by the digits of a negative one.
pub fn parse_user_id(s: &str) -> (r: Option<i64>)
    ensures
        r == user_id_spec(s@),
{
    let chars = chars_of(s);
    let direct = parse_i64(&chars);
    if direct.is_some() {
        return direct;
    }
    if chars.len() > 0 && chars[0] == '_' {
        let mut neg: Vec<char> = vec!['-'];
        let mut i: usize = 1;
        while i < chars.len()
            invariant
                1 <= i <= chars@.len(),
                neg@ == seq!['-'] + chars@.subrange(1, i as int),
            decreases chars.len() - i,
        {
            neg.push(chars[i]);
            i = i + 1;
            assert(neg@ =~= seq!['-'] + chars@.subrange(1, i as int));
        }
        assert(chars@.subrange(1, chars@.len() as int) =~= chars@.drop_first());
        parse_i64(&neg)
    } else {
        None
    }
}

} // verus!

verus! {

/// Every character of the decimal text of an integer is an ASCII digit, but for a leading `-`.
proof fn lemma_decimal_chars(x: int)
    ensures
        decimal(x).len() >= 1,
        forall|i: int| 0 <= i < decimal(x).len() ==> (is_ascii_digit(#[trigger] decimal(x)[i]) || (i == 0
            && decimal(x)[i] == '-')),
{
    if x < 0 {
        lemma_nat_digits((-x) as nat);
        let d = nat_digits((-x) as nat);
        assert forall|i: int| 0 <= i < decimal(x).len() implies (is_ascii_digit(#[trigger] decimal(x)[i])
            || (i == 0 && decimal(x)[i] == '-')) by {
            if i > 0 {
                assert(decimal(x)[i] == d[i - 1]);
            }
        }
    } else {
        lemma_nat_digits(x as nat);
    }
}

/// A text made of digits, a leading `-` and a final suffix letter neither begins with `http`
/// nor holds `t.me`.
proof fn lemma_number_not_link(s: Seq<char>)
    requires
        s.len() >= 1,
        forall|i: int| 0 <= i < s.len() ==> #[trigger] s[i] != 't' && s[i] != 'h',
    ensures
        !starts_with(s, http_text()),
        !contains_seq(s, tme_text()),
{
    if starts_with(s, http_text()) {
        assert(s.take(4)[0] == s[0]);
    }
    if contains_seq(s, tme_text()) {
        let i = choose|i: int| 0 <= i && i + tme_text().len() <= s.len() && #[trigger] s.subrange(
            i,
            i + tme_text().len(),
        ) == tme_text();
        assert(s.subrange(i, i + 4)[0] == s[i]);
    }
}

/// A bet written as a plain number is worth that number, and written as a number followed by
/// `k` or `к` it is worth that many thousands (the product wrapping as `i64` arithmetic does).
pub proof fn amount_of_number(x: i64)
    ensures
        amount_spec(decimal(x as int)) == x,
        amount_spec(decimal(x as int).push('k')) == x.wrapping_mul(1000),
        amount_spec(decimal(x as int).push('к')) == x.wrapping_mul(1000),
{
    let d = decimal(x as int);
    lemma_decimal_chars(x as int);
    lemma_parse_decimal(x);
    lemma_number_not_link(d);
    let dk = d.push('k');
    let dc = d.push('к');
    assert forall|i: int| 0 <= i < dk.len() implies #[trigger] dk[i] != 't' && dk[i] != 'h' by {
        if i < d.len() {
            assert(dk[i] == d[i]);
        }
    }
    assert forall|i: int| 0 <= i < dc.len() implies #[trigger] dc[i] != 't' && dc[i] != 'h' by {
        if i < d.len() {
            assert(dc[i] == d[i]);
        }
    }
    lemma_number_not_link(dk);
    lemma_number_not_link(dc);
    assert(dk.drop_last() =~= d);
    assert(dc.drop_last() =~= d);
    assert(is_ascii_digit(d[d.len() - 1]) || (d.len() - 1 == 0 && d[d.len() - 1] == '-'));
    if d.len() == 1 && d[0] == '-' {
        assert(parse_i64_spec(d) is None);
    }
}

/// An identifier reads back from its decimal text, and a negative one also from its digits
/// after `_`.
pub proof fn user_id_of_number(x: i64)
    ensures
        user_id_spec(decimal(x as int)) == Some(x),
        x < 0 ==> user_id_spec(seq!['_'] + decimal(x as int).drop_first()) == Some(x),
{
    lemma_parse_decimal(x);
    if x < 0 {
        let d = decimal(x as int);
        let u = seq!['_'] + d.drop_first();
        assert(parse_i64_spec(u) is None);
        assert(seq!['-'] + u.drop_first() =~= d);
    }
}

} // verus!
