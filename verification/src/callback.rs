//! The data carried by the bot's inline buttons: how each kind is written, how it is read
//! back, and the proof that reading gives back what was written.
use vstd::prelude::*;
use vstd::string::*;
use crate::parse::{all_digits, lemma_nat_digits, lemma_parse_decimal, parse_i64, parse_i64_spec};
use crate::strings::{chars_of, decimal, is_ascii_digit, nat_digits, push_i64};

verus! {

/// The pieces of `s` between occurrences of `sep` (always at least one piece).
pub open spec fn split_on(s: Seq<char>, sep: char) -> Seq<Seq<char>>
    decreases s.len(),
{
    if s.len() == 0 {
        seq![Seq::<char>::empty()]
    } else {
        let p = split_on(s.drop_last(), sep);
        if s.last() == sep {
            p.push(Seq::<char>::empty())
        } else {
            p.update(p.len() - 1, p.last().push(s.last()))
        }
    }
}

/// Whether `c` does not occur in `s`.
pub open spec fn lacks(s: Seq<char>, c: char) -> bool {
    forall|i: int| 0 <= i < s.len() ==> #[trigger] s[i] != c
}

proof fn lemma_split_len(s: Seq<char>, sep: char)
    ensures
        split_on(s, sep).len() >= 1,
    decreases s.len(),
{
    if s.len() > 0 {
        lemma_split_len(s.drop_last(), sep);
    }
}

/// Appending text without the separator extends the last piece.
proof fn lemma_split_extend(a: Seq<char>, b: Seq<char>, sep: char)
    requires
        lacks(b, sep),
    ensures
        split_on(a + b, sep) == split_on(a, sep).update(
            split_on(a, sep).len() - 1,
            split_on(a, sep).last() + b,
        ),
    decreases b.len(),
{
    lemma_split_len(a, sep);
    let p = split_on(a, sep);
    if b.len() == 0 {
        assert(a + b =~= a);
        assert(p.last() + b =~= p.last());
        assert(p.update(p.len() - 1, p.last() + b) =~= p);
    } else {
        let b0 = b.drop_last();
        assert(lacks(b0, sep));
        lemma_split_extend(a, b0, sep);
        assert((a + b).drop_last() =~= a + b0);
        assert((a + b).last() == b.last());
        assert(p.last() + b0 + seq![b.last()] =~= p.last() + b);
        let q = split_on(a + b0, sep);
        assert(q.last() == p.last() + b0);
        assert(q.last().push(b.last()) =~= p.last() + b);
        assert(q.update(q.len() - 1, q.last().push(b.last())) =~= p.update(
            p.len() - 1,
            p.last() + b,
        ));
    }
}

/// A separator followed by text without it starts a new piece.
pub proof fn lemma_split_field(a: Seq<char>, b: Seq<char>, sep: char)
    requires
        lacks(b, sep),
    ensures
        split_on(a + seq![sep] + b, sep) == split_on(a, sep).push(b),
{
    lemma_split_len(a, sep);
    let a1 = a + seq![sep];
    assert(a1.drop_last() =~= a);
    assert(split_on(a1, sep) == split_on(a, sep).push(Seq::<char>::empty()));
    lemma_split_extend(a1, b, sep);
    let p = split_on(a1, sep);
    assert(Seq::<char>::empty() + b =~= b);
    assert(p.update(p.len() - 1, p.last() + b) =~= split_on(a, sep).push(b));
}

/// Text without the separator is one piece.
pub proof fn lemma_split_single(b: Seq<char>, sep: char)
    requires
        lacks(b, sep),
    ensures
        split_on(b, sep) == seq![b],
{
    lemma_split_extend(Seq::<char>::empty(), b, sep);
    assert(Seq::<char>::empty() + b =~= b);
    assert(seq![Seq::<char>::empty()].update(0, Seq::<char>::empty() + b) =~= seq![b]);
}

/// Decimal text has no colon.
pub proof fn lemma_decimal_lacks_colon(x: int)
    ensures
        lacks(decimal(x), ':'),
{
    if x < 0 {
        lemma_nat_digits((-x) as nat);
        let d = nat_digits((-x) as nat);
        assert forall|i: int| 0 <= i < decimal(x).len() implies #[trigger] decimal(x)[i] != ':' by {
            if i > 0 {
                assert(decimal(x)[i] == d[i - 1]);
                assert(is_ascii_digit(d[i - 1]));
            }
        }
    } else {
        lemma_nat_digits(x as nat);
        assert forall|i: int| 0 <= i < decimal(x).len() implies #[trigger] decimal(x)[i] != ':' by {
            assert(is_ascii_digit(nat_digits(x as nat)[i]));
        }
    }
}

/// The views of a sequence of character vectors.
pub open spec fn vec_views(v: Seq<Vec<char>>) -> Seq<Seq<char>> {
    v.map_values(|x: Vec<char>| x@)
}

/// Splits `s` at every `sep`.
pub fn split_chars(s: &Vec<char>, sep: char) -> (r: Vec<Vec<char>>)
    ensures
        vec_views(r@) == split_on(s@, sep),
{
    let mut fields: Vec<Vec<char>> = Vec::new();
    let mut current: Vec<char> = Vec::new();
    let mut i: usize = 0;
    assert(s@.take(0) =~= Seq::<char>::empty());
    assert(vec_views(fields@).push(current@) =~= split_on(s@.take(0), sep));
    while i < s.len()
        invariant
            i <= s@.len(),
            vec_views(fields@).push(current@) == split_on(s@.take(i as int), sep),
        decreases s.len() - i,
    {
        let c = s[i];
        let ghost before = vec_views(fields@).push(current@);
        assert(s@.take(i + 1).drop_last() =~= s@.take(i as int));
        assert(s@.take(i + 1).last() == c);
        if c == sep {
            let done = current;
            fields.push(done);
            current = Vec::new();
            assert(vec_views(fields@).push(current@) =~= before.push(Seq::<char>::empty()));
        } else {
            current.push(c);
            assert(vec_views(fields@).push(current@) =~= before.update(
                before.len() - 1,
                before.last().push(c),
            ));
        }
        i = i + 1;
    }
    assert(s@.take(i as int) =~= s@);
    fields.push(current);
    assert(vec_views(fields@) =~= split_on(s@, sep));
    fields
}

/// `-?\d+` read as an `i64`: an optional minus sign, ASCII digits, and a value in range.
pub open spec fn signed_field(f: Seq<char>) -> Option<i64> {
    let body = if f.len() > 0 && f[0] == '-' { f.drop_first() } else { f };
    if body.len() > 0 && all_digits(body) {
        parse_i64_spec(f)
    } else {
        None
    }
}

/// `\d+` read as an `i64`: ASCII digits and a value in range.
pub open spec fn unsigned_field(f: Seq<char>) -> Option<i64> {
    if f.len() > 0 && all_digits(f) {
        parse_i64_spec(f)
    } else {
        None
    }
}

fn digits_only(f: &Vec<char>, start: usize) -> (r: bool)
    requires
        start <= f@.len(),
    ensures
        r == all_digits(f@.skip(start as int)),
{
    let mut i = start;
    while i < f.len()
        invariant
            start <= i <= f@.len(),
            all_digits(f@.subrange(start as int, i as int)),
        decreases f.len() - i,
    {
        if !('0' <= f[i] && f[i] <= '9') {
            assert(!is_ascii_digit(f@.skip(start as int)[i - start]));
            return false;
        }
        i = i + 1;
        assert forall|k: int| 0 <= k < i - start implies is_ascii_digit(
            #[trigger] f@.subrange(start as int, i as int)[k],
        ) by {
            if k < i - 1 - start {
                assert(f@.subrange(start as int, i as int)[k] == f@.subrange(start as int, i - 1)[k]);
            }
        }
    }
    assert(f@.subrange(start as int, i as int) =~= f@.skip(start as int));
    true
}

/// Reads a `-?\d+` field.
pub fn read_signed(f: &Vec<char>) -> (r: Option<i64>)
    ensures
        r == signed_field(f@),
{
    let start: usize = if f.len() > 0 && f[0] == '-' { 1 } else { 0 };
    proof {
        if start == 1 {
            assert(f@.skip(1) =~= f@.drop_first());
        } else {
            assert(f@.skip(0) =~= f@);
        }
    }
    if start < f.len() && digits_only(f, start) {
        parse_i64(f)
    } else {
        None
    }
}

/// Reads a `\d+` field.
pub fn read_unsigned(f: &Vec<char>) -> (r: Option<i64>)
    ensures
        r == unsigned_field(f@),
{
    assert(f@.skip(0) =~= f@);
    if f.len() > 0 && digits_only(f, 0) {
        parse_i64(f)
    } else {
        None
    }
}

/// The decimal text of a value reads back as a signed field.
pub proof fn lemma_signed_decimal(x: i64)
    ensures
        signed_field(decimal(x as int)) == Some(x),
{
    lemma_parse_decimal(x);
    if x < 0 {
        lemma_nat_digits((-x) as nat);
        assert(decimal(x as int).drop_first() =~= nat_digits((-x) as nat));
    } else {
        lemma_nat_digits(x as nat);
        let d = nat_digits(x as nat);
        assert(is_ascii_digit(d[0]));
    }
}

/// The decimal text of a value that is not negative reads back as an unsigned field.
pub proof fn lemma_unsigned_decimal(x: i64)
    requires
        x >= 0,
    ensures
        unsigned_field(decimal(x as int)) == Some(x),
{
    lemma_parse_decimal(x);
    lemma_nat_digits(x as nat);
}

} // verus!

verus! {

/// Whether two character vectors hold the same text.
pub fn same_chars(a: &Vec<char>, b: &Vec<char>) -> (r: bool)
    ensures
        r == (a@ == b@),
{
    if a.len() != b.len() {
        return false;
    }
    let mut i: usize = 0;
    while i < a.len()
        invariant
            a@.len() == b@.len(),
            i <= a@.len(),
            forall|k: int| 0 <= k < i ==> a@[k] == b@[k],
        decreases a.len() - i,
    {
        if a[i] != b[i] {
            return false;
        }
        i = i + 1;
    }
    assert(a@ =~= b@);
    true
}

/// `a` followed by a colon and `b`.
pub open spec fn colon(a: Seq<char>, b: Seq<char>) -> Seq<char> {
    a + seq![':'] + b
}

/// The word that starts the data of a captcha answer button.
pub open spec fn captcha_word() -> Seq<char> {
    seq!['c', 'a', 'p', 't', 'c', 'h', 'a']
}

/// The word that starts the data of a "delete summons" button.
pub open spec fn del_sum_word() -> Seq<char> {
    seq!['d', 'e', 'l', '_', 's', 'u', 'm']
}

/// The word that starts the data of a "try again" button of the registration check.
pub open spec fn repeat_reg_word() -> Seq<char> {
    seq!['r', 'e', 'p', 'e', 'a', 't', '_', 'r', 'e', 'g']
}

/// The word that starts the data of a "try again" button of the check made after a right
/// captcha answer.
pub open spec fn repeat_novo_reg_word() -> Seq<char> {
    seq!['r', 'e', 'p', 'e', 'a', 't', '_', 'n', 'o', 'v', 'o', '_', 'r', 'e', 'g']
}

/// The word that starts the data of an "unmute" button.
pub open spec fn unmute_word() -> Seq<char> {
    seq!['u', 'n', 'm', 'u', 't', 'e']
}

/// The word that starts the data of a "ban" button.
pub open spec fn ban_word() -> Seq<char> {
    seq!['b', 'a', 'n']
}

/// The text "none", which a moderation button may carry in place of a message identifier.
pub open spec fn none_word() -> Seq<char> {
    seq!['n', 'o', 'n', 'e']
}

proof fn lemma_words_lack_colon()
    ensures
        lacks(captcha_word(), ':'),
        lacks(del_sum_word(), ':'),
        lacks(repeat_reg_word(), ':'),
        lacks(repeat_novo_reg_word(), ':'),
        lacks(unmute_word(), ':'),
        lacks(ban_word(), ':'),
{
}

/// Appends a word given as a literal whose characters equal `w`.
fn push_text(out: &mut String, lit: &str, Ghost(w): Ghost<Seq<char>>)
    requires
        lit@ == w,
    ensures
        final(out)@ == old(out)@ + w,
{
    out.append(lit);
}

fn push_colon(out: &mut String)
    ensures
        final(out)@ == old(out)@.push(':'),
{
    crate::strings::push_char(out, ':');
}

/// A captcha button press: the chat applied to, the user, and the code of the button.
#[derive(Debug, Clone)]
pub struct CaptchaAnswer {
    pub chat_id: i64,
    pub user_id: i64,
    pub code: String,
}

/// `captcha:CHAT:USER:CODE`.
pub open spec fn captcha_data_spec(chat_id: i64, user_id: i64, code: i64) -> Seq<char> {
    colon(colon(colon(captcha_word(), decimal(chat_id as int)), decimal(user_id as int)), decimal(code as int))
}

/// What the data of a captcha button reads as: `captcha:` then a signed chat, an unsigned user
/// and an unsigned code, separated by colons.
pub open spec fn parse_captcha_spec(s: Seq<char>) -> Option<(i64, i64, Seq<char>)> {
    let f = split_on(s, ':');
    if f.len() == 4 && f[0] == captcha_word() && signed_field(f[1]) is Some && unsigned_field(f[2]) is Some
        && f[3].len() > 0 && all_digits(f[3]) {
        Some((signed_field(f[1])->0, unsigned_field(f[2])->0, f[3]))
    } else {
        None
    }
}

/// The data of the captcha button with number `code`.
pub fn captcha_data(chat_id: i64, user_id: i64, code: i64) -> (r: String)
    ensures
        r@ == captcha_data_spec(chat_id, user_id, code),
{
    let mut r = String::new();
    proof {
        reveal_strlit("captcha");
        assert("captcha"@ =~= captcha_word());
    }
    push_text(&mut r, "captcha", Ghost(captcha_word()));
    push_colon(&mut r);
    push_i64(&mut r, chat_id);
    push_colon(&mut r);
    push_i64(&mut r, user_id);
    push_colon(&mut r);
    push_i64(&mut r, code);
    r
}

fn captcha_word_vec() -> (v: Vec<char>)
    ensures
        v@ == captcha_word(),
{
    let v = vec!['c', 'a', 'p', 't', 'c', 'h', 'a'];
    assert(v@ =~= captcha_word());
    v
}

fn code_field(f: &Vec<char>) -> (r: bool)
    ensures
        r == (f@.len() > 0 && all_digits(f@)),
{
    let mut i: usize = 0;
    while i < f.len()
        invariant
            i <= f@.len(),
            forall|k: int| 0 <= k < i ==> is_ascii_digit(#[trigger] f@[k]),
        decreases f.len() - i,
    {
        if !('0' <= f[i] && f[i] <= '9') {
            return false;
        }
        i = i + 1;
    }
    f.len() > 0
}

fn string_from(v: &Vec<char>) -> (r: String)
    ensures
        r@ == v@,
{
    let mut r = String::new();
    let mut i: usize = 0;
    while i < v.len()
        invariant
            i <= v@.len(),
            r@ == v@.take(i as int),
        decreases v.len() - i,
    {
        crate::strings::push_char(&mut r, v[i]);
        i = i + 1;
        assert(r@ =~= v@.take(i as int));
    }
    assert(r@ =~= v@);
    r
}

/// Reads the data of a captcha button.
pub fn parse_captcha(data: &str) -> (r: Option<CaptchaAnswer>)
    ensures
        match r {
            Some(a) => parse_captcha_spec(data@) == Some((a.chat_id, a.user_id, a.code@)),
            None => parse_captcha_spec(data@) is None,
        },
{
    let chars = chars_of(data);
    let f = split_chars(&chars, ':');
    assert(vec_views(f@).len() == f@.len());
    if f.len() != 4 {
        return None;
    }
    assert(f@[0]@ == vec_views(f@)[0]);
    assert(f@[1]@ == vec_views(f@)[1]);
    assert(f@[2]@ == vec_views(f@)[2]);
    assert(f@[3]@ == vec_views(f@)[3]);
    if !same_chars(&f[0], &captcha_word_vec()) {
        return None;
    }
    let chat = read_signed(&f[1]);
    let user = read_unsigned(&f[2]);
    match (chat, user) {
        (Some(c), Some(u)) => {
            if code_field(&f[3]) {
                Some(CaptchaAnswer { chat_id: c, user_id: u, code: string_from(&f[3]) })
            } else {
                None
            }
        },
        _ => None,
    }
}

/// Reading the data of a captcha button gives back its chat, user and code, for every user
/// and code that are not negative.
pub proof fn captcha_data_round_trip(chat_id: i64, user_id: i64, code: i64)
    requires
        user_id >= 0,
        code >= 0,
    ensures
        parse_captcha_spec(captcha_data_spec(chat_id, user_id, code)) == Some(
            (chat_id, user_id, decimal(code as int)),
        ),
{
    lemma_words_lack_colon();
    lemma_decimal_lacks_colon(chat_id as int);
    lemma_decimal_lacks_colon(user_id as int);
    lemma_decimal_lacks_colon(code as int);
    let w = captcha_word();
    let d1 = decimal(chat_id as int);
    let d2 = decimal(user_id as int);
    let d3 = decimal(code as int);
    lemma_split_single(w, ':');
    lemma_split_field(w, d1, ':');
    lemma_split_field(colon(w, d1), d2, ':');
    lemma_split_field(colon(colon(w, d1), d2), d3, ':');
    lemma_signed_decimal(chat_id);
    lemma_unsigned_decimal(user_id);
    lemma_nat_digits(code as nat);
    let f = split_on(captcha_data_spec(chat_id, user_id, code), ':');
    assert(f =~= seq![w, d1, d2, d3]);
}

} // verus!

verus! {

/// Whether `c` is a lowercase hexadecimal digit.
pub open spec fn is_lower_hex(c: char) -> bool {
    ('0' <= c && c <= '9') || ('a' <= c && c <= 'f')
}

/// Whether `s` is a summons identifier: 32 lowercase hexadecimal digits.
pub open spec fn is_summon_id(s: Seq<char>) -> bool {
    s.len() == 32 && forall|i: int| 0 <= i < s.len() ==> is_lower_hex(#[trigger] s[i])
}

fn summon_id_field(f: &Vec<char>) -> (r: bool)
    ensures
        r == is_summon_id(f@),
{
    if f.len() != 32 {
        return false;
    }
    let mut i: usize = 0;
    while i < f.len()
        invariant
            i <= f@.len(),
            forall|k: int| 0 <= k < i ==> is_lower_hex(#[trigger] f@[k]),
        decreases f.len() - i,
    {
        let c = f[i];
        if !(('0' <= c && c <= '9') || ('a' <= c && c <= 'f')) {
            return false;
        }
        i = i + 1;
    }
    true
}

/// `del_sum:ID`.
pub open spec fn del_sum_data_spec(summon_id: Seq<char>) -> Seq<char> {
    colon(del_sum_word(), summon_id)
}

/// What the data of a "delete summons" button reads as: `del_sum:` and a summons identifier.
pub open spec fn parse_del_sum_spec(s: Seq<char>) -> Option<Seq<char>> {
    let f = split_on(s, ':');
    if f.len() == 2 && f[0] == del_sum_word() && is_summon_id(f[1]) {
        Some(f[1])
    } else {
        None
    }
}

/// The data of the button that deletes the messages of a summons.
pub fn del_sum_data(summon_id: &str) -> (r: String)
    ensures
        r@ == del_sum_data_spec(summon_id@),
{
    let mut r = String::new();
    proof {
        reveal_strlit("del_sum");
        assert("del_sum"@ =~= del_sum_word());
    }
    push_text(&mut r, "del_sum", Ghost(del_sum_word()));
    push_colon(&mut r);
    r.append(summon_id);
    r
}

/// Reads the data of a "delete summons" button.
pub fn parse_del_sum(data: &str) -> (r: Option<String>)
    ensures
        match r {
            Some(id) => parse_del_sum_spec(data@) == Some(id@),
            None => parse_del_sum_spec(data@) is None,
        },
{
    let chars = chars_of(data);
    let f = split_chars(&chars, ':');
    assert(vec_views(f@).len() == f@.len());
    if f.len() != 2 {
        return None;
    }
    assert(f@[0]@ == vec_views(f@)[0]);
    assert(f@[1]@ == vec_views(f@)[1]);
    let word = vec!['d', 'e', 'l', '_', 's', 'u', 'm'];
    assert(word@ =~= del_sum_word());
    if same_chars(&f[0], &word) && summon_id_field(&f[1]) {
        Some(string_from(&f[1]))
    } else {
        None
    }
}

/// Reading the data of a "delete summons" button gives back its summons identifier.
pub proof fn del_sum_data_round_trip(summon_id: Seq<char>)
    requires
        is_summon_id(summon_id),
    ensures
        parse_del_sum_spec(del_sum_data_spec(summon_id)) == Some(summon_id),
{
    lemma_words_lack_colon();
    assert(lacks(summon_id, ':')) by {
        assert forall|i: int| 0 <= i < summon_id.len() implies #[trigger] summon_id[i] != ':' by {
            assert(is_lower_hex(summon_id[i]));
        }
    }
    lemma_split_single(del_sum_word(), ':');
    lemma_split_field(del_sum_word(), summon_id, ':');
    assert(split_on(del_sum_data_spec(summon_id), ':') =~= seq![del_sum_word(), summon_id]);
}

/// A chat and a user, as a "try again" button of the registration check carries them.
#[derive(Debug, Clone, Copy)]
pub struct ChatUser {
    pub chat_id: i64,
    pub user_id: i64,
}

/// `repeat_reg:CHAT:USER`.
pub open spec fn repeat_reg_data_spec(chat_id: i64, user_id: i64) -> Seq<char> {
    colon(colon(repeat_reg_word(), decimal(chat_id as int)), decimal(user_id as int))
}

/// What the data of a "try again" button reads as: `repeat_reg:`, a signed chat and an
/// unsigned user.
pub open spec fn parse_repeat_reg_spec(s: Seq<char>) -> Option<(i64, i64)> {
    let f = split_on(s, ':');
    if f.len() == 3 && f[0] == repeat_reg_word() && signed_field(f[1]) is Some && unsigned_field(f[2]) is Some {
        Some((signed_field(f[1])->0, unsigned_field(f[2])->0))
    } else {
        None
    }
}

/// The data of the "try again" button of the registration check.
pub fn repeat_reg_data(chat_id: i64, user_id: i64) -> (r: String)
    ensures
        r@ == repeat_reg_data_spec(chat_id, user_id),
{
    let mut r = String::new();
    proof {
        reveal_strlit("repeat_reg");
        assert("repeat_reg"@ =~= repeat_reg_word());
    }
    push_text(&mut r, "repeat_reg", Ghost(repeat_reg_word()));
    push_colon(&mut r);
    push_i64(&mut r, chat_id);
    push_colon(&mut r);
    push_i64(&mut r, user_id);
    r
}

/// Reads the data of a "try again" button.
pub fn parse_repeat_reg(data: &str) -> (r: Option<ChatUser>)
    ensures
        match r {
            Some(a) => parse_repeat_reg_spec(data@) == Some((a.chat_id, a.user_id)),
            None => parse_repeat_reg_spec(data@) is None,
        },
{
    let chars = chars_of(data);
    let f = split_chars(&chars, ':');
    assert(vec_views(f@).len() == f@.len());
    if f.len() != 3 {
        return None;
    }
    assert(f@[0]@ == vec_views(f@)[0]);
    assert(f@[1]@ == vec_views(f@)[1]);
    assert(f@[2]@ == vec_views(f@)[2]);
    let word = vec!['r', 'e', 'p', 'e', 'a', 't', '_', 'r', 'e', 'g'];
    assert(word@ =~= repeat_reg_word());
    if !same_chars(&f[0], &word) {
        return None;
    }
    match (read_signed(&f[1]), read_unsigned(&f[2])) {
        (Some(c), Some(u)) => Some(ChatUser { chat_id: c, user_id: u }),
        _ => None,
    }
}

/// Reading the data of a "try again" button gives back its chat and user, for every user
/// that is not negative.
#[verifier::spinoff_prover]
pub proof fn repeat_reg_data_round_trip(chat_id: i64, user_id: i64)
    requires
        user_id >= 0,
    ensures
        parse_repeat_reg_spec(repeat_reg_data_spec(chat_id, user_id)) == Some((chat_id, user_id)),
{
    lemma_words_lack_colon();
    lemma_decimal_lacks_colon(chat_id as int);
    lemma_decimal_lacks_colon(user_id as int);
    let w = repeat_reg_word();
    let d1 = decimal(chat_id as int);
    let d2 = decimal(user_id as int);
    lemma_split_single(w, ':');
    lemma_split_field(w, d1, ':');
    lemma_split_field(colon(w, d1), d2, ':');
    lemma_signed_decimal(chat_id);
    lemma_unsigned_decimal(user_id);
    assert(split_on(repeat_reg_data_spec(chat_id, user_id), ':') =~= seq![w, d1, d2]);
}

/// `repeat_novo_reg:CHAT:USER`.
pub open spec fn repeat_novo_reg_data_spec(chat_id: i64, user_id: i64) -> Seq<char> {
    colon(colon(repeat_novo_reg_word(), decimal(chat_id as int)), decimal(user_id as int))
}

/// What the data of a "try again" button of the check after a right captcha answer reads
/// as: `repeat_novo_reg:`, a signed chat and an unsigned user.
pub open spec fn parse_repeat_novo_reg_spec(s: Seq<char>) -> Option<(i64, i64)> {
    let f = split_on(s, ':');
    if f.len() == 3 && f[0] == repeat_novo_reg_word() && signed_field(f[1]) is Some && unsigned_field(f[2]) is Some {
        Some((signed_field(f[1])->0, unsigned_field(f[2])->0))
    } else {
        None
    }
}

/// The data of the "try again" button of the check after a right captcha answer.
pub fn repeat_novo_reg_data(chat_id: i64, user_id: i64) -> (r: String)
    ensures
        r@ == repeat_novo_reg_data_spec(chat_id, user_id),
{
    let mut r = String::new();
    proof {
        reveal_strlit("repeat_novo_reg");
        assert("repeat_novo_reg"@ =~= repeat_novo_reg_word());
    }
    push_text(&mut r, "repeat_novo_reg", Ghost(repeat_novo_reg_word()));
    push_colon(&mut r);
    push_i64(&mut r, chat_id);
    push_colon(&mut r);
    push_i64(&mut r, user_id);
    r
}

/// Reads the data of a "try again" button of the check after a right captcha answer.
pub fn parse_repeat_novo_reg(data: &str) -> (r: Option<ChatUser>)
    ensures
        match r {
            Some(a) => parse_repeat_novo_reg_spec(data@) == Some((a.chat_id, a.user_id)),
            None => parse_repeat_novo_reg_spec(data@) is None,
        },
{
    let chars = chars_of(data);
    let f = split_chars(&chars, ':');
    assert(vec_views(f@).len() == f@.len());
    if f.len() != 3 {
        return None;
    }
    assert(f@[0]@ == vec_views(f@)[0]);
    assert(f@[1]@ == vec_views(f@)[1]);
    assert(f@[2]@ == vec_views(f@)[2]);
    let word = vec!['r', 'e', 'p', 'e', 'a', 't', '_', 'n', 'o', 'v', 'o', '_', 'r', 'e', 'g'];
    assert(word@ =~= repeat_novo_reg_word());
    if !same_chars(&f[0], &word) {
        return None;
    }
    match (read_signed(&f[1]), read_unsigned(&f[2])) {
        (Some(c), Some(u)) => Some(ChatUser { chat_id: c, user_id: u }),
        _ => None,
    }
}

/// Reading the data of a "try again" button of the check after a right captcha answer gives
/// back its chat and user, for every user that is not negative.
pub proof fn repeat_novo_reg_data_round_trip(chat_id: i64, user_id: i64)
    requires
        user_id >= 0,
    ensures
        parse_repeat_novo_reg_spec(repeat_novo_reg_data_spec(chat_id, user_id)) == Some((chat_id, user_id)),
{
    lemma_words_lack_colon();
    lemma_decimal_lacks_colon(chat_id as int);
    lemma_decimal_lacks_colon(user_id as int);
    let w = repeat_novo_reg_word();
    let d1 = decimal(chat_id as int);
    let d2 = decimal(user_id as int);
    lemma_split_single(w, ':');
    lemma_split_field(w, d1, ':');
    lemma_split_field(colon(w, d1), d2, ':');
    lemma_signed_decimal(chat_id);
    lemma_unsigned_decimal(user_id);
    assert(split_on(repeat_novo_reg_data_spec(chat_id, user_id), ':') =~= seq![w, d1, d2]);
}

/// Which moderation a button asks for.
#[derive(Debug, Clone, Copy, PartialEq, Eq, Structural)]
pub enum ModerationAction {
    Unmute,
    Ban,
}

/// The word that starts the data of a moderation button.
pub open spec fn action_word(a: ModerationAction) -> Seq<char> {
    match a {
        ModerationAction::Unmute => unmute_word(),
        ModerationAction::Ban => ban_word(),
    }
}

/// A moderation button press: the chat, the notice message to answer (`None` when the button
/// carries `none`), and the user.
#[derive(Debug, Clone, Copy)]
pub struct ModerationTarget {
    pub chat_id: i64,
    pub message_id: Option<i64>,
    pub user_id: i64,
}

/// `WORD:CHAT:MESSAGE:USER`, where a missing message is written as `0`.
pub open spec fn moderation_data_spec(
    action: ModerationAction,
    chat_id: i64,
    message_id: Option<i64>,
    user_id: i64,
) -> Seq<char> {
    let m = match message_id {
        Some(m) => m,
        None => 0i64,
    };
    colon(colon(colon(action_word(action), decimal(chat_id as int)), decimal(m as int)), decimal(user_id as int))
}

/// A message field of a moderation button: `none`, or an unsigned number.
pub open spec fn message_field(f: Seq<char>) -> Option<Option<i64>> {
    if f == none_word() {
        Some(None)
    } else if unsigned_field(f) is Some {
        Some(Some(unsigned_field(f)->0))
    } else {
        None
    }
}

/// What the data of a moderation button reads as: its word, a signed chat, a message field
/// and an unsigned user.
pub open spec fn parse_moderation_spec(action: ModerationAction, s: Seq<char>) -> Option<(i64, Option<i64>, i64)> {
    let f = split_on(s, ':');
    if f.len() == 4 && f[0] == action_word(action) && signed_field(f[1]) is Some && message_field(f[2]) is Some
        && unsigned_field(f[3]) is Some {
        Some((signed_field(f[1])->0, message_field(f[2])->0, unsigned_field(f[3])->0))
    } else {
        None
    }
}

/// The data of an "unmute" or "ban" button.
pub fn moderation_data(action: ModerationAction, chat_id: i64, message_id: Option<i64>, user_id: i64) -> (r: String)
    ensures
        r@ == moderation_data_spec(action, chat_id, message_id, user_id),
{
    let mut r = String::new();
    match action {
        ModerationAction::Unmute => {
            proof {
                reveal_strlit("unmute");
                assert("unmute"@ =~= unmute_word());
            }
            push_text(&mut r, "unmute", Ghost(unmute_word()));
        },
        ModerationAction::Ban => {
            proof {
                reveal_strlit("ban");
                assert("ban"@ =~= ban_word());
            }
            push_text(&mut r, "ban", Ghost(ban_word()));
        },
    }
    push_colon(&mut r);
    push_i64(&mut r, chat_id);
    push_colon(&mut r);
    let m: i64 = match message_id {
        Some(m) => m,
        None => 0,
    };
    push_i64(&mut r, m);
    push_colon(&mut r);
    push_i64(&mut r, user_id);
    r
}

/// Reads the data of an "unmute" or "ban" button.
pub fn parse_moderation(action: ModerationAction, data: &str) -> (r: Option<ModerationTarget>)
    ensures
        match r {
            Some(t) => parse_moderation_spec(action, data@) == Some((t.chat_id, t.message_id, t.user_id)),
            None => parse_moderation_spec(action, data@) is None,
        },
{
    let chars = chars_of(data);
    let f = split_chars(&chars, ':');
    assert(vec_views(f@).len() == f@.len());
    if f.len() != 4 {
        return None;
    }
    assert(f@[0]@ == vec_views(f@)[0]);
    assert(f@[1]@ == vec_views(f@)[1]);
    assert(f@[2]@ == vec_views(f@)[2]);
    assert(f@[3]@ == vec_views(f@)[3]);
    let word = match action {
        ModerationAction::Unmute => vec!['u', 'n', 'm', 'u', 't', 'e'],
        ModerationAction::Ban => vec!['b', 'a', 'n'],
    };
    assert(word@ =~= action_word(action));
    if !same_chars(&f[0], &word) {
        return None;
    }
    let none = vec!['n', 'o', 'n', 'e'];
    assert(none@ =~= none_word());
    let message: Option<Option<i64>> = if same_chars(&f[2], &none) {
        Some(None)
    } else {
        match read_unsigned(&f[2]) {
            Some(m) => Some(Some(m)),
            None => None,
        }
    };
    match (read_signed(&f[1]), message, read_unsigned(&f[3])) {
        (Some(c), Some(m), Some(u)) => Some(ModerationTarget { chat_id: c, message_id: m, user_id: u }),
        _ => None,
    }
}

/// Reading the data of a moderation button gives back its chat and user, and its message
/// (a missing one reads back as message `0`), for every message and user that are not
/// negative.
#[verifier::spinoff_prover]
pub proof fn moderation_data_round_trip(action: ModerationAction, chat_id: i64, message_id: Option<i64>, user_id: i64)
    requires
        user_id >= 0,
        message_id matches Some(m) ==> m >= 0,
    ensures
        parse_moderation_spec(action, moderation_data_spec(action, chat_id, message_id, user_id)) == Some(
            (chat_id, Some(match message_id { Some(m) => m, None => 0i64 }), user_id),
        ),
{
    let m = match message_id {
        Some(m) => m,
        None => 0i64,
    };
    lemma_words_lack_colon();
    lemma_decimal_lacks_colon(chat_id as int);
    lemma_decimal_lacks_colon(m as int);
    lemma_decimal_lacks_colon(user_id as int);
    let w = action_word(action);
    let d1 = decimal(chat_id as int);
    let d2 = decimal(m as int);
    let d3 = decimal(user_id as int);
    lemma_split_single(w, ':');
    lemma_split_field(w, d1, ':');
    lemma_split_field(colon(w, d1), d2, ':');
    lemma_split_field(colon(colon(w, d1), d2), d3, ':');
    lemma_signed_decimal(chat_id);
    lemma_unsigned_decimal(m);
    lemma_unsigned_decimal(user_id);
    lemma_nat_digits(m as nat);
    assert(d2 != none_word()) by {
        assert(is_ascii_digit(nat_digits(m as nat)[0]));
    }
    assert(split_on(moderation_data_spec(action, chat_id, message_id, user_id), ':') =~= seq![w, d1, d2, d3]);
}

} // verus!
