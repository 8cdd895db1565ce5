//! Verbal warnings: which user a listing is about, links to the warning messages, and the
//! texts of giving, removing and listing warnings.
use vstd::prelude::*;
use vstd::string::*;
use crate::emoji::Emoji;
use crate::parse::{is_white_space, lowercase, to_lowercase, white_space};
use crate::strings::{chars_of, decimal, push_char, push_i64};

verus! {

/// The words of `s` joined by single spaces, and whether a space is due before the next word.
pub open spec fn words_state(s: Seq<char>) -> (Seq<char>, bool)
    decreases s.len(),
{
    if s.len() == 0 {
        (Seq::<char>::empty(), false)
    } else {
        let (r, gap) = words_state(s.drop_last());
        let c = s.last();
        if is_white_space(c) {
            (r, r.len() > 0)
        } else if gap {
            (r.push(' ').push(c), false)
        } else {
            (r.push(c), false)
        }
    }
}

/// `s.split_whitespace().collect::<Vec<_>>().join(" ")`: the words of `s` joined by single
/// spaces.
pub open spec fn join_words_spec(s: Seq<char>) -> Seq<char> {
    words_state(s).0
}

/// The words of `s` joined by single spaces.
pub fn join_words(s: &str) -> (r: String)
    ensures
        r@ == join_words_spec(s@),
{
    let chars = chars_of(s);
    let mut r = String::new();
    let mut gap = false;
    let mut nonempty = false;
    let mut i: usize = 0;
    while i < chars.len()
        invariant
            i <= chars@.len(),
            chars@ == s@,
            (r@, gap) == words_state(chars@.take(i as int)),
            nonempty == (r@.len() > 0),
        decreases chars.len() - i,
    {
        assert(chars@.take(i + 1).drop_last() =~= chars@.take(i as int));
        let c = chars[i];
        if white_space(c) {
            gap = nonempty;
        } else {
            if gap {
                push_char(&mut r, ' ');
            }
            push_char(&mut r, c);
            nonempty = true;
            gap = false;
        }
        i = i + 1;
    }
    assert(chars@.take(i as int) =~= s@);
    r
}

/// Whether a listing command asks for one's own warnings: lowercased, with its words joined
/// by single spaces, it reads "мои усты".
pub fn is_own_warns_command(command: &str) -> (r: bool)
    ensures
        r == (join_words_spec(lowercase(command@)) == "мои усты"@),
{
    let lowered = to_lowercase(command);
    let normalized = join_words(lowered.as_str());
    let a = chars_of(normalized.as_str());
    let b = chars_of("мои усты");
    crate::callback::same_chars(&a, &b)
}

/// The text "-100", which starts the identifiers of supergroups.
pub open spec fn supergroup_marker() -> Seq<char> {
    seq!['-', '1', '0', '0']
}

/// The chat part of a message link: the identifier without its leading "-100".
pub open spec fn chat_link_part_spec(chat_id: i64) -> Seq<char> {
    let d = decimal(chat_id as int);
    if crate::parse::starts_with(d, supergroup_marker()) {
        d.skip(4)
    } else {
        d
    }
}

/// The chat part of a message link.
pub fn chat_link_part(chat_id: i64) -> (r: String)
    ensures
        r@ == chat_link_part_spec(chat_id),
{
    let d = crate::strings::i64_to_string(chat_id);
    let chars = chars_of(d.as_str());
    let marker = vec!['-', '1', '0', '0'];
    assert(marker@ =~= supergroup_marker());
    if crate::parse::has_prefix(&chars, &marker) {
        let mut r = String::new();
        let mut i: usize = 4;
        while i < chars.len()
            invariant
                4 <= i <= chars@.len(),
                r@ == chars@.subrange(4, i as int),
            decreases chars.len() - i,
        {
            push_char(&mut r, chars[i]);
            i = i + 1;
            assert(r@ =~= chars@.subrange(4, i as int));
        }
        assert(r@ =~= chars@.skip(4));
        r
    } else {
        d
    }
}

/// `https://t.me/c/CHAT/MESSAGE`, the link to a message of a supergroup.
pub open spec fn message_link_spec(chat_id: i64, message_id: i64) -> Seq<char> {
    "https://t.me/c/"@ + chat_link_part_spec(chat_id) + "/"@ + decimal(message_id as int)
}

/// The link to a message of a supergroup.
pub fn message_link(chat_id: i64, message_id: i64) -> (r: String)
    ensures
        r@ == message_link_spec(chat_id, message_id),
{
    let mut r = String::new();
    r.append("https://t.me/c/");
    r.append(chat_link_part(chat_id).as_str());
    r.append("/");
    push_i64(&mut r, message_id);
    r
}

/// When a warning expires, from the whole seconds it has left: "снимается..." once none are
/// left, else hours and minutes.
pub open spec fn expires_text_spec(seconds_left: i64) -> Seq<char> {
    if seconds_left <= 0 {
        "снимается..."@
    } else {
        decimal(seconds_left / 3600) + " ч. "@ + decimal((seconds_left / 60) % 60) + " мин."@
    }
}

/// The time a warning has left is written as whole hours and the minutes left over: for any
/// split of the remaining seconds into `h` hours, `m` minutes (fewer than sixty) and fewer
/// than sixty seconds, the text is `h ч. m мин.`; a warning with no time left is "снимается...".
pub proof fn expires_text_splits_time(seconds_left: i64, h: int, m: int, s: int)
    ensures
        seconds_left > 0 && 0 <= m < 60 && 0 <= s < 60 && 3600 * h + 60 * m + s == seconds_left ==> expires_text_spec(
            seconds_left,
        ) == decimal(h) + " ч. "@ + decimal(m) + " мин."@,
        seconds_left <= 0 ==> expires_text_spec(seconds_left) == "снимается..."@,
{
    if seconds_left > 0 && 0 <= m < 60 && 0 <= s < 60 && 3600 * h + 60 * m + s == seconds_left {
        assert(seconds_left / 3600 == h);
        assert(seconds_left / 60 == 60 * h + m);
        assert((seconds_left / 60) % 60 == m);
    }
}

/// When a warning expires.
pub fn expires_text(seconds_left: i64) -> (r: String)
    ensures
        r@ == expires_text_spec(seconds_left),
{
    let mut r = String::new();
    if seconds_left <= 0 {
        r.append("снимается...");
    } else {
        push_i64(&mut r, seconds_left / 3600);
        r.append(" ч. ");
        push_i64(&mut r, (seconds_left / 60) % 60);
        r.append(" мин.");
    }
    r
}

/// A verbal warning as its listing shows it.
#[derive(Debug, Clone)]
pub struct WarnEntry {
    pub chat_id: i64,
    pub message_id: i64,
    pub reason: String,
    pub seconds_left: i64,
}

/// The lines of the `n`-th warning (counting from 1) in a listing.
pub open spec fn warn_entry_text(w: WarnEntry, n: int) -> Seq<char> {
    "От [<a href='"@ + message_link_spec(w.chat_id, w.message_id) + "'>"@ + decimal(n) + "</a>]: "@ + w.reason@
        + "\nИстекает: "@ + expires_text_spec(w.seconds_left) + "\n\n"@
}

/// The lines of all warnings of a listing, numbered from 1.
pub open spec fn warn_entries_text(ws: Seq<WarnEntry>) -> Seq<char>
    decreases ws.len(),
{
    if ws.len() == 0 {
        Seq::empty()
    } else {
        warn_entries_text(ws.drop_last()) + warn_entry_text(ws.last(), ws.len() as int)
    }
}

/// The listing of a user's warnings: a heading, then "Отсутствуют." or the warnings.
pub open spec fn warns_list_spec(mention: Seq<char>, ws: Seq<WarnEntry>) -> Seq<char> {
    Emoji::Warning.html_spec() + " Устные предупреждения "@ + mention + ":\n"@ + if ws.len() == 0 {
        "Отсутствуют."@
    } else {
        warn_entries_text(ws)
    }
}

/// The listing of a user's warnings, as `warns_list_spec` says.
pub fn warns_list_text(mention: &str, warns: &Vec<WarnEntry>) -> (r: String)
    ensures
        r@ == warns_list_spec(mention@, warns@),
{
    let mut r = Emoji::Warning.to_html();
    r.append(" Устные предупреждения ");
    r.append(mention);
    r.append(":\n");
    if warns.len() == 0 {
        r.append("Отсутствуют.");
        return r;
    }
    let ghost head = r@;
    let mut i: usize = 0;
    while i < warns.len()
        invariant
            i <= warns@.len(),
            r@ == head + warn_entries_text(warns@.take(i as int)),
        decreases warns.len() - i,
    {
        assert(warns@.take(i + 1).drop_last() =~= warns@.take(i as int));
        let w = &warns[i];
        r.append("От [<a href='");
        r.append(message_link(w.chat_id, w.message_id).as_str());
        r.append("'>");
        crate::strings::push_digits(&mut r, (i + 1) as u64);
        r.append("</a>]: ");
        r.append(w.reason.as_str());
        r.append("\nИстекает: ");
        r.append(expires_text(w.seconds_left).as_str());
        r.append("\n\n");
        assert(r@ =~= head + warn_entries_text(warns@.take(i as int)) + warn_entry_text(warns@[i as int], i + 1));
        i = i + 1;
    }
    assert(warns@.take(i as int) =~= warns@);
    r
}

/// The announcement of a verbal warning.
pub fn warn_given_text(mention: &str, reason: &str) -> (r: String)
    ensures
        r@ == Emoji::Warning.html_spec() + " Пользователю "@ + mention@ + " выдано устное предупреждение\n"@
            + Emoji::Balloon.html_spec() + " Причина: "@ + reason@,
{
    let mut r = Emoji::Warning.to_html();
    r.append(" Пользователю ");
    r.append(mention);
    r.append(" выдано устное предупреждение\n");
    r.append(Emoji::Balloon.to_html().as_str());
    r.append(" Причина: ");
    r.append(reason);
    r
}

/// The answer to removing a user's last warning: whether one was removed.
pub fn warn_removed_text(mention: &str, removed: bool) -> (r: String)
    ensures
        r@ == if removed {
            Emoji::Warning.html_spec() + " Пользователю "@ + mention@ + " снято последнее устное предупреждение"@
        } else {
            Emoji::Warning.html_spec() + " У пользователя "@ + mention@ + " отсутствуют устные предупреждения"@
        },
{
    let mut r = Emoji::Warning.to_html();
    if removed {
        r.append(" Пользователю ");
        r.append(mention);
        r.append(" снято последнее устное предупреждение");
    } else {
        r.append(" У пользователя ");
        r.append(mention);
        r.append(" отсутствуют устные предупреждения");
    }
    r
}

} // verus!
