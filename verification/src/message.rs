//! The parts of an incoming message that the bot's logic reads, the sender it is attributed
//! to, and the shape of the replies the bot sends.
use vstd::prelude::*;
use vstd::string::*;
use crate::parse::{trim_chars, trim_spec};
use crate::strings::chars_of;
use crate::user::{opt_view, TgChat, TgUser};

verus! {

/// An incoming message, as far as the bot reads it.
#[derive(Debug, Clone)]
pub struct MessageInfo {
    pub message_id: i64,
    pub thread_id: Option<i64>,
    pub date: i64,
    pub chat: TgChat,
    pub from: Option<TgUser>,
    pub sender_chat: Option<TgChat>,
    pub text: Option<String>,
    pub caption: Option<String>,
    pub media_group_id: Option<String>,
}

/// An optional text, or the empty text.
pub open spec fn or_empty(s: Option<String>) -> Seq<char> {
    match s {
        Some(x) => x@,
        None => Seq::<char>::empty(),
    }
}

/// `first last`, trimmed, as the bot writes a person's full name.
pub open spec fn full_name_spec(first: Seq<char>, last: Seq<char>) -> Seq<char> {
    trim_spec(first + " "@ + last)
}

/// The identifier, username and full name a message is attributed to: the chat it was sent
/// on behalf of, else its author, else the chat it is in.
pub open spec fn sender_spec(msg: MessageInfo) -> (i64, Option<Seq<char>>, Seq<char>) {
    match msg.sender_chat {
        Some(c) => (c.id, opt_view(c.username), or_empty(c.title)),
        None => match msg.from {
            Some(u) => (u.id, opt_view(u.username), full_name_spec(u.first_name@, or_empty(u.last_name))),
            None => (
                msg.chat.id,
                opt_view(msg.chat.username),
                full_name_spec(or_empty(msg.chat.first_name), or_empty(msg.chat.last_name)),
            ),
        },
    }
}

fn clone_opt(s: &Option<String>) -> (r: Option<String>)
    ensures
        opt_view(r) == opt_view(*s),
{
    match s {
        Some(x) => Some(x.clone()),
        None => None,
    }
}

fn text_or_empty(s: &Option<String>) -> (r: String)
    ensures
        r@ == or_empty(*s),
{
    match s {
        Some(x) => x.clone(),
        None => String::new(),
    }
}

/// `format!("{} {}", first, last).trim()`.
pub fn full_name(first: &str, last: &str) -> (r: String)
    ensures
        r@ == full_name_spec(first@, last@),
{
    let mut joined = String::new();
    joined.append(first);
    joined.append(" ");
    joined.append(last);
    let chars = chars_of(joined.as_str());
    let trimmed = trim_chars(&chars);
    let mut r = String::new();
    let mut i: usize = 0;
    while i < trimmed.len()
        invariant
            i <= trimmed@.len(),
            r@ == trimmed@.take(i as int),
        decreases trimmed.len() - i,
    {
        crate::strings::push_char(&mut r, trimmed[i]);
        i = i + 1;
        assert(r@ =~= trimmed@.take(i as int));
    }
    assert(r@ =~= trimmed@);
    r
}

/// The identifier, username and full name a message is attributed to, as `sender_spec`
/// says.
pub fn get_user_info(msg: &MessageInfo) -> (r: (i64, Option<String>, String))
    ensures
        (r.0, opt_view(r.1), r.2@) == sender_spec(*msg),
{
    match &msg.sender_chat {
        Some(c) => (c.id, clone_opt(&c.username), text_or_empty(&c.title)),
        None => match &msg.from {
            Some(u) => {
                let last = text_or_empty(&u.last_name);
                (u.id, clone_opt(&u.username), full_name(u.first_name.as_str(), last.as_str()))
            },
            None => {
                let first = text_or_empty(&msg.chat.first_name);
                let last = text_or_empty(&msg.chat.last_name);
                (msg.chat.id, clone_opt(&msg.chat.username), full_name(first.as_str(), last.as_str()))
            },
        },
    }
}

/// A message the bot sends in reply: where it goes, in which topic, the message it answers,
/// and its HTML text. Link previews are always off.
#[derive(Debug, Clone)]
pub struct SendSpec {
    pub chat_id: i64,
    pub thread_id: Option<i64>,
    pub reply_to: Option<i64>,
    pub text: String,
}

/// An edit of a message the bot sent earlier: which message, and its new HTML text.
#[derive(Debug, Clone)]
pub struct EditSpec {
    pub chat_id: i64,
    pub message_id: i64,
    pub text: String,
}

/// Builds the replies the bot sends to a message.
pub struct MessageMethods;

impl MessageMethods {
    /// A reply to `msg`: in its chat and topic, answering it, with an empty text to be filled.
    pub fn send(msg: &MessageInfo) -> (r: SendSpec)
        ensures
            r.chat_id == msg.chat.id,
            r.thread_id == msg.thread_id,
            r.reply_to == Some(msg.message_id),
            r.text@ == Seq::<char>::empty(),
    {
        SendSpec {
            chat_id: msg.chat.id,
            thread_id: msg.thread_id,
            reply_to: Some(msg.message_id),
            text: String::new(),
        }
    }

    /// An edit of `msg` in place, with an empty text to be filled.
    pub fn edit(msg: &MessageInfo) -> (r: EditSpec)
        ensures
            r.chat_id == msg.chat.id,
            r.message_id == msg.message_id,
            r.text@ == Seq::<char>::empty(),
    {
        EditSpec { chat_id: msg.chat.id, message_id: msg.message_id, text: String::new() }
    }
}

} // verus!
