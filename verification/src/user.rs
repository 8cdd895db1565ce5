//! Who sent a message, and how a user or chat is mentioned in HTML.
use vstd::prelude::*;
use vstd::string::*;
use crate::parse::{trim_chars, trim_spec};
use crate::strings::{chars_of, decimal, push_char, push_i64};
use crate::text::{clear_text, clear_text_spec};

verus! {

/// Identifiers at or below this value are supergroup chats; the link of such a chat uses the
/// identifier with this offset removed.
pub const SUPERGROUP_PREFIX: i64 = -1_000_000_000_000;

/// A resolved user or chat: its identifier, its username if it has one, and its full name.
#[derive(Debug, Clone)]
pub struct UserInfo {
    pub id: i64,
    pub username: Option<String>,
    pub full_name: String,
}

/// A Telegram user as the library reads it.
#[derive(Debug, Clone)]
pub struct TgUser {
    pub id: i64,
    pub is_bot: bool,
    pub first_name: String,
    pub last_name: Option<String>,
    pub username: Option<String>,
}

/// A Telegram chat as the library reads it.
#[derive(Debug, Clone)]
pub struct TgChat {
    pub id: i64,
    pub title: Option<String>,
    pub username: Option<String>,
    pub first_name: Option<String>,
    pub last_name: Option<String>,
}

/// The view of an optional string.
pub open spec fn opt_view(s: Option<String>) -> Option<Seq<char>> {
    match s {
        Some(x) => Some(x@),
        None => None,
    }
}

/// The link a mention points to: the public username page, or an `openmessage` link by
/// chat identifier (supergroups, offset removed) or by user identifier.
pub open spec fn mention_href(user_id: i64, username: Option<Seq<char>>) -> Seq<char> {
    match username {
        Some(u) => "https://t.me/"@ + u,
        None => if user_id <= SUPERGROUP_PREFIX {
            "tg://openmessage?chat_id="@ + decimal(user_id - SUPERGROUP_PREFIX)
        } else {
            "tg://openmessage?user_id="@ + decimal(user_id as int)
        },
    }
}

/// The text of a mention: the cleared full name, else the username, else the identifier.
pub open spec fn mention_name(user_id: i64, username: Option<Seq<char>>, full_name: Seq<char>) -> Seq<char> {
    let name = clear_text_spec(full_name);
    if name.len() > 0 {
        name
    } else if username is Some {
        username->0
    } else {
        decimal(user_id as int)
    }
}

/// The HTML link that mentions a user or chat.
pub open spec fn mention_spec(user_id: i64, username: Option<Seq<char>>, full_name: Seq<char>) -> Seq<char> {
    "<a href='"@ + mention_href(user_id, username) + "'>"@ + mention_name(
        user_id,
        username,
        full_name,
    ) + "</a>"@
}

/// `<a href='LINK'>NAME</a>` for a user or chat: `mention_href` gives the link and
/// `mention_name` the text.
pub fn get_user_mention(user_id: i64, username: Option<&str>, full_name: String) -> (r: String)
    ensures
        r@ == mention_spec(
            user_id,
            match username {
                Some(u) => Some(u@),
                None => None,
            },
            full_name@,
        ),
{
    let ghost uname = match username {
        Some(u) => Some(u@),
        None => None,
    };
    let cleared = clear_text(full_name);
    let mut r = String::new();
    r.append("<a href='");
    match username {
        Some(u) => {
            r.append("https://t.me/");
            r.append(u);
        },
        None => {
            if user_id <= SUPERGROUP_PREFIX {
                r.append("tg://openmessage?chat_id=");
                push_i64(&mut r, user_id - SUPERGROUP_PREFIX);
            } else {
                r.append("tg://openmessage?user_id=");
                push_i64(&mut r, user_id);
            }
        },
    }
    r.append("'>");
    if cleared.as_str().unicode_len() > 0 {
        r.append(cleared.as_str());
    } else {
        match username {
            Some(u) => r.append(u),
            None => push_i64(&mut r, user_id),
        }
    }
    r.append("</a>");
    proof {
        assert(r@ =~= mention_spec(user_id, uname, full_name@));
    }
    r
}

/// How users are mentioned in messages.
pub trait UserMention {
    /// The mention this value renders to.
    spec fn mention_view(&self) -> Seq<char>;

    /// The HTML mention of this user.
    fn mention(&self) -> (r: String)
        ensures
            r@ == self.mention_view(),
    ;
}

impl UserMention for TgUser {
    /// A user is mentioned by identifier, username and first name.
    open spec fn mention_view(&self) -> Seq<char> {
        mention_spec(self.id, opt_view(self.username), self.first_name@)
    }

    fn mention(&self) -> (r: String) {
        let uname: Option<&str> = match &self.username {
            Some(u) => Some(u.as_str()),
            None => None,
        };
        get_user_mention(self.id, uname, self.first_name.clone())
    }
}

} // verus!
