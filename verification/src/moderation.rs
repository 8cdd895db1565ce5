//! Moderation commands and events: finding the user a command is about, lifting a mute or
//! banning from a button, the bot joining a chat, keeping users' names up to date, and the
//! answers of the administrator, chat and guarantor commands.
use vstd::prelude::*;
use vstd::string::*;
use crate::antispam::MemberStatus;
use crate::emoji::Emoji;
use crate::parse::{parse_user_id, user_id_spec};
use crate::strings::{decimal, i64_to_string, push_i64};
use crate::user::{opt_view, TgChat, TgUser};

verus! {

/// Where the user a command is about comes from.
#[derive(Debug, Clone)]
pub enum UserLookup {
    /// The author of the message the command replies to.
    FromReply,
    /// The user with this identifier in the database.
    ById(i64),
    /// The user with this username in the database.
    ByUsername(String),
    /// No user was given: the command fails.
    NotGiven,
}

/// Finds the user a command is about, from its `user` argument or its reply.
pub struct GetUserInfo {
    pub user: Option<String>,
}

impl GetUserInfo {
    /// A lookup for the given `user` argument.
    pub fn new(user: Option<String>) -> (r: GetUserInfo)
        ensures
            r.user == user,
    {
        GetUserInfo { user }
    }

    /// Where the user comes from: without an argument, the reply; with one, the identifier it
    /// reads as (see `parse_user_id`), else the username it is.
    pub fn lookup(&self, has_reply: bool) -> (r: UserLookup)
        ensures
            match r {
                UserLookup::FromReply => self.user is None && has_reply,
                UserLookup::ById(id) => self.user is Some && user_id_spec(self.user->0@) == Some(id),
                UserLookup::ByUsername(u) => self.user is Some && user_id_spec(self.user->0@) is None && u@
                    == self.user->0@,
                UserLookup::NotGiven => self.user is None && !has_reply,
            },
    {
        match &self.user {
            None => if has_reply {
                UserLookup::FromReply
            } else {
                UserLookup::NotGiven
            },
            Some(v) => match parse_user_id(v.as_str()) {
                Some(id) => UserLookup::ById(id),
                None => UserLookup::ByUsername(v.clone()),
            },
        }
    }

    /// The answer when the user cannot be found.
    pub fn not_found_text() -> (r: String)
        ensures
            r@ == Emoji::Warning.html_spec()
                + " Telegram API вернул ошибку:\nУказан неверный идентификатор пользователя или мне ничего не известно о нем"@,
    {
        let mut r = Emoji::Warning.to_html();
        r.append(" Telegram API вернул ошибку:\nУказан неверный идентификатор пользователя или мне ничего не известно о нем");
        r
    }
}

/// What a moderation button leads to.
#[derive(Debug, Clone, Copy, PartialEq, Eq, Structural)]
pub enum ModerationStep {
    /// The presser is not an administrator.
    Denied,
    /// Lift the restriction, or ban.
    Apply,
    /// The user is already unrestricted, or already banned.
    AlreadyDone,
}

/// What an unmute button leads to.
pub open spec fn unmute_step_spec(is_admin: bool, status: MemberStatus) -> ModerationStep {
    if !is_admin {
        ModerationStep::Denied
    } else if status == MemberStatus::Restricted {
        ModerationStep::Apply
    } else {
        ModerationStep::AlreadyDone
    }
}

/// What a ban button leads to.
pub open spec fn ban_step_spec(is_admin: bool, status: MemberStatus) -> ModerationStep {
    if !is_admin {
        ModerationStep::Denied
    } else if status == MemberStatus::Kicked {
        ModerationStep::AlreadyDone
    } else {
        ModerationStep::Apply
    }
}

/// The moderation buttons act only for administrators: anyone else is refused whatever the
/// user's status. An administrator's unmute lifts a restriction exactly when the user is
/// restricted, and an administrator's ban bans exactly when the user is not banned yet;
/// otherwise the button reports the work as already done.
pub proof fn moderation_buttons_need_admin(is_admin: bool, status: MemberStatus)
    ensures
        (unmute_step_spec(is_admin, status) == ModerationStep::Denied) <==> !is_admin,
        (ban_step_spec(is_admin, status) == ModerationStep::Denied) <==> !is_admin,
        is_admin ==> ((unmute_step_spec(is_admin, status) == ModerationStep::Apply) <==> status
            == MemberStatus::Restricted),
        is_admin ==> ((ban_step_spec(is_admin, status) == ModerationStep::Apply) <==> status != MemberStatus::Kicked),
        is_admin ==> unmute_step_spec(is_admin, status) != ModerationStep::Denied,
{
}

/// What an unmute button leads to: administrators lift the restriction of a restricted member.
pub fn unmute_step(is_admin: bool, status: MemberStatus) -> (r: ModerationStep)
    ensures
        r == unmute_step_spec(is_admin, status),
{
    if !is_admin {
        ModerationStep::Denied
    } else if status == MemberStatus::Restricted {
        ModerationStep::Apply
    } else {
        ModerationStep::AlreadyDone
    }
}

/// What a ban button leads to: administrators ban anyone who is not banned yet.
pub fn ban_step(is_admin: bool, status: MemberStatus) -> (r: ModerationStep)
    ensures
        r == ban_step_spec(is_admin, status),
{
    if !is_admin {
        ModerationStep::Denied
    } else if status == MemberStatus::Kicked {
        ModerationStep::AlreadyDone
    } else {
        ModerationStep::Apply
    }
}

/// The message a moderation report answers: none for message `0`.
pub fn report_reply_to(message_id: i64) -> (r: Option<i64>)
    ensures
        r == (if message_id != 0 { Some(message_id) } else { None }),
{
    if message_id != 0 {
        Some(message_id)
    } else {
        None
    }
}

/// The report that a restriction was lifted.
pub fn unmuted_text(user_mention: &str, admin_mention: &str) -> (r: String)
    ensures
        r@ == Emoji::Information.html_spec() + " C "@ + user_mention@ + " сняли ограничения\n"@
            + Emoji::Human.html_spec() + " Модератор: "@ + admin_mention@,
{
    let mut r = Emoji::Information.to_html();
    r.append(" C ");
    r.append(user_mention);
    r.append(" сняли ограничения\n");
    r.append(Emoji::Human.to_html().as_str());
    r.append(" Модератор: ");
    r.append(admin_mention);
    r
}

/// The report that a user was banned.
pub fn banned_text(user_mention: &str, admin_mention: &str) -> (r: String)
    ensures
        r@ == Emoji::Information.html_spec() + " Пользователь "@ + user_mention@ + " исключен из чата\n"@
            + Emoji::Human.html_spec() + " Модератор: "@ + admin_mention@,
{
    let mut r = Emoji::Information.to_html();
    r.append(" Пользователь ");
    r.append(user_mention);
    r.append(" исключен из чата\n");
    r.append(Emoji::Human.to_html().as_str());
    r.append(" Модератор: ");
    r.append(admin_mention);
    r
}

/// Whether a member status is outside the chat.
pub open spec fn is_outside(s: MemberStatus) -> bool {
    s == MemberStatus::Left || s == MemberStatus::Kicked
}

/// Whether a change of the bot's membership is its joining a chat: from outside the chat to
/// inside it.
pub fn is_joined(old_status: MemberStatus, new_status: MemberStatus) -> (r: bool)
    ensures
        r == (is_outside(old_status) && !is_outside(new_status)),
{
    (old_status == MemberStatus::Left || old_status == MemberStatus::Kicked) && !(new_status
        == MemberStatus::Left || new_status == MemberStatus::Kicked)
}

/// The greeting the bot posts when it is added to a chat.
pub fn bot_welcome_text(bot_mention: &str) -> (r: String)
    ensures
        r@ == "<tg-emoji emoji-id='5372981976804366741'>🤖</tg-emoji> "@ + bot_mention@
            + " был добавлен в чат.\nЯ являюсь бото-помощником для модерации сетки чатов RedTokyo.\nНазначь меня администратором чата, для начала работы"@,
{
    let mut r = String::new();
    r.append("<tg-emoji emoji-id='5372981976804366741'>🤖</tg-emoji> ");
    r.append(bot_mention);
    r.append(" был добавлен в чат.\nЯ являюсь бото-помощником для модерации сетки чатов RedTokyo.\nНазначь меня администратором чата, для начала работы");
    r
}

/// Where an update comes from, as the name keeper reads it.
#[derive(Debug, Clone)]
pub struct UpdateSource {
    pub from: Option<TgUser>,
    pub sender_chat: Option<TgChat>,
    pub chat: Option<TgChat>,
}

/// An optional text, or the empty text.
pub open spec fn text_or_empty(s: Option<String>) -> Seq<char> {
    match s {
        Some(x) => x@,
        None => Seq::<char>::empty(),
    }
}

/// Who an update is attributed to by the name keeper: the author (`first last`), else the chat
/// it was sent on behalf of (its title), else the chat (`first last`), else nobody
/// (identifier 0, "Unknown").
pub open spec fn update_identity_spec(u: UpdateSource) -> (i64, Option<Seq<char>>, Seq<char>) {
    match u.from {
        Some(f) => (f.id, opt_view(f.username), f.first_name@ + " "@ + text_or_empty(f.last_name)),
        None => match u.sender_chat {
            Some(c) => (c.id, opt_view(c.username), text_or_empty(c.title)),
            None => match u.chat {
                Some(c) => (c.id, opt_view(c.username), text_or_empty(c.first_name) + " "@ + text_or_empty(c.last_name)),
                None => (0i64, None, "Unknown"@),
            },
        },
    }
}

fn clone_text(s: &Option<String>) -> (r: Option<String>)
    ensures
        opt_view(r) == opt_view(*s),
{
    match s {
        Some(x) => Some(x.clone()),
        None => None,
    }
}

fn two_words(a: &Option<String>, b: &Option<String>) -> (r: String)
    ensures
        r@ == text_or_empty(*a) + " "@ + text_or_empty(*b),
{
    let mut r = String::new();
    match a {
        Some(x) => r.append(x.as_str()),
        None => {},
    }
    r.append(" ");
    match b {
        Some(x) => r.append(x.as_str()),
        None => {},
    }
    proof {
        assert(r@ =~= text_or_empty(*a) + " "@ + text_or_empty(*b));
    }
    r
}

/// Whether the cached name of a user is the current one.
pub open spec fn cache_is_current(cached: Option<(Option<String>, String)>, username: Option<Seq<char>>, full_name: Seq<char>) -> bool {
    match cached {
        Some((cu, cn)) => opt_view(cu) == username && cn@ == full_name,
        None => false,
    }
}

/// Keeps the users table up to date with the names of whoever writes.
pub struct UpdateUserMiddleware;

impl UpdateUserMiddleware {
    /// Who an update is attributed to, as `update_identity_spec` says.
    pub fn identity(u: &UpdateSource) -> (r: (i64, Option<String>, String))
        ensures
            (r.0, opt_view(r.1), r.2@) == update_identity_spec(*u),
    {
        match &u.from {
            Some(f) => {
                let mut name = String::new();
                name.append(f.first_name.as_str());
                name.append(" ");
                match &f.last_name {
                    Some(l) => name.append(l.as_str()),
                    None => {},
                }
                proof {
                    assert(name@ =~= f.first_name@ + " "@ + text_or_empty(f.last_name));
                }
                (f.id, clone_text(&f.username), name)
            },
            None => match &u.sender_chat {
                Some(c) => {
                    let title = match &c.title {
                        Some(t) => t.clone(),
                        None => String::new(),
                    };
                    (c.id, clone_text(&c.username), title)
                },
                None => match &u.chat {
                    Some(c) => (c.id, clone_text(&c.username), two_words(&c.first_name, &c.last_name)),
                    None => {
                        let mut unknown = String::new();
                        unknown.append("Unknown");
                        (0, None, unknown)
                    },
                },
            },
        }
    }

    /// Whether the stored name must be written: unless the cached username and full name are
    /// both the current ones.
    pub fn needs_update(cached: &Option<(Option<String>, String)>, username: &Option<String>, full_name: &str) -> (r: bool)
        ensures
            r == !cache_is_current(*cached, opt_view(*username), full_name@),
    {
        match cached {
            Some((cu, cn)) => {
                let same_user = match (cu, username) {
                    (Some(a), Some(b)) => str_same(a.as_str(), b.as_str()),
                    (None, None) => true,
                    _ => false,
                };
                !(same_user && str_same(cn.as_str(), full_name))
            },
            None => true,
        }
    }
}

fn str_same(a: &str, b: &str) -> (r: bool)
    ensures
        r == (a@ == b@),
{
    let x = crate::strings::chars_of(a);
    let y = crate::strings::chars_of(b);
    crate::callback::same_chars(&x, &y)
}

/// What the database-update command does.
#[derive(Debug, Clone, Copy, PartialEq, Eq, Structural)]
pub enum DbUpdate {
    /// No numeric identifier was given.
    NoId,
    /// The identifier is known already.
    Known,
    /// Record the identifier, with itself as the name.
    Insert(i64),
}

/// The identifier a database-update command is about: its `user` argument read by
/// `parse_user_id`.
pub fn db_update_target(user: Option<&str>) -> (r: Option<i64>)
    ensures
        r == match user {
            Some(u) => user_id_spec(u@),
            None => None,
        },
{
    match user {
        Some(u) => parse_user_id(u),
        None => None,
    }
}

/// What the database-update command does, given its target and whether it is known.
pub fn db_update_step(target: Option<i64>, known: bool) -> (r: DbUpdate)
    ensures
        r == match target {
            None => DbUpdate::NoId,
            Some(id) => if known { DbUpdate::Known } else { DbUpdate::Insert(id) },
        },
{
    match target {
        None => DbUpdate::NoId,
        Some(id) => if known {
            DbUpdate::Known
        } else {
            DbUpdate::Insert(id)
        },
    }
}

/// The name recorded for an identifier the database-update command adds: its decimal text.
pub fn db_update_name(id: i64) -> (r: String)
    ensures
        r@ == decimal(id as int),
{
    i64_to_string(id)
}

/// The answer of the database-update command.
pub open spec fn db_update_text_spec(step: DbUpdate) -> Seq<char> {
    Emoji::Information.html_spec() + match step {
        DbUpdate::NoId => " Боту должен быть передан числовой ИД"@,
        DbUpdate::Known => " Данный ИД уже известен боту"@,
        DbUpdate::Insert(_) => " Данные пользователя обновлены в базе"@,
    }
}

/// The answer of the database-update command.
pub fn db_update_text(step: DbUpdate) -> (r: String)
    ensures
        r@ == db_update_text_spec(step),
{
    let mut r = Emoji::Information.to_html();
    match step {
        DbUpdate::NoId => r.append(" Боту должен быть передан числовой ИД"),
        DbUpdate::Known => r.append(" Данный ИД уже известен боту"),
        DbUpdate::Insert(_) => r.append(" Данные пользователя обновлены в базе"),
    }
    r
}

/// The answer of an administrator-list change: `added` when the command adds, `changed` when
/// the list changed.
pub open spec fn admin_change_text_spec(mention: Seq<char>, adding: bool, was_listed: bool) -> Seq<char> {
    Emoji::Human.html_spec() + " Пользователь "@ + mention + if adding {
        if was_listed {
            " уже был добавлен в список администраторов"@
        } else {
            " был добавлен в список администраторов"@
        }
    } else {
        if was_listed {
            " был удален из списка администраторов"@
        } else {
            " отсуствует в списке администраторов"@
        }
    }
}

/// The answer of an administrator-list change.
pub fn admin_change_text(mention: &str, adding: bool, was_listed: bool) -> (r: String)
    ensures
        r@ == admin_change_text_spec(mention@, adding, was_listed),
{
    let mut r = Emoji::Human.to_html();
    r.append(" Пользователь ");
    r.append(mention);
    if adding {
        if was_listed {
            r.append(" уже был добавлен в список администраторов");
        } else {
            r.append(" был добавлен в список администраторов");
        }
    } else {
        if was_listed {
            r.append(" был удален из списка администраторов");
        } else {
            r.append(" отсуствует в списке администраторов");
        }
    }
    r
}

/// The answer of an allowed-chats change.
pub open spec fn allowed_chat_text_spec(mention: Seq<char>, adding: bool, was_listed: bool) -> Seq<char> {
    Emoji::Balloon.html_spec() + " Чат "@ + mention + if adding {
        if was_listed {
            " уже был добавлен в список разрешенных"@
        } else {
            " был добавлен в список разрешенных"@
        }
    } else {
        if was_listed {
            " был удален из списка разрешенных"@
        } else {
            " не состоит в списке разрешенных"@
        }
    }
}

/// The answer of an allowed-chats change.
pub fn allowed_chat_text(mention: &str, adding: bool, was_listed: bool) -> (r: String)
    ensures
        r@ == allowed_chat_text_spec(mention@, adding, was_listed),
{
    let mut r = Emoji::Balloon.to_html();
    r.append(" Чат ");
    r.append(mention);
    if adding {
        if was_listed {
            r.append(" уже был добавлен в список разрешенных");
        } else {
            r.append(" был добавлен в список разрешенных");
        }
    } else {
        if was_listed {
            r.append(" был удален из списка разрешенных");
        } else {
            r.append(" не состоит в списке разрешенных");
        }
    }
    r
}

/// The answer of a guarantor-list change: added, removed, or not a guarantor.
pub open spec fn garant_change_text_spec(mention: Seq<char>, adding: bool, was_listed: bool) -> Seq<char> {
    Emoji::Balloon.html_spec() + " "@ + mention + if adding {
        " добавлен в список гарантов RedTokyo"@
    } else if was_listed {
        " исключен из списка гарантов RedTokyo"@
    } else {
        " Отсутствует в списке гарантов RedTokyo"@
    }
}

/// The answer of a guarantor-list change.
pub fn garant_change_text(mention: &str, adding: bool, was_listed: bool) -> (r: String)
    ensures
        r@ == garant_change_text_spec(mention@, adding, was_listed),
{
    let mut r = Emoji::Balloon.to_html();
    r.append(" ");
    r.append(mention);
    if adding {
        r.append(" добавлен в список гарантов RedTokyo");
    } else if was_listed {
        r.append(" исключен из списка гарантов RedTokyo");
    } else {
        r.append(" Отсутствует в списке гарантов RedTokyo");
    }
    r
}

} // verus!
