//! The antispam checks: links to foreign private chats, message floods (raids), and bots
//! that are not members; and the notices the bot posts when one of them fires.
use vstd::prelude::*;
use vstd::string::*;
use crate::chat::{allowed_bot_ids, allowed_urls, gl_admins, is_allowed_bot, is_allowed_url, is_gl_admin, SCAM_CHANNEL_ID};
use crate::emoji::Emoji;
use crate::message::{get_user_info, sender_spec, MessageInfo};
use crate::pattern::{regex_find_all, regex_valid, Pattern, PatternError};
use crate::regexes::{invite_source, re_invite};
use crate::strings::{decimal, push_char, push_i64};

verus! {

/// The text a message carries: its text, else its caption, else nothing.
pub open spec fn message_text(msg: MessageInfo) -> Seq<char> {
    match msg.text {
        Some(t) => t@,
        None => match msg.caption {
            Some(c) => c@,
            None => Seq::<char>::empty(),
        },
    }
}

/// Whether the author of a message is a bot.
pub open spec fn from_bot(msg: MessageInfo) -> bool {
    msg.from is Some && msg.from->0.is_bot
}

/// Whether a message spreads an invite link: it is not from a bot, and some invite link in its
/// text is not one of the allowed links.
pub open spec fn spam_link_spec(msg: MessageInfo) -> bool {
    !from_bot(msg) && exists|i: int|
        0 <= i < regex_find_all(invite_source(), message_text(msg)).len() && !allowed_urls().contains(
            #[trigger] regex_find_all(invite_source(), message_text(msg))[i],
        )
}

/// The member status of a user in a chat.
#[derive(Debug, Clone, Copy, PartialEq, Eq, Structural)]
pub enum MemberStatus {
    Owner,
    Administrator,
    Member,
    Restricted,
    Left,
    Kicked,
}

/// How the bot check goes on for a message.
#[derive(Debug, Clone, Copy, PartialEq, Eq, Structural)]
pub enum BotAccess {
    /// The message is not from a bot, or from an allowed bot: it passes.
    Granted,
    /// The message is from another bot: it passes only if that bot is still in the chat.
    Lookup { chat_id: i64, bot_id: i64 },
}

/// Why a message was stopped, or that it passed.
#[derive(Debug, Clone)]
pub enum AntispamVerdict {
    Pass,
    /// An invite link: the message to delete.
    Spam(Vec<i64>),
    /// A flood: the timestamps of the sender's recent messages.
    Raid(Vec<i64>),
    /// A foreign bot: the message to delete.
    Bot(Vec<i64>),
}

impl AntispamVerdict {
    /// Whether the message passed.
    pub fn passed(&self) -> (r: bool)
        ensures
            r == (self is Pass),
    {
        match self {
            AntispamVerdict::Pass => true,
            _ => false,
        }
    }

    /// The reason word of the verdict.
    pub fn reason(&self) -> (r: &'static str)
        ensures
            r@ == match self {
                AntispamVerdict::Pass => "null"@,
                AntispamVerdict::Spam(_) => "spam"@,
                AntispamVerdict::Raid(_) => "raid"@,
                AntispamVerdict::Bot(_) => "bot"@,
            },
    {
        match self {
            AntispamVerdict::Pass => "null",
            AntispamVerdict::Spam(_) => "spam",
            AntispamVerdict::Raid(_) => "raid",
            AntispamVerdict::Bot(_) => "bot",
        }
    }
}

/// The antispam checks. It holds the compiled invite-link pattern.
pub struct AntispamFilter {
    invite: Pattern,
}

/// `format!("{:?}", s)`: the text in double quotes with the escapes of `str::escape_debug`.
pub uninterp spec fn debug_str(s: Seq<char>) -> Seq<char>;

/// `format!("{:?}", s)` for a string slice.
#[verifier::external_body]
pub(crate) fn debug_text(s: &str) -> (r: String)
    ensures
        r@ == debug_str(s@),
{
    format!("{:?}", s)
}

/// The timestamps that stay in the flood window after a message at `now`: the earlier ones and
/// `now` itself, each kept when it is later than `now - 8`, in order.
pub open spec fn keep_recent(s: Seq<i64>, now: i64) -> Seq<i64>
    decreases s.len(),
{
    if s.len() == 0 {
        Seq::empty()
    } else {
        let rest = keep_recent(s.drop_last(), now);
        if s.last() > now - 8 {
            rest.push(s.last())
        } else {
            rest
        }
    }
}

/// The flood window after a message at `now`, given the earlier timestamps.
pub open spec fn raid_window_spec(prev: Seq<i64>, now: i64) -> Seq<i64> {
    keep_recent(prev.push(now), now)
}

/// More than ten messages in the window make a raid.
pub open spec fn is_raid_spec(window: Seq<i64>) -> bool {
    window.len() > 10
}

/// The cache key of a sender's flood window: `CHAT:USER`.
pub open spec fn raid_key_spec(chat_id: i64, user_id: i64) -> Seq<char> {
    decimal(chat_id as int) + seq![':'] + decimal(user_id as int)
}

/// Whether the flood check skips a message: part of a media group, or from a bot.
pub open spec fn raid_exempt_spec(msg: MessageInfo) -> bool {
    msg.media_group_id is Some || from_bot(msg)
}

/// How the bot check goes on for a message.
pub open spec fn bot_access_spec(msg: MessageInfo) -> BotAccess {
    if from_bot(msg) && !allowed_bot_ids().contains(msg.from->0.id) {
        BotAccess::Lookup { chat_id: msg.chat.id, bot_id: msg.from->0.id }
    } else {
        BotAccess::Granted
    }
}

/// Whether a bot passes, given its status in the chat (`None` when the lookup failed): it
/// passes unless it left, was removed, or could not be looked up.
pub open spec fn bot_status_passes(status: Option<MemberStatus>) -> bool {
    match status {
        Some(MemberStatus::Left) => false,
        Some(MemberStatus::Kicked) => false,
        Some(_) => true,
        None => false,
    }
}

impl AntispamFilter {
    /// The invite pattern this filter holds is the invite-link pattern.
    #[verifier::type_invariant]
    spec fn wf(&self) -> bool {
        self.invite@ == invite_source()
    }

    /// A filter with the invite-link pattern compiled; an error if the pattern does not
    /// compile.
    pub fn new() -> (r: Result<AntispamFilter, PatternError>)
        ensures
            r is Ok <==> regex_valid(invite_source()),
    {
        match re_invite() {
            Ok(p) => Ok(AntispamFilter { invite: p }),
            Err(e) => Err(e),
        }
    }

    /// Whether a message spreads an invite link that is not allowed, as `spam_link_spec` says.
    pub fn is_spam_link(&self, msg: &MessageInfo) -> (r: bool)
        ensures
            r == spam_link_spec(*msg),
    {
        proof {
            use_type_invariant(self);
        }
        match &msg.from {
            Some(u) => {
                if u.is_bot {
                    return false;
                }
            },
            None => {},
        }
        let text: &str = match &msg.text {
            Some(t) => t.as_str(),
            None => match &msg.caption {
                Some(c) => c.as_str(),
                None => "",
            },
        };
        proof {
            if msg.text is None && msg.caption is None {
                reveal_strlit("");
                assert(text@ =~= Seq::<char>::empty());
            }
        }
        assert(text@ == message_text(*msg));
        assert(!from_bot(*msg));
        let found = self.invite.find_all(text);
        let ghost links = regex_find_all(invite_source(), message_text(*msg));
        assert(found@.map_values(|s: String| s@) == links);
        assert(found@.len() == links.len());
        assert forall|k: int| 0 <= k < links.len() implies #[trigger] links[k] == found@[k]@ by {
            assert(found@.map_values(|s: String| s@)[k] == found@[k]@);
        }
        let mut i: usize = 0;
        while i < found.len()
            invariant
                i <= found@.len(),
                !from_bot(*msg),
                links == regex_find_all(invite_source(), message_text(*msg)),
                found@.len() == links.len(),
                forall|k: int| 0 <= k < links.len() ==> #[trigger] links[k] == found@[k]@,
                forall|k: int| 0 <= k < i ==> allowed_urls().contains(#[trigger] links[k]),
            decreases found.len() - i,
        {
            if !is_allowed_url(found[i].as_str()) {
                assert(!allowed_urls().contains(regex_find_all(invite_source(), message_text(*msg))[i as int]));
                assert(!from_bot(*msg));
                return true;
            }
            i = i + 1;
        }
        false
    }

    /// The cache key of a sender's flood window.
    pub fn raid_key(chat_id: i64, user_id: i64) -> (r: String)
        ensures
            r@ == raid_key_spec(chat_id, user_id),
    {
        let mut r = String::new();
        push_i64(&mut r, chat_id);
        push_char(&mut r, ':');
        push_i64(&mut r, user_id);
        r
    }

    /// Whether the flood check skips a message.
    pub fn raid_exempt(msg: &MessageInfo) -> (r: bool)
        ensures
            r == raid_exempt_spec(*msg),
    {
        msg.media_group_id.is_some() || match &msg.from {
            Some(u) => u.is_bot,
            None => false,
        }
    }

    /// The flood window after a message at `now`: `now` is added to the earlier timestamps and
    /// those not later than `now - 8` are dropped.
    pub fn raid_window(prev: Vec<i64>, now: i64) -> (r: Vec<i64>)
        requires
            now >= i64::MIN + 8,
        ensures
            r@ == raid_window_spec(prev@, now),
    {
        let mut all = prev;
        all.push(now);
        let bound = now - 8;
        let mut r: Vec<i64> = Vec::new();
        let mut i: usize = 0;
        while i < all.len()
            invariant
                i <= all@.len(),
                bound == now - 8,
                r@ == keep_recent(all@.take(i as int), now),
            decreases all.len() - i,
        {
            assert(all@.take(i + 1).drop_last() =~= all@.take(i as int));
            if all[i] > bound {
                r.push(all[i]);
            }
            i = i + 1;
        }
        assert(all@.take(i as int) =~= all@);
        r
    }

    /// Whether a flood window makes a raid.
    pub fn is_raid(window: &Vec<i64>) -> (r: bool)
        ensures
            r == is_raid_spec(window@),
    {
        window.len() > 10
    }

    /// How the bot check goes on for a message.
    pub fn check_bot_access(msg: &MessageInfo) -> (r: BotAccess)
        ensures
            r == bot_access_spec(*msg),
    {
        match &msg.from {
            Some(u) => {
                if u.is_bot && !is_allowed_bot(u.id) {
                    BotAccess::Lookup { chat_id: msg.chat.id, bot_id: u.id }
                } else {
                    BotAccess::Granted
                }
            },
            None => BotAccess::Granted,
        }
    }

    /// Whether a bot passes, given its status in the chat, as `bot_status_passes` says.
    pub fn bot_status_allows(status: Option<MemberStatus>) -> (r: bool)
        ensures
            r == bot_status_passes(status),
    {
        match status {
            Some(MemberStatus::Left) => false,
            Some(MemberStatus::Kicked) => false,
            Some(_) => true,
            None => false,
        }
    }
}

/// A foreign bot passes the member check exactly when its lookup succeeded and it is still in
/// the chat, in whatever role: the owner, an administrator, a member or a restricted member
/// all pass; a bot that left or was removed, or could not be looked up, does not.
pub proof fn bot_passes_while_in_chat(status: Option<MemberStatus>)
    ensures
        bot_status_passes(status) <==> (status is Some && status->0 != MemberStatus::Left && status->0
            != MemberStatus::Kicked),
        bot_status_passes(Some(MemberStatus::Owner)),
        bot_status_passes(Some(MemberStatus::Administrator)),
        bot_status_passes(Some(MemberStatus::Member)),
        bot_status_passes(Some(MemberStatus::Restricted)),
{
}

/// The verdict of the checks, taken in order: an invite link stops the message first, then a
/// flood (`raid` holds the flood window when it makes a raid), then a foreign bot that did not
/// pass its lookup.
pub open spec fn check_verdict_spec(message_id: i64, spam: bool, raid: Option<Seq<i64>>, bot_passes: bool) -> (int, Seq<i64>) {
    if spam {
        (1, seq![message_id])
    } else if raid is Some {
        (2, raid->0)
    } else if !bot_passes {
        (3, seq![message_id])
    } else {
        (0, Seq::empty())
    }
}

impl AntispamFilter {
    /// The verdict of the checks, as `check_verdict_spec` says: the kind of the verdict and the
    /// messages it names.
    pub fn check_verdict(message_id: i64, spam: bool, raid: Option<Vec<i64>>, bot_passes: bool) -> (r: AntispamVerdict)
        ensures
            (verdict_kind(r), verdict_messages(r)) == check_verdict_spec(
                message_id,
                spam,
                match raid {
                    Some(w) => Some(w@),
                    None => None,
                },
                bot_passes,
            ),
    {
        if spam {
            AntispamVerdict::Spam(vec![message_id])
        } else {
            match raid {
                Some(w) => AntispamVerdict::Raid(w),
                None => if !bot_passes {
                    AntispamVerdict::Bot(vec![message_id])
                } else {
                    AntispamVerdict::Pass
                },
            }
        }
    }
}

/// The checks are taken in order. An invite link stops the message, naming it, whatever the
/// flood and bot checks found; without one a flood stops it, naming the sender's recent
/// messages; only then does a failed bot check stop it. A message passes exactly when no
/// check stopped it, and a passed message names nothing.
pub proof fn antispam_checks_in_order(message_id: i64, spam: bool, raid: Option<Seq<i64>>, bot_passes: bool)
    ensures
        spam ==> check_verdict_spec(message_id, spam, raid, bot_passes) == (1int, seq![message_id]),
        !spam && raid is Some ==> check_verdict_spec(message_id, spam, raid, bot_passes) == (2int, raid->0),
        !spam && raid is None && !bot_passes ==> check_verdict_spec(message_id, spam, raid, bot_passes) == (3int, seq![
            message_id,
        ]),
        (check_verdict_spec(message_id, spam, raid, bot_passes).0 == 0) <==> (!spam && raid is None && bot_passes),
        check_verdict_spec(message_id, spam, raid, bot_passes).0 == 0 ==> check_verdict_spec(
            message_id,
            spam,
            raid,
            bot_passes,
        ).1.len() == 0,
{
}

/// The messages a verdict names.
pub open spec fn verdict_messages(v: AntispamVerdict) -> Seq<i64> {
    match v {
        AntispamVerdict::Pass => Seq::empty(),
        AntispamVerdict::Spam(m) => m@,
        AntispamVerdict::Raid(m) => m@,
        AntispamVerdict::Bot(m) => m@,
    }
}

/// Every timestamp kept in the flood window is later than `now - 8`, the window keeps the
/// order of the timestamps, and the new message is always in it.
pub proof fn raid_window_keeps_recent(prev: Seq<i64>, now: i64)
    requires
        now >= i64::MIN + 8,
    ensures
        forall|k: int| 0 <= k < raid_window_spec(prev, now).len() ==> #[trigger] raid_window_spec(prev, now)[k] > now - 8,
        raid_window_spec(prev, now).len() >= 1,
        raid_window_spec(prev, now).last() == now,
        raid_window_spec(prev, now).len() <= prev.len() + 1,
{
    lemma_keep_recent(prev, now);
    let s = prev.push(now);
    assert(s.drop_last() =~= prev);
}

proof fn lemma_keep_recent(s: Seq<i64>, now: i64)
    ensures
        forall|k: int| 0 <= k < keep_recent(s, now).len() ==> #[trigger] keep_recent(s, now)[k] > now - 8,
        keep_recent(s, now).len() <= s.len(),
    decreases s.len(),
{
    if s.len() > 0 {
        lemma_keep_recent(s.drop_last(), now);
    }
}

/// What the antispam middleware does with a message before any check.
#[derive(Debug, Clone, Copy, PartialEq, Eq, Structural)]
pub enum AntispamGate {
    /// A post of the scam channel: unpin it and stop handling the update.
    UnpinAndSkip,
    /// A chief administrator: no checks.
    Exempt,
    /// Run the checks.
    Check,
}

/// What the antispam middleware does with a message before any check.
pub open spec fn gate_spec(msg: MessageInfo) -> AntispamGate {
    if msg.sender_chat is Some && msg.sender_chat->0.id == SCAM_CHANNEL_ID {
        AntispamGate::UnpinAndSkip
    } else if gl_admins().contains(sender_spec(msg).0) {
        AntispamGate::Exempt
    } else {
        AntispamGate::Check
    }
}

/// Posts of the scam channel are unpinned and skipped whoever appears as their author; any
/// other message is checked unless it comes from a chief administrator, who is never checked.
pub proof fn antispam_gate_exempts_admins(msg: MessageInfo)
    ensures
        msg.sender_chat is Some && msg.sender_chat->0.id == SCAM_CHANNEL_ID ==> gate_spec(msg) == AntispamGate::UnpinAndSkip,
        !(msg.sender_chat is Some && msg.sender_chat->0.id == SCAM_CHANNEL_ID) ==> ((gate_spec(msg) == AntispamGate::Exempt)
            <==> gl_admins().contains(sender_spec(msg).0)),
        (gate_spec(msg) == AntispamGate::Check) ==> !gl_admins().contains(sender_spec(msg).0),
{
}

/// The antispam middleware: runs the checks on every message and edited message.
pub struct AntispamMiddleware;

impl AntispamMiddleware {
    /// Posts of the scam channel are unpinned and not handled further; the chief
    /// administrators are not checked; everyone else is.
    pub fn gate(msg: &MessageInfo) -> (r: AntispamGate)
        ensures
            r == gate_spec(*msg),
    {
        match &msg.sender_chat {
            Some(c) => {
                if c.id == SCAM_CHANNEL_ID {
                    return AntispamGate::UnpinAndSkip;
                }
            },
            None => {},
        }
        let (user_id, _, _) = get_user_info(msg);
        if is_gl_admin(user_id) {
            AntispamGate::Exempt
        } else {
            AntispamGate::Check
        }
    }

    /// The notice posted when a message is stopped, by verdict; `None` for a passed message.
    pub fn notice(verdict: &AntispamVerdict, mention: &str, user_id: i64, chat_title: Option<&str>, text: Option<&str>) -> (r: Option<String>)
        ensures
            r is Some <==> !(verdict is Pass),
            r matches Some(t) ==> t@ == notice_spec(
                verdict_kind(*verdict),
                mention@,
                user_id,
                match chat_title {
                    Some(c) => c@,
                    None => "Без названия"@,
                },
                match text {
                    Some(x) => x@,
                    None => ""@,
                },
            ),
    {
        let mut r = String::new();
        match verdict {
            AntispamVerdict::Pass => {
                return None;
            },
            AntispamVerdict::Spam(_) => {
                r.append(Emoji::Information.to_html().as_str());
                r.append(" ");
                r.append(mention);
                r.append(" был ограничен на сутки\n");
                r.append(Emoji::Balloon.to_html().as_str());
                r.append(" Причина: Рассылка спам-ссылок.");
            },
            AntispamVerdict::Bot(_) => {
                let title = match chat_title {
                    Some(c) => c,
                    None => "Без названия",
                };
                let body = match text {
                    Some(x) => x,
                    None => "",
                };
                r.append(Emoji::Bot.to_html().as_str());
                r.append(" Ограничен гостевой бот ");
                r.append(mention);
                r.append(" (<code>@");
                push_i64(&mut r, user_id);
                r.append("</code>)\n");
                r.append(Emoji::Megaphone.to_html().as_str());
                r.append(" Чат: ");
                r.append(debug_text(title).as_str());
                r.append("\n");
                r.append(Emoji::Balloon.to_html().as_str());
                r.append(" Сообщение: ");
                r.append(debug_text(body).as_str());
            },
            AntispamVerdict::Raid(_) => {
                r.append("📛 Сработал антирейд фильтр!\n");
                r.append(Emoji::Human.to_html().as_str());
                r.append(" Пользователь ");
                r.append(mention);
                r.append(" ограничен на сутки");
            },
        }
        Some(r)
    }
}

/// The kind of a verdict as a number: zero when the message got through, then one for an
/// invite link, two for a flood and three for a foreign bot.
pub open spec fn verdict_kind(v: AntispamVerdict) -> int {
    match v {
        AntispamVerdict::Pass => 0,
        AntispamVerdict::Spam(_) => 1,
        AntispamVerdict::Raid(_) => 2,
        AntispamVerdict::Bot(_) => 3,
    }
}

/// The notice of a stopped message of a given kind.
pub open spec fn notice_spec(kind: int, mention: Seq<char>, user_id: i64, chat_title: Seq<char>, text: Seq<char>) -> Seq<char> {
    if kind == 1 {
        Emoji::Information.html_spec() + " "@ + mention + " был ограничен на сутки\n"@ + Emoji::Balloon.html_spec()
            + " Причина: Рассылка спам-ссылок."@
    } else if kind == 3 {
        Emoji::Bot.html_spec() + " Ограничен гостевой бот "@ + mention + " (<code>@"@ + decimal(user_id as int)
            + "</code>)\n"@ + Emoji::Megaphone.html_spec() + " Чат: "@ + debug_str(chat_title) + "\n"@
            + Emoji::Balloon.html_spec() + " Сообщение: "@ + debug_str(text)
    } else {
        "📛 Сработал антирейд фильтр!\n"@ + Emoji::Human.html_spec() + " Пользователь "@ + mention + " ограничен на сутки"@
    }
}

} // verus!
