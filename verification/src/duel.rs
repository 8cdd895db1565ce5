//! The duel chat: reading a game's bet, warning or muting players who bet less than the
//! minimum; and the ping command's verdict on latency.
use vstd::prelude::*;
use vstd::string::*;
use crate::chat::DUEL_CHAT_ID;
use crate::emoji::Emoji;
use crate::parse::{amount_spec, lowercase, parse_amount, trim_spec};
use crate::strings::{decimal, push_i64};

verus! {

/// The bet a game command in a chat stands for: none outside the duel chat or for a link;
/// else the amount of its text (`0` when it has none).
pub open spec fn duel_amount_spec(chat_id: i64, raw: Seq<char>) -> Option<i64> {
    if chat_id != DUEL_CHAT_ID {
        None
    } else {
        let a = amount_spec(lowercase(trim_spec(raw)));
        if a == -1 {
            None
        } else {
            Some(a)
        }
    }
}

/// The bet of a game command, as `duel_amount_spec` says; a missing amount counts as "0".
pub fn duel_amount(chat_id: i64, raw: Option<&str>) -> (r: Option<i64>)
    ensures
        r == duel_amount_spec(
            chat_id,
            match raw {
                Some(x) => x@,
                None => "0"@,
            },
        ),
{
    if chat_id != DUEL_CHAT_ID {
        return None;
    }
    let text: &str = match raw {
        Some(x) => x,
        None => "0",
    };
    let a = parse_amount(text);
    if a == -1 {
        None
    } else {
        Some(a)
    }
}

/// What a game bet leads to.
#[derive(Debug, Clone, Copy, PartialEq, Eq, Structural)]
pub enum DuelAction {
    /// The bet is not below the minimum: nothing.
    Nothing,
    /// A first bet below the minimum: warn, and remember `warns` low bets.
    Warn { warns: u32 },
    /// A repeated bet below the minimum: forget the count and mute for five minutes.
    Mute,
}

/// What a game bet leads to, given the minimum bet and how many low bets were remembered.
pub open spec fn duel_action_spec(amount: i64, min_bet: i64, prior_warns: u32) -> DuelAction {
    if 0 <= amount < min_bet {
        if prior_warns + 1 >= 2 {
            DuelAction::Mute
        } else {
            DuelAction::Warn { warns: (prior_warns + 1) as u32 }
        }
    } else {
        DuelAction::Nothing
    }
}

/// What a game bet leads to, as `duel_action_spec` says.
pub fn duel_action(amount: i64, min_bet: i64, prior_warns: u32) -> (r: DuelAction)
    requires
        prior_warns < u32::MAX,
    ensures
        r == duel_action_spec(amount, min_bet, prior_warns),
{
    if 0 <= amount && amount < min_bet {
        let warns = prior_warns + 1;
        if warns >= 2 {
            DuelAction::Mute
        } else {
            DuelAction::Warn { warns }
        }
    } else {
        DuelAction::Nothing
    }
}

/// Low bets are punished step by step. A bet at or above the minimum, or a negative one, is
/// left alone whatever was remembered; the first bet below the minimum (none remembered) is
/// warned and remembered once; a bet below the minimum after one was remembered mutes.
pub proof fn duel_low_bets_escalate(amount: i64, min_bet: i64, prior_warns: u32)
    ensures
        (duel_action_spec(amount, min_bet, prior_warns) == DuelAction::Nothing) <==> (amount < 0 || amount >= min_bet),
        0 <= amount < min_bet && prior_warns == 0 ==> duel_action_spec(amount, min_bet, prior_warns) == (DuelAction::Warn {
            warns: 1,
        }),
        0 <= amount < min_bet && prior_warns >= 1 ==> duel_action_spec(amount, min_bet, prior_warns) == DuelAction::Mute,
{
}

/// How long a low-bet mute lasts, in seconds.
pub const DUEL_MUTE_SECS: i64 = 300;

/// The cache key of a player's low bets in a chat: `warns_low_bet:CHAT:USER`.
pub fn low_bet_key(chat_id: i64, user_id: i64) -> (r: String)
    ensures
        r@ == "warns_low_bet:"@ + decimal(chat_id as int) + ":"@ + decimal(user_id as int),
{
    let mut r = String::new();
    r.append("warns_low_bet:");
    push_i64(&mut r, chat_id);
    r.append(":");
    push_i64(&mut r, user_id);
    r
}

/// The message to a player muted for a repeated low bet.
pub fn mute_text(mention: &str, min_bet: i64) -> (r: String)
    ensures
        r@ == "🤐 "@ + mention@ + "\nВы получили мут на 5 минут за повторную попытку игры на сумму менее "@
            + decimal(min_bet as int) + " голд."@,
{
    let mut r = String::new();
    r.append("🤐 ");
    r.append(mention);
    r.append("\nВы получили мут на 5 минут за повторную попытку игры на сумму менее ");
    push_i64(&mut r, min_bet);
    r.append(" голд.");
    r
}

/// The report to the moderators about a player muted for a low bet.
pub fn mute_report(mention: &str) -> (r: String)
    ensures
        r@ == "ℹ️ "@ + mention@ + " лишен права слова в чате\nПричина: неверная ставка в играх"@,
{
    let mut r = String::new();
    r.append("ℹ️ ");
    r.append(mention);
    r.append(" лишен права слова в чате\nПричина: неверная ставка в играх");
    r
}

/// The warning to a player after a first low bet.
pub fn low_bet_warning() -> (r: String)
    ensures
        r@ == Emoji::Bangbang.html_spec()
            + " внимание!\n\nВ нашем чате разрешены игры только от 50 голд, другие варианты игр будут наказываться при повторной попытке сыграть.\n\n"@
            + Emoji::Balloon.html_spec()
            + " Подробнее в <code>Заметка 2</code> и <code>Заметка 3</code>\n\nИгры на меньшие суммы по кнопке ниже "@
            + Emoji::ArrowDown.html_spec(),
{
    let mut r = Emoji::Bangbang.to_html();
    r.append(" внимание!\n\nВ нашем чате разрешены игры только от 50 голд, другие варианты игр будут наказываться при повторной попытке сыграть.\n\n");
    r.append(Emoji::Balloon.to_html().as_str());
    r.append(" Подробнее в <code>Заметка 2</code> и <code>Заметка 3</code>\n\nИгры на меньшие суммы по кнопке ниже ");
    r.append(Emoji::ArrowDown.to_html().as_str());
    r
}

/// The verdict on a latency in milliseconds: its word and emoji.
pub open spec fn ping_verdict_spec(ms: u128) -> (Seq<char>, Emoji) {
    if ms < 50 {
        ("скоростной"@, Emoji::Rocket)
    } else if ms < 200 {
        ("быстрый"@, Emoji::Car)
    } else if ms < 500 {
        ("медленный"@, Emoji::Runner)
    } else {
        ("ужасный"@, Emoji::Turtle)
    }
}

/// The verdict on a latency: below 50 ms fast as a rocket, below 200 ms a car, below 500 ms
/// a runner, else a turtle.
pub fn ping_verdict(ms: u128) -> (r: (&'static str, Emoji))
    ensures
        (r.0@, r.1) == ping_verdict_spec(ms),
{
    if ms < 50 {
        ("скоростной", Emoji::Rocket)
    } else if ms < 200 {
        ("быстрый", Emoji::Car)
    } else if ms < 500 {
        ("медленный", Emoji::Runner)
    } else {
        ("ужасный", Emoji::Turtle)
    }
}

/// The first message of the ping command.
pub fn ping_probe_text() -> (r: String)
    ensures
        r@ == Emoji::PingPong.html_spec() + " Проверка пинга..."@,
{
    let mut r = Emoji::PingPong.to_html();
    r.append(" Проверка пинга...");
    r
}

/// The answer of the ping command for a latency in milliseconds.
pub fn ping_text(ms: u128) -> (r: String)
    ensures
        r@ == Emoji::PingPong.html_spec() + " <b>ПОНГ!</b>\n\n"@ + ping_verdict_spec(ms).1.html_spec()
            + " Ответ: <b>"@ + ping_verdict_spec(ms).0 + " | "@ + decimal(ms as int) + " ms.</b>"@,
{
    let (status, emoji) = ping_verdict(ms);
    let mut r = Emoji::PingPong.to_html();
    r.append(" <b>ПОНГ!</b>\n\n");
    r.append(emoji.to_html().as_str());
    r.append(" Ответ: <b>");
    r.append(status);
    r.append(" | ");
    crate::strings::push_u128(&mut r, ms);
    r.append(" ms.</b>");
    r
}

} // verus!
