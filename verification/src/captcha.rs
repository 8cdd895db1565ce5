//! Join requests: who is admitted at once, who must solve the captcha, how the guarantors'
//! chat checks gifts and the Iris registration, and what each answer leads to.
use vstd::prelude::*;
use vstd::string::*;
use crate::chat::{GARANT_CHAT_ID, PR_CHAT_ID};
use crate::emoji::Emoji;
use crate::registration::{
    clock_ok, earlier_than_days_ago, later_than_days_ago, moscow_date_text, moscow_date_time_text,
    reg_seconds, registered_over_a_year_ago, registered_within_90_days, trunc_div,
};

verus! {

/// How long a user has to solve the captcha, and how long a failed user stays banned, in
/// seconds.
pub const CAPTCHA_TIMEOUT_SECS: i64 = 300;

/// How a join request is handled first.
#[derive(Debug, Clone, Copy, PartialEq, Eq, Structural)]
pub enum JoinStart {
    /// The advertising chat: the request is left alone.
    Ignore,
    /// The user passed the checks in this chat before: approve.
    Approve,
    /// Check the user, and decline and ban them if they have not passed when the timeout
    /// ends. The guarantors' chat checks gifts first; other chats send the captcha.
    Verify { gifts_first: bool },
}

/// How a join request is handled first.
pub open spec fn join_start_spec(chat_id: i64, passed_before: bool) -> JoinStart {
    if chat_id == PR_CHAT_ID {
        JoinStart::Ignore
    } else if passed_before {
        JoinStart::Approve
    } else {
        JoinStart::Verify { gifts_first: chat_id == GARANT_CHAT_ID }
    }
}

/// How a join request is handled first, as `join_start_spec` says.
pub fn join_request_start(chat_id: i64, passed_before: bool) -> (r: JoinStart)
    ensures
        r == join_start_spec(chat_id, passed_before),
{
    if chat_id == PR_CHAT_ID {
        JoinStart::Ignore
    } else if passed_before {
        JoinStart::Approve
    } else {
        JoinStart::Verify { gifts_first: chat_id == GARANT_CHAT_ID }
    }
}

/// What the captcha timeout does, given whether the user has passed by then (`None` when the
/// lookup failed).
#[derive(Debug, Clone, Copy, PartialEq, Eq, Structural)]
pub enum TimeoutAction {
    Nothing,
    DeclineAndBan,
    LogError,
}

/// What the captcha timeout does.
pub fn timeout_action(passed: Option<bool>) -> (r: TimeoutAction)
    ensures
        r == match passed {
            Some(true) => TimeoutAction::Nothing,
            Some(false) => TimeoutAction::DeclineAndBan,
            None => TimeoutAction::LogError,
        },
{
    match passed {
        Some(true) => TimeoutAction::Nothing,
        Some(false) => TimeoutAction::DeclineAndBan,
        None => TimeoutAction::LogError,
    }
}

/// The end of a temporary ban that starts at `now_secs`.
pub fn ban_until(now_secs: i64) -> (r: i64)
    requires
        now_secs <= i64::MAX - CAPTCHA_TIMEOUT_SECS,
    ensures
        r == now_secs + CAPTCHA_TIMEOUT_SECS,
{
    now_secs + CAPTCHA_TIMEOUT_SECS
}

/// A gift a user owns, as far as the gift check reads it.
#[derive(Debug, Clone, Copy, PartialEq, Eq, Structural)]
pub enum Gift {
    /// A regular gift; `from_human` when its sender is known and is not a bot.
    Regular { from_human: bool },
    /// A unique (collectible) gift.
    Unique,
    /// A gift of a kind the bot does not know.
    Unknown,
}

/// What the gift check decides.
#[derive(Debug, Clone, Copy, PartialEq, Eq, Structural)]
pub enum GiftVerdict {
    /// A gift of an unknown kind: stop handling the request.
    Stop,
    /// Enough gifts: approve.
    Approve,
    /// Not enough gifts: check the Iris registration.
    CheckRegistration,
}

/// How many gifts of `gifts` are unique.
pub open spec fn unique_count(gifts: Seq<Gift>) -> int
    decreases gifts.len(),
{
    if gifts.len() == 0 {
        0
    } else {
        unique_count(gifts.drop_last()) + if gifts.last() is Unique { 1int } else { 0int }
    }
}

/// How many gifts of `gifts` are regular gifts from people.
pub open spec fn human_regular_count(gifts: Seq<Gift>) -> int
    decreases gifts.len(),
{
    if gifts.len() == 0 {
        0
    } else {
        human_regular_count(gifts.drop_last()) + if gifts.last() == (Gift::Regular { from_human: true }) {
            1int
        } else {
            0int
        }
    }
}

/// The gift check: stop at a gift of an unknown kind; approve with a unique gift or three
/// regular gifts from people; else check the registration.
pub open spec fn gift_verdict_spec(gifts: Seq<Gift>) -> GiftVerdict {
    if exists|i: int| 0 <= i < gifts.len() && #[trigger] gifts[i] is Unknown {
        GiftVerdict::Stop
    } else if unique_count(gifts) >= 1 || human_regular_count(gifts) >= 3 {
        GiftVerdict::Approve
    } else {
        GiftVerdict::CheckRegistration
    }
}

/// The gift check of the guarantors' chat, as `gift_verdict_spec` says.
pub fn gift_verdict(gifts: &Vec<Gift>) -> (r: GiftVerdict)
    ensures
        r == gift_verdict_spec(gifts@),
{
    let mut unique: u64 = 0;
    let mut regular: u64 = 0;
    let mut i: usize = 0;
    while i < gifts.len()
        invariant
            i <= gifts@.len(),
            unique == unique_count(gifts@.take(i as int)),
            regular == human_regular_count(gifts@.take(i as int)),
            unique <= i,
            regular <= i,
            forall|k: int| 0 <= k < i ==> !(#[trigger] gifts@[k] is Unknown),
        decreases gifts.len() - i,
    {
        assert(gifts@.take(i + 1).drop_last() =~= gifts@.take(i as int));
        match gifts[i] {
            Gift::Regular { from_human } => {
                if from_human {
                    regular = regular + 1;
                }
            },
            Gift::Unique => {
                unique = unique + 1;
            },
            Gift::Unknown => {
                return GiftVerdict::Stop;
            },
        }
        i = i + 1;
    }
    assert(gifts@.take(i as int) =~= gifts@);
    if unique >= 1 || regular >= 3 {
        GiftVerdict::Approve
    } else {
        GiftVerdict::CheckRegistration
    }
}

/// Whether a gift is a regular gift from a person.
pub open spec fn is_human_regular(g: Gift) -> bool {
    g == (Gift::Regular { from_human: true })
}

/// Whether a gift is unique.
pub open spec fn is_unique(g: Gift) -> bool {
    g is Unique
}

proof fn lemma_counts_are_filters(gifts: Seq<Gift>)
    ensures
        human_regular_count(gifts) == gifts.filter(|g: Gift| is_human_regular(g)).len(),
        unique_count(gifts) == gifts.filter(|g: Gift| is_unique(g)).len(),
    decreases gifts.len(),
{
    reveal(Seq::filter);
    if gifts.len() > 0 {
        lemma_counts_are_filters(gifts.drop_last());
    }
}

/// The gift check. A gift of an unknown kind stops it. Otherwise a list is approved exactly
/// when it holds a unique gift or at least three regular gifts from people (however many
/// other gifts it holds), and else goes on to the registration check.
pub proof fn gift_check_thresholds(gifts: Seq<Gift>)
    ensures
        (exists|i: int| 0 <= i < gifts.len() && #[trigger] gifts[i] is Unknown) ==> gift_verdict_spec(gifts)
            == GiftVerdict::Stop,
        (forall|i: int| 0 <= i < gifts.len() ==> !(#[trigger] gifts[i] is Unknown)) ==> {
            &&& gift_verdict_spec(gifts) != GiftVerdict::Stop
            &&& (gift_verdict_spec(gifts) == GiftVerdict::Approve) <==> (gifts.filter(|g: Gift| is_unique(g)).len()
                >= 1 || gifts.filter(|g: Gift| is_human_regular(g)).len() >= 3)
        },
{
    lemma_counts_are_filters(gifts);
}

proof fn lemma_counts_push(gifts: Seq<Gift>, g: Gift)
    ensures
        human_regular_count(gifts.push(g)) >= human_regular_count(gifts),
        unique_count(gifts.push(g)) >= unique_count(gifts),
{
    assert(gifts.push(g).drop_last() =~= gifts);
}

/// Approval only grows with the gifts: an approved list with one more gift of a known kind
/// is still approved.
pub proof fn gift_approval_monotone(gifts: Seq<Gift>, g: Gift)
    requires
        gift_verdict_spec(gifts) == GiftVerdict::Approve,
        !(g is Unknown),
    ensures
        gift_verdict_spec(gifts.push(g)) == GiftVerdict::Approve,
{
    lemma_counts_push(gifts, g);
    let s = gifts.push(g);
    assert forall|i: int| 0 <= i < s.len() implies !(#[trigger] s[i] is Unknown) by {
        if i < gifts.len() {
            assert(s[i] == gifts[i]);
        }
    }
}

/// What the Iris API answered to a registration lookup.
#[derive(Debug, Clone, Copy, PartialEq, Eq, Structural)]
pub enum IrisReply {
    /// The registration time, in milliseconds (0 when the answer had none).
    Registered(i64),
    /// The API refused with code 403: the user has not granted the bot access.
    Forbidden,
    /// Any other failure.
    Failed,
}

/// What a registration check decides about a join request.
#[derive(Debug, Clone, Copy, PartialEq, Eq, Structural)]
pub enum RegistrationVerdict {
    /// The registration time cannot be represented: stop (the bot logs it).
    InvalidTime,
    Approve,
    Decline,
    /// Ask the user to grant the bot access to the registration date.
    AskRights,
    /// Report the failure as an error.
    Fail,
}

/// What a registration check decides about a join request at the instant `now`: approve a
/// registration more than a year old, decline a newer one.
pub open spec fn registration_verdict_spec(reply: IrisReply, now_secs: i64, now_nanos: u32) -> RegistrationVerdict {
    match reply {
        IrisReply::Registered(ms) => {
            let secs = trunc_div(ms as int, 1000) as i64;
            if moscow_date_time_text(secs) is None {
                RegistrationVerdict::InvalidTime
            } else if earlier_than_days_ago(secs, now_secs, now_nanos, 365) {
                RegistrationVerdict::Approve
            } else {
                RegistrationVerdict::Decline
            }
        },
        IrisReply::Forbidden => RegistrationVerdict::AskRights,
        IrisReply::Failed => RegistrationVerdict::Fail,
    }
}

/// What a registration check decides about a join request, given whether chrono can
/// represent the registration time (`representable`).
pub open spec fn registration_verdict_given_spec(reply: IrisReply, representable: bool, now_secs: i64, now_nanos: u32) -> RegistrationVerdict {
    match reply {
        IrisReply::Registered(ms) => {
            let secs = trunc_div(ms as int, 1000) as i64;
            if !representable {
                RegistrationVerdict::InvalidTime
            } else if earlier_than_days_ago(secs, now_secs, now_nanos, 365) {
                RegistrationVerdict::Approve
            } else {
                RegistrationVerdict::Decline
            }
        },
        IrisReply::Forbidden => RegistrationVerdict::AskRights,
        IrisReply::Failed => RegistrationVerdict::Fail,
    }
}

/// What a registration check decides, given whether the registration time is representable.
pub fn registration_verdict_given(reply: IrisReply, representable: bool, now_secs: i64, now_nanos: u32) -> (r: RegistrationVerdict)
    requires
        clock_ok(now_secs, now_nanos),
    ensures
        r == registration_verdict_given_spec(reply, representable, now_secs, now_nanos),
{
    match reply {
        IrisReply::Registered(ms) => {
            let secs = reg_seconds(ms);
            if !representable {
                RegistrationVerdict::InvalidTime
            } else if registered_over_a_year_ago(secs, now_secs, now_nanos) {
                RegistrationVerdict::Approve
            } else {
                RegistrationVerdict::Decline
            }
        },
        IrisReply::Forbidden => RegistrationVerdict::AskRights,
        IrisReply::Failed => RegistrationVerdict::Fail,
    }
}

/// What a registration check decides about a join request, as `registration_verdict_spec`
/// says.
pub fn registration_verdict(reply: IrisReply, now_secs: i64, now_nanos: u32) -> (r: RegistrationVerdict)
    requires
        clock_ok(now_secs, now_nanos),
    ensures
        r == registration_verdict_spec(reply, now_secs, now_nanos),
{
    match reply {
        IrisReply::Registered(ms) => {
            let secs = reg_seconds(ms);
            let representable = moscow_date_text(secs).is_some();
            registration_verdict_given(reply, representable, now_secs, now_nanos)
        },
        _ => registration_verdict_given(reply, true, now_secs, now_nanos),
    }
}

/// Whether a captcha answer is right: the third button.
pub fn is_right_answer(code: &str) -> (r: bool)
    ensures
        r == (code@ == "3"@),
{
    let c = crate::strings::chars_of(code);
    proof {
        reveal_strlit("3");
    }
    let r = c.len() == 1 && c[0] == '3';
    proof {
        if r {
            assert(c@ =~= "3"@);
        }
    }
    r
}

/// What a right captcha answer leads to, given the registration lookup.
#[derive(Debug, Clone, Copy, PartialEq, Eq, Structural)]
pub enum AnswerOutcome {
    /// Admit; when `report` holds, first report the recent registration (of `reg_secs`) to
    /// the moderators.
    Admit { report: bool, reg_secs: i64 },
    /// The registration time cannot be represented.
    InvalidTime,
    /// The lookup failed: ask the user to grant the bot access.
    AskRights,
}

/// What a right captcha answer leads to: admit, reporting a registration less than 90 days
/// old; ask for access on any failure of the lookup.
pub open spec fn answer_outcome_spec(reply: IrisReply, now_secs: i64) -> AnswerOutcome {
    match reply {
        IrisReply::Registered(ms) => {
            let secs = trunc_div(ms as int, 1000) as i64;
            if moscow_date_time_text(secs) is None {
                AnswerOutcome::InvalidTime
            } else {
                AnswerOutcome::Admit { report: later_than_days_ago(secs, now_secs, 90), reg_secs: secs }
            }
        },
        _ => AnswerOutcome::AskRights,
    }
}

/// What a right captcha answer leads to, given whether the registration time is
/// representable.
pub open spec fn answer_outcome_given_spec(reply: IrisReply, representable: bool, now_secs: i64) -> AnswerOutcome {
    match reply {
        IrisReply::Registered(ms) => {
            let secs = trunc_div(ms as int, 1000) as i64;
            if !representable {
                AnswerOutcome::InvalidTime
            } else {
                AnswerOutcome::Admit { report: later_than_days_ago(secs, now_secs, 90), reg_secs: secs }
            }
        },
        _ => AnswerOutcome::AskRights,
    }
}

/// What a right captcha answer leads to, given whether the registration time is representable.
pub fn answer_outcome_given(reply: IrisReply, representable: bool, now_secs: i64) -> (r: AnswerOutcome)
    requires
        -crate::registration::CLOCK_LIMIT_SECS <= now_secs <= crate::registration::CLOCK_LIMIT_SECS,
    ensures
        r == answer_outcome_given_spec(reply, representable, now_secs),
{
    match reply {
        IrisReply::Registered(ms) => {
            let secs = reg_seconds(ms);
            if !representable {
                AnswerOutcome::InvalidTime
            } else {
                AnswerOutcome::Admit { report: registered_within_90_days(secs, now_secs), reg_secs: secs }
            }
        },
        _ => AnswerOutcome::AskRights,
    }
}

/// What a right captcha answer leads to, as `answer_outcome_spec` says.
pub fn answer_outcome(reply: IrisReply, now_secs: i64) -> (r: AnswerOutcome)
    requires
        -crate::registration::CLOCK_LIMIT_SECS <= now_secs <= crate::registration::CLOCK_LIMIT_SECS,
    ensures
        r == answer_outcome_spec(reply, now_secs),
{
    match reply {
        IrisReply::Registered(ms) => {
            let representable = moscow_date_text(reg_seconds(ms)).is_some();
            answer_outcome_given(reply, representable, now_secs)
        },
        _ => answer_outcome_given(reply, true, now_secs),
    }
}

/// The captcha prompt sent to a user who asked to join.
pub fn captcha_prompt(mention: &str) -> (r: String)
    ensures
        r@ == Emoji::Bot.html_spec() + " "@ + mention@
            + "\nПройди проверку на бота, нажав кнопку, соответствующую эмодзи 'Курицы' ниже "@
            + Emoji::ArrowDown.html_spec(),
{
    let mut r = Emoji::Bot.to_html();
    r.append(" ");
    r.append(mention);
    r.append("\nПройди проверку на бота, нажав кнопку, соответствующую эмодзи 'Курицы' ниже ");
    r.append(Emoji::ArrowDown.to_html().as_str());
    r
}

/// The request to grant the bot access to the registration date, with the link to the given
/// Iris bot.
pub fn rights_request(iris_bot: &str) -> (r: String)
    ensures
        r@ == Emoji::Information.html_spec()
            + " Бот запрашивает разрешение на получение информации о дате регистрации в Iris: <a href='https://t.me/"@
            + iris_bot@ + "?start=request_rights_7635712622_reg'>перейти</a>"@,
{
    let mut r = Emoji::Information.to_html();
    r.append(" Бот запрашивает разрешение на получение информации о дате регистрации в Iris: <a href='https://t.me/");
    r.append(iris_bot);
    r.append("?start=request_rights_7635712622_reg'>перейти</a>");
    r
}

/// What the bot does when a user joins a chat.
#[derive(Debug, Clone, Copy, PartialEq, Eq, Structural)]
pub enum MemberJoin {
    /// Nothing to do (the advertising chat, or a user who passed the checks).
    Nothing,
    /// Look up whether the chat admits by request.
    LookupChat,
}

/// What the bot does when a user joins a chat: users who did not pass the checks are looked
/// at further, except in the advertising chat.
pub fn member_join(chat_id: i64, passed: bool) -> (r: MemberJoin)
    ensures
        r == (if chat_id == PR_CHAT_ID || passed { MemberJoin::Nothing } else { MemberJoin::LookupChat }),
{
    if chat_id == PR_CHAT_ID || passed {
        MemberJoin::Nothing
    } else {
        MemberJoin::LookupChat
    }
}

/// The report of a user who joined a chat that admits by request without passing the checks.
pub fn bypass_report(mention: &str, chat_title: &str) -> (r: String)
    ensures
        r@ == Emoji::Warning.html_spec() + " "@ + mention@ + " зашел в чат в обход системы проверок, исключаю...\n"@
            + Emoji::Balloon.html_spec() + " Чат: "@ + chat_title@,
{
    let mut r = Emoji::Warning.to_html();
    r.append(" ");
    r.append(mention);
    r.append(" зашел в чат в обход системы проверок, исключаю...\n");
    r.append(Emoji::Balloon.to_html().as_str());
    r.append(" Чат: ");
    r.append(chat_title);
    r
}


/// The registration check of the guarantors' chat judges the registration instant `ms`
/// (milliseconds) against the instant a year (365 days) before now: a registration at least a
/// whole second older than that is approved, one at least a whole second newer is declined,
/// and between two registrations the older one is judged at least as kindly. A refused lookup
/// asks for access, any other failure is reported, and a time chrono cannot represent stops.
pub proof fn registration_verdict_by_age(ms: i64, older_ms: i64, representable: bool, now_secs: i64, now_nanos: u32)
    requires
        clock_ok(now_secs, now_nanos),
    ensures
        representable && ms <= (now_secs - 365 * 86400 - 1) * 1000 ==> registration_verdict_given_spec(
            IrisReply::Registered(ms),
            representable,
            now_secs,
            now_nanos,
        ) == RegistrationVerdict::Approve,
        representable && ms >= (now_secs - 365 * 86400 + 1) * 1000 ==> registration_verdict_given_spec(
            IrisReply::Registered(ms),
            representable,
            now_secs,
            now_nanos,
        ) == RegistrationVerdict::Decline,
        representable && older_ms <= ms && registration_verdict_given_spec(
            IrisReply::Registered(ms),
            representable,
            now_secs,
            now_nanos,
        ) == RegistrationVerdict::Approve ==> registration_verdict_given_spec(
            IrisReply::Registered(older_ms),
            representable,
            now_secs,
            now_nanos,
        ) == RegistrationVerdict::Approve,
        !representable ==> registration_verdict_given_spec(IrisReply::Registered(ms), representable, now_secs, now_nanos)
            == RegistrationVerdict::InvalidTime,
        registration_verdict_given_spec(IrisReply::Forbidden, representable, now_secs, now_nanos)
            == RegistrationVerdict::AskRights,
        registration_verdict_given_spec(IrisReply::Failed, representable, now_secs, now_nanos)
            == RegistrationVerdict::Fail,
        registration_verdict_spec(IrisReply::Forbidden, now_secs, now_nanos) == RegistrationVerdict::AskRights,
        registration_verdict_spec(IrisReply::Failed, now_secs, now_nanos) == RegistrationVerdict::Fail,
        registration_verdict_spec(IrisReply::Registered(ms), now_secs, now_nanos) == registration_verdict_given_spec(
            IrisReply::Registered(ms),
            moscow_date_time_text(trunc_div(ms as int, 1000) as i64) is Some,
            now_secs,
            now_nanos,
        ),
{
}

/// A right captcha answer always admits a user whose registration time is known; the
/// moderators are told exactly when the registration (in whole seconds) is within the last
/// 90 days: at least a whole second later than 90 days ago is reported, 90 days ago or
/// earlier is not. Any failure of the lookup asks for access instead.
pub proof fn answer_reports_recent(ms: i64, representable: bool, now_secs: i64)
    requires
        -crate::registration::CLOCK_LIMIT_SECS <= now_secs <= crate::registration::CLOCK_LIMIT_SECS,
    ensures
        representable ==> answer_outcome_given_spec(IrisReply::Registered(ms), representable, now_secs) is Admit,
        representable && ms >= (now_secs - 90 * 86400 + 1) * 1000 ==> answer_outcome_given_spec(
            IrisReply::Registered(ms),
            representable,
            now_secs,
        ) == (AnswerOutcome::Admit { report: true, reg_secs: trunc_div(ms as int, 1000) as i64 }),
        representable && ms <= (now_secs - 90 * 86400) * 1000 ==> answer_outcome_given_spec(
            IrisReply::Registered(ms),
            representable,
            now_secs,
        ) == (AnswerOutcome::Admit { report: false, reg_secs: trunc_div(ms as int, 1000) as i64 }),
        !representable ==> answer_outcome_given_spec(IrisReply::Registered(ms), representable, now_secs)
            == AnswerOutcome::InvalidTime,
        answer_outcome_given_spec(IrisReply::Forbidden, representable, now_secs) == AnswerOutcome::AskRights,
        answer_outcome_given_spec(IrisReply::Failed, representable, now_secs) == AnswerOutcome::AskRights,
        answer_outcome_spec(IrisReply::Registered(ms), now_secs) == answer_outcome_given_spec(
            IrisReply::Registered(ms),
            moscow_date_time_text(trunc_div(ms as int, 1000) as i64) is Some,
            now_secs,
        ),
        answer_outcome_spec(IrisReply::Forbidden, now_secs) == AnswerOutcome::AskRights,
        answer_outcome_spec(IrisReply::Failed, now_secs) == AnswerOutcome::AskRights,
{
}

/// The advertising chat's join requests are left alone whoever sends them; in every other
/// chat a user who passed before is admitted at once, and anyone else is checked, by gifts in
/// the guarantors' chat only and by the captcha elsewhere.
pub proof fn join_start_by_chat(chat_id: i64, passed_before: bool)
    ensures
        join_start_spec(PR_CHAT_ID, passed_before) == JoinStart::Ignore,
        chat_id != PR_CHAT_ID && passed_before ==> join_start_spec(chat_id, passed_before) == JoinStart::Approve,
        chat_id != PR_CHAT_ID && !passed_before ==> join_start_spec(chat_id, passed_before) is Verify,
        join_start_spec(chat_id, passed_before) matches JoinStart::Verify { gifts_first } ==> (gifts_first <==> chat_id
            == GARANT_CHAT_ID),
{
}

} // verus!
