use chat_guard::captcha::{
    answer_outcome, answer_outcome_given, ban_until, bypass_report, captcha_prompt, gift_verdict, is_right_answer,
    join_request_start, member_join, registration_verdict, registration_verdict_given, rights_request,
    timeout_action, AnswerOutcome, Gift, GiftVerdict, IrisReply, JoinStart, MemberJoin, RegistrationVerdict,
    TimeoutAction,
};
use chat_guard::chat::{GARANT_CHAT_ID, PR_CHAT_ID};
use chat_guard::emoji::Emoji;
use chat_guard::registration::{
    age_text, elapsed_seconds, recent_registration_report, registration_description, reg_seconds, registered_over_a_year_ago,
    registered_within_90_days, registration_info, DAY_SECS,
};

const NOW: i64 = 1_700_000_000;

#[test]
fn join_request_first_step() {
    assert_eq!(join_request_start(PR_CHAT_ID, false), JoinStart::Ignore);
    assert_eq!(join_request_start(PR_CHAT_ID, true), JoinStart::Ignore);
    assert_eq!(join_request_start(-1, true), JoinStart::Approve);
    assert_eq!(join_request_start(GARANT_CHAT_ID, false), JoinStart::Verify { gifts_first: true });
    assert_eq!(join_request_start(-1, false), JoinStart::Verify { gifts_first: false });
}

#[test]
fn timeout_and_ban() {
    assert_eq!(timeout_action(Some(true)), TimeoutAction::Nothing);
    assert_eq!(timeout_action(Some(false)), TimeoutAction::DeclineAndBan);
    assert_eq!(timeout_action(None), TimeoutAction::LogError);
    assert_eq!(ban_until(100), 400);
}

#[test]
fn gift_check() {
    let human = Gift::Regular { from_human: true };
    let bot = Gift::Regular { from_human: false };
    assert_eq!(gift_verdict(&vec![Gift::Unique]), GiftVerdict::Approve);
    assert_eq!(gift_verdict(&vec![human, human, human]), GiftVerdict::Approve);
    assert_eq!(gift_verdict(&vec![human, human, bot]), GiftVerdict::CheckRegistration);
    assert_eq!(gift_verdict(&vec![]), GiftVerdict::CheckRegistration);
    assert_eq!(gift_verdict(&vec![Gift::Unique, Gift::Unknown]), GiftVerdict::Stop);
    assert_eq!(gift_verdict(&vec![Gift::Unknown, Gift::Unique]), GiftVerdict::Stop);
}

#[test]
fn registration_age_bounds() {
    let bound = NOW - 365 * DAY_SECS;
    assert!(registered_over_a_year_ago(bound - 1, NOW, 0));
    assert!(!registered_over_a_year_ago(bound, NOW, 0));
    assert!(registered_over_a_year_ago(bound, NOW, 1));
    assert!(!registered_over_a_year_ago(bound + 1, NOW, 999_999_999));
    let recent = NOW - 90 * DAY_SECS;
    assert!(registered_within_90_days(recent + 1, NOW));
    assert!(!registered_within_90_days(recent, NOW));
}

#[test]
fn registration_verdicts() {
    let two_years_ms = (NOW - 2 * 365 * DAY_SECS) * 1000;
    let month_ms = (NOW - 30 * DAY_SECS) * 1000;
    assert_eq!(registration_verdict(IrisReply::Registered(two_years_ms), NOW, 0), RegistrationVerdict::Approve);
    assert_eq!(registration_verdict(IrisReply::Registered(month_ms), NOW, 0), RegistrationVerdict::Decline);
    assert_eq!(registration_verdict(IrisReply::Forbidden, NOW, 0), RegistrationVerdict::AskRights);
    assert_eq!(registration_verdict(IrisReply::Failed, NOW, 0), RegistrationVerdict::Fail);
    assert_eq!(registration_verdict(IrisReply::Registered(i64::MAX), NOW, 0), RegistrationVerdict::InvalidTime);
    assert_eq!(
        registration_verdict_given(IrisReply::Registered(two_years_ms), false, NOW, 0),
        RegistrationVerdict::InvalidTime
    );
}

#[test]
fn answer_outcomes() {
    assert!(is_right_answer("3"));
    assert!(!is_right_answer("33"));
    assert!(!is_right_answer("1"));
    let month = NOW - 30 * DAY_SECS;
    assert_eq!(
        answer_outcome(IrisReply::Registered(month * 1000 + 999), NOW),
        AnswerOutcome::Admit { report: true, reg_secs: month }
    );
    let old = NOW - 400 * DAY_SECS;
    assert_eq!(
        answer_outcome(IrisReply::Registered(old * 1000), NOW),
        AnswerOutcome::Admit { report: false, reg_secs: old }
    );
    assert_eq!(answer_outcome(IrisReply::Forbidden, NOW), AnswerOutcome::AskRights);
    assert_eq!(answer_outcome(IrisReply::Failed, NOW), AnswerOutcome::AskRights);
    assert_eq!(answer_outcome(IrisReply::Registered(i64::MIN), NOW), AnswerOutcome::InvalidTime);
    assert_eq!(answer_outcome_given(IrisReply::Registered(0), false, NOW), AnswerOutcome::InvalidTime);
}

#[test]
fn seconds_of_milliseconds_truncate() {
    assert_eq!(reg_seconds(1999), 1);
    assert_eq!(reg_seconds(-1500), -1);
    assert_eq!(reg_seconds(0), 0);
}

#[test]
fn elapsed_counts_whole_seconds() {
    assert_eq!(elapsed_seconds(100, 200, 0), 100);
    assert_eq!(elapsed_seconds(100, 200, 500), 100);
    assert_eq!(elapsed_seconds(200, 100, 0), -100);
    assert_eq!(elapsed_seconds(200, 100, 5), -99);
}

#[test]
fn age_texts() {
    assert_eq!(age_text(0), "дата не распознана");
    assert_eq!(age_text(-5), "дата не распознана");
    assert_eq!(age_text(59), "59 сек.");
    assert_eq!(age_text(90), "1 мин.");
    assert_eq!(age_text(3600), "1 ч.");
    assert_eq!(age_text(86400), "1 дн.");
    assert_eq!(age_text(8 * 86400), "1 нед. 1 дн.");
    assert_eq!(age_text(14 * 86400 + 5), "2 нед.");
    assert_eq!(age_text(30 * 86400), "1 мес.");
    assert_eq!(age_text(45 * 86400), "1 мес. 15 дн.");
}

#[test]
fn registration_descriptions() {
    assert_eq!(
        registration_description(1_700_000_000, 1_700_000_000 + 45 * 86400, 0).as_deref(),
        Some("15.11.2023 01:13 (1 мес. 15 дн.)")
    );
    assert_eq!(registration_description(0, 59, 0).as_deref(), Some("01.01.1970 03:00 (59 сек.)"));
    assert_eq!(registration_description(NOW + 10, NOW, 0).as_deref(), Some("15.11.2023 01:13 (дата не распознана)"));
    assert_eq!(registration_description(9_000_000_000_000_000, NOW, 0), None);
}

#[test]
fn registration_texts() {
    assert_eq!(registration_info("01.01.2024 10:00", "5 дн."), "01.01.2024 10:00 (5 дн.)");
    let info = Emoji::Information.to_html();
    assert_eq!(
        recent_registration_report("M", 42, "Chat", "X"),
        format!("{info} Участник M (<code>@42</code>) вступил в чат Chat\n{info} Имеет регистрацию в ирисе: X")
    );
}

#[test]
fn captcha_texts() {
    assert_eq!(
        captcha_prompt("M"),
        format!(
            "{} M\nПройди проверку на бота, нажав кнопку, соответствующую эмодзи 'Курицы' ниже {}",
            Emoji::Bot.to_html(),
            Emoji::ArrowDown.to_html()
        )
    );
    assert_eq!(
        rights_request("iris_bot"),
        format!(
            "{} Бот запрашивает разрешение на получение информации о дате регистрации в Iris: <a href='https://t.me/iris_bot?start=request_rights_7635712622_reg'>перейти</a>",
            Emoji::Information.to_html()
        )
    );
    assert_eq!(
        bypass_report("M", "Chat"),
        format!(
            "{} M зашел в чат в обход системы проверок, исключаю...\n{} Чат: Chat",
            Emoji::Warning.to_html(),
            Emoji::Balloon.to_html()
        )
    );
}

#[test]
fn member_join_steps() {
    assert_eq!(member_join(PR_CHAT_ID, false), MemberJoin::Nothing);
    assert_eq!(member_join(-1, true), MemberJoin::Nothing);
    assert_eq!(member_join(-1, false), MemberJoin::LookupChat);
}
