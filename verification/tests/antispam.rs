use chat_guard::antispam::{
    AntispamFilter, AntispamGate, AntispamMiddleware, AntispamVerdict, BotAccess, MemberStatus,
};
use chat_guard::chat::SCAM_CHANNEL_ID;
use chat_guard::emoji::Emoji;
use chat_guard::message::MessageInfo;
use chat_guard::user::{TgChat, TgUser};

fn chat(id: i64) -> TgChat {
    TgChat { id, title: None, username: None, first_name: None, last_name: None }
}

fn author(id: i64, is_bot: bool) -> TgUser {
    TgUser { id, is_bot, first_name: "N".to_string(), last_name: None, username: None }
}

fn msg(from: Option<TgUser>, text: Option<&str>, caption: Option<&str>) -> MessageInfo {
    MessageInfo {
        message_id: 4,
        thread_id: None,
        date: 100,
        chat: chat(-100),
        from,
        sender_chat: None,
        text: text.map(|s| s.to_string()),
        caption: caption.map(|s| s.to_string()),
        media_group_id: None,
    }
}

#[test]
fn spam_link_detection() {
    let f = AntispamFilter::new().unwrap();
    assert!(f.is_spam_link(&msg(Some(author(1, false)), Some("join t.me/+abcDEF"), None)));
    assert!(f.is_spam_link(&msg(None, None, Some("caption t.me/+xyz"))));
    assert!(!f.is_spam_link(&msg(Some(author(1, false)), Some("see t.me/channel"), None)));
    assert!(!f.is_spam_link(&msg(Some(author(1, true)), Some("t.me/+abc"), None)));
    assert!(!f.is_spam_link(&msg(Some(author(1, false)), None, None)));
}

#[test]
fn text_goes_before_caption() {
    let f = AntispamFilter::new().unwrap();
    assert!(!f.is_spam_link(&msg(Some(author(1, false)), Some("hello"), Some("t.me/+abc"))));
}

#[test]
fn raid_window_keeps_recent_timestamps() {
    assert_eq!(AntispamFilter::raid_window(vec![1, 2, 3, 10], 12), vec![10, 12]);
    assert_eq!(AntispamFilter::raid_window(vec![], 5), vec![5]);
    assert_eq!(AntispamFilter::raid_window(vec![4, 5], 12), vec![5, 12]);
}

#[test]
fn raid_needs_more_than_ten() {
    let mut w = Vec::new();
    for t in 0..10 {
        w = AntispamFilter::raid_window(w, 100 + t);
    }
    assert_eq!(w.len(), 8);
    assert!(!AntispamFilter::is_raid(&w));
    assert!(!AntispamFilter::is_raid(&vec![1; 10]));
    assert!(AntispamFilter::is_raid(&vec![1; 11]));
    let mut burst = Vec::new();
    for _ in 0..11 {
        burst = AntispamFilter::raid_window(burst, 50);
    }
    assert!(AntispamFilter::is_raid(&burst));
}

#[test]
fn raid_key_and_exemptions() {
    assert_eq!(AntispamFilter::raid_key(-100, 5), "-100:5");
    let mut m = msg(Some(author(1, false)), Some("x"), None);
    assert!(!AntispamFilter::raid_exempt(&m));
    m.media_group_id = Some("g".to_string());
    assert!(AntispamFilter::raid_exempt(&m));
    assert!(AntispamFilter::raid_exempt(&msg(Some(author(1, true)), None, None)));
}

#[test]
fn bot_access_rules() {
    assert_eq!(AntispamFilter::check_bot_access(&msg(Some(author(1, false)), None, None)), BotAccess::Granted);
    assert_eq!(AntispamFilter::check_bot_access(&msg(None, None, None)), BotAccess::Granted);
    assert_eq!(AntispamFilter::check_bot_access(&msg(Some(author(8289185888, true)), None, None)), BotAccess::Granted);
    assert_eq!(
        AntispamFilter::check_bot_access(&msg(Some(author(99, true)), None, None)),
        BotAccess::Lookup { chat_id: -100, bot_id: 99 }
    );
    assert!(AntispamFilter::bot_status_allows(Some(MemberStatus::Member)));
    assert!(AntispamFilter::bot_status_allows(Some(MemberStatus::Restricted)));
    assert!(!AntispamFilter::bot_status_allows(Some(MemberStatus::Left)));
    assert!(!AntispamFilter::bot_status_allows(Some(MemberStatus::Kicked)));
    assert!(!AntispamFilter::bot_status_allows(None));
}

#[test]
fn check_verdict_order() {
    let spam = AntispamFilter::check_verdict(7, true, Some(vec![1, 2]), false);
    assert!(matches!(&spam, AntispamVerdict::Spam(m) if *m == vec![7]));
    assert_eq!(spam.reason(), "spam");
    let raid = AntispamFilter::check_verdict(7, false, Some(vec![1, 2]), false);
    assert!(matches!(&raid, AntispamVerdict::Raid(m) if *m == vec![1, 2]));
    assert_eq!(raid.reason(), "raid");
    let bot = AntispamFilter::check_verdict(7, false, None, false);
    assert!(matches!(&bot, AntispamVerdict::Bot(m) if *m == vec![7]));
    let pass = AntispamFilter::check_verdict(7, false, None, true);
    assert!(pass.passed());
    assert_eq!(pass.reason(), "null");
    assert!(!bot.passed());
}

#[test]
fn gate_decisions() {
    let mut from_channel = msg(None, None, None);
    from_channel.sender_chat = Some(chat(SCAM_CHANNEL_ID));
    assert_eq!(AntispamMiddleware::gate(&from_channel), AntispamGate::UnpinAndSkip);
    assert_eq!(AntispamMiddleware::gate(&msg(Some(author(1830362280, false)), None, None)), AntispamGate::Exempt);
    assert_eq!(AntispamMiddleware::gate(&msg(Some(author(5, false)), None, None)), AntispamGate::Check);
}

#[test]
fn bot_notice_quotes_and_escapes() {
    let text = AntispamMiddleware::notice(&AntispamVerdict::Bot(vec![1]), "M", 7, Some("Chat \"X\"\n"), None).unwrap();
    assert!(text.contains(" Чат: \"Chat \\\"X\\\"\\n\"\n"));
    assert!(text.ends_with(" Сообщение: \"\""));
}

#[test]
fn notices_by_verdict() {
    let m = "<a href='x'>U</a>";
    assert_eq!(AntispamMiddleware::notice(&AntispamVerdict::Pass, m, 5, None, None), None);
    assert_eq!(
        AntispamMiddleware::notice(&AntispamVerdict::Spam(vec![1]), m, 5, None, None).unwrap(),
        format!(
            "{} {} был ограничен на сутки\n{} Причина: Рассылка спам-ссылок.",
            Emoji::Information.to_html(),
            m,
            Emoji::Balloon.to_html()
        )
    );
    assert_eq!(
        AntispamMiddleware::notice(&AntispamVerdict::Raid(vec![1]), m, 5, None, None).unwrap(),
        format!("📛 Сработал антирейд фильтр!\n{} Пользователь {} ограничен на сутки", Emoji::Human.to_html(), m)
    );
    assert_eq!(
        AntispamMiddleware::notice(&AntispamVerdict::Bot(vec![1]), m, 5, None, Some("hi")).unwrap(),
        format!(
            "{} Ограничен гостевой бот {} (<code>@5</code>)\n{} Чат: \"Без названия\"\n{} Сообщение: \"hi\"",
            Emoji::Bot.to_html(),
            m,
            Emoji::Megaphone.to_html(),
            Emoji::Balloon.to_html()
        )
    );
}
