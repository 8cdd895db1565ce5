use chat_guard::antispam::MemberStatus;
use chat_guard::emoji::Emoji;
use chat_guard::moderation::{
    admin_change_text, allowed_chat_text, ban_step, banned_text, bot_welcome_text, db_update_name, db_update_step,
    db_update_target, db_update_text, garant_change_text, is_joined, report_reply_to, unmute_step, unmuted_text,
    DbUpdate, GetUserInfo, ModerationStep, UpdateSource, UpdateUserMiddleware, UserLookup,
};
use chat_guard::user::{TgChat, TgUser};

#[test]
fn user_lookup_sources() {
    assert!(matches!(GetUserInfo::new(None).lookup(true), UserLookup::FromReply));
    assert!(matches!(GetUserInfo::new(None).lookup(false), UserLookup::NotGiven));
    assert!(matches!(GetUserInfo::new(Some("123".to_string())).lookup(true), UserLookup::ById(123)));
    assert!(matches!(GetUserInfo::new(Some("_100".to_string())).lookup(false), UserLookup::ById(-100)));
    assert!(matches!(GetUserInfo::new(Some("someuser".to_string())).lookup(true), UserLookup::ByUsername(u) if u == "someuser"));
    assert_eq!(
        GetUserInfo::not_found_text(),
        format!(
            "{} Telegram API вернул ошибку:\nУказан неверный идентификатор пользователя или мне ничего не известно о нем",
            Emoji::Warning.to_html()
        )
    );
}

#[test]
fn moderation_steps() {
    assert_eq!(unmute_step(false, MemberStatus::Restricted), ModerationStep::Denied);
    assert_eq!(unmute_step(true, MemberStatus::Restricted), ModerationStep::Apply);
    assert_eq!(unmute_step(true, MemberStatus::Member), ModerationStep::AlreadyDone);
    assert_eq!(ban_step(false, MemberStatus::Member), ModerationStep::Denied);
    assert_eq!(ban_step(true, MemberStatus::Member), ModerationStep::Apply);
    assert_eq!(ban_step(true, MemberStatus::Kicked), ModerationStep::AlreadyDone);
    assert_eq!(report_reply_to(0), None);
    assert_eq!(report_reply_to(5), Some(5));
}

#[test]
fn moderation_texts() {
    assert_eq!(
        unmuted_text("U", "A"),
        format!("{} C U сняли ограничения\n{} Модератор: A", Emoji::Information.to_html(), Emoji::Human.to_html())
    );
    assert_eq!(
        banned_text("U", "A"),
        format!("{} Пользователь U исключен из чата\n{} Модератор: A", Emoji::Information.to_html(), Emoji::Human.to_html())
    );
    assert_eq!(
        bot_welcome_text("B"),
        "<tg-emoji emoji-id='5372981976804366741'>🤖</tg-emoji> B был добавлен в чат.\nЯ являюсь бото-помощником для модерации сетки чатов RedTokyo.\nНазначь меня администратором чата, для начала работы"
    );
}

#[test]
fn joining_is_from_outside_to_inside() {
    assert!(is_joined(MemberStatus::Left, MemberStatus::Member));
    assert!(is_joined(MemberStatus::Kicked, MemberStatus::Administrator));
    assert!(!is_joined(MemberStatus::Member, MemberStatus::Administrator));
    assert!(!is_joined(MemberStatus::Left, MemberStatus::Kicked));
}

#[test]
fn update_identity_order() {
    let u = TgUser { id: 1, is_bot: false, first_name: "Ann".to_string(), last_name: None, username: Some("ann".to_string()) };
    let c = TgChat { id: -5, title: Some("T".to_string()), username: None, first_name: Some("F".to_string()), last_name: Some("L".to_string()) };
    let from_user = UpdateSource { from: Some(u), sender_chat: Some(c.clone()), chat: Some(c.clone()) };
    assert_eq!(UpdateUserMiddleware::identity(&from_user), (1, Some("ann".to_string()), "Ann ".to_string()));
    let from_sender = UpdateSource { from: None, sender_chat: Some(c.clone()), chat: None };
    assert_eq!(UpdateUserMiddleware::identity(&from_sender), (-5, None, "T".to_string()));
    let from_chat = UpdateSource { from: None, sender_chat: None, chat: Some(c) };
    assert_eq!(UpdateUserMiddleware::identity(&from_chat), (-5, None, "F L".to_string()));
    let nobody = UpdateSource { from: None, sender_chat: None, chat: None };
    assert_eq!(UpdateUserMiddleware::identity(&nobody), (0, None, "Unknown".to_string()));
}

#[test]
fn name_cache_decides_update() {
    let cached = Some((Some("ann".to_string()), "Ann".to_string()));
    assert!(!UpdateUserMiddleware::needs_update(&cached, &Some("ann".to_string()), "Ann"));
    assert!(UpdateUserMiddleware::needs_update(&cached, &Some("ann2".to_string()), "Ann"));
    assert!(UpdateUserMiddleware::needs_update(&cached, &None, "Ann"));
    assert!(UpdateUserMiddleware::needs_update(&cached, &Some("ann".to_string()), "Anna"));
    assert!(UpdateUserMiddleware::needs_update(&None, &None, ""));
}

#[test]
fn db_update_command() {
    assert_eq!(db_update_target(Some("_100")), Some(-100));
    assert_eq!(db_update_target(Some("name")), None);
    assert_eq!(db_update_target(None), None);
    assert_eq!(db_update_step(None, false), DbUpdate::NoId);
    assert_eq!(db_update_step(Some(5), true), DbUpdate::Known);
    assert_eq!(db_update_step(Some(5), false), DbUpdate::Insert(5));
    assert_eq!(db_update_name(-100), "-100");
    let i = Emoji::Information.to_html();
    assert_eq!(db_update_text(DbUpdate::NoId), format!("{i} Боту должен быть передан числовой ИД"));
    assert_eq!(db_update_text(DbUpdate::Known), format!("{i} Данный ИД уже известен боту"));
    assert_eq!(db_update_text(DbUpdate::Insert(5)), format!("{i} Данные пользователя обновлены в базе"));
}

#[test]
fn list_change_texts() {
    let h = Emoji::Human.to_html();
    assert_eq!(admin_change_text("U", true, false), format!("{h} Пользователь U был добавлен в список администраторов"));
    assert_eq!(admin_change_text("U", true, true), format!("{h} Пользователь U уже был добавлен в список администраторов"));
    assert_eq!(admin_change_text("U", false, true), format!("{h} Пользователь U был удален из списка администраторов"));
    assert_eq!(admin_change_text("U", false, false), format!("{h} Пользователь U отсуствует в списке администраторов"));
    let b = Emoji::Balloon.to_html();
    assert_eq!(allowed_chat_text("C", true, false), format!("{b} Чат C был добавлен в список разрешенных"));
    assert_eq!(allowed_chat_text("C", true, true), format!("{b} Чат C уже был добавлен в список разрешенных"));
    assert_eq!(allowed_chat_text("C", false, true), format!("{b} Чат C был удален из списка разрешенных"));
    assert_eq!(allowed_chat_text("C", false, false), format!("{b} Чат C не состоит в списке разрешенных"));
    assert_eq!(garant_change_text("G", true, false), format!("{b} G добавлен в список гарантов RedTokyo"));
    assert_eq!(garant_change_text("G", false, true), format!("{b} G исключен из списка гарантов RedTokyo"));
    assert_eq!(garant_change_text("G", false, false), format!("{b} G Отсутствует в списке гарантов RedTokyo"));
}
