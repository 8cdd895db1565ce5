use chat_guard::callback::{
    parse_repeat_novo_reg, repeat_novo_reg_data, captcha_data, del_sum_data, moderation_data, parse_captcha, parse_del_sum, parse_moderation, parse_repeat_reg,
    repeat_reg_data, ModerationAction,
};

#[test]
fn captcha_data_format() {
    assert_eq!(captcha_data(-1001234, 42, 3), "captcha:-1001234:42:3");
}

#[test]
fn captcha_data_round_trip_values() {
    for (chat, user, code) in [(-1001234i64, 42i64, 3i64), (0, 0, 0), (i64::MIN, i64::MAX, 1), (5, 6, 4)] {
        let a = parse_captcha(&captcha_data(chat, user, code)).unwrap();
        assert_eq!((a.chat_id, a.user_id, a.code.as_str()), (chat, user, code.to_string().as_str()));
    }
}

#[test]
fn parse_captcha_rejects_malformed() {
    assert!(parse_captcha("captcha:1:2").is_none());
    assert!(parse_captcha("captcha:1:-2:3").is_none());
    assert!(parse_captcha("captcha:1:2:").is_none());
    assert!(parse_captcha("captcha:a:2:3").is_none());
    assert!(parse_captcha("capcha:1:2:3").is_none());
    assert!(parse_captcha("captcha:1:2:3:4").is_none());
    assert!(parse_captcha("captcha:99999999999999999999:2:3").is_none());
}

#[test]
fn parse_captcha_keeps_code_text() {
    let a = parse_captcha("captcha:-7:8:0003").unwrap();
    assert_eq!((a.chat_id, a.user_id, a.code.as_str()), (-7, 8, "0003"));
}

#[test]
fn del_sum_round_trip_values() {
    let id = "0123456789abcdef0123456789abcdef";
    assert_eq!(del_sum_data(id), format!("del_sum:{id}"));
    assert_eq!(parse_del_sum(&del_sum_data(id)).as_deref(), Some(id));
}

#[test]
fn parse_del_sum_rejects_malformed() {
    assert!(parse_del_sum("del_sum:0123456789ABCDEF0123456789abcdef").is_none());
    assert!(parse_del_sum("del_sum:0123").is_none());
    assert!(parse_del_sum("del_sum:0123456789abcdef0123456789abcdef:x").is_none());
    assert!(parse_del_sum("del:0123456789abcdef0123456789abcdef").is_none());
}

#[test]
fn repeat_reg_round_trip_values() {
    assert_eq!(repeat_reg_data(-100, 5), "repeat_reg:-100:5");
    for (chat, user) in [(-100i64, 5i64), (0, 0), (i64::MIN, i64::MAX)] {
        let a = parse_repeat_reg(&repeat_reg_data(chat, user)).unwrap();
        assert_eq!((a.chat_id, a.user_id), (chat, user));
    }
    assert!(parse_repeat_reg("repeat_reg:-100:-5").is_none());
    assert!(parse_repeat_reg("repeat_reg:-100").is_none());
}

#[test]
fn moderation_data_format() {
    assert_eq!(moderation_data(ModerationAction::Unmute, -100, Some(7), 5), "unmute:-100:7:5");
    assert_eq!(moderation_data(ModerationAction::Ban, -100, None, 5), "ban:-100:0:5");
}

#[test]
fn moderation_round_trip_values() {
    for action in [ModerationAction::Unmute, ModerationAction::Ban] {
        let t = parse_moderation(action, &moderation_data(action, -100, Some(7), 5)).unwrap();
        assert_eq!((t.chat_id, t.message_id, t.user_id), (-100, Some(7), 5));
        let n = parse_moderation(action, &moderation_data(action, -100, None, 5)).unwrap();
        assert_eq!((n.chat_id, n.message_id, n.user_id), (-100, Some(0), 5));
    }
}

#[test]
fn parse_moderation_reads_none_and_checks_word() {
    let t = parse_moderation(ModerationAction::Ban, "ban:-1:none:2").unwrap();
    assert_eq!((t.chat_id, t.message_id, t.user_id), (-1, None, 2));
    assert!(parse_moderation(ModerationAction::Unmute, "ban:-1:3:2").is_none());
    assert!(parse_moderation(ModerationAction::Ban, "ban:-1:-3:2").is_none());
    assert!(parse_moderation(ModerationAction::Ban, "ban:-1:3").is_none());
}

#[test]
fn repeat_novo_reg_round_trip_values() {
    assert_eq!(repeat_novo_reg_data(-100, 5), "repeat_novo_reg:-100:5");
    for (chat, user) in [(-100i64, 5i64), (0, 0), (i64::MIN, i64::MAX)] {
        let a = parse_repeat_novo_reg(&repeat_novo_reg_data(chat, user)).unwrap();
        assert_eq!((a.chat_id, a.user_id), (chat, user));
    }
    assert!(parse_repeat_novo_reg("repeat_reg:-100:5").is_none());
    assert!(parse_repeat_reg("repeat_novo_reg:-100:5").is_none());
}
