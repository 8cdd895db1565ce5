use chat_guard::pattern::{parse_command, Pattern, PatternError};
use chat_guard::regexes::{
    re_ban, re_call_garants, re_callback_captcha, re_db_update, re_del_sum, re_duel, re_file_id, re_invite,
    re_list_garants, re_list_warns, re_minimal_rate, re_ping, re_reason_scam, re_referral, re_remove_garant,
    re_remove_scam, re_remove_warn, re_repeat_reg, re_set_garant, re_set_scam, re_set_warn, re_unmute,
};

fn command_word(p: &Pattern, text: &str) -> Option<String> {
    parse_command(p, text).map(|c| c.get("command").unwrap_or("").to_string())
}

#[test]
fn pattern_new_rejects_bad_source() {
    assert!(matches!(Pattern::new("(unclosed".to_string()), Err(PatternError::Invalid)));
    let p = Pattern::new("a+".to_string()).unwrap();
    assert_eq!(p.source(), "a+");
    assert_eq!(p.find_all("caaab a"), vec!["aaa".to_string(), "a".to_string()]);
}

#[test]
fn all_patterns_compile() {
    for p in [
        re_ping(), re_duel(), re_set_garant(), re_remove_garant(), re_call_garants(), re_list_garants(),
        re_set_warn(), re_remove_warn(), re_list_warns(), re_set_scam(), re_remove_scam(), re_reason_scam(),
        re_file_id(), re_minimal_rate(), re_db_update(), re_callback_captcha(), re_del_sum(), re_repeat_reg(),
        re_unmute(), re_ban(), re_referral(), re_invite(),
    ] {
        assert!(p.is_ok());
    }
}

#[test]
fn ping_command_variants() {
    let p = re_ping().unwrap();
    assert_eq!(command_word(&p, ".пинг").as_deref(), Some("пинг"));
    assert_eq!(command_word(&p, "PING").as_deref(), Some("PING"));
    assert_eq!(command_word(&p, "сап пинг\nещё текст").as_deref(), Some("пинг"));
    assert!(command_word(&p, "пинг понг").is_none());
    assert_eq!(parse_command(&p, ".пинг").unwrap().get("user"), None);
}

#[test]
fn duel_command_amount() {
    let p = re_duel().unwrap();
    let c = parse_command(&p, "дуэль 5к").unwrap();
    assert_eq!(c.get("command"), Some("дуэль"));
    assert_eq!(c.get("amount"), Some("5к"));
    let c2 = parse_command(&p, "!кубы").unwrap();
    assert_eq!(c2.get("amount"), None);
    assert_eq!(c2.require("command"), "кубы");
    assert!(parse_command(&p, "дуэль abc").is_none());
}

#[test]
fn set_warn_user_and_reason() {
    let p = re_set_warn().unwrap();
    let c = parse_command(&p, "+уст @someuser\nспам").unwrap();
    assert_eq!(c.get("user"), Some("someuser"));
    assert_eq!(c.get("reason"), Some("спам"));
    let c2 = parse_command(&p, "+уст\nфлуд").unwrap();
    assert_eq!(c2.get("user"), None);
    assert_eq!(c2.get("reason"), Some("флуд"));
    assert!(parse_command(&p, "+уст @someuser").is_none());
}

#[test]
fn user_argument_forms() {
    let p = re_remove_warn().unwrap();
    for (text, user) in [
        ("-уст 12345", "12345"),
        ("-уст -100123", "-100123"),
        ("-уст https://t.me/some_user", "some_user"),
        ("-уст tg://user?id=777", "777"),
        ("-уст <a href='tg://user?id=888'>Name</a>", "888"),
    ] {
        assert_eq!(parse_command(&p, text).unwrap().get("user"), Some(user), "{text}");
    }
}

#[test]
fn list_warns_command_word() {
    let p = re_list_warns().unwrap();
    let c = parse_command(&p, "мои   усты").unwrap();
    assert_eq!(c.get("command"), Some("мои   усты"));
    assert_eq!(c.get("user"), None);
    let c2 = parse_command(&p, "твои усты 12345").unwrap();
    assert_eq!(c2.get("user"), Some("12345"));
}

#[test]
fn remove_scam_error_word() {
    let p = re_remove_scam().unwrap();
    let c = parse_command(&p, "-скам база ошибка 12345").unwrap();
    assert_eq!(c.get("command"), Some("-скам база ошибка"));
    assert_eq!(c.get("user"), Some("12345"));
}

#[test]
fn call_garants_reason() {
    let p = re_call_garants().unwrap();
    assert_eq!(parse_command(&p, "созвать гарантов\nнужен гарант").unwrap().get("reason"), Some("нужен гарант"));
    assert_eq!(parse_command(&p, "созвать гарантов").unwrap().get("reason"), None);
}

#[test]
fn callback_patterns() {
    let c = parse_command(&re_callback_captcha().unwrap(), "captcha:-100123:42:3").unwrap();
    assert_eq!((c.get("chat_id"), c.get("user_id"), c.get("code")), (Some("-100123"), Some("42"), Some("3")));
    let d = parse_command(&re_del_sum().unwrap(), "del_sum:0123456789abcdef0123456789abcdef").unwrap();
    assert_eq!(d.get("summon_id"), Some("0123456789abcdef0123456789abcdef"));
    let u = parse_command(&re_unmute().unwrap(), "unmute:-1:none:2").unwrap();
    assert_eq!(u.get("message_id"), Some("none"));
    assert!(parse_command(&re_ban().unwrap(), "ban:-1:3").is_none());
    let r = parse_command(&re_repeat_reg().unwrap(), "repeat_reg:-1:2").unwrap();
    assert_eq!((r.get("chat_id"), r.get("user_id")), (Some("-1"), Some("2")));
}

#[test]
fn invite_links_are_found() {
    let p = re_invite().unwrap();
    assert_eq!(
        p.find_all("join t.me/+abc and https://t.me/+def_1 now"),
        vec!["t.me/+abc".to_string(), "t.me/+def_1".to_string()]
    );
    assert!(p.find_all("t.me/abc").is_empty());
}

#[test]
fn repeat_novo_reg_pattern() {
    let p = chat_guard::regexes::re_repeat_novo_reg().unwrap();
    let r = parse_command(&p, "repeat_novo_reg:-1:2").unwrap();
    assert_eq!((r.get("chat_id"), r.get("user_id")), (Some("-1"), Some("2")));
    assert!(parse_command(&p, "repeat_reg:-1:2").is_none());
}
