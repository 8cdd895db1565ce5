use chat_guard::captcha::IrisReply;
use chat_guard::chat::{admission, full_permissions, is_allowed_bot, is_allowed_url, is_gl_admin, leave_text, muted_permissions, ChatAdmission};
use chat_guard::config::{parse_u16_str, Config, ConfigError, ConfigVars};
use chat_guard::emoji::Emoji;
use chat_guard::iris::{classify_failure, registration_reply, IrisAPI, IrisFailure};

fn vars() -> ConfigVars {
    ConfigVars {
        bot_token: Some("token".to_string()),
        server_host: Some("0.0.0.0".to_string()),
        server_port: Some("8080".to_string()),
        webhook_url: Some("https://example.org".to_string()),
        webhook_path: Some("/hook".to_string()),
        secret_token: Some("secret".to_string()),
        database_url: Some("postgres://db".to_string()),
        iris_api_id: Some("-42".to_string()),
        iris_api_token: Some("iris".to_string()),
    }
}

#[test]
fn config_loads_all_settings() {
    let c = Config::load_from(vars()).unwrap();
    assert_eq!(c.bot_token, "token");
    assert_eq!(c.server_host, "0.0.0.0");
    assert_eq!(c.server_port, 8080);
    assert_eq!(c.webhook_url, "https://example.org");
    assert_eq!(c.webhook_path, "/hook");
    assert_eq!(c.secret_token, "secret");
    assert_eq!(c.database_url, "postgres://db");
    assert_eq!(c.iris_api_id, -42);
    assert_eq!(c.iris_api_token, "iris");
}

#[test]
fn config_reports_first_problem() {
    let mut v = vars();
    v.bot_token = None;
    v.server_port = None;
    assert_eq!(Config::load_from(v).unwrap_err(), ConfigError::BotTokenMissing);
    let mut v = vars();
    v.server_port = Some("70000".to_string());
    assert_eq!(Config::load_from(v).unwrap_err(), ConfigError::ServerPortNotInteger);
    let mut v = vars();
    v.server_port = None;
    assert_eq!(Config::load_from(v).unwrap_err(), ConfigError::ServerPortMissing);
    let mut v = vars();
    v.iris_api_id = Some("abc".to_string());
    assert_eq!(Config::load_from(v).unwrap_err(), ConfigError::IrisApiIdNotInteger);
    let mut v = vars();
    v.iris_api_token = None;
    assert_eq!(Config::load_from(v).unwrap_err(), ConfigError::IrisApiTokenMissing);
    let mut v = vars();
    v.database_url = None;
    assert_eq!(Config::load_from(v).unwrap_err(), ConfigError::DatabaseUrlMissing);
}

#[test]
fn config_error_messages() {
    assert_eq!(ConfigError::BotTokenMissing.message(), "bot token is not set.");
    assert_eq!(ConfigError::ServerPortNotInteger.message(), "server port is not integer.");
    assert_eq!(ConfigError::IrisApiIdNotInteger.message(), "iris api id is not integer.");
    assert_eq!(ConfigError::IrisApiTokenMissing.message(), "iris api token is not set.");
}

#[test]
fn port_parsing_follows_str_parse() {
    for s in ["0", "65535", "65536", "+80", "-1", "-0", "", "8o"] {
        assert_eq!(parse_u16_str(s), s.parse::<u16>().ok(), "{s}");
    }
}

#[test]
fn iris_urls_and_requests() {
    let api = IrisAPI::new(123, "tok".to_string());
    assert_eq!(api.request_url("user_info/reg"), "https://iris-tg.ru/api/123_tok/v0.5/user_info/reg");
    let (method, query) = IrisAPI::user_reg_request(-5);
    assert_eq!(method, "user_info/reg");
    assert_eq!(query, vec![("user_id".to_string(), "-5".to_string())]);
    let (m2, q2) = IrisAPI::order_book_request();
    assert_eq!(m2, "trade/orderbook");
    assert!(q2.is_empty());
}

#[test]
fn iris_failures() {
    assert!(matches!(classify_failure(Some((403, "no".to_string()))), IrisFailure::Api { code: 403, description } if description == "no"));
    assert!(matches!(classify_failure(None), IrisFailure::Other));
    assert_eq!(registration_reply(Ok(1000)), IrisReply::Registered(1000));
    assert_eq!(registration_reply(Err(IrisFailure::Api { code: 403, description: String::new() })), IrisReply::Forbidden);
    assert_eq!(registration_reply(Err(IrisFailure::Api { code: 500, description: String::new() })), IrisReply::Failed);
    assert_eq!(registration_reply(Err(IrisFailure::Other)), IrisReply::Failed);
}

#[test]
fn known_people_and_links() {
    assert!(is_gl_admin(1830362280));
    assert!(!is_gl_admin(1));
    assert!(is_allowed_bot(650863105));
    assert!(!is_allowed_bot(1));
    assert!(is_allowed_url("https://t.me/+M3fsh0ruW75mODFi"));
    assert!(!is_allowed_url("t.me/+M3fsh0ruW75mODFi"));
}

#[test]
fn permissions_and_admission() {
    let m = muted_permissions();
    assert_eq!(m.can_send_messages, Some(false));
    assert_eq!(m.can_manage_topics, Some(false));
    let f = full_permissions();
    assert_eq!(f.can_send_messages, Some(true));
    assert_eq!(f.can_pin_messages, Some(true));
    assert_eq!(admission(true), ChatAdmission::Stay);
    assert_eq!(admission(false), ChatAdmission::Leave);
    assert_eq!(leave_text(), "👋 Я выхожу, мне тут не место.");
}

#[test]
fn emoji_html() {
    assert_eq!(Emoji::PingPong.to_html(), "<tg-emoji emoji-id='5269563867305879894'>🏓</tg-emoji>");
    assert_eq!(Emoji::Information.id(), "5334544901428229844");
    assert_eq!(Emoji::Information.glyph(), "ℹ️");
    assert_eq!(Emoji::Turtle.to_html(), format!("<tg-emoji emoji-id='{}'>{}</tg-emoji>", Emoji::Turtle.id(), Emoji::Turtle.glyph()));
}
