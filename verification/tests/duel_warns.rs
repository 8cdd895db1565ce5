use chat_guard::chat::DUEL_CHAT_ID;
use chat_guard::duel::{
    duel_action, duel_amount, low_bet_key, low_bet_warning, mute_report, mute_text, ping_probe_text, ping_text,
    ping_verdict, DuelAction,
};
use chat_guard::emoji::Emoji;
use chat_guard::warns::{
    chat_link_part, expires_text, is_own_warns_command, join_words, message_link, warn_given_text,
    warn_removed_text, warns_list_text, WarnEntry,
};

#[test]
fn duel_amount_reading() {
    assert_eq!(duel_amount(DUEL_CHAT_ID, Some("5k")), Some(5000));
    assert_eq!(duel_amount(DUEL_CHAT_ID, Some("40")), Some(40));
    assert_eq!(duel_amount(DUEL_CHAT_ID, None), Some(0));
    assert_eq!(duel_amount(DUEL_CHAT_ID, Some("t.me/x")), None);
    assert_eq!(duel_amount(-1, Some("5")), None);
}

#[test]
fn duel_actions() {
    assert_eq!(duel_action(10, 50, 0), DuelAction::Warn { warns: 1 });
    assert_eq!(duel_action(10, 50, 1), DuelAction::Mute);
    assert_eq!(duel_action(0, 50, 0), DuelAction::Warn { warns: 1 });
    assert_eq!(duel_action(50, 50, 0), DuelAction::Nothing);
    assert_eq!(duel_action(-1, 50, 5), DuelAction::Nothing);
}

#[test]
fn duel_texts() {
    assert_eq!(low_bet_key(-100, 7), "warns_low_bet:-100:7");
    assert_eq!(
        mute_text("M", 50),
        "🤐 M\nВы получили мут на 5 минут за повторную попытку игры на сумму менее 50 голд."
    );
    assert_eq!(mute_report("M"), "ℹ️ M лишен права слова в чате\nПричина: неверная ставка в играх");
    assert_eq!(
        low_bet_warning(),
        format!(
            "{} внимание!\n\nВ нашем чате разрешены игры только от 50 голд, другие варианты игр будут наказываться при повторной попытке сыграть.\n\n{} Подробнее в <code>Заметка 2</code> и <code>Заметка 3</code>\n\nИгры на меньшие суммы по кнопке ниже {}",
            Emoji::Bangbang.to_html(),
            Emoji::Balloon.to_html(),
            Emoji::ArrowDown.to_html()
        )
    );
}

#[test]
fn ping_verdicts() {
    assert_eq!(ping_verdict(49), ("скоростной", Emoji::Rocket));
    assert_eq!(ping_verdict(50), ("быстрый", Emoji::Car));
    assert_eq!(ping_verdict(199), ("быстрый", Emoji::Car));
    assert_eq!(ping_verdict(499), ("медленный", Emoji::Runner));
    assert_eq!(ping_verdict(500), ("ужасный", Emoji::Turtle));
    assert_eq!(ping_probe_text(), format!("{} Проверка пинга...", Emoji::PingPong.to_html()));
    assert_eq!(
        ping_text(42),
        format!(
            "{} <b>ПОНГ!</b>\n\n{} Ответ: <b>скоростной | 42 ms.</b>",
            Emoji::PingPong.to_html(),
            Emoji::Rocket.to_html()
        )
    );
}

#[test]
fn own_warns_command() {
    assert_eq!(join_words("  мои   усты \n"), "мои усты");
    assert_eq!(join_words(""), "");
    assert!(is_own_warns_command("МОИ  усты"));
    assert!(is_own_warns_command("мои\tусты"));
    assert!(!is_own_warns_command("твои усты"));
}

#[test]
fn message_links() {
    assert_eq!(chat_link_part(-1001234567), "1234567");
    assert_eq!(chat_link_part(12345), "12345");
    assert_eq!(chat_link_part(-5), "-5");
    assert_eq!(message_link(-1001234567, 42), "https://t.me/c/1234567/42");
}

#[test]
fn expiry_texts() {
    assert_eq!(expires_text(0), "снимается...");
    assert_eq!(expires_text(-3), "снимается...");
    assert_eq!(expires_text(3661), "1 ч. 1 мин.");
    assert_eq!(expires_text(59), "0 ч. 0 мин.");
    assert_eq!(expires_text(7200 + 59 * 60), "2 ч. 59 мин.");
}

#[test]
fn warns_listing() {
    let head = format!("{} Устные предупреждения M:\n", Emoji::Warning.to_html());
    assert_eq!(warns_list_text("M", &vec![]), format!("{head}Отсутствуют."));
    let ws = vec![
        WarnEntry { chat_id: -1001234567, message_id: 42, reason: "спам".to_string(), seconds_left: 3661 },
        WarnEntry { chat_id: -1001234567, message_id: 43, reason: "флуд".to_string(), seconds_left: 0 },
    ];
    assert_eq!(
        warns_list_text("M", &ws),
        format!(
            "{head}От [<a href='https://t.me/c/1234567/42'>1</a>]: спам\nИстекает: 1 ч. 1 мин.\n\nОт [<a href='https://t.me/c/1234567/43'>2</a>]: флуд\nИстекает: снимается...\n\n"
        )
    );
}

#[test]
fn warn_texts() {
    let w = Emoji::Warning.to_html();
    assert_eq!(
        warn_given_text("M", "спам"),
        format!("{w} Пользователю M выдано устное предупреждение\n{} Причина: спам", Emoji::Balloon.to_html())
    );
    assert_eq!(warn_removed_text("M", true), format!("{w} Пользователю M снято последнее устное предупреждение"));
    assert_eq!(warn_removed_text("M", false), format!("{w} У пользователя M отсутствуют устные предупреждения"));
}
