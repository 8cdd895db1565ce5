use chat_guard::keyboards::{
    antispam_keyboard, captcha_keyboard, duel_chat_keyboard, duel_unmute_keyboard, garant_call_keyboard,
    repeat_reg_keyboard, Button, ButtonAction,
};

fn action_text(b: &Button) -> (&'static str, String) {
    match &b.action {
        ButtonAction::Url(s) => ("url", s.clone()),
        ButtonAction::Callback(s) => ("callback", s.clone()),
        ButtonAction::CopyText(s) => ("copy", s.clone()),
    }
}

#[test]
fn duel_chat_keyboard_links_to_game_chat() {
    let k = duel_chat_keyboard();
    assert_eq!(k.rows.len(), 1);
    assert_eq!(k.rows[0].len(), 1);
    let b = &k.rows[0][0];
    assert_eq!(b.text, "RT | Игры | Конкурсы");
    assert_eq!(action_text(b), ("url", "https://t.me/+RKMmtfeDjGhhNzYy".to_string()));
    assert_eq!(b.icon_custom_emoji_id.as_deref(), Some("5443038326535759644"));
    assert_eq!(b.style.as_deref(), Some("primary"));
}

#[test]
fn garant_call_keyboard_deletes_summons() {
    let k = garant_call_keyboard("0123456789abcdef0123456789abcdef".to_string());
    let b = &k.rows[0][0];
    assert_eq!(b.text, "Удалить созыв");
    assert_eq!(action_text(b), ("callback", "del_sum:0123456789abcdef0123456789abcdef".to_string()));
    assert_eq!(b.icon_custom_emoji_id.as_deref(), Some("5445267414562389170"));
    assert_eq!(b.style.as_deref(), Some("success"));
}

#[test]
fn repeat_reg_keyboard_repeats_check() {
    let k = repeat_reg_keyboard(-100, 5);
    assert_eq!(k.rows.len(), 1);
    let b = &k.rows[0][0];
    assert_eq!(b.text, "Повторить попытку");
    assert_eq!(action_text(b), ("callback", "repeat_reg:-100:5".to_string()));
    assert_eq!(b.icon_custom_emoji_id, None);
    assert_eq!(b.style.as_deref(), Some("success"));
}

#[test]
fn captcha_keyboard_has_each_code_once() {
    for _ in 0..20 {
        let k = captcha_keyboard(-100, 5);
        assert_eq!(k.rows.len(), 1);
        assert_eq!(k.rows[0].len(), 4);
        let mut data: Vec<String> = k.rows[0].iter().map(|b| action_text(b).1).collect();
        data.sort();
        assert_eq!(
            data,
            vec!["captcha:-100:5:1", "captcha:-100:5:2", "captcha:-100:5:3", "captcha:-100:5:4"]
        );
        for b in &k.rows[0] {
            assert_eq!(b.text, ".");
            let code = action_text(b).1.rsplit(':').next().unwrap().to_string();
            let icon = match code.as_str() {
                "1" => "5339237329292764502",
                "2" => "5337047059180566409",
                "3" => "5318986601441813952",
                _ => "5357233044694508227",
            };
            assert_eq!(b.icon_custom_emoji_id.as_deref(), Some(icon));
            assert_eq!(b.style, None);
        }
    }
}

#[test]
fn captcha_keyboard_order_varies() {
    let first: Vec<String> = captcha_keyboard(1, 2).rows[0].iter().map(|b| action_text(b).1).collect();
    let mut differs = false;
    for _ in 0..200 {
        let next: Vec<String> = captcha_keyboard(1, 2).rows[0].iter().map(|b| action_text(b).1).collect();
        if next != first {
            differs = true;
            break;
        }
    }
    assert!(differs);
}

#[test]
fn duel_unmute_keyboard_rows() {
    let k = duel_unmute_keyboard(-100, 5, 50, Some(9));
    assert_eq!(k.rows.len(), 2);
    let unmute = &k.rows[0][0];
    assert_eq!(unmute.text, "Размутить");
    assert_eq!(action_text(unmute), ("callback", "unmute:-100:9:5".to_string()));
    assert_eq!(unmute.icon_custom_emoji_id.as_deref(), Some("5372800046284674872"));
    let copy = &k.rows[1][0];
    assert_eq!(copy.text, "Скопировать предупреждение");
    assert_eq!(action_text(copy), ("copy", "варн @5\nИгры от 50 голд.".to_string()));
    let k2 = duel_unmute_keyboard(-100, 5, 50, None);
    assert_eq!(action_text(&k2.rows[0][0]).1, "unmute:-100:0:5");
}

#[test]
fn antispam_keyboard_rows() {
    let k = antispam_keyboard(-100, 5, None);
    assert_eq!(k.rows.len(), 2);
    assert_eq!(action_text(&k.rows[0][0]), ("callback", "unmute:-100:0:5".to_string()));
    let ban = &k.rows[1][0];
    assert_eq!(ban.text, "Забанить");
    assert_eq!(action_text(ban), ("callback", "ban:-100:0:5".to_string()));
    assert_eq!(ban.icon_custom_emoji_id.as_deref(), Some("5472308992514464048"));
    assert_eq!(ban.style.as_deref(), Some("success"));
    let k2 = antispam_keyboard(-100, 5, Some(11));
    assert_eq!(action_text(&k2.rows[1][0]).1, "ban:-100:11:5");
}

#[test]
fn repeat_novo_reg_keyboard_repeats_lookup() {
    let k = chat_guard::keyboards::repeat_novo_reg_keyboard(-100, 5);
    assert_eq!(k.rows.len(), 1);
    let b = &k.rows[0][0];
    assert_eq!(b.text, "Повторить попытку");
    assert_eq!(action_text(b), ("callback", "repeat_novo_reg:-100:5".to_string()));
    assert_eq!(b.style.as_deref(), Some("success"));
}
