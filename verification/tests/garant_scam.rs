use chat_guard::emoji::Emoji;
use chat_guard::garant::{
    admin_list_text, garant_list_text, may_delete_summons, new_summons, summon_base, summon_texts,
    GarantListEntry, SummonPayload,
};
use chat_guard::media_group::{MediaItem, MediaKind};
use chat_guard::scam::{
    caption_goes_on, file_id_answer, reply_required_text, scam_entered_text, scam_notice, scam_post, scam_reason,
    scam_removal, scam_removal_text, ScamPost, ScamRecordView, ScamRemoval, GREEN_STATUS, RED_STATUS,
    YELLOW_STATUS,
};
use chat_guard::user::UserInfo;

fn hidden(id: i64) -> String {
    format!("<a href=\"tg://user?id={id}\">&#8296;</a>")
}

#[test]
fn summons_may_be_deleted_by() {
    assert!(may_delete_summons(true, false, false));
    assert!(may_delete_summons(false, true, false));
    assert!(may_delete_summons(false, false, true));
    assert!(!may_delete_summons(false, false, false));
}

#[test]
fn summon_ids_are_fresh_hex() {
    let (a, pa) = new_summons(5, vec![1, 2]);
    let (b, _) = new_summons(5, vec![]);
    for id in [&a, &b] {
        assert_eq!(id.len(), 32);
        assert!(id.chars().all(|c| c.is_ascii_digit() || ('a'..='f').contains(&c)));
    }
    assert_ne!(a, b);
    assert_eq!((pa.creator_id, pa.msg_ids), (5, vec![1, 2]));
}

#[test]
fn summon_base_with_and_without_reason() {
    assert_eq!(summon_base("M", ""), format!("{} M созывает гарантов чата", Emoji::Megaphone.to_html()));
    assert_eq!(
        summon_base("M", "нужен гарант"),
        format!("{} M созывает гарантов чата\n\n{} нужен гарант", Emoji::Megaphone.to_html(), Emoji::Balloon.to_html())
    );
}

#[test]
fn summon_texts_chunks_of_five() {
    let ids: Vec<i64> = (1..=7).collect();
    let texts = summon_texts("B", &ids);
    assert_eq!(texts.len(), 2);
    assert_eq!(texts[0], format!("B{}{}{}{}{}", hidden(1), hidden(2), hidden(3), hidden(4), hidden(5)));
    assert_eq!(texts[1], format!("B{}{}", hidden(6), hidden(7)));
    assert!(summon_texts("B", &vec![]).is_empty());
    assert_eq!(summon_texts("B", &(1..=10).collect()).len(), 2);
    assert_eq!(summon_texts("B", &(1..=11).collect()).len(), 3);
}

#[test]
fn summon_payload_holds_messages() {
    let p = SummonPayload { creator_id: 5, msg_ids: vec![1, 2] };
    let q = p.clone();
    assert_eq!((q.creator_id, q.msg_ids), (5, vec![1, 2]));
}

#[test]
fn garant_and_admin_listings() {
    let head = format!("{} Список гарантов чата:\n", Emoji::FacingUp.to_html());
    assert_eq!(garant_list_text(&vec![]), format!("{head}Отсутствует"));
    let entries = vec![
        GarantListEntry {
            user: Some(UserInfo { id: 1, username: Some("g1".to_string()), full_name: "Gary".to_string() }),
            comment: "проверен".to_string(),
        },
        GarantListEntry { user: None, comment: "x".to_string() },
    ];
    let rb = Emoji::RadioButton.to_html();
    assert_eq!(
        garant_list_text(&entries),
        format!("{head}{rb} <a href='https://t.me/g1'>Gary</a> - проверен\n")
    );
    let ahead = format!("{} Список администраторов:\n", Emoji::FacingUp.to_html());
    assert_eq!(admin_list_text(&vec![]), format!("{ahead}Пуст"));
    assert_eq!(
        admin_list_text(&vec![None, Some(UserInfo { id: 2, username: None, full_name: "Ann".to_string() })]),
        format!("{ahead}{rb} <a href='tg://openmessage?user_id=2'>Ann</a>\n")
    );
}

#[test]
fn scam_notice_text() {
    assert_eq!(
        scam_notice("U", 42, "обман", "A", -1001234567, 99),
        format!(
            "<i>#бан\n{} <b>Пользователь U (<code>@42</code>) находится в скам базе проекта 'RedTokyo'</b>\n{} <b>Причина:</b> обман\n{} <b>Модератор:</b> A\n\n{} <b><a href='https://t.me/c/1234567/99'>Перейти к смс бана</a></b></i>",
            Emoji::Exclamation.to_html(),
            Emoji::Balloon.to_html(),
            Emoji::Human.to_html(),
            Emoji::ArrowRight.to_html()
        )
    );
    assert_eq!(
        reply_required_text(),
        format!("<i>{} Команда должна быть вызвана в ответ на смс с выданным наказанием</i>", Emoji::Exclamation.to_html())
    );
    assert_eq!(
        scam_entered_text("U", -1003979922414, 5),
        format!(
            "<i>{} Пользователь U занесен в скам базу проекта 'RedTokyo'\n<b><a href='https://t.me/c/3979922414/5'>Перейти к смс скам-базы</a></b></i>",
            Emoji::Human.to_html()
        )
    );
}

#[test]
fn scam_post_choice() {
    let item = MediaItem { file_id: "m".to_string(), kind: MediaKind::Photo };
    assert!(matches!(scam_post(vec![item], Some("p".to_string()), None, None), ScamPost::MediaGroup(g) if g.len() == 1));
    assert!(matches!(scam_post(vec![], Some("p".to_string()), Some("v".to_string()), None), ScamPost::Photo(p) if p == "p"));
    assert!(matches!(scam_post(vec![], None, Some("v".to_string()), Some("d".to_string())), ScamPost::Video(v) if v == "v"));
    assert!(matches!(scam_post(vec![], None, None, Some("d".to_string())), ScamPost::Document(d) if d == "d"));
    assert!(matches!(scam_post(vec![], None, None, None), ScamPost::Text));
    assert!(caption_goes_on(0));
    assert!(!caption_goes_on(1));
}

#[test]
fn scam_removal_decisions() {
    assert_eq!(scam_removal(false, "-скам база ошибка", 1830362280), ScamRemoval::Absent);
    assert_eq!(scam_removal(true, "-скам база ОШИБКА", 1830362280), ScamRemoval::Erase);
    assert_eq!(scam_removal(true, "-скам база ошибка", 5), ScamRemoval::NoRights);
    assert_eq!(scam_removal(true, "-скам база", 5), ScamRemoval::Close);
    let h = Emoji::Human.to_html();
    assert_eq!(scam_removal_text(ScamRemoval::Absent, "U"), format!("{h} Пользователь U отсутствует в скам базе проекта 'RedTokyo'"));
    assert_eq!(
        scam_removal_text(ScamRemoval::NoRights, "U"),
        format!("{} У вас недостаточно прав для выполнения данной команды.", Emoji::Exclamation.to_html())
    );
    assert_eq!(
        scam_removal_text(ScamRemoval::Erase, "U"),
        format!("{h} Пользователь U удален из скам базы проекта 'RedTokyo' без пометки о вносе")
    );
    assert_eq!(scam_removal_text(ScamRemoval::Close, "U"), format!("{h} Пользователь U удален из скам базы проекта 'RedTokyo'"));
}

#[test]
fn scam_reason_views() {
    let rec = ScamRecordView {
        status: true,
        reason: "обман".to_string(),
        channel_chat_id: -1003979922414,
        first_channel_message_id: Some(7),
        admin_mention: "A".to_string(),
    };
    let (photo, text) = scam_reason(&Some(rec.clone()), "U", 42);
    assert_eq!(photo, RED_STATUS);
    assert_eq!(
        text,
        format!(
            "{} <i><b>Пользователь U (<code>@42</code>) находится в скам базе проекта 'RedTokyo'</b>\n{} <b>Причина:</b> обман\n{} <b>Модератор:</b> A\n\n{} <b><a href='https://t.me/c/3979922414/7'>Перейти к смс скам-базы</a></b></i>",
            Emoji::Exclamation.to_html(),
            Emoji::Balloon.to_html(),
            Emoji::Human.to_html(),
            Emoji::ArrowRight.to_html()
        )
    );
    let closed = ScamRecordView { status: false, first_channel_message_id: None, ..rec };
    let (photo2, text2) = scam_reason(&Some(closed), "U", 42);
    assert_eq!(photo2, YELLOW_STATUS);
    assert!(text2.contains("находился в скам базе"));
    assert!(text2.contains("https://t.me/c/3979922414/0"));
    let (photo3, text3) = scam_reason(&None, "U", 42);
    assert_eq!(photo3, GREEN_STATUS);
    assert_eq!(text3, format!("{} Пользователь U отсутствует в скам базе проекта 'RedTokyo'", Emoji::Human.to_html()));
}

#[test]
fn file_id_answers() {
    assert_eq!(file_id_answer(false, Some("x")), "<i>❗️ Команда должна быть вызвана в ответ на смс с выданным фото.</i>");
    assert_eq!(file_id_answer(true, None), "<i>❗️ Это сообщение не содержит фото.</i>");
    assert_eq!(file_id_answer(true, Some("AgAC")), "<i>💬 Файл ид: <code>AgAC</code></i>");
}
