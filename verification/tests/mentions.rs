use chat_guard::message::{full_name, get_user_info, MessageInfo, MessageMethods};
use chat_guard::user::{get_user_mention, TgChat, TgUser, UserMention};

fn chat(id: i64) -> TgChat {
    TgChat { id, title: None, username: None, first_name: None, last_name: None }
}

fn user(id: i64, first: &str, last: Option<&str>, username: Option<&str>) -> TgUser {
    TgUser {
        id,
        is_bot: false,
        first_name: first.to_string(),
        last_name: last.map(|s| s.to_string()),
        username: username.map(|s| s.to_string()),
    }
}

fn message(chat: TgChat, from: Option<TgUser>, sender_chat: Option<TgChat>) -> MessageInfo {
    MessageInfo {
        message_id: 10,
        thread_id: Some(3),
        date: 1_700_000_000,
        chat,
        from,
        sender_chat,
        text: None,
        caption: None,
        media_group_id: None,
    }
}

#[test]
fn mention_with_username_links_to_profile() {
    assert_eq!(
        get_user_mention(42, Some("bob"), "Bob Smith".to_string()),
        "<a href='https://t.me/bob'>Bob Smith</a>"
    );
}

#[test]
fn mention_without_name_uses_username_then_id() {
    assert_eq!(get_user_mention(7, Some("alice"), "***".to_string()), "<a href='https://t.me/alice'>alice</a>");
    assert_eq!(get_user_mention(42, None, String::new()), "<a href='tg://openmessage?user_id=42'>42</a>");
}

#[test]
fn mention_clears_the_name() {
    assert_eq!(
        get_user_mention(5, None, "<b>Eve</b> !!".to_string()),
        "<a href='tg://openmessage?user_id=5'>b Eve b</a>"
    );
}

#[test]
fn mention_of_supergroup_links_by_chat_id() {
    assert_eq!(
        get_user_mention(-1001234567890, None, "Chat".to_string()),
        "<a href='tg://openmessage?chat_id=-1234567890'>Chat</a>"
    );
    assert_eq!(
        get_user_mention(-1000000000000, None, String::new()),
        "<a href='tg://openmessage?chat_id=0'>-1000000000000</a>"
    );
    assert_eq!(
        get_user_mention(-999999999999, None, "G".to_string()),
        "<a href='tg://openmessage?user_id=-999999999999'>G</a>"
    );
}

#[test]
fn user_mention_uses_first_name() {
    let u = user(9, "Ann", Some("Lee"), Some("ann_lee"));
    assert_eq!(u.mention(), "<a href='https://t.me/ann_lee'>Ann</a>");
}

#[test]
fn full_name_is_trimmed() {
    assert_eq!(full_name("Ann", "Lee"), "Ann Lee");
    assert_eq!(full_name("Ann", ""), "Ann");
    assert_eq!(full_name("", ""), "");
}

#[test]
fn sender_is_sender_chat_first() {
    let sc = TgChat { id: -100500, title: Some("Channel".to_string()), username: Some("chan".to_string()), first_name: None, last_name: None };
    let m = message(chat(-1), Some(user(1, "A", None, None)), Some(sc));
    assert_eq!(get_user_info(&m), (-100500, Some("chan".to_string()), "Channel".to_string()));
}

#[test]
fn sender_is_author_next() {
    let m = message(chat(-1), Some(user(1, "Ann", Some("Lee"), Some("ann"))), None);
    assert_eq!(get_user_info(&m), (1, Some("ann".to_string()), "Ann Lee".to_string()));
    let m2 = message(chat(-1), Some(user(2, "Bo", None, None)), None);
    assert_eq!(get_user_info(&m2), (2, None, "Bo".to_string()));
}

#[test]
fn sender_is_chat_last() {
    let c = TgChat { id: 77, title: None, username: Some("pm".to_string()), first_name: Some("P".to_string()), last_name: None };
    let m = message(c, None, None);
    assert_eq!(get_user_info(&m), (77, Some("pm".to_string()), "P".to_string()));
}

#[test]
fn replies_go_to_the_same_chat_and_topic() {
    let m = message(chat(-5), None, None);
    let s = MessageMethods::send(&m);
    assert_eq!((s.chat_id, s.thread_id, s.reply_to, s.text.as_str()), (-5, Some(3), Some(10), ""));
    let e = MessageMethods::edit(&m);
    assert_eq!((e.chat_id, e.message_id, e.text.as_str()), (-5, 10, ""));
}
