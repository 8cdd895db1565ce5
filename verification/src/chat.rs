//! The chats and people the bot knows by identifier, and the permission sets it applies.
use vstd::prelude::*;

verus! {

/// The chat where moderators receive the bot's reports.
pub const ADMIN_CHAT_ID: i64 = -1003904096608;

/// The chat for duels (games on bets).
pub const DUEL_CHAT_ID: i64 = -1001876817712;

/// The guarantors' chat, which has its own join checks.
pub const GARANT_CHAT_ID: i64 = -1002393805826;

/// The channel where the scam base is published.
pub const SCAM_CHANNEL_ID: i64 = -1003979922414;

/// The advertising chat, where join requests are left alone.
pub const PR_CHAT_ID: i64 = -1002635887529;

/// The chief administrators.
pub open spec fn gl_admins() -> Seq<i64> {
    seq![1830362280i64, 8630742541i64, 1396129644i64, 8083769211i64, 8577420947i64]
}

/// The bots allowed to write in the chats.
pub open spec fn allowed_bot_ids() -> Seq<i64> {
    seq![
        8289185888i64,
        8670571630i64,
        6212219963i64,
        6775391315i64,
        6032895492i64,
        1559501630i64,
        5788046441i64,
        5014831088i64,
        650863105i64,
        8377231659i64,
    ]
}

/// The invite links that count as allowed.
pub open spec fn allowed_urls() -> Seq<Seq<char>> {
    seq![
        "https://t.me/+M3fsh0ruW75mODFi"@,
        "https://t.me/+XNXqm9WklD05MjE6"@,
        "https://t.me/+HcBJcoox5SYxMTgy"@,
        "https://t.me/+rDfQrZagTJw1MzYy"@,
        "https://t.me/+xWMOTmTObWxkOGM6"@,
    ]
}

fn contains_id(ids: &Vec<i64>, id: i64) -> (r: bool)
    ensures
        r == ids@.contains(id),
{
    let mut i: usize = 0;
    while i < ids.len()
        invariant
            i <= ids@.len(),
            forall|k: int| 0 <= k < i ==> ids@[k] != id,
        decreases ids.len() - i,
    {
        if ids[i] == id {
            assert(ids@[i as int] == id);
            return true;
        }
        i = i + 1;
    }
    false
}

/// Whether `id` is one of the chief administrators.
pub fn is_gl_admin(id: i64) -> (r: bool)
    ensures
        r == gl_admins().contains(id),
{
    let ids: Vec<i64> = vec![1830362280, 8630742541, 1396129644, 8083769211, 8577420947];
    assert(ids@ =~= gl_admins());
    contains_id(&ids, id)
}

/// Whether `id` is one of the allowed bots.
pub fn is_allowed_bot(id: i64) -> (r: bool)
    ensures
        r == allowed_bot_ids().contains(id),
{
    let ids: Vec<i64> = vec![
        8289185888,
        8670571630,
        6212219963,
        6775391315,
        6032895492,
        1559501630,
        5788046441,
        5014831088,
        650863105,
        8377231659,
    ];
    assert(ids@ =~= allowed_bot_ids());
    contains_id(&ids, id)
}

fn str_is(a: &str, b: &str) -> (r: bool)
    ensures
        r == (a@ == b@),
{
    let x = crate::strings::chars_of(a);
    let y = crate::strings::chars_of(b);
    crate::callback::same_chars(&x, &y)
}

/// Whether `url` is one of the allowed invite links.
pub fn is_allowed_url(url: &str) -> (r: bool)
    ensures
        r == allowed_urls().contains(url@),
{
    let r = str_is(url, "https://t.me/+M3fsh0ruW75mODFi") || str_is(url, "https://t.me/+XNXqm9WklD05MjE6")
        || str_is(url, "https://t.me/+HcBJcoox5SYxMTgy") || str_is(url, "https://t.me/+rDfQrZagTJw1MzYy")
        || str_is(url, "https://t.me/+xWMOTmTObWxkOGM6");
    proof {
        let u = allowed_urls();
        if r {
            assert(u[0] == "https://t.me/+M3fsh0ruW75mODFi"@);
            assert(u[1] == "https://t.me/+XNXqm9WklD05MjE6"@);
            assert(u[2] == "https://t.me/+HcBJcoox5SYxMTgy"@);
            assert(u[3] == "https://t.me/+rDfQrZagTJw1MzYy"@);
            assert(u[4] == "https://t.me/+xWMOTmTObWxkOGM6"@);
        } else {
            assert forall|k: int| 0 <= k < u.len() implies u[k] != url@ by {
                assert(k == 0 || k == 1 || k == 2 || k == 3 || k == 4);
            }
        }
    }
    r
}

/// What a member of a chat may do; `None` leaves a permission as it is.
#[derive(Debug, Clone, Copy, PartialEq, Eq, Structural)]
pub struct ChatPermissions {
    pub can_send_messages: Option<bool>,
    pub can_send_audios: Option<bool>,
    pub can_send_documents: Option<bool>,
    pub can_send_photos: Option<bool>,
    pub can_send_videos: Option<bool>,
    pub can_send_video_notes: Option<bool>,
    pub can_send_polls: Option<bool>,
    pub can_send_other_messages: Option<bool>,
    pub can_add_web_page_previews: Option<bool>,
    pub can_react_to_messages: Option<bool>,
    pub can_edit_tag: Option<bool>,
    pub can_change_info: Option<bool>,
    pub can_invite_users: Option<bool>,
    pub can_pin_messages: Option<bool>,
    pub can_send_voice_notes: Option<bool>,
    pub can_manage_topics: Option<bool>,
}

/// The permission set in which every permission is set to `v`.
pub open spec fn uniform_permissions(v: bool) -> ChatPermissions {
    ChatPermissions {
        can_send_messages: Some(v),
        can_send_audios: Some(v),
        can_send_documents: Some(v),
        can_send_photos: Some(v),
        can_send_videos: Some(v),
        can_send_video_notes: Some(v),
        can_send_polls: Some(v),
        can_send_other_messages: Some(v),
        can_add_web_page_previews: Some(v),
        can_react_to_messages: Some(v),
        can_edit_tag: Some(v),
        can_change_info: Some(v),
        can_invite_users: Some(v),
        can_pin_messages: Some(v),
        can_send_voice_notes: Some(v),
        can_manage_topics: Some(v),
    }
}

fn uniform(v: bool) -> (r: ChatPermissions)
    ensures
        r == uniform_permissions(v),
{
    ChatPermissions {
        can_send_messages: Some(v),
        can_send_audios: Some(v),
        can_send_documents: Some(v),
        can_send_photos: Some(v),
        can_send_videos: Some(v),
        can_send_video_notes: Some(v),
        can_send_polls: Some(v),
        can_send_other_messages: Some(v),
        can_add_web_page_previews: Some(v),
        can_react_to_messages: Some(v),
        can_edit_tag: Some(v),
        can_change_info: Some(v),
        can_invite_users: Some(v),
        can_pin_messages: Some(v),
        can_send_voice_notes: Some(v),
        can_manage_topics: Some(v),
    }
}

/// Every permission withdrawn.
pub fn muted_permissions() -> (r: ChatPermissions)
    ensures
        r == uniform_permissions(false),
{
    uniform(false)
}

/// Every permission granted.
pub fn full_permissions() -> (r: ChatPermissions)
    ensures
        r == uniform_permissions(true),
{
    uniform(true)
}

/// What the bot does in a chat after looking it up among the allowed chats.
#[derive(Debug, Clone, Copy, PartialEq, Eq, Structural)]
pub enum ChatAdmission {
    /// The chat is allowed: stay.
    Stay,
    /// The chat is not allowed: say goodbye and leave.
    Leave,
}

/// Stay in a chat that is among the allowed chats; leave any other.
pub fn admission(is_allowed: bool) -> (r: ChatAdmission)
    ensures
        r == (if is_allowed { ChatAdmission::Stay } else { ChatAdmission::Leave }),
{
    if is_allowed {
        ChatAdmission::Stay
    } else {
        ChatAdmission::Leave
    }
}

/// The goodbye the bot says before it leaves a chat that is not allowed.
pub fn leave_text() -> (r: &'static str)
    ensures
        r@ == "👋 Я выхожу, мне тут не место."@,
{
    "👋 Я выхожу, мне тут не место."
}

} // verus!
