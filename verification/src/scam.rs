//! The scam base: the notice posted to the scam channel, how a record is closed or erased,
//! and how a record is shown.
use vstd::prelude::*;
use vstd::string::*;
use crate::chat::{gl_admins, is_gl_admin};
use crate::emoji::Emoji;
use crate::media_group::{MediaItem, MediaKind};
use crate::parse::{contains_seq, has_infix, lowercase, to_lowercase};
use crate::strings::{chars_of, decimal, push_i64};
use crate::warns::{message_link, message_link_spec};

verus! {

/// The photo shown for a user who is in the scam base.
pub const RED_STATUS: &'static str = "AgACAgIAAyEFAASglsVWAAIpMmoPFXVoP7Ws4wMmPaHPp2ki4FLKAAKIIGsbaKZ5SDqWL07xu2FLAAgBAAMCAAN3AAceBA";

/// The photo shown for a user who was in the scam base.
pub const YELLOW_STATUS: &'static str = "AgACAgIAAyEFAASglsVWAAIpMGoPFW2XejOE4n-j0vPWQbGTiLX1AAKGIGsbaKZ5SBpainAvbA5jAAgBAAMCAAN3AAceBA";

/// The photo shown for a user who is not in the scam base.
pub const GREEN_STATUS: &'static str = "AgACAgIAAyEFAASglsVWAAIpMWoPFXKT-_9D7GVoKC_D5XJSozBwAAKHIGsbaKZ5SDreok4QrSaYAAgBAAMCAAN3AAceBA";

/// The notice posted to the scam channel when a user is entered into the scam base.
pub open spec fn scam_notice_spec(user_mention: Seq<char>, user_id: i64, reason: Seq<char>, admin_mention: Seq<char>, chat_id: i64, reply_id: i64) -> Seq<char> {
    "<i>#бан\n"@ + Emoji::Exclamation.html_spec() + " <b>Пользователь "@ + user_mention + " (<code>@"@ + decimal(
        user_id as int,
    ) + "</code>) находится в скам базе проекта 'RedTokyo'</b>\n"@ + Emoji::Balloon.html_spec()
        + " <b>Причина:</b> "@ + reason + "\n"@ + Emoji::Human.html_spec() + " <b>Модератор:</b> "@ + admin_mention
        + "\n\n"@ + Emoji::ArrowRight.html_spec() + " <b><a href='"@ + message_link_spec(chat_id, reply_id)
        + "'>Перейти к смс бана</a></b></i>"@
}

/// The notice posted to the scam channel, as `scam_notice_spec` says; it links to the
/// punishment message `reply_id` in the chat `chat_id`.
pub fn scam_notice(user_mention: &str, user_id: i64, reason: &str, admin_mention: &str, chat_id: i64, reply_id: i64) -> (r: String)
    ensures
        r@ == scam_notice_spec(user_mention@, user_id, reason@, admin_mention@, chat_id, reply_id),
{
    let mut r = String::new();
    r.append("<i>#бан\n");
    r.append(Emoji::Exclamation.to_html().as_str());
    r.append(" <b>Пользователь ");
    r.append(user_mention);
    r.append(" (<code>@");
    push_i64(&mut r, user_id);
    r.append("</code>) находится в скам базе проекта 'RedTokyo'</b>\n");
    r.append(Emoji::Balloon.to_html().as_str());
    r.append(" <b>Причина:</b> ");
    r.append(reason);
    r.append("\n");
    r.append(Emoji::Human.to_html().as_str());
    r.append(" <b>Модератор:</b> ");
    r.append(admin_mention);
    r.append("\n\n");
    r.append(Emoji::ArrowRight.to_html().as_str());
    r.append(" <b><a href='");
    r.append(message_link(chat_id, reply_id).as_str());
    r.append("'>Перейти к смс бана</a></b></i>");
    r
}

/// The answer to a scam-base command given without a reply to the punishment message.
pub fn reply_required_text() -> (r: String)
    ensures
        r@ == "<i>"@ + Emoji::Exclamation.html_spec() + " Команда должна быть вызвана в ответ на смс с выданным наказанием</i>"@,
{
    let mut r = String::new();
    r.append("<i>");
    r.append(Emoji::Exclamation.to_html().as_str());
    r.append(" Команда должна быть вызвана в ответ на смс с выданным наказанием</i>");
    r
}

/// The confirmation in the chat that a user was entered into the scam base, with a link to
/// the channel post `post_id` in `channel_id`.
pub fn scam_entered_text(user_mention: &str, channel_id: i64, post_id: i64) -> (r: String)
    ensures
        r@ == "<i>"@ + Emoji::Human.html_spec() + " Пользователь "@ + user_mention@
            + " занесен в скам базу проекта 'RedTokyo'\n<b><a href='"@ + message_link_spec(channel_id, post_id)
            + "'>Перейти к смс скам-базы</a></b></i>"@,
{
    let mut r = String::new();
    r.append("<i>");
    r.append(Emoji::Human.to_html().as_str());
    r.append(" Пользователь ");
    r.append(user_mention);
    r.append(" занесен в скам базу проекта 'RedTokyo'\n<b><a href='");
    r.append(message_link(channel_id, post_id).as_str());
    r.append("'>Перейти к смс скам-базы</a></b></i>");
    r
}

/// How the evidence of a scam-base entry is posted to the channel.
#[derive(Debug, Clone)]
pub enum ScamPost {
    /// The collected media group, the notice as the caption of its first item.
    MediaGroup(Vec<MediaItem>),
    Photo(String),
    Video(String),
    Document(String),
    /// The notice alone, as a text message.
    Text,
}

/// How the evidence is posted: the collected media group if any, else the message's largest
/// photo, else its video, else its document, else the notice alone.
pub open spec fn scam_post_kind(group: Seq<MediaItem>, photo: Option<String>, video: Option<String>, document: Option<String>) -> int {
    if group.len() > 0 {
        0
    } else if photo is Some {
        1
    } else if video is Some {
        2
    } else if document is Some {
        3
    } else {
        4
    }
}

/// How the evidence of a scam-base entry is posted, as `scam_post_kind` says; the post carries
/// the group or the file it was chosen for.
pub fn scam_post(group: Vec<MediaItem>, photo: Option<String>, video: Option<String>, document: Option<String>) -> (r: ScamPost)
    ensures
        match r {
            ScamPost::MediaGroup(g) => scam_post_kind(group@, photo, video, document) == 0 && g@ == group@,
            ScamPost::Photo(p) => scam_post_kind(group@, photo, video, document) == 1 && Some(p) == photo,
            ScamPost::Video(v) => scam_post_kind(group@, photo, video, document) == 2 && Some(v) == video,
            ScamPost::Document(d) => scam_post_kind(group@, photo, video, document) == 3 && Some(d) == document,
            ScamPost::Text => scam_post_kind(group@, photo, video, document) == 4,
        },
{
    if group.len() > 0 {
        return ScamPost::MediaGroup(group);
    }
    match photo {
        Some(p) => ScamPost::Photo(p),
        None => match video {
            Some(v) => ScamPost::Video(v),
            None => match document {
                Some(d) => ScamPost::Document(d),
                None => ScamPost::Text,
            },
        },
    }
}

/// Whether an item of a posted media group carries the caption: only the first.
pub fn caption_goes_on(index: usize) -> (r: bool)
    ensures
        r == (index == 0),
{
    index == 0
}

/// What a removal command does with a scam-base record.
#[derive(Debug, Clone, Copy, PartialEq, Eq, Structural)]
pub enum ScamRemoval {
    /// The user has no record.
    Absent,
    /// Erasing a record as an error is for chief administrators only.
    NoRights,
    /// Erase the record and its channel posts, as an error.
    Erase,
    /// Mark the record as no longer current.
    Close,
}

/// The word that marks a removal as the correction of an error.
pub open spec fn error_word() -> Seq<char> {
    "ошибка"@
}

/// What a removal command does: nothing without a record; with the word "ошибка" in the
/// lowercased command, erase (chief administrators only); else close the record.
pub open spec fn scam_removal_spec(has_record: bool, command: Seq<char>, admin_id: i64) -> ScamRemoval {
    if !has_record {
        ScamRemoval::Absent
    } else if contains_seq(lowercase(command), error_word()) {
        if gl_admins().contains(admin_id) {
            ScamRemoval::Erase
        } else {
            ScamRemoval::NoRights
        }
    } else {
        ScamRemoval::Close
    }
}

/// What a removal command does, as `scam_removal_spec` says.
pub fn scam_removal(has_record: bool, command: &str, admin_id: i64) -> (r: ScamRemoval)
    ensures
        r == scam_removal_spec(has_record, command@, admin_id),
{
    if !has_record {
        return ScamRemoval::Absent;
    }
    let lowered = to_lowercase(command);
    let text = chars_of(lowered.as_str());
    let word = chars_of("ошибка");
    if has_infix(&text, &word) {
        if is_gl_admin(admin_id) {
            ScamRemoval::Erase
        } else {
            ScamRemoval::NoRights
        }
    } else {
        ScamRemoval::Close
    }
}

/// How a removal command is settled. Without a record nothing is removed. With a record, a
/// command whose lowercased text lacks the word "ошибка" closes the record whoever gives it;
/// only that word, from a chief administrator, erases it as an error; the word from anyone
/// else is refused. Who gives a command without the word makes no difference.
pub proof fn scam_removal_erases_only_errors(has_record: bool, command: Seq<char>, admin_id: i64, other_admin: i64)
    ensures
        (scam_removal_spec(has_record, command, admin_id) == ScamRemoval::Absent) <==> !has_record,
        has_record && !contains_seq(lowercase(command), "ошибка"@) ==> scam_removal_spec(has_record, command, admin_id)
            == ScamRemoval::Close,
        scam_removal_spec(has_record, command, admin_id) == ScamRemoval::Erase ==> has_record && contains_seq(
            lowercase(command),
            "ошибка"@,
        ) && gl_admins().contains(admin_id),
        has_record && contains_seq(lowercase(command), "ошибка"@) && gl_admins().contains(admin_id)
            ==> scam_removal_spec(has_record, command, admin_id) == ScamRemoval::Erase,
        scam_removal_spec(has_record, command, admin_id) == ScamRemoval::NoRights ==> !gl_admins().contains(admin_id),
        !contains_seq(lowercase(command), "ошибка"@) ==> scam_removal_spec(has_record, command, admin_id)
            == scam_removal_spec(has_record, command, other_admin),
{
}

/// The answer to a removal command.
pub open spec fn scam_removal_text_spec(action: ScamRemoval, user_mention: Seq<char>) -> Seq<char> {
    match action {
        ScamRemoval::Absent => Emoji::Human.html_spec() + " Пользователь "@ + user_mention
            + " отсутствует в скам базе проекта 'RedTokyo'"@,
        ScamRemoval::NoRights => Emoji::Exclamation.html_spec()
            + " У вас недостаточно прав для выполнения данной команды."@,
        ScamRemoval::Erase => Emoji::Human.html_spec() + " Пользователь "@ + user_mention
            + " удален из скам базы проекта 'RedTokyo' без пометки о вносе"@,
        ScamRemoval::Close => Emoji::Human.html_spec() + " Пользователь "@ + user_mention
            + " удален из скам базы проекта 'RedTokyo'"@,
    }
}

/// The answer to a removal command.
pub fn scam_removal_text(action: ScamRemoval, user_mention: &str) -> (r: String)
    ensures
        r@ == scam_removal_text_spec(action, user_mention@),
{
    match action {
        ScamRemoval::Absent => {
            let mut r = Emoji::Human.to_html();
            r.append(" Пользователь ");
            r.append(user_mention);
            r.append(" отсутствует в скам базе проекта 'RedTokyo'");
            r
        },
        ScamRemoval::NoRights => {
            let mut r = Emoji::Exclamation.to_html();
            r.append(" У вас недостаточно прав для выполнения данной команды.");
            r
        },
        ScamRemoval::Erase => {
            let mut r = Emoji::Human.to_html();
            r.append(" Пользователь ");
            r.append(user_mention);
            r.append(" удален из скам базы проекта 'RedTokyo' без пометки о вносе");
            r
        },
        ScamRemoval::Close => {
            let mut r = Emoji::Human.to_html();
            r.append(" Пользователь ");
            r.append(user_mention);
            r.append(" удален из скам базы проекта 'RedTokyo'");
            r
        },
    }
}

/// A scam-base record as the reason command shows it.
#[derive(Debug, Clone)]
pub struct ScamRecordView {
    pub status: bool,
    pub reason: String,
    pub channel_chat_id: i64,
    pub first_channel_message_id: Option<i64>,
    pub admin_mention: String,
}

/// What the reason command shows: a record with a known moderator is shown with the red
/// (current) or yellow (closed) photo; anything else shows the green photo and says the user
/// is not in the scam base.
pub open spec fn scam_reason_spec(record: Option<ScamRecordView>, user_mention: Seq<char>, user_id: i64) -> (Seq<char>, Seq<char>) {
    match record {
        Some(rec) => (
            if rec.status { RED_STATUS@ } else { YELLOW_STATUS@ },
            Emoji::Exclamation.html_spec() + " <i><b>Пользователь "@ + user_mention + " (<code>@"@ + decimal(user_id as int)
                + "</code>) "@ + if rec.status { "находится"@ } else { "находился"@ } + " в скам базе проекта 'RedTokyo'</b>\n"@
                + Emoji::Balloon.html_spec() + " <b>Причина:</b> "@ + rec.reason@ + "\n"@ + Emoji::Human.html_spec()
                + " <b>Модератор:</b> "@ + rec.admin_mention@ + "\n\n"@ + Emoji::ArrowRight.html_spec()
                + " <b><a href='"@ + message_link_spec(
                rec.channel_chat_id,
                match rec.first_channel_message_id {
                    Some(m) => m,
                    None => 0i64,
                },
            ) + "'>Перейти к смс скам-базы</a></b></i>"@,
        ),
        None => (
            GREEN_STATUS@,
            Emoji::Human.html_spec() + " Пользователь "@ + user_mention + " отсутствует в скам базе проекта 'RedTokyo'"@,
        ),
    }
}

/// What the reason command shows: the photo and the caption.
pub fn scam_reason(record: &Option<ScamRecordView>, user_mention: &str, user_id: i64) -> (r: (&'static str, String))
    ensures
        (r.0@, r.1@) == scam_reason_spec(*record, user_mention@, user_id),
{
    match record {
        Some(rec) => {
            let photo = if rec.status { RED_STATUS } else { YELLOW_STATUS };
            let mut t = Emoji::Exclamation.to_html();
            t.append(" <i><b>Пользователь ");
            t.append(user_mention);
            t.append(" (<code>@");
            push_i64(&mut t, user_id);
            t.append("</code>) ");
            t.append(if rec.status { "находится" } else { "находился" });
            t.append(" в скам базе проекта 'RedTokyo'</b>\n");
            t.append(Emoji::Balloon.to_html().as_str());
            t.append(" <b>Причина:</b> ");
            t.append(rec.reason.as_str());
            t.append("\n");
            t.append(Emoji::Human.to_html().as_str());
            t.append(" <b>Модератор:</b> ");
            t.append(rec.admin_mention.as_str());
            t.append("\n\n");
            t.append(Emoji::ArrowRight.to_html().as_str());
            t.append(" <b><a href='");
            let first: i64 = match rec.first_channel_message_id {
                Some(m) => m,
                None => 0,
            };
            t.append(message_link(rec.channel_chat_id, first).as_str());
            t.append("'>Перейти к смс скам-базы</a></b></i>");
            (photo, t)
        },
        None => {
            let mut t = Emoji::Human.to_html();
            t.append(" Пользователь ");
            t.append(user_mention);
            t.append(" отсутствует в скам базе проекта 'RedTokyo'");
            (GREEN_STATUS, t)
        },
    }
}

/// What the file-identifier command answers: asked without a reply, about a reply without a
/// photo, or the identifier of the reply's largest photo.
pub open spec fn file_id_answer_spec(has_reply: bool, photo_id: Option<Seq<char>>) -> Seq<char> {
    if !has_reply {
        "<i>❗️ Команда должна быть вызвана в ответ на смс с выданным фото.</i>"@
    } else {
        match photo_id {
            Some(id) => "<i>💬 Файл ид: <code>"@ + id + "</code></i>"@,
            None => "<i>❗️ Это сообщение не содержит фото.</i>"@,
        }
    }
}

/// What the file-identifier command answers.
pub fn file_id_answer(has_reply: bool, photo_id: Option<&str>) -> (r: String)
    ensures
        r@ == file_id_answer_spec(
            has_reply,
            match photo_id {
                Some(p) => Some(p@),
                None => None,
            },
        ),
{
    let mut r = String::new();
    if !has_reply {
        r.append("<i>❗️ Команда должна быть вызвана в ответ на смс с выданным фото.</i>");
    } else {
        match photo_id {
            Some(id) => {
                r.append("<i>💬 Файл ид: <code>");
                r.append(id);
                r.append("</code></i>");
            },
            None => {
                r.append("<i>❗️ Это сообщение не содержит фото.</i>");
            },
        }
    }
    r
}

} // verus!
