//! The patterns of the bot's commands, button data and links.
use vstd::prelude::*;
use vstd::string::*;
use crate::parse::starts_with;
use crate::pattern::{regex_valid, Pattern, PatternError};

verus! {

/// The optional prefix of a command: `.`, `!` or `/` (and a space), or `сап` (and a space).
pub open spec fn prefix_source() -> Seq<char> {
    r#"(?:[.!/]\s?|сап\s?)?"#@
}

/// A user given in a command: a link to the user's page, an `@`, a `tg://` link or an HTML
/// mention, around the identifier or username, captured as `user`.
pub open spec fn user_source() -> Seq<char> {
    r#"(?:https?://(?:t\.me|telegram\.(?:org|dog))/|@|tg://(?:user\?id=|openmessage\?user_id=|resolve\?domain=)|<a\s+href=["']tg://user\?id=)?(?P<user>-\d+|\d+|[a-zA-Z0-9_]{5,32})(?:["']?>[^<]*</a>)?"#@
}

fn push_prefix(out: &mut String)
    ensures
        final(out)@ == old(out)@ + prefix_source(),
{
    out.append(r#"(?:[.!/]\s?|сап\s?)?"#);
}

fn push_user(out: &mut String)
    ensures
        final(out)@ == old(out)@ + user_source(),
{
    out.append(r#"(?:https?://(?:t\.me|telegram\.(?:org|dog))/|@|tg://(?:user\?id=|openmessage\?user_id=|resolve\?domain=)|<a\s+href=["']tg://user\?id=)?(?P<user>-\d+|\d+|[a-zA-Z0-9_]{5,32})(?:["']?>[^<]*</a>)?"#);
}

/// The source of the pattern of: the ping command.
pub open spec fn ping_source() -> Seq<char> {
    r#"(?i)^"#@ + prefix_source() + r#"(?P<command>пинг|ping)(?:\n[\s\S]*)?$"#@
}

/// The ping command. An error if the `regex` crate does not accept the source.
pub fn re_ping() -> (r: Result<Pattern, PatternError>)
    ensures
        r is Ok <==> regex_valid(ping_source()),
        r matches Ok(p) ==> p@ == ping_source(),
{
    let mut s = String::new();
    s.append(r#"(?i)^"#);
    push_prefix(&mut s);
    s.append(r#"(?P<command>пинг|ping)(?:\n[\s\S]*)?$"#);
    Pattern::new(s)
}

/// The source of the pattern of: the duel (game) command, with an optional bet amount.
pub open spec fn duel_source() -> Seq<char> {
    r#"(?i)^(?:[!./]|ириска?|ирис\s+)?(?P<command>кто дуэль|кто кубы|дуэль|кубы)(?:\s+(?P<amount>\d+[кk]?))?(?:\n[\s\S]*)?$"#@
}

/// The duel (game) command, with an optional bet amount. An error if the `regex` crate does not accept the source.
pub fn re_duel() -> (r: Result<Pattern, PatternError>)
    ensures
        r is Ok <==> regex_valid(duel_source()),
        r matches Ok(p) ==> p@ == duel_source(),
{
    let mut s = String::new();
    s.append(r#"(?i)^(?:[!./]|ириска?|ирис\s+)?(?P<command>кто дуэль|кто кубы|дуэль|кубы)(?:\s+(?P<amount>\d+[кk]?))?(?:\n[\s\S]*)?$"#);
    Pattern::new(s)
}

/// The source of the pattern of: the command that adds a guarantor, with a comment on the next line.
pub open spec fn set_garant_source() -> Seq<char> {
    r#"(?i)^"#@ + prefix_source() + r#"\+гарант(?:\s+"#@ + user_source() + r#")?\s*\n(?P<comment>[\s\S]+)$"#@
}

/// The command that adds a guarantor, with a comment on the next line. An error if the `regex` crate does not accept the source.
pub fn re_set_garant() -> (r: Result<Pattern, PatternError>)
    ensures
        r is Ok <==> regex_valid(set_garant_source()),
        r matches Ok(p) ==> p@ == set_garant_source(),
{
    let mut s = String::new();
    s.append(r#"(?i)^"#);
    push_prefix(&mut s);
    s.append(r#"\+гарант(?:\s+"#);
    push_user(&mut s);
    s.append(r#")?\s*\n(?P<comment>[\s\S]+)$"#);
    Pattern::new(s)
}

/// The source of the pattern of: the command that removes a guarantor.
pub open spec fn remove_garant_source() -> Seq<char> {
    r#"(?i)^"#@ + prefix_source() + r#"-гарант(?:\s+"#@ + user_source() + r#")?(?:\n[\s\S]*)?$"#@
}

/// The command that removes a guarantor. An error if the `regex` crate does not accept the source.
pub fn re_remove_garant() -> (r: Result<Pattern, PatternError>)
    ensures
        r is Ok <==> regex_valid(remove_garant_source()),
        r matches Ok(p) ==> p@ == remove_garant_source(),
{
    let mut s = String::new();
    s.append(r#"(?i)^"#);
    push_prefix(&mut s);
    s.append(r#"-гарант(?:\s+"#);
    push_user(&mut s);
    s.append(r#")?(?:\n[\s\S]*)?$"#);
    Pattern::new(s)
}

/// The source of the pattern of: the command that summons the guarantors, with an optional reason.
pub open spec fn call_garants_source() -> Seq<char> {
    r#"(?i)^"#@ + prefix_source() + r#"созвать\s+гарантов(?:\s*\n(?P<reason>[\s\S]+))?$"#@
}

/// The command that summons the guarantors, with an optional reason. An error if the `regex` crate does not accept the source.
pub fn re_call_garants() -> (r: Result<Pattern, PatternError>)
    ensures
        r is Ok <==> regex_valid(call_garants_source()),
        r matches Ok(p) ==> p@ == call_garants_source(),
{
    let mut s = String::new();
    s.append(r#"(?i)^"#);
    push_prefix(&mut s);
    s.append(r#"созвать\s+гарантов(?:\s*\n(?P<reason>[\s\S]+))?$"#);
    Pattern::new(s)
}

/// The source of the pattern of: the command that lists the guarantors.
pub open spec fn list_garants_source() -> Seq<char> {
    r#"(?i)^"#@ + prefix_source() + r#"(?:кто\s+)?гаранты(?:\n[\s\S]*)?$"#@
}

/// The command that lists the guarantors. An error if the `regex` crate does not accept the source.
pub fn re_list_garants() -> (r: Result<Pattern, PatternError>)
    ensures
        r is Ok <==> regex_valid(list_garants_source()),
        r matches Ok(p) ==> p@ == list_garants_source(),
{
    let mut s = String::new();
    s.append(r#"(?i)^"#);
    push_prefix(&mut s);
    s.append(r#"(?:кто\s+)?гаранты(?:\n[\s\S]*)?$"#);
    Pattern::new(s)
}

/// The source of the pattern of: the command that gives a verbal warning, with a reason on the next line.
pub open spec fn set_warn_source() -> Seq<char> {
    r#"(?i)^"#@ + prefix_source() + r#"\+уст(?:\s+"#@ + user_source() + r#")?\s*\n(?P<reason>[\s\S]+)$"#@
}

/// The command that gives a verbal warning, with a reason on the next line. An error if the `regex` crate does not accept the source.
pub fn re_set_warn() -> (r: Result<Pattern, PatternError>)
    ensures
        r is Ok <==> regex_valid(set_warn_source()),
        r matches Ok(p) ==> p@ == set_warn_source(),
{
    let mut s = String::new();
    s.append(r#"(?i)^"#);
    push_prefix(&mut s);
    s.append(r#"\+уст(?:\s+"#);
    push_user(&mut s);
    s.append(r#")?\s*\n(?P<reason>[\s\S]+)$"#);
    Pattern::new(s)
}

/// The source of the pattern of: the command that removes the last verbal warning.
pub open spec fn remove_warn_source() -> Seq<char> {
    r#"(?i)^"#@ + prefix_source() + r#"-уст(?:\s+"#@ + user_source() + r#")?(?:\n[\s\S]*)?$"#@
}

/// The command that removes the last verbal warning. An error if the `regex` crate does not accept the source.
pub fn re_remove_warn() -> (r: Result<Pattern, PatternError>)
    ensures
        r is Ok <==> regex_valid(remove_warn_source()),
        r matches Ok(p) ==> p@ == remove_warn_source(),
{
    let mut s = String::new();
    s.append(r#"(?i)^"#);
    push_prefix(&mut s);
    s.append(r#"-уст(?:\s+"#);
    push_user(&mut s);
    s.append(r#")?(?:\n[\s\S]*)?$"#);
    Pattern::new(s)
}

/// The source of the pattern of: the command that lists one's own or another user's verbal warnings.
pub open spec fn list_warns_source() -> Seq<char> {
    r#"(?i)^"#@ + prefix_source() + r#"(?P<command>мои\s+усты|твои\s+усты)(?:\s+"#@ + user_source() + r#")?(?:\n[\s\S]*)?$"#@
}

/// The command that lists one's own or another user's verbal warnings. An error if the `regex` crate does not accept the source.
pub fn re_list_warns() -> (r: Result<Pattern, PatternError>)
    ensures
        r is Ok <==> regex_valid(list_warns_source()),
        r matches Ok(p) ==> p@ == list_warns_source(),
{
    let mut s = String::new();
    s.append(r#"(?i)^"#);
    push_prefix(&mut s);
    s.append(r#"(?P<command>мои\s+усты|твои\s+усты)(?:\s+"#);
    push_user(&mut s);
    s.append(r#")?(?:\n[\s\S]*)?$"#);
    Pattern::new(s)
}

/// The source of the pattern of: the command that enters a user into the scam base, with a reason on the next line.
pub open spec fn set_scam_source() -> Seq<char> {
    r#"(?i)^"#@ + prefix_source() + r#"\+скам база(?:\s+"#@ + user_source() + r#")?\s*\n(?P<reason>[\s\S]+)$"#@
}

/// The command that enters a user into the scam base, with a reason on the next line. An error if the `regex` crate does not accept the source.
pub fn re_set_scam() -> (r: Result<Pattern, PatternError>)
    ensures
        r is Ok <==> regex_valid(set_scam_source()),
        r matches Ok(p) ==> p@ == set_scam_source(),
{
    let mut s = String::new();
    s.append(r#"(?i)^"#);
    push_prefix(&mut s);
    s.append(r#"\+скам база(?:\s+"#);
    push_user(&mut s);
    s.append(r#")?\s*\n(?P<reason>[\s\S]+)$"#);
    Pattern::new(s)
}

/// The source of the pattern of: the command that takes a user out of the scam base, optionally as an error.
pub open spec fn remove_scam_source() -> Seq<char> {
    r#"(?i)^"#@ + prefix_source() + r#"(?P<command>-скам база(?:\s+ошибка)?)(?:\s+"#@ + user_source() + r#")?(?:\n[\s\S]*)?$"#@
}

/// The command that takes a user out of the scam base, optionally as an error. An error if the `regex` crate does not accept the source.
pub fn re_remove_scam() -> (r: Result<Pattern, PatternError>)
    ensures
        r is Ok <==> regex_valid(remove_scam_source()),
        r matches Ok(p) ==> p@ == remove_scam_source(),
{
    let mut s = String::new();
    s.append(r#"(?i)^"#);
    push_prefix(&mut s);
    s.append(r#"(?P<command>-скам база(?:\s+ошибка)?)(?:\s+"#);
    push_user(&mut s);
    s.append(r#")?(?:\n[\s\S]*)?$"#);
    Pattern::new(s)
}

/// The source of the pattern of: the command that shows why a user is in the scam base.
pub open spec fn reason_scam_source() -> Seq<char> {
    r#"(?i)^"#@ + prefix_source() + r#"причина(?:\s+"#@ + user_source() + r#")?(?:\n[\s\S]*)?$"#@
}

/// The command that shows why a user is in the scam base. An error if the `regex` crate does not accept the source.
pub fn re_reason_scam() -> (r: Result<Pattern, PatternError>)
    ensures
        r is Ok <==> regex_valid(reason_scam_source()),
        r matches Ok(p) ==> p@ == reason_scam_source(),
{
    let mut s = String::new();
    s.append(r#"(?i)^"#);
    push_prefix(&mut s);
    s.append(r#"причина(?:\s+"#);
    push_user(&mut s);
    s.append(r#")?(?:\n[\s\S]*)?$"#);
    Pattern::new(s)
}

/// The source of the pattern of: the command that shows the file identifier of a photo.
pub open spec fn file_id_source() -> Seq<char> {
    r#"(?i)^"#@ + prefix_source() + r#"(?P<command>файл ид)(?:\n[\s\S]*)?$"#@
}

/// The command that shows the file identifier of a photo. An error if the `regex` crate does not accept the source.
pub fn re_file_id() -> (r: Result<Pattern, PatternError>)
    ensures
        r is Ok <==> regex_valid(file_id_source()),
        r matches Ok(p) ==> p@ == file_id_source(),
{
    let mut s = String::new();
    s.append(r#"(?i)^"#);
    push_prefix(&mut s);
    s.append(r#"(?P<command>файл ид)(?:\n[\s\S]*)?$"#);
    Pattern::new(s)
}

/// The source of the pattern of: the command that shows the minimum bet.
pub open spec fn minimal_rate_source() -> Seq<char> {
    r#"(?i)^"#@ + prefix_source() + r#"(?P<command>мин ставка)(?:\n[\s\S]*)?$"#@
}

/// The command that shows the minimum bet. An error if the `regex` crate does not accept the source.
pub fn re_minimal_rate() -> (r: Result<Pattern, PatternError>)
    ensures
        r is Ok <==> regex_valid(minimal_rate_source()),
        r matches Ok(p) ==> p@ == minimal_rate_source(),
{
    let mut s = String::new();
    s.append(r#"(?i)^"#);
    push_prefix(&mut s);
    s.append(r#"(?P<command>мин ставка)(?:\n[\s\S]*)?$"#);
    Pattern::new(s)
}

/// The source of the pattern of: the command that records a user identifier in the database.
pub open spec fn db_update_source() -> Seq<char> {
    r#"(?i)^"#@ + prefix_source() + r#"обновить бд(?:\s+"#@ + user_source() + r#")?(?:\n[\s\S]*)?$"#@
}

/// The command that records a user identifier in the database. An error if the `regex` crate does not accept the source.
pub fn re_db_update() -> (r: Result<Pattern, PatternError>)
    ensures
        r is Ok <==> regex_valid(db_update_source()),
        r matches Ok(p) ==> p@ == db_update_source(),
{
    let mut s = String::new();
    s.append(r#"(?i)^"#);
    push_prefix(&mut s);
    s.append(r#"обновить бд(?:\s+"#);
    push_user(&mut s);
    s.append(r#")?(?:\n[\s\S]*)?$"#);
    Pattern::new(s)
}

/// The source of the pattern of: the data of a captcha button.
pub open spec fn callback_captcha_source() -> Seq<char> {
    r#"^captcha:(?P<chat_id>-?\d+):(?P<user_id>\d+):(?P<code>\d+)$"#@
}

/// The data of a captcha button. An error if the `regex` crate does not accept the source.
pub fn re_callback_captcha() -> (r: Result<Pattern, PatternError>)
    ensures
        r is Ok <==> regex_valid(callback_captcha_source()),
        r matches Ok(p) ==> p@ == callback_captcha_source(),
{
    let mut s = String::new();
    s.append(r#"^captcha:(?P<chat_id>-?\d+):(?P<user_id>\d+):(?P<code>\d+)$"#);
    Pattern::new(s)
}

/// The source of the pattern of: the data of a button that deletes a summons.
pub open spec fn del_sum_source() -> Seq<char> {
    r#"^del_sum:(?P<summon_id>[a-f0-9]{32})$"#@
}

/// The data of a button that deletes a summons. An error if the `regex` crate does not accept the source.
pub fn re_del_sum() -> (r: Result<Pattern, PatternError>)
    ensures
        r is Ok <==> regex_valid(del_sum_source()),
        r matches Ok(p) ==> p@ == del_sum_source(),
{
    let mut s = String::new();
    s.append(r#"^del_sum:(?P<summon_id>[a-f0-9]{32})$"#);
    Pattern::new(s)
}

/// The source of the pattern of: the data of a button that repeats the registration check.
pub open spec fn repeat_reg_source() -> Seq<char> {
    r#"^repeat_reg:(?P<chat_id>-?\d+):(?P<user_id>\d+)$"#@
}

/// The data of a button that repeats the registration check. An error if the `regex` crate does not accept the source.
pub fn re_repeat_reg() -> (r: Result<Pattern, PatternError>)
    ensures
        r is Ok <==> regex_valid(repeat_reg_source()),
        r matches Ok(p) ==> p@ == repeat_reg_source(),
{
    let mut s = String::new();
    s.append(r#"^repeat_reg:(?P<chat_id>-?\d+):(?P<user_id>\d+)$"#);
    Pattern::new(s)
}

/// The source of the pattern of: the data of a button that repeats the registration lookup
/// after a right captcha answer.
pub open spec fn repeat_novo_reg_source() -> Seq<char> {
    r#"^repeat_novo_reg:(?P<chat_id>-?\d+):(?P<user_id>\d+)$"#@
}

/// The data of a button that repeats the registration lookup after a right captcha answer. An
/// error if the `regex` crate does not accept the source.
pub fn re_repeat_novo_reg() -> (r: Result<Pattern, PatternError>)
    ensures
        r is Ok <==> regex_valid(repeat_novo_reg_source()),
        r matches Ok(p) ==> p@ == repeat_novo_reg_source(),
{
    let mut s = String::new();
    s.append(r#"^repeat_novo_reg:(?P<chat_id>-?\d+):(?P<user_id>\d+)$"#);
    Pattern::new(s)
}

/// The source of the pattern of: the data of an unmute button.
pub open spec fn unmute_source() -> Seq<char> {
    r#"^unmute:(?P<chat_id>-?\d+):(?P<message_id>\d+|none):(?P<user_id>\d+)$"#@
}

/// The data of an unmute button. An error if the `regex` crate does not accept the source.
pub fn re_unmute() -> (r: Result<Pattern, PatternError>)
    ensures
        r is Ok <==> regex_valid(unmute_source()),
        r matches Ok(p) ==> p@ == unmute_source(),
{
    let mut s = String::new();
    s.append(r#"^unmute:(?P<chat_id>-?\d+):(?P<message_id>\d+|none):(?P<user_id>\d+)$"#);
    Pattern::new(s)
}

/// The source of the pattern of: the data of a ban button.
pub open spec fn ban_source() -> Seq<char> {
    r#"^ban:(?P<chat_id>-?\d+):(?P<message_id>\d+|none):(?P<user_id>\d+)$"#@
}

/// The data of a ban button. An error if the `regex` crate does not accept the source.
pub fn re_ban() -> (r: Result<Pattern, PatternError>)
    ensures
        r is Ok <==> regex_valid(ban_source()),
        r matches Ok(p) ==> p@ == ban_source(),
{
    let mut s = String::new();
    s.append(r#"^ban:(?P<chat_id>-?\d+):(?P<message_id>\d+|none):(?P<user_id>\d+)$"#);
    Pattern::new(s)
}

/// The source of the pattern of: a link to a private chat or to a referral bot.
pub open spec fn referral_source() -> Seq<char> {
    r#"(?:t\.me|telegram\.(?:org|me|dog))/(?:\+\w+|gram_piarbot\?start=check_)"#@
}

/// A link to a private chat or to a referral bot. An error if the `regex` crate does not accept the source.
pub fn re_referral() -> (r: Result<Pattern, PatternError>)
    ensures
        r is Ok <==> regex_valid(referral_source()),
        r matches Ok(p) ==> p@ == referral_source(),
{
    let mut s = String::new();
    s.append(r#"(?:t\.me|telegram\.(?:org|me|dog))/(?:\+\w+|gram_piarbot\?start=check_)"#);
    Pattern::new(s)
}

/// The source of the pattern of: an invite link to a private chat.
pub open spec fn invite_source() -> Seq<char> {
    r#"t\.me/\+\w+"#@
}

/// An invite link to a private chat. An error if the `regex` crate does not accept the source.
pub fn re_invite() -> (r: Result<Pattern, PatternError>)
    ensures
        r is Ok <==> regex_valid(invite_source()),
        r matches Ok(p) ==> p@ == invite_source(),
{
    let mut s = String::new();
    s.append(r#"t\.me/\+\w+"#);
    Pattern::new(s)
}


/// Whether a pattern source turns on case-insensitive matching for the whole pattern: it
/// begins with the flag group `(?i)`.
pub open spec fn case_insensitive(source: Seq<char>) -> bool {
    starts_with(source, "(?i)"@)
}

/// Every text command is recognised whatever the case of its letters: each command pattern
/// begins with the case-insensitive flag, so `Созвать гарантов` is the summons command just
/// as `созвать гарантов` is.
pub proof fn commands_ignore_case()
    ensures
        case_insensitive(ping_source()),
        case_insensitive(duel_source()),
        case_insensitive(set_garant_source()),
        case_insensitive(remove_garant_source()),
        case_insensitive(call_garants_source()),
        case_insensitive(list_garants_source()),
        case_insensitive(set_warn_source()),
        case_insensitive(remove_warn_source()),
        case_insensitive(list_warns_source()),
        case_insensitive(set_scam_source()),
        case_insensitive(remove_scam_source()),
        case_insensitive(reason_scam_source()),
        case_insensitive(file_id_source()),
        case_insensitive(minimal_rate_source()),
        case_insensitive(db_update_source()),
{
    reveal_strlit("(?i)");
    reveal_strlit(r#"(?i)^"#);
    reveal_strlit(r#"(?i)^(?:[!./]|ириска?|ирис\s+)?(?P<command>кто дуэль|кто кубы|дуэль|кубы)(?:\s+(?P<amount>\d+[кk]?))?(?:\n[\s\S]*)?$"#);
    assert(ping_source().take(4) =~= "(?i)"@);
    assert(duel_source().take(4) =~= "(?i)"@);
    assert(set_garant_source().take(4) =~= "(?i)"@);
    assert(remove_garant_source().take(4) =~= "(?i)"@);
    assert(call_garants_source().take(4) =~= "(?i)"@);
    assert(list_garants_source().take(4) =~= "(?i)"@);
    assert(set_warn_source().take(4) =~= "(?i)"@);
    assert(remove_warn_source().take(4) =~= "(?i)"@);
    assert(list_warns_source().take(4) =~= "(?i)"@);
    assert(set_scam_source().take(4) =~= "(?i)"@);
    assert(remove_scam_source().take(4) =~= "(?i)"@);
    assert(reason_scam_source().take(4) =~= "(?i)"@);
    assert(file_id_source().take(4) =~= "(?i)"@);
    assert(minimal_rate_source().take(4) =~= "(?i)"@);
    assert(db_update_source().take(4) =~= "(?i)"@);
}

} // verus!
