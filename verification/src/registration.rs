//! Judging the age of a user's registration in Iris: when it is old enough to admit a join
//! request, when it is recent enough to report, and how its age is written.
use vstd::prelude::*;
use vstd::string::*;
use chrono::TimeZone;

verus! {

/// Integer division truncating toward zero, as `/` on `i64` divides.
pub open spec fn trunc_div(a: int, b: int) -> int {
    if a >= 0 {
        a / b
    } else {
        -((-a) / b)
    }
}

/// The whole seconds of a registration time given in milliseconds (`ms / 1000`).
pub fn reg_seconds(reg_ms: i64) -> (r: i64)
    ensures
        r == trunc_div(reg_ms as int, 1000),
{
    reg_ms / 1000
}

} // verus!

verus! {

/// Seconds in a day.
pub const DAY_SECS: i64 = 86400;

/// The largest distance from the epoch, in seconds, of the clock readings the checks take.
pub const CLOCK_LIMIT_SECS: i64 = 8_000_000_000_000;

/// Whether a clock reading (seconds and nanoseconds) is one the checks take.
pub open spec fn clock_ok(now_secs: i64, now_nanos: u32) -> bool {
    -CLOCK_LIMIT_SECS <= now_secs <= CLOCK_LIMIT_SECS && now_nanos < 1_000_000_000
}

/// Whether a registration at `reg_secs` (a whole second) is earlier than `days` days before
/// the instant `now_secs` seconds and `now_nanos` nanoseconds.
pub open spec fn earlier_than_days_ago(reg_secs: i64, now_secs: i64, now_nanos: u32, days: int) -> bool {
    let bound = now_secs - days * DAY_SECS;
    reg_secs < bound || (reg_secs == bound && now_nanos > 0)
}

/// Whether a registration at `reg_secs` is later than `days` days before the instant.
pub open spec fn later_than_days_ago(reg_secs: i64, now_secs: i64, days: int) -> bool {
    reg_secs > now_secs - days * DAY_SECS
}

/// A registration more than a year (365 days) old admits a join request.
pub fn registered_over_a_year_ago(reg_secs: i64, now_secs: i64, now_nanos: u32) -> (r: bool)
    requires
        clock_ok(now_secs, now_nanos),
    ensures
        r == earlier_than_days_ago(reg_secs, now_secs, now_nanos, 365),
{
    let bound = now_secs - 365 * DAY_SECS;
    reg_secs < bound || (reg_secs == bound && now_nanos > 0)
}

/// A registration less than 90 days old is reported to the moderators.
pub fn registered_within_90_days(reg_secs: i64, now_secs: i64) -> (r: bool)
    requires
        -CLOCK_LIMIT_SECS <= now_secs <= CLOCK_LIMIT_SECS,
    ensures
        r == later_than_days_ago(reg_secs, now_secs, 90),
{
    reg_secs > now_secs - 90 * DAY_SECS
}

/// The whole seconds from a registration to the instant, truncated toward zero as
/// `TimeDelta::num_seconds` counts them.
pub open spec fn elapsed_spec(reg_secs: i64, now_secs: i64, now_nanos: u32) -> int {
    let d = now_secs - reg_secs;
    if d >= 0 || now_nanos == 0 {
        d
    } else {
        d + 1
    }
}

/// The whole seconds from a registration to the instant.
pub fn elapsed_seconds(reg_secs: i64, now_secs: i64, now_nanos: u32) -> (r: i64)
    requires
        clock_ok(now_secs, now_nanos),
        -9_300_000_000_000_000 <= reg_secs <= 9_300_000_000_000_000,
    ensures
        r == elapsed_spec(reg_secs, now_secs, now_nanos),
{
    let d = now_secs - reg_secs;
    if d >= 0 || now_nanos == 0 {
        d
    } else {
        d + 1
    }
}

/// How the age of a registration is written, from the seconds elapsed: months and days,
/// else weeks and days, else days, hours, minutes or seconds (months of 30 days); a
/// registration in the future, or this instant, is "дата не распознана".
pub open spec fn age_text_spec(elapsed: int) -> Seq<char> {
    let days = elapsed / DAY_SECS as int;
    let months = days / 30;
    let rem = days % 30;
    let weeks = elapsed / (7 * DAY_SECS) as int;
    let wdays = days % 7;
    if elapsed <= 0 {
        "дата не распознана"@
    } else if months > 0 {
        if rem > 0 {
            crate::strings::decimal(months) + " мес. "@ + crate::strings::decimal(rem) + " дн."@
        } else {
            crate::strings::decimal(months) + " мес."@
        }
    } else if weeks > 0 {
        if wdays > 0 {
            crate::strings::decimal(weeks) + " нед. "@ + crate::strings::decimal(wdays) + " дн."@
        } else {
            crate::strings::decimal(weeks) + " нед."@
        }
    } else if days > 0 {
        crate::strings::decimal(days) + " дн."@
    } else if elapsed / 3600 > 0 {
        crate::strings::decimal(elapsed / 3600) + " ч."@
    } else if elapsed / 60 > 0 {
        crate::strings::decimal(elapsed / 60) + " мин."@
    } else {
        crate::strings::decimal(elapsed) + " сек."@
    }
}

/// How the age of a registration is written, as `age_text_spec` says.
pub fn age_text(elapsed: i64) -> (r: String)
    ensures
        r@ == age_text_spec(elapsed as int),
{
    let mut r = String::new();
    if elapsed <= 0 {
        r.append("дата не распознана");
        return r;
    }
    let days = elapsed / DAY_SECS;
    let months = days / 30;
    let rem = days % 30;
    let weeks = elapsed / (7 * DAY_SECS);
    let wdays = days % 7;
    if months > 0 {
        crate::strings::push_i64(&mut r, months);
        if rem > 0 {
            r.append(" мес. ");
            crate::strings::push_i64(&mut r, rem);
            r.append(" дн.");
        } else {
            r.append(" мес.");
        }
    } else if weeks > 0 {
        crate::strings::push_i64(&mut r, weeks);
        if wdays > 0 {
            r.append(" нед. ");
            crate::strings::push_i64(&mut r, wdays);
            r.append(" дн.");
        } else {
            r.append(" нед.");
        }
    } else if days > 0 {
        crate::strings::push_i64(&mut r, days);
        r.append(" дн.");
    } else if elapsed / 3600 > 0 {
        crate::strings::push_i64(&mut r, elapsed / 3600);
        r.append(" ч.");
    } else if elapsed / 60 > 0 {
        crate::strings::push_i64(&mut r, elapsed / 60);
        r.append(" мин.");
    } else {
        crate::strings::push_i64(&mut r, elapsed);
        r.append(" сек.");
    }
    r
}

/// How an age is written, unit by unit, for any split of the whole days elapsed. At thirty
/// days or more it is `M мес.` or `M мес. R дн.`, where thirty-day months `M` and the days
/// `R` left over (fewer than thirty) make up all the days; from seven days it is weeks and the
/// days left over (fewer than seven) in the same way; below that, the days, hours, minutes or
/// seconds.
pub proof fn age_text_splits_days(elapsed: int, m: int, r: int)
    ensures
        elapsed >= 30 * DAY_SECS && 0 <= r < 30 && 30 * m + r == elapsed / DAY_SECS as int ==> age_text_spec(elapsed)
            == if r == 0 {
            crate::strings::decimal(m) + " мес."@
        } else {
            crate::strings::decimal(m) + " мес. "@ + crate::strings::decimal(r) + " дн."@
        },
        7 * DAY_SECS <= elapsed < 30 * DAY_SECS && 0 <= r < 7 && 7 * m + r == elapsed / DAY_SECS as int
            ==> age_text_spec(elapsed) == if r == 0 {
            crate::strings::decimal(m) + " нед."@
        } else {
            crate::strings::decimal(m) + " нед. "@ + crate::strings::decimal(r) + " дн."@
        },
        DAY_SECS <= elapsed < 7 * DAY_SECS && m * DAY_SECS <= elapsed < (m + 1) * DAY_SECS ==> age_text_spec(elapsed)
            == crate::strings::decimal(m) + " дн."@,
        3600 <= elapsed < DAY_SECS && m * 3600 <= elapsed < (m + 1) * 3600 ==> age_text_spec(elapsed)
            == crate::strings::decimal(m) + " ч."@,
        60 <= elapsed < 3600 && m * 60 <= elapsed < (m + 1) * 60 ==> age_text_spec(elapsed) == crate::strings::decimal(m)
            + " мин."@,
        0 < elapsed < 60 ==> age_text_spec(elapsed) == crate::strings::decimal(elapsed) + " сек."@,
        elapsed <= 0 ==> age_text_spec(elapsed) == "дата не распознана"@,
{
    let days = elapsed / DAY_SECS as int;
    if elapsed >= 7 * DAY_SECS {
        assert(days >= 7);
        assert(elapsed / (7 * DAY_SECS) as int == days / 7) by {
            vstd::arithmetic::div_mod::lemma_div_denominator(elapsed, DAY_SECS as int, 7);
        }
    }
}

/// The Moscow date and time of an instant given in whole seconds, written `%d.%m.%Y %H:%M`;
/// `None` when chrono cannot represent the instant. The calendar and the zone rules are not
/// restated here.
pub uninterp spec fn moscow_date_time_text(secs: i64) -> Option<Seq<char>>;

/// `Moscow.timestamp_opt(secs, 0).single()`, formatted with `%d.%m.%Y %H:%M`.
#[verifier::external_body]
pub(crate) fn moscow_date_text(secs: i64) -> (r: Option<String>)
    ensures
        match r {
            Some(t) => moscow_date_time_text(secs) == Some(t@),
            None => moscow_date_time_text(secs) is None,
        },
{
    chrono_tz::Europe::Moscow.timestamp_opt(secs, 0).single().map(|d| d.format("%d.%m.%Y %H:%M").to_string())
}

/// `DATE (AGE)`, how a registration is described to the moderators.
pub fn registration_info(date: &str, age: &str) -> (r: String)
    ensures
        r@ == date@ + " ("@ + age@ + ")"@,
{
    let mut r = String::new();
    r.append(date);
    r.append(" (");
    r.append(age);
    r.append(")");
    r
}

/// How a registration at `reg_secs` is described to the moderators at the instant
/// (`now_secs`, `now_nanos`): its Moscow date and time, then its age in brackets; `None` when
/// chrono cannot represent the registration time.
pub fn registration_description(reg_secs: i64, now_secs: i64, now_nanos: u32) -> (r: Option<String>)
    requires
        clock_ok(now_secs, now_nanos),
        -9_300_000_000_000_000 <= reg_secs <= 9_300_000_000_000_000,
    ensures
        match moscow_date_time_text(reg_secs) {
            Some(d) => r matches Some(t) && t@ == d + " ("@ + age_text_spec(elapsed_spec(reg_secs, now_secs, now_nanos))
                + ")"@,
            None => r is None,
        },
{
    match moscow_date_text(reg_secs) {
        Some(date) => {
            let age = age_text(elapsed_seconds(reg_secs, now_secs, now_nanos));
            Some(registration_info(date.as_str(), age.as_str()))
        },
        None => None,
    }
}

/// The report to the moderators about a member with a recent registration.
pub open spec fn recent_registration_report_spec(mention: Seq<char>, user_id: i64, chat_title: Seq<char>, info: Seq<char>) -> Seq<char> {
    crate::emoji::Emoji::Information.html_spec() + " Участник "@ + mention + " (<code>@"@ + crate::strings::decimal(
        user_id as int,
    ) + "</code>) вступил в чат "@ + chat_title + "\n"@ + crate::emoji::Emoji::Information.html_spec()
        + " Имеет регистрацию в ирисе: "@ + info
}

/// The report to the moderators about a member with a recent registration.
pub fn recent_registration_report(mention: &str, user_id: i64, chat_title: &str, info: &str) -> (r: String)
    ensures
        r@ == recent_registration_report_spec(mention@, user_id, chat_title@, info@),
{
    let mut r = crate::emoji::Emoji::Information.to_html();
    r.append(" Участник ");
    r.append(mention);
    r.append(" (<code>@");
    crate::strings::push_i64(&mut r, user_id);
    r.append("</code>) вступил в чат ");
    r.append(chat_title);
    r.append("\n");
    r.append(crate::emoji::Emoji::Information.to_html().as_str());
    r.append(" Имеет регистрацию в ирисе: ");
    r.append(info);
    r
}

} // verus!
