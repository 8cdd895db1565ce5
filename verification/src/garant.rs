//! Guarantors: who may delete a summons, the summons messages, and the guarantor and
//! administrator listings.
use vstd::prelude::*;
use vstd::string::*;
use crate::callback::is_summon_id;
use crate::emoji::Emoji;
use crate::strings::{decimal, push_i64};
use crate::user::{get_user_mention, mention_spec, opt_view, UserInfo};

verus! {

/// How many guarantors one summons message mentions.
pub const SUMMON_CHUNK: usize = 5;

/// What a summons remembers: who made it, and the messages it sent.
#[derive(Debug, Clone)]
pub struct SummonPayload {
    pub creator_id: i64,
    pub msg_ids: Vec<i64>,
}

/// `Uuid::new_v4().simple().to_string()`: a random identifier, written as 32 lowercase
/// hexadecimal digits. Which identifier comes out is left open.
#[verifier::external_body]
fn random_uuid_simple() -> (r: String)
    ensures
        is_summon_id(r@),
{
    uuid::Uuid::new_v4().simple().to_string()
}

/// A new summons of `creator_id` with the messages `msg_ids`: a fresh random identifier for
/// its delete button, and what the summons remembers.
pub fn new_summons(creator_id: i64, msg_ids: Vec<i64>) -> (r: (String, SummonPayload))
    ensures
        is_summon_id(r.0@),
        r.1.creator_id == creator_id,
        r.1.msg_ids@ == msg_ids@,
{
    (random_uuid_simple(), SummonPayload { creator_id, msg_ids })
}

/// Who may delete the messages of a summons: its author, an administrator, or anyone for whom
/// the guarantor lookup succeeded (whether or not it found a guarantor).
pub fn may_delete_summons(is_author: bool, is_admin: bool, guarantor_lookup_ok: bool) -> (r: bool)
    ensures
        r == (is_author || is_admin || guarantor_lookup_ok),
{
    is_author || is_admin || guarantor_lookup_ok
}

/// The invisible mention of a guarantor in a summons.
pub open spec fn hidden_mention_spec(user_id: i64) -> Seq<char> {
    "<a href=\"tg://user?id="@ + decimal(user_id as int) + "\">&#8296;</a>"@
}

/// The invisible mentions of a list of guarantors, one after another.
pub open spec fn hidden_mentions_spec(ids: Seq<i64>) -> Seq<char>
    decreases ids.len(),
{
    if ids.len() == 0 {
        Seq::empty()
    } else {
        hidden_mentions_spec(ids.drop_last()) + hidden_mention_spec(ids.last())
    }
}

/// The opening line of a summons, with its reason when there is one.
pub open spec fn summon_base_spec(mention: Seq<char>, reason: Seq<char>) -> Seq<char> {
    Emoji::Megaphone.html_spec() + " "@ + mention + " созывает гарантов чата"@ + if reason.len() > 0 {
        "\n\n"@ + Emoji::Balloon.html_spec() + " "@ + reason
    } else {
        Seq::<char>::empty()
    }
}

/// The opening line of a summons.
pub fn summon_base(mention: &str, reason: &str) -> (r: String)
    ensures
        r@ == summon_base_spec(mention@, reason@),
{
    let mut r = Emoji::Megaphone.to_html();
    r.append(" ");
    r.append(mention);
    r.append(" созывает гарантов чата");
    if reason.unicode_len() > 0 {
        r.append("\n\n");
        r.append(Emoji::Balloon.to_html().as_str());
        r.append(" ");
        r.append(reason);
    }
    proof {
        if reason@.len() == 0 {
            assert(r@ =~= summon_base_spec(mention@, reason@));
        }
    }
    r
}

/// How many summons messages `n` guarantors take.
pub open spec fn chunk_count(n: int) -> int {
    (n + 4) / 5
}

/// The guarantors of the `k`-th summons message.
pub open spec fn chunk_of(ids: Seq<i64>, k: int) -> Seq<i64> {
    let end = if 5 * k + 5 <= ids.len() { 5 * k + 5 } else { ids.len() as int };
    ids.subrange(5 * k, end)
}

/// The summons messages: each the opening line followed by the invisible mentions of the next
/// five guarantors, in order.
pub open spec fn summon_texts_spec(base: Seq<char>, ids: Seq<i64>) -> Seq<Seq<char>> {
    Seq::new(chunk_count(ids.len() as int) as nat, |k: int| base + hidden_mentions_spec(chunk_of(ids, k)))
}

/// The guarantors of the first `m` summons messages, one chunk after another.
pub open spec fn chunks_joined(ids: Seq<i64>, m: nat) -> Seq<i64>
    decreases m,
{
    if m == 0 {
        Seq::empty()
    } else {
        chunks_joined(ids, (m - 1) as nat) + chunk_of(ids, m - 1)
    }
}

proof fn lemma_chunks_prefix(ids: Seq<i64>, m: nat)
    requires
        m <= chunk_count(ids.len() as int),
    ensures
        chunks_joined(ids, m) == ids.take(if 5 * m <= ids.len() { 5 * m as int } else { ids.len() as int }),
    decreases m,
{
    let n = ids.len() as int;
    assert(5 * chunk_count(n) <= n + 4);
    if m == 0 {
        assert(ids.take(0) =~= Seq::<i64>::empty());
    } else {
        lemma_chunks_prefix(ids, (m - 1) as nat);
        let end = if 5 * m <= n { 5 * m as int } else { n };
        assert(ids.take(5 * (m - 1)) + ids.subrange(5 * (m - 1), end) =~= ids.take(end));
    }
}

/// Every guarantor is mentioned exactly once and in order: the chunks of the summons
/// messages, joined, give back the list of guarantors, and each chunk holds one to five.
pub proof fn summon_chunks_cover(ids: Seq<i64>)
    ensures
        chunks_joined(ids, chunk_count(ids.len() as int) as nat) == ids,
        forall|k: int|
            0 <= k < chunk_count(ids.len() as int) ==> 1 <= #[trigger] chunk_of(ids, k).len()
                <= SUMMON_CHUNK,
{
    let n = ids.len() as int;
    assert(5 * chunk_count(n) >= n);
    assert(5 * chunk_count(n) <= n + 4);
    lemma_chunks_prefix(ids, chunk_count(n) as nat);
    assert(ids.take(n) =~= ids);
}

fn push_hidden_mention(out: &mut String, user_id: i64)
    ensures
        final(out)@ == old(out)@ + hidden_mention_spec(user_id),
{
    out.append("<a href=\"tg://user?id=");
    push_i64(out, user_id);
    out.append("\">&#8296;</a>");
}

/// The summons messages, as `summon_texts_spec` says.
pub fn summon_texts(base: &str, ids: &Vec<i64>) -> (r: Vec<String>)
    ensures
        r@.map_values(|s: String| s@) == summon_texts_spec(base@, ids@),
{
    let mut r: Vec<String> = Vec::new();
    let mut start: usize = 0;
    let ghost mut k: int = 0;
    let n = ids.len();
    while start < n
        invariant
            n == ids@.len(),
            start <= n,
            r@.len() == k,
            start < n ==> start == 5 * k,
            start < n ==> k < chunk_count(n as int),
            start == n ==> k == chunk_count(n as int),
            forall|k: int| 0 <= k < r@.len() ==> #[trigger] r@[k]@ == base@ + hidden_mentions_spec(chunk_of(ids@, k)),
        decreases n - start,
    {
        let end = if n - start >= 5 { start + 5 } else { n };
        let mut text = String::new();
        text.append(base);
        let mut j = start;
        while j < end
            invariant
                start <= j <= end <= n,
                n == ids@.len(),
                text@ == base@ + hidden_mentions_spec(ids@.subrange(start as int, j as int)),
            decreases end - j,
        {
            assert(ids@.subrange(start as int, j + 1).drop_last() =~= ids@.subrange(start as int, j as int));
            push_hidden_mention(&mut text, ids[j]);
            j = j + 1;
        }
        assert(ids@.subrange(start as int, end as int) =~= chunk_of(ids@, k));
        r.push(text);
        start = end;
        proof {
            k = k + 1;
        }
    }
    assert(r@.map_values(|s: String| s@) =~= summon_texts_spec(base@, ids@));
    r
}

/// A guarantor in the listing: the user (when known) and the comment.
#[derive(Debug, Clone)]
pub struct GarantListEntry {
    pub user: Option<UserInfo>,
    pub comment: String,
}

/// The line of a guarantor in the listing; none when the user is not known.
pub open spec fn garant_line_spec(e: GarantListEntry) -> Seq<char> {
    match e.user {
        Some(u) => Emoji::RadioButton.html_spec() + " "@ + mention_spec(u.id, opt_view(u.username), u.full_name@)
            + " - "@ + e.comment@ + "\n"@,
        None => Seq::empty(),
    }
}

/// The lines of the guarantors in the listing.
pub open spec fn garant_lines_spec(es: Seq<GarantListEntry>) -> Seq<char>
    decreases es.len(),
{
    if es.len() == 0 {
        Seq::empty()
    } else {
        garant_lines_spec(es.drop_last()) + garant_line_spec(es.last())
    }
}

/// The guarantor listing: a heading, then "Отсутствует" or the guarantors.
pub open spec fn garant_list_spec(es: Seq<GarantListEntry>) -> Seq<char> {
    Emoji::FacingUp.html_spec() + " Список гарантов чата:\n"@ + if es.len() == 0 {
        "Отсутствует"@
    } else {
        garant_lines_spec(es)
    }
}

fn mention_of(u: &UserInfo) -> (r: String)
    ensures
        r@ == mention_spec(u.id, opt_view(u.username), u.full_name@),
{
    let uname: Option<&str> = match &u.username {
        Some(x) => Some(x.as_str()),
        None => None,
    };
    get_user_mention(u.id, uname, u.full_name.clone())
}

/// The guarantor listing, as `garant_list_spec` says.
pub fn garant_list_text(entries: &Vec<GarantListEntry>) -> (r: String)
    ensures
        r@ == garant_list_spec(entries@),
{
    let mut r = Emoji::FacingUp.to_html();
    r.append(" Список гарантов чата:\n");
    if entries.len() == 0 {
        r.append("Отсутствует");
        return r;
    }
    let ghost head = r@;
    let mut i: usize = 0;
    while i < entries.len()
        invariant
            i <= entries@.len(),
            r@ == head + garant_lines_spec(entries@.take(i as int)),
        decreases entries.len() - i,
    {
        assert(entries@.take(i + 1).drop_last() =~= entries@.take(i as int));
        let ghost before = r@;
        match &entries[i].user {
            Some(u) => {
                r.append(Emoji::RadioButton.to_html().as_str());
                r.append(" ");
                r.append(mention_of(u).as_str());
                r.append(" - ");
                r.append(entries[i].comment.as_str());
                r.append("\n");
            },
            None => {},
        }
        assert(r@ =~= before + garant_line_spec(entries@[i as int]));
        i = i + 1;
    }
    assert(entries@.take(i as int) =~= entries@);
    r
}

/// The line of an administrator in the listing; none when the user is not known.
pub open spec fn admin_line_spec(u: Option<UserInfo>) -> Seq<char> {
    match u {
        Some(u) => Emoji::RadioButton.html_spec() + " "@ + mention_spec(u.id, opt_view(u.username), u.full_name@)
            + "\n"@,
        None => Seq::empty(),
    }
}

/// The lines of the administrators in the listing.
pub open spec fn admin_lines_spec(us: Seq<Option<UserInfo>>) -> Seq<char>
    decreases us.len(),
{
    if us.len() == 0 {
        Seq::empty()
    } else {
        admin_lines_spec(us.drop_last()) + admin_line_spec(us.last())
    }
}

/// The administrator listing: a heading, then "Пуст" or the administrators.
pub open spec fn admin_list_spec(us: Seq<Option<UserInfo>>) -> Seq<char> {
    Emoji::FacingUp.html_spec() + " Список администраторов:\n"@ + if us.len() == 0 {
        "Пуст"@
    } else {
        admin_lines_spec(us)
    }
}

/// The administrator listing, as `admin_list_spec` says.
pub fn admin_list_text(users: &Vec<Option<UserInfo>>) -> (r: String)
    ensures
        r@ == admin_list_spec(users@),
{
    let mut r = Emoji::FacingUp.to_html();
    r.append(" Список администраторов:\n");
    if users.len() == 0 {
        r.append("Пуст");
        return r;
    }
    let ghost head = r@;
    let mut i: usize = 0;
    while i < users.len()
        invariant
            i <= users@.len(),
            r@ == head + admin_lines_spec(users@.take(i as int)),
        decreases users.len() - i,
    {
        assert(users@.take(i + 1).drop_last() =~= users@.take(i as int));
        let ghost before = r@;
        match &users[i] {
            Some(u) => {
                r.append(Emoji::RadioButton.to_html().as_str());
                r.append(" ");
                r.append(mention_of(u).as_str());
                r.append("\n");
            },
            None => {},
        }
        assert(r@ =~= before + admin_line_spec(users@[i as int]));
        i = i + 1;
    }
    assert(users@.take(i as int) =~= users@);
    r
}

} // verus!
