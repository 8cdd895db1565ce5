//! The inline keyboards the bot attaches to its messages.
use vstd::prelude::*;
use vstd::string::*;
use crate::callback::{
    captcha_data, captcha_data_spec, del_sum_data, del_sum_data_spec, moderation_data,
    moderation_data_spec, repeat_novo_reg_data, repeat_novo_reg_data_spec, repeat_reg_data,
    repeat_reg_data_spec, ModerationAction,
};
use crate::strings::{decimal, digit_char, push_i64};
use rand::seq::SliceRandom;

verus! {

/// What pressing a button does: open a link, send callback data to the bot, or copy a text.
#[derive(Debug, Clone)]
pub enum ButtonAction {
    Url(String),
    Callback(String),
    CopyText(String),
}

/// An inline button: its label, what it does, its custom emoji and its style.
#[derive(Debug, Clone)]
pub struct Button {
    pub text: String,
    pub action: ButtonAction,
    pub icon_custom_emoji_id: Option<String>,
    pub style: Option<String>,
}

/// An inline keyboard: rows of buttons.
#[derive(Debug, Clone)]
pub struct Keyboard {
    pub rows: Vec<Vec<Button>>,
}

/// The abstract value of a button action.
pub enum ActionView {
    Url(Seq<char>),
    Callback(Seq<char>),
    CopyText(Seq<char>),
}

/// The abstract value of a button.
pub struct ButtonView {
    pub text: Seq<char>,
    pub action: ActionView,
    pub icon: Option<Seq<char>>,
    pub style: Option<Seq<char>>,
}

impl View for ButtonAction {
    type V = ActionView;

    open spec fn view(&self) -> ActionView {
        match self {
            ButtonAction::Url(s) => ActionView::Url(s@),
            ButtonAction::Callback(s) => ActionView::Callback(s@),
            ButtonAction::CopyText(s) => ActionView::CopyText(s@),
        }
    }
}

/// The view of an optional string.
pub open spec fn opt_str_view(s: Option<String>) -> Option<Seq<char>> {
    match s {
        Some(x) => Some(x@),
        None => None,
    }
}

impl View for Button {
    type V = ButtonView;

    open spec fn view(&self) -> ButtonView {
        ButtonView {
            text: self.text@,
            action: self.action@,
            icon: opt_str_view(self.icon_custom_emoji_id),
            style: opt_str_view(self.style),
        }
    }
}

impl View for Keyboard {
    type V = Seq<Seq<ButtonView>>;

    open spec fn view(&self) -> Seq<Seq<ButtonView>> {
        self.rows@.map_values(|row: Vec<Button>| row@.map_values(|b: Button| b@))
    }
}

fn button(text: &str, action: ButtonAction, icon: Option<&str>, style: Option<&str>) -> (r: Button)
    ensures
        r@ == (ButtonView {
            text: text@,
            action: action@,
            icon: match icon {
                Some(i) => Some(i@),
                None => None,
            },
            style: match style {
                Some(s) => Some(s@),
                None => None,
            },
        }),
{
    Button {
        text: text.to_string(),
        action,
        icon_custom_emoji_id: match icon {
            Some(i) => Some(i.to_string()),
            None => None,
        },
        style: match style {
            Some(s) => Some(s.to_string()),
            None => None,
        },
    }
}


fn one_button_keyboard(b: Button) -> (r: Keyboard)
    ensures
        r@ == seq![seq![b@]],
{
    let row = vec![b];
    assert(row@.map_values(|x: Button| x@) =~= seq![b@]);
    let r = Keyboard { rows: vec![row] };
    assert(r@ =~= seq![seq![b@]]);
    r
}

fn two_row_keyboard(a: Button, b: Button) -> (r: Keyboard)
    ensures
        r@ == seq![seq![a@], seq![b@]],
{
    let first = vec![a];
    let second = vec![b];
    assert(first@.map_values(|x: Button| x@) =~= seq![a@]);
    assert(second@.map_values(|x: Button| x@) =~= seq![b@]);
    let r = Keyboard { rows: vec![first, second] };
    assert(r@ =~= seq![seq![a@], seq![b@]]);
    r
}

/// The button under the duel-chat warning that links to the chat for small games.
pub open spec fn duel_chat_button() -> ButtonView {
    ButtonView {
        text: "RT | Игры | Конкурсы"@,
        action: ActionView::Url("https://t.me/+RKMmtfeDjGhhNzYy"@),
        icon: Some("5443038326535759644"@),
        style: Some("primary"@),
    }
}

/// The keyboard with a link to the chat for games on small bets.
pub fn duel_chat_keyboard() -> (r: Keyboard)
    ensures
        r@ == seq![seq![duel_chat_button()]],
{
    let b = button(
        "RT | Игры | Конкурсы",
        ButtonAction::Url("https://t.me/+RKMmtfeDjGhhNzYy".to_string()),
        Some("5443038326535759644"),
        Some("primary"),
    );
    one_button_keyboard(b)
}

/// The button that deletes the messages of a summons.
pub open spec fn garant_call_button(summon_id: Seq<char>) -> ButtonView {
    ButtonView {
        text: "Удалить созыв"@,
        action: ActionView::Callback(del_sum_data_spec(summon_id)),
        icon: Some("5445267414562389170"@),
        style: Some("success"@),
    }
}

/// The keyboard under the messages of a summons.
pub fn garant_call_keyboard(summon_id: String) -> (r: Keyboard)
    ensures
        r@ == seq![seq![garant_call_button(summon_id@)]],
{
    let data = del_sum_data(summon_id.as_str());
    let b = button("Удалить созыв", ButtonAction::Callback(data), Some("5445267414562389170"), Some("success"));
    one_button_keyboard(b)
}

/// The button that repeats the registration check of a join request.
pub open spec fn repeat_reg_button(chat_id: i64, user_id: i64) -> ButtonView {
    ButtonView {
        text: "Повторить попытку"@,
        action: ActionView::Callback(repeat_reg_data_spec(chat_id, user_id)),
        icon: None,
        style: Some("success"@),
    }
}

/// The keyboard that lets a user repeat the registration check.
pub fn repeat_reg_keyboard(chat_id: i64, user_id: i64) -> (r: Keyboard)
    ensures
        r@ == seq![seq![repeat_reg_button(chat_id, user_id)]],
{
    let b = button(
        "Повторить попытку",
        ButtonAction::Callback(repeat_reg_data(chat_id, user_id)),
        None,
        Some("success"),
    );
    one_button_keyboard(b)
}

/// The button that repeats the registration lookup after a right captcha answer.
pub open spec fn repeat_novo_reg_button(chat_id: i64, user_id: i64) -> ButtonView {
    ButtonView {
        text: "Повторить попытку"@,
        action: ActionView::Callback(repeat_novo_reg_data_spec(chat_id, user_id)),
        icon: None,
        style: Some("success"@),
    }
}

/// The keyboard that lets a user repeat the registration lookup after a right captcha answer.
pub fn repeat_novo_reg_keyboard(chat_id: i64, user_id: i64) -> (r: Keyboard)
    ensures
        r@ == seq![seq![repeat_novo_reg_button(chat_id, user_id)]],
{
    let b = button(
        "Повторить попытку",
        ButtonAction::Callback(repeat_novo_reg_data(chat_id, user_id)),
        None,
        Some("success"),
    );
    one_button_keyboard(b)
}

/// The custom emoji of the captcha button with a given code (1 to 4).
pub open spec fn captcha_icon(code: int) -> Seq<char> {
    if code == 1 {
        "5339237329292764502"@
    } else if code == 2 {
        "5337047059180566409"@
    } else if code == 3 {
        "5318986601441813952"@
    } else {
        "5357233044694508227"@
    }
}

fn captcha_icon_str(code: i64) -> (r: &'static str)
    requires
        1 <= code <= 4,
    ensures
        r@ == captcha_icon(code as int),
{
    if code == 1 {
        "5339237329292764502"
    } else if code == 2 {
        "5337047059180566409"
    } else if code == 3 {
        "5318986601441813952"
    } else {
        "5357233044694508227"
    }
}

/// The captcha button with a given code (1 to 4); code 3 is the right answer.
pub open spec fn captcha_button(chat_id: i64, user_id: i64, code: int) -> ButtonView {
    ButtonView {
        text: "."@,
        action: ActionView::Callback(captcha_data_spec(chat_id, user_id, code as i64)),
        icon: Some(captcha_icon(code)),
        style: None,
    }
}

/// `SliceRandom::shuffle` with the thread-local generator: a random permutation of `v`.
#[verifier::external_body]
fn shuffle(v: &mut Vec<usize>)
    ensures
        final(v)@.to_multiset() == old(v)@.to_multiset(),
{
    v.shuffle(&mut rand::rng());
}

/// Four numbers below four that include each of 0, 1, 2 and 3 are pairwise distinct.
proof fn lemma_four_distinct(s: Seq<usize>)
    requires
        s.len() == 4,
        forall|k: usize| k < 4 ==> s.contains(k),
        forall|j: int| 0 <= j < 4 ==> s[j] < 4,
    ensures
        forall|j: int, k: int| 0 <= j < k < 4 ==> s[j] != s[k],
{
    assert(s.contains(0usize));
    assert(s.contains(1usize));
    assert(s.contains(2usize));
    assert(s.contains(3usize));
    let i0 = choose|i: int| 0 <= i < s.len() && s[i] == 0usize;
    let i1 = choose|i: int| 0 <= i < s.len() && s[i] == 1usize;
    let i2 = choose|i: int| 0 <= i < s.len() && s[i] == 2usize;
    let i3 = choose|i: int| 0 <= i < s.len() && s[i] == 3usize;
    assert forall|j: int, k: int| 0 <= j < k < 4 implies s[j] != s[k] by {
        assert(j == i0 || j == i1 || j == i2 || j == i3);
        assert(k == i0 || k == i1 || k == i2 || k == i3);
    }
}

/// Captcha buttons with different codes (1 to 4) differ: their data end in different digits.
proof fn lemma_captcha_buttons_differ(chat_id: i64, user_id: i64, a: int, b: int)
    requires
        1 <= a <= 4,
        1 <= b <= 4,
        a != b,
    ensures
        captcha_button(chat_id, user_id, a) != captcha_button(chat_id, user_id, b),
{
    let da = captcha_data_spec(chat_id, user_id, a as i64);
    let db = captcha_data_spec(chat_id, user_id, b as i64);
    assert(decimal(a) == seq![digit_char(a)]);
    assert(decimal(b) == seq![digit_char(b)]);
    assert(da.last() == digit_char(a));
    assert(db.last() == digit_char(b));
    assert(da != db);
}

/// The captcha keyboard: one row with the four captcha buttons, each once, in random order.
pub fn captcha_keyboard(chat_id: i64, user_id: i64) -> (r: Keyboard)
    ensures
        r@.len() == 1,
        r@[0].len() == 4,
        forall|code: int| #![trigger captcha_button(chat_id, user_id, code)] 1 <= code <= 4 ==> exists|j: int| 0 <= j < 4 && #[trigger] r@[0][j] == captcha_button(chat_id, user_id, code),
        forall|j: int, k: int| 0 <= j < k < 4 ==> #[trigger] r@[0][j] != #[trigger] r@[0][k],
{
    broadcast use vstd::seq_lib::group_to_multiset_ensures;
    let mut order: Vec<usize> = vec![0, 1, 2, 3];
    let ghost start = order@;
    shuffle(&mut order);
    assert(order@.len() == 4) by {
        assert(order@.to_multiset().len() == start.to_multiset().len());
    }
    assert forall|k: usize| k < 4 implies order@.contains(k) by {
        assert(start[k as int] == k);
        assert(start.contains(k));
        assert(start.to_multiset().count(k) > 0);
    }
    assert forall|j: int| 0 <= j < 4 implies order@[j] < 4 by {
        assert(order@.contains(order@[j]));
        assert(order@.to_multiset().count(order@[j]) > 0);
        assert(start.contains(order@[j]));
    }
    let mut row: Vec<Button> = Vec::new();
    let mut j: usize = 0;
    while j < 4
        invariant
            order@.len() == 4,
            forall|k: int| 0 <= k < 4 ==> order@[k] < 4,
            j <= 4,
            row@.len() == j,
            forall|k: int| 0 <= k < j ==> #[trigger] row@[k]@ == captcha_button(chat_id, user_id, order@[k] + 1),
        decreases 4 - j,
    {
        let code: i64 = order[j] as i64 + 1;
        let b = button(
            ".",
            ButtonAction::Callback(captcha_data(chat_id, user_id, code)),
            Some(captcha_icon_str(code)),
            None,
        );
        row.push(b);
        j = j + 1;
    }
    proof {
        lemma_four_distinct(order@);
        assert forall|j: int, k: int| 0 <= j < k < 4 implies #[trigger] row@[j]@ != #[trigger] row@[k]@ by {
            lemma_captcha_buttons_differ(chat_id, user_id, order@[j] + 1, order@[k] + 1);
        }
    }
    let r = Keyboard { rows: vec![row] };
    assert forall|code: int| #![trigger captcha_button(chat_id, user_id, code)] 1 <= code <= 4 implies exists|j: int| 0 <= j < 4 && #[trigger] r@[0][j] == captcha_button(chat_id, user_id, code) by {
        let k = (code - 1) as usize;
        assert(order@.contains(k));
        let j = choose|j: int| 0 <= j < order@.len() && order@[j] == k;
        assert(r@[0][j] == row@[j]@);
    }
    r
}

/// The text a moderator copies to warn a player about the minimum bet.
pub open spec fn unmute_copy_text(user_id: i64) -> Seq<char> {
    "варн @"@ + decimal(user_id as int) + "\nИгры от 50 голд."@
}

/// The button that lifts a restriction.
pub open spec fn unmute_button(chat_id: i64, user_id: i64, message_id: Option<i64>) -> ButtonView {
    ButtonView {
        text: "Размутить"@,
        action: ActionView::Callback(moderation_data_spec(ModerationAction::Unmute, chat_id, message_id, user_id)),
        icon: Some("5372800046284674872"@),
        style: Some("success"@),
    }
}

/// The button that copies the minimum-bet warning.
pub open spec fn copy_warning_button(user_id: i64) -> ButtonView {
    ButtonView {
        text: "Скопировать предупреждение"@,
        action: ActionView::CopyText(unmute_copy_text(user_id)),
        icon: None,
        style: None,
    }
}

/// The button that bans a user.
pub open spec fn ban_button(chat_id: i64, user_id: i64, message_id: Option<i64>) -> ButtonView {
    ButtonView {
        text: "Забанить"@,
        action: ActionView::Callback(moderation_data_spec(ModerationAction::Ban, chat_id, message_id, user_id)),
        icon: Some("5472308992514464048"@),
        style: Some("success"@),
    }
}

fn unmute_button_exec(chat_id: i64, user_id: i64, message_id: Option<i64>) -> (r: Button)
    ensures
        r@ == unmute_button(chat_id, user_id, message_id),
{
    button(
        "Размутить",
        ButtonAction::Callback(moderation_data(ModerationAction::Unmute, chat_id, message_id, user_id)),
        Some("5372800046284674872"),
        Some("success"),
    )
}

/// The keyboard under a mute for a small bet: unmute, and copy the warning text. The minimum
/// bet is not shown on it.
pub fn duel_unmute_keyboard(chat_id: i64, user_id: i64, min_bet: i64, message_id: Option<i64>) -> (r: Keyboard)
    ensures
        r@ == seq![seq![unmute_button(chat_id, user_id, message_id)], seq![copy_warning_button(user_id)]],
{
    let first = unmute_button_exec(chat_id, user_id, message_id);
    let mut copy = String::new();
    copy.append("варн @");
    push_i64(&mut copy, user_id);
    copy.append("\nИгры от 50 голд.");
    let second = button("Скопировать предупреждение", ButtonAction::CopyText(copy), None, None);
    two_row_keyboard(first, second)
}

/// The keyboard under an antispam notice: unmute, and ban.
pub fn antispam_keyboard(chat_id: i64, user_id: i64, message_id: Option<i64>) -> (r: Keyboard)
    ensures
        r@ == seq![seq![unmute_button(chat_id, user_id, message_id)], seq![ban_button(chat_id, user_id, message_id)]],
{
    let first = unmute_button_exec(chat_id, user_id, message_id);
    let second = button(
        "Забанить",
        ButtonAction::Callback(moderation_data(ModerationAction::Ban, chat_id, message_id, user_id)),
        Some("5472308992514464048"),
        Some("success"),
    );
    two_row_keyboard(first, second)
}

} // verus!
