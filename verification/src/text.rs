//! Reducing display names to words: every run of characters that are not letters or digits
//! becomes one space between words.
use vstd::prelude::*;
use crate::strings::push_char;

verus! {

/// Whether `char::is_alphanumeric` holds of `c` (Unicode `Alphabetic` or a numeric
/// category); the Unicode tables are not restated here.
pub uninterp spec fn unicode_alphanumeric(c: char) -> bool;

/// Whether `clear_text` keeps `c` as part of a word. The space is never alphanumeric, which
/// `is_alphanumeric` states.
pub open spec fn is_word_char(c: char) -> bool {
    c != ' ' && unicode_alphanumeric(c)
}

/// `char::is_alphanumeric`. The space character is neither alphabetic nor numeric.
#[verifier::external_body]
pub(crate) fn is_alphanumeric(c: char) -> (r: bool)
    ensures
        r == unicode_alphanumeric(c),
        c == ' ' ==> !r,
{
    c.is_alphanumeric()
}

/// The text `clear_text` has built after reading `s`, and whether its last character is a
/// separator it added.
pub open spec fn clear_state(s: Seq<char>) -> (Seq<char>, bool)
    decreases s.len(),
{
    if s.len() == 0 {
        (Seq::<char>::empty(), false)
    } else {
        let (r, sep) = clear_state(s.drop_last());
        let c = s.last();
        if is_word_char(c) {
            (r.push(c), false)
        } else if r.len() > 0 && !sep {
            (r.push(' '), true)
        } else {
            (r, sep)
        }
    }
}

/// The words of `s` (maximal runs of letters and digits) joined by single spaces.
pub open spec fn clear_text_spec(s: Seq<char>) -> Seq<char> {
    let r = clear_state(s).0;
    if r.len() > 0 && r.last() == ' ' {
        r.drop_last()
    } else {
        r
    }
}

/// Keeps the letters and digits of `text`, puts one space where a run of other characters
/// separated two of them, and drops such runs at either end.
pub fn clear_text(text: String) -> (r: String)
    ensures
        r@ == clear_text_spec(text@),
{
    let mut result = String::new();
    let mut last_was_separator = false;
    let mut len: usize = 0;
    let mut last: char = ' ';
    let chars = crate::strings::chars_of(text.as_str());
    let mut i: usize = 0;
    while i < chars.len()
        invariant
            i <= chars@.len(),
            chars@ == text@,
            (result@, last_was_separator) == clear_state(chars@.take(i as int)),
            len as int == result@.len(),
            len > 0 ==> last == result@.last(),
            len <= i,
        decreases chars.len() - i,
    {
        let c = chars[i];
        proof {
            assert(chars@.take(i + 1).drop_last() =~= chars@.take(i as int));
        }
        if is_alphanumeric(c) {
            push_char(&mut result, c);
            len = len + 1;
            last = c;
            last_was_separator = false;
        } else {
            if len > 0 && !last_was_separator {
                push_char(&mut result, ' ');
                len = len + 1;
                last = ' ';
                last_was_separator = true;
            }
        }
        i = i + 1;
    }
    assert(chars@.take(i as int) =~= text@);
    if len > 0 && last == ' ' {
        result = drop_last_char(result);
    }
    result
}

/// `String::pop`, keeping the shortened string.
#[verifier::external_body]
fn drop_last_char(s: String) -> (r: String)
    requires
        s@.len() > 0,
    ensures
        r@ == s@.drop_last(),
{
    let mut s = s;
    s.pop();
    s
}

} // verus!

verus! {

/// Every character is part of a word or a space, and no space stands first or next to
/// another space.
pub open spec fn single_spaced(r: Seq<char>) -> bool {
    &&& forall|i: int| 0 <= i < r.len() ==> is_word_char(#[trigger] r[i]) || r[i] == ' '
    &&& (r.len() > 0 ==> r[0] != ' ')
    &&& forall|i: int| 0 < i < r.len() && #[trigger] r[i] == ' ' ==> r[i - 1] != ' '
}

/// Text of words separated by single spaces, with no space at either end.
pub open spec fn is_cleared(r: Seq<char>) -> bool {
    single_spaced(r) && (r.len() > 0 ==> r.last() != ' ')
}

proof fn lemma_clear_state(s: Seq<char>)
    ensures
        single_spaced(clear_state(s).0),
        clear_state(s).1 <==> (clear_state(s).0.len() > 0 && clear_state(s).0.last() == ' '),
    decreases s.len(),
{
    if s.len() > 0 {
        lemma_clear_state(s.drop_last());
        let (r, sep) = clear_state(s.drop_last());
        let (r2, sep2) = clear_state(s);
        let c = s.last();
        if is_word_char(c) {
            assert forall|i: int| 0 < i < r2.len() && #[trigger] r2[i] == ' ' implies r2[i - 1]
                != ' ' by {
                if i < r.len() {
                    assert(r2[i] == r[i]);
                }
            }
        } else if r.len() > 0 && !sep {
            assert forall|i: int| 0 < i < r2.len() && #[trigger] r2[i] == ' ' implies r2[i - 1]
                != ' ' by {
                if i < r.len() {
                    assert(r2[i] == r[i]);
                }
            }
        }
    }
}

/// `clear_text` always gives words separated by single spaces, with no space at either end.
pub proof fn clear_text_is_cleared(s: Seq<char>)
    ensures
        is_cleared(clear_text_spec(s)),
{
    lemma_clear_state(s);
    let r = clear_state(s).0;
    if r.len() > 0 && r.last() == ' ' {
        let t = r.drop_last();
        assert forall|i: int| 0 < i < t.len() && #[trigger] t[i] == ' ' implies t[i - 1]
            != ' ' by {
            assert(r[i] == ' ');
        }
        if t.len() > 0 {
            assert(r[t.len() as int] == ' ');
            assert(t.last() == r[t.len() - 1]);
        }
    }
}

proof fn lemma_clear_state_of_cleared(t: Seq<char>, k: int)
    requires
        is_cleared(t),
        0 <= k <= t.len(),
    ensures
        clear_state(t.take(k)) == (t.take(k), k > 0 && t[k - 1] == ' '),
    decreases k,
{
    if k > 0 {
        lemma_clear_state_of_cleared(t, k - 1);
        assert(t.take(k).drop_last() =~= t.take(k - 1));
        assert(t.take(k).last() == t[k - 1]);
        assert(t.take(k - 1).push(t[k - 1]) =~= t.take(k));
        if t[k - 1] == ' ' {
            assert(k - 1 > 0);
            assert(t[k - 2] != ' ');
        }
    } else {
        assert(t.take(0) =~= Seq::<char>::empty());
    }
}

/// Clearing a text twice gives what clearing it once gives.
pub proof fn clear_text_idempotent(s: Seq<char>)
    ensures
        clear_text_spec(clear_text_spec(s)) == clear_text_spec(s),
{
    clear_text_is_cleared(s);
    let t = clear_text_spec(s);
    lemma_clear_state_of_cleared(t, t.len() as int);
    assert(t.take(t.len() as int) =~= t);
}

} // verus!
