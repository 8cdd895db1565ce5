//! Regular expressions: the compiled pattern type the library keeps with its source text, the
//! calls into the `regex` crate, and the named groups a match yields.
use vstd::prelude::*;
use vstd::string::*;

verus! {

/// `regex::Regex`, a compiled regular expression.
#[verifier::external_type_specification]
#[verifier::external_body]
pub struct ExRegex(regex::Regex);

/// `regex::Error`, why a pattern did not compile.
#[verifier::external_type_specification]
#[verifier::external_body]
pub struct ExRegexError(regex::Error);

/// Whether `regex::Regex::new` accepts a pattern.
pub uninterp spec fn regex_valid(pattern: Seq<char>) -> bool;

/// The names of the capture groups of a pattern, in group order, as `Regex::capture_names`
/// yields them (`None` for an unnamed group, group 0 included).
pub uninterp spec fn regex_group_names(pattern: Seq<char>) -> Seq<Option<Seq<char>>>;

/// What `Regex::captures` finds in a text: `None` when the pattern does not match, else the
/// text of each capture group in group order (`None` for a group that took no part).
pub uninterp spec fn regex_captures(pattern: Seq<char>, text: Seq<char>) -> Option<Seq<Option<Seq<char>>>>;

/// The texts of the successive non-overlapping matches of a pattern, as `Regex::find_iter`
/// yields them.
pub uninterp spec fn regex_find_all(pattern: Seq<char>, text: Seq<char>) -> Seq<Seq<char>>;

/// `Regex::new`: compiles a pattern; it succeeds exactly on the patterns the crate accepts.
#[verifier::external_body]
fn regex_new(pattern: &str) -> (r: Result<regex::Regex, regex::Error>)
    ensures
        r is Ok <==> regex_valid(pattern@),
{
    regex::Regex::new(pattern)
}

/// Why a pattern could not be used.
#[derive(Debug, Clone, Copy, PartialEq, Eq, Structural)]
pub enum PatternError {
    Invalid,
}

/// A compiled regular expression together with its source text. The compiled form is only
/// ever made from the source it is kept with.
pub struct Pattern {
    source: String,
    re: regex::Regex,
}

impl View for Pattern {
    type V = Seq<char>;

    /// A pattern is seen as its source text.
    closed spec fn view(&self) -> Seq<char> {
        self.source@
    }
}

/// The views of an optional list of optional strings.
pub open spec fn opt_texts(v: Option<Vec<Option<String>>>) -> Option<Seq<Option<Seq<char>>>> {
    match v {
        Some(x) => Some(texts(x@)),
        None => None,
    }
}

/// The views of a list of optional strings.
pub open spec fn texts(v: Seq<Option<String>>) -> Seq<Option<Seq<char>>> {
    v.map_values(
        |o: Option<String>|
            match o {
                Some(s) => Some(s@),
                None => None,
            },
    )
}

/// `Regex::captures`, each group's text copied out.
#[verifier::external_body]
fn captures_of(p: &Pattern, text: &str) -> (r: Option<Vec<Option<String>>>)
    ensures
        opt_texts(r) == regex_captures(p@, text@),
{
    p.re.captures(text).map(|c| c.iter().map(|m| m.map(|m| m.as_str().to_string())).collect())
}

/// `Regex::capture_names`, each name copied out.
#[verifier::external_body]
fn group_names_of(p: &Pattern) -> (r: Vec<Option<String>>)
    ensures
        texts(r@) == regex_group_names(p@),
{
    p.re.capture_names().map(|n| n.map(|n| n.to_string())).collect()
}

/// `Regex::find_iter`, each match's text copied out.
#[verifier::external_body]
fn find_all_of(p: &Pattern, text: &str) -> (r: Vec<String>)
    ensures
        r@.map_values(|s: String| s@) == regex_find_all(p@, text@),
{
    p.re.find_iter(text).map(|m| m.as_str().to_string()).collect()
}

impl Pattern {
    /// Compiles `source`; an error when the `regex` crate does not accept it.
    pub fn new(source: String) -> (r: Result<Pattern, PatternError>)
        ensures
            r is Ok <==> regex_valid(source@),
            r matches Ok(p) ==> p@ == source@,
    {
        match regex_new(source.as_str()) {
            Ok(re) => Ok(Pattern { source, re }),
            Err(_) => Err(PatternError::Invalid),
        }
    }

    /// The source text of this pattern.
    pub fn source(&self) -> (r: &str)
        ensures
            r@ == self@,
    {
        self.source.as_str()
    }

    /// The texts of the successive matches of this pattern in `text`.
    pub fn find_all(&self, text: &str) -> (r: Vec<String>)
        ensures
            r@.map_values(|s: String| s@) == regex_find_all(self@, text@),
    {
        find_all_of(self, text)
    }
}

/// The named groups that took part in a match, in group order: each with its name and text.
pub open spec fn named_groups(names: Seq<Option<Seq<char>>>, vals: Seq<Option<Seq<char>>>) -> Seq<(Seq<char>, Seq<char>)>
    decreases names.len(),
{
    if names.len() == 0 {
        Seq::empty()
    } else {
        let k = names.len() - 1;
        let rest = named_groups(names.drop_last(), vals);
        if names[k] is Some && k < vals.len() && vals[k] is Some {
            rest.push((names[k]->0, vals[k]->0))
        } else {
            rest
        }
    }
}

/// The named groups of a match, kept in a `smallvec::SmallVec` (which Verus does not read).
#[verifier::external_body]
pub struct GroupList {
    items: smallvec::SmallVec<[(String, String); 4]>,
}

/// The name and text pairs a group list holds, in order.
pub uninterp spec fn group_items(v: GroupList) -> Seq<(Seq<char>, Seq<char>)>;

/// `SmallVec::new`: no groups yet.
#[verifier::external_body]
fn groups_new() -> (r: GroupList)
    ensures
        group_items(r) == Seq::<(Seq<char>, Seq<char>)>::empty(),
{
    GroupList { items: smallvec::SmallVec::new() }
}

/// `SmallVec::push`: the group goes after the others. (As with `Vec::push`, only running out
/// of memory stops it, which is not stated here.)
#[verifier::external_body]
fn groups_push(v: &mut GroupList, name: String, text: String)
    ensures
        group_items(*final(v)) == group_items(*old(v)).push((name@, text@)),
{
    v.items.push((name, text));
}

/// `SmallVec::len`: how many groups there are.
#[verifier::external_body]
fn groups_len(v: &GroupList) -> (r: usize)
    ensures
        r == group_items(*v).len(),
{
    v.items.len()
}

/// Indexing a `SmallVec`: the group at position `i`.
#[verifier::external_body]
fn groups_at(v: &GroupList, i: usize) -> (r: &(String, String))
    requires
        i < group_items(*v).len(),
    ensures
        (r.0@, r.1@) == group_items(*v)[i as int],
{
    &v.items[i]
}

/// The named groups of a command or callback that matched its pattern, in group order.
pub struct ParsedCommand {
    groups: GroupList,
}

/// The text of the first group called `name`, if any.
pub open spec fn group_lookup(groups: Seq<(Seq<char>, Seq<char>)>, name: Seq<char>) -> Option<Seq<char>>
    decreases groups.len(),
{
    if groups.len() == 0 {
        None
    } else if groups[0].0 == name {
        Some(groups[0].1)
    } else {
        group_lookup(groups.drop_first(), name)
    }
}

fn str_eq(a: &str, b: &str) -> (r: bool)
    ensures
        r == (a@ == b@),
{
    let x = crate::strings::chars_of(a);
    let y = crate::strings::chars_of(b);
    crate::callback::same_chars(&x, &y)
}

impl ParsedCommand {
    /// The named groups, as name and text pairs.
    pub closed spec fn groups_view(&self) -> Seq<(Seq<char>, Seq<char>)> {
        group_items(self.groups)
    }

    /// The text of the group called `name`, if it took part in the match.
    pub fn get(&self, name: &str) -> (r: Option<&str>)
        ensures
            match r {
                Some(s) => group_lookup(self.groups_view(), name@) == Some(s@),
                None => group_lookup(self.groups_view(), name@) is None,
            },
    {
        let n = groups_len(&self.groups);
        let mut i: usize = 0;
        assert(self.groups_view().skip(0) =~= self.groups_view());
        while i < n
            invariant
                n == self.groups_view().len(),
                i <= n,
                group_lookup(self.groups_view(), name@) == group_lookup(
                    self.groups_view().skip(i as int),
                    name@,
                ),
            decreases n - i,
        {
            let ghost rest = self.groups_view().skip(i as int);
            let pair = groups_at(&self.groups, i);
            assert(rest[0] == (pair.0@, pair.1@));
            if str_eq(pair.0.as_str(), name) {
                return Some(pair.1.as_str());
            }
            assert(rest.drop_first() =~= self.groups_view().skip(i + 1));
            i = i + 1;
        }
        None
    }

    /// The text of the group called `name`, which must have taken part in the match.
    pub fn require(&self, name: &str) -> (r: &str)
        requires
            group_lookup(self.groups_view(), name@) is Some,
        ensures
            group_lookup(self.groups_view(), name@) == Some(r@),
    {
        match self.get(name) {
            Some(s) => s,
            None => {
                assert(false);
                ""
            },
        }
    }
}

/// Matches `text` against `pattern`: `None` when it does not match, else the named groups
/// that took part, in group order.
pub fn parse_command(pattern: &Pattern, text: &str) -> (r: Option<ParsedCommand>)
    ensures
        r is Some <==> regex_captures(pattern@, text@) is Some,
        r matches Some(c) ==> c.groups_view() == named_groups(
            regex_group_names(pattern@),
            regex_captures(pattern@, text@)->0,
        ),
{
    let caps = match captures_of(pattern, text) {
        Some(c) => c,
        None => return None,
    };
    let names = group_names_of(pattern);
    let ghost nv = texts(names@);
    let ghost cv = texts(caps@);
    let mut groups = groups_new();
    let mut k: usize = 0;
    assert(nv.take(0) =~= Seq::<Option<Seq<char>>>::empty());
    while k < names.len()
        invariant
            k <= names@.len(),
            nv == texts(names@),
            cv == texts(caps@),
            group_items(groups) == named_groups(nv.take(k as int), cv),
        decreases names.len() - k,
    {
        assert(nv.take(k + 1).drop_last() =~= nv.take(k as int));
        match &names[k] {
            Some(n) => {
                if k < caps.len() {
                    match &caps[k] {
                        Some(v) => {
                            groups_push(&mut groups, n.clone(), v.clone());
                        },
                        None => {},
                    }
                }
            },
            None => {},
        }
        k = k + 1;
    }
    assert(nv.take(k as int) =~= nv);
    Some(ParsedCommand { groups })
}

} // verus!
