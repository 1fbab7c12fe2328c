//! Regular expressions, as the `regex` crate provides them.
//!
//! A [`Pattern`] is a compiled `regex::Regex` together with the source it
//! was compiled from. What the engine answers on a given pattern and text
//! is named by the functions below; the library's own logic is stated over
//! those names.

use vstd::prelude::*;

verus! {

#[verifier::external_type_specification]
#[verifier::external_body]
pub struct ExRegex(regex::Regex);

/// The message of the error that `regex::Regex::new` reports for `pattern`,
/// or `None` when the pattern compiles.
pub uninterp spec fn regex_compile_error(pattern: Seq<char>) -> Option<Seq<char>>;

/// Whether the regex `pattern` matches somewhere in `text`
/// (`regex::Regex::is_match`).
pub uninterp spec fn regex_is_match(pattern: Seq<char>, text: Seq<char>) -> bool;

/// The capture groups (group 0 first) of the first match of `pattern` in
/// `text`, or `None` when there is no match (`regex::Regex::captures`).
pub uninterp spec fn regex_captures(pattern: Seq<char>, text: Seq<char>) -> Option<
    Seq<Option<Seq<char>>>,
>;

/// The capture groups of each successive non-overlapping match of
/// `pattern` in `text` (`regex::Regex::captures_iter`).
pub uninterp spec fn regex_captures_all(pattern: Seq<char>, text: Seq<char>) -> Seq<
    Seq<Option<Seq<char>>>,
>;

/// The number of successive non-overlapping matches of `pattern` in `text`
/// (`regex::Regex::find_iter(..).count()`).
pub uninterp spec fn regex_match_count(pattern: Seq<char>, text: Seq<char>) -> usize;

/// A compiled regular expression and its source.
pub struct Pattern {
    source: String,
    compiled: regex::Regex,
}

impl Pattern {
    /// The source the pattern was compiled from.
    pub closed spec fn source(&self) -> Seq<char> {
        self.source@
    }
}

/// The views of a list of optional capture groups.
pub open spec fn group_views(g: Seq<Option<String>>) -> Seq<Option<Seq<char>>> {
    g.map_values(|o: Option<String>| match o {
        Some(s) => Some(s@),
        None => None,
    })
}

/// Compiles `pattern` with `regex::Regex::new`. On failure the error's
/// message is returned; success and the message are those the crate gives
/// for `pattern`.
#[verifier::external_body]
pub(crate) fn compile(pattern: &str) -> (r: Result<Pattern, String>)
    ensures
        (r is Ok) == (regex_compile_error(pattern@) is None),
        r matches Ok(p) ==> p.source() == pattern@,
        r matches Err(e) ==> regex_compile_error(pattern@) == Some(e@),
{
    match regex::Regex::new(pattern) {
        Ok(compiled) => Ok(Pattern { source: pattern.to_string(), compiled }),
        Err(e) => Err(e.to_string()),
    }
}

/// `regex::Regex::is_match`: whether the pattern matches somewhere in
/// `text`, as [`regex_is_match`] names it for the pattern's source.
#[verifier::external_body]
pub(crate) fn is_match(p: &Pattern, text: &str) -> (b: bool)
    ensures
        b == regex_is_match(p.source(), text@),
{
    p.compiled.is_match(text)
}

/// `regex::Regex::find_iter`, counted: the number of non-overlapping
/// matches in `text`, as [`regex_match_count`] names it.
#[verifier::external_body]
pub(crate) fn match_count(p: &Pattern, text: &str) -> (n: usize)
    ensures
        n == regex_match_count(p.source(), text@),
{
    p.compiled.find_iter(text).count()
}

/// `regex::Regex::captures`: the groups of the first match in `text`, each
/// as an owned string, or `None` without a match, as [`regex_captures`]
/// names them.
#[verifier::external_body]
pub(crate) fn captures(p: &Pattern, text: &str) -> (r: Option<Vec<Option<String>>>)
    ensures
        match r {
            Some(g) => regex_captures(p.source(), text@) == Some(group_views(g@)),
            None => regex_captures(p.source(), text@) is None,
        },
{
    p.compiled.captures(text).map(|c| c.iter().map(|m| m.map(|m| m.as_str().to_string())).collect())
}

/// `regex::Regex::captures_iter`, collected: the groups of each successive
/// match, each as an owned string, as [`regex_captures_all`] names them.
#[verifier::external_body]
pub(crate) fn captures_all(p: &Pattern, text: &str) -> (r: Vec<Vec<Option<String>>>)
    ensures
        r@.len() == regex_captures_all(p.source(), text@).len(),
        forall|i: int|
            0 <= i < r@.len() ==> group_views(#[trigger] r@[i]@) == regex_captures_all(
                p.source(),
                text@,
            )[i],
{
    p.compiled.captures_iter(text).map(|c| c.iter().map(|m| m.map(|m| m.as_str().to_string())).collect()).collect()
}

/// Characters that `regex::escape` prefixes with a backslash.
pub open spec fn is_regex_meta(c: char) -> bool {
    c == '\\' || c == '.' || c == '+' || c == '*' || c == '?' || c == '(' || c == ')' || c == '|'
        || c == '[' || c == ']' || c == '{' || c == '}' || c == '^' || c == '$' || c == '#'
        || c == '&' || c == '-' || c == '~'
}

/// `regex::escape`: each meta character preceded by a backslash.
pub open spec fn escaped(s: Seq<char>) -> Seq<char>
    decreases s.len(),
{
    if s.len() == 0 {
        Seq::empty()
    } else {
        escaped(s.drop_last()) + if is_regex_meta(s.last()) {
            seq!['\\', s.last()]
        } else {
            seq![s.last()]
        }
    }
}

/// `regex::escape`: the text with each meta character preceded by a
/// backslash, as [`escaped`] states it.
#[verifier::external_body]
pub(crate) fn escape(s: &str) -> (r: String)
    ensures
        r@ == escaped(s@),
{
    regex::escape(s)
}

/// The text of capture group `k` of a capture list, when it took part.
pub open spec fn group(g: Seq<Option<Seq<char>>>, k: int) -> Option<Seq<char>> {
    if 0 <= k < g.len() {
        g[k]
    } else {
        None
    }
}

/// Group `k` of a capture list.
pub fn group_at(g: &Vec<Option<String>>, k: usize) -> (r: Option<String>)
    ensures
        match r {
            Some(s) => group(group_views(g@), k as int) == Some(s@),
            None => group(group_views(g@), k as int) is None,
        },
{
    if k < g.len() {
        match &g[k] {
            Some(s) => Some(s.clone()),
            None => None,
        }
    } else {
        None
    }
}

} // verus!
