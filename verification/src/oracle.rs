//! Classification of queries and of FINAL() answers for the deterministic
//! oracles that validate analysis traces.

use vstd::prelude::*;
use crate::pattern::{captures_all, compile, group, group_at, group_views, regex_captures_all,
    regex_compile_error};
use crate::text::{
    chars_of, contains, contains_str, find_char, first_of, lines_of, lowercase, lowercase_chars,
    parse_usize, parse_usize_spec, slice_to_vec, split_lines, starts_with, starts_with_str, trim,
    trim_bounds, trim_start_by, trimmed, views,
};

verus! {

/// Query type, for routing to the appropriate oracle.
#[derive(Debug, Clone, Copy, PartialEq, Eq, Structural)]
pub enum QueryType {
    /// Pattern-match query (grep-based: line numbers, text matches).
    PatternMatch,
    /// Structure query (AST-based: function signatures, struct fields).
    Structure,
    /// Semantic query (no deterministic oracle).
    Semantic,
}

/// Whether `serde_json` parses `text` as a JSON value.
pub uninterp spec fn json_parses(text: Seq<char>) -> bool;

/// `serde_json::from_str::<serde_json::Value>(text).is_ok()`: whether the
/// text parses as JSON, as [`json_parses`] names it.
#[verifier::external_body]
pub(crate) fn parses_as_json(text: &str) -> (b: bool)
    ensures
        b == json_parses(text@),
{
    serde_json::from_str::<serde_json::Value>(text).is_ok()
}

/// Classification of a FINAL() answer.
#[derive(Debug, Clone, PartialEq)]
pub enum FinalAnswerFormat {
    /// Line-numbered matches such as `42:async fn foo()`.
    LineNumberedMatches { matches: Vec<(usize, String)> },
    /// A count such as `Found 15 occurrences`.
    CountResult { count: usize },
    /// Structured data: the answer text, which parses as JSON.
    StructuredData { data: String },
    /// Free-form text (no deterministic verification).
    FreeFormText { text: String },
}

/// The mathematical content of a [`FinalAnswerFormat`].
pub enum AnswerFormatView {
    LineNumberedMatches(Seq<(usize, Seq<char>)>),
    CountResult(usize),
    StructuredData(Seq<char>),
    FreeFormText(Seq<char>),
}

/// The views of line-numbered pairs.
pub open spec fn pairs_view(v: Seq<(usize, String)>) -> Seq<(usize, Seq<char>)> {
    v.map_values(|p: (usize, String)| (p.0, p.1@))
}

impl View for FinalAnswerFormat {
    type V = AnswerFormatView;

    open spec fn view(&self) -> AnswerFormatView {
        match self {
            FinalAnswerFormat::LineNumberedMatches { matches } => AnswerFormatView::LineNumberedMatches(
                pairs_view(matches@),
            ),
            FinalAnswerFormat::CountResult { count } => AnswerFormatView::CountResult(*count),
            FinalAnswerFormat::StructuredData { data } => AnswerFormatView::StructuredData(data@),
            FinalAnswerFormat::FreeFormText { text } => AnswerFormatView::FreeFormText(text@),
        }
    }
}

/// One line of a line-numbered answer (`42:text`, `42: text`, `L42: text`):
/// `None` rejects the answer, `Some(None)` is a blank line.
pub open spec fn numbered_line(line: Seq<char>) -> Option<Option<(usize, Seq<char>)>> {
    let t = trim(line);
    if t.contains(':') {
        let c = first_of(t, ':');
        match parse_usize_spec(trim(trim_start_by(trim(t.take(c)), false, seq!['L']))) {
            Some(n) => Some(Some((n as usize, trim(t.skip(c + 1))))),
            None => None,
        }
    } else if t.len() == 0 {
        Some(None)
    } else {
        None
    }
}

/// The matches of a line-numbered answer, or `None` when a line is not one.
pub open spec fn numbered_lines(ls: Seq<Seq<char>>) -> Option<Seq<(usize, Seq<char>)>>
    decreases ls.len(),
{
    if ls.len() == 0 {
        Some(Seq::empty())
    } else {
        match numbered_lines(ls.drop_last()) {
            None => None,
            Some(acc) => match numbered_line(ls.last()) {
                None => None,
                Some(None) => Some(acc),
                Some(Some(m)) => Some(acc.push(m)),
            },
        }
    }
}

/// The pattern that finds a count in natural language.
pub open spec fn count_regex() -> Seq<char> {
    "(?i)(?:found|count:?\\s*)\\s*(\\d+)|(\\d+)\\s+(?:functions?|matches?|occurrences?|items?|results?)"@
}

/// The number a capture group gives, when it took part and parses.
pub open spec fn group_number(g: Seq<Option<Seq<char>>>, k: int) -> Option<nat> {
    match group(g, k) {
        Some(t) => parse_usize_spec(t),
        None => None,
    }
}

/// The first count found in successive matches: group 1, then group 2.
pub open spec fn count_in_captures(caps: Seq<Seq<Option<Seq<char>>>>) -> Option<usize>
    decreases caps.len(),
{
    if caps.len() == 0 {
        None
    } else if group_number(caps[0], 1) is Some {
        Some(group_number(caps[0], 1).unwrap() as usize)
    } else if group_number(caps[0], 2) is Some {
        Some(group_number(caps[0], 2).unwrap() as usize)
    } else {
        count_in_captures(caps.drop_first())
    }
}

/// The count a text states, such as `Found 3 matches`: the first number
/// that the count pattern captures, when it fits a `usize`.
pub open spec fn count_in_text(text: Seq<char>) -> Option<usize> {
    if regex_compile_error(count_regex()) is Some {
        None
    } else {
        count_in_captures(regex_captures_all(count_regex(), text))
    }
}

/// The lowercase answer speaks of a count.
pub open spec fn mentions_count(lower: Seq<char>) -> bool {
    contains(lower, "found"@) || contains(lower, "count:"@) || contains(lower, "occurrences"@)
}

/// How an answer reads: line-numbered matches, then a count, then JSON,
/// then free-form text.
pub open spec fn parse_answer(answer: Seq<char>) -> AnswerFormatView {
    let nl = numbered_lines(lines_of(answer));
    if nl is Some && nl.unwrap().len() > 0 {
        AnswerFormatView::LineNumberedMatches(nl.unwrap())
    } else if mentions_count(lowercase(answer)) && count_in_text(answer) is Some {
        AnswerFormatView::CountResult(count_in_text(answer).unwrap())
    } else if (starts_with(trim(answer), "{"@) || starts_with(trim(answer), "["@)) && json_parses(
        answer,
    ) {
        AnswerFormatView::StructuredData(answer)
    } else {
        AnswerFormatView::FreeFormText(answer)
    }
}

fn parse_numbered_line(line: &[char]) -> (r: Option<Option<(usize, String)>>)
    ensures
        match numbered_line(line@) {
            None => r is None,
            Some(None) => r == Some(None::<(usize, String)>),
            Some(Some(m)) => r matches Some(Some(p)) && p.0 == m.0 && p.1@ == m.1,
        },
{
    let t = trimmed(line);
    match find_char(t.as_slice(), ':') {
        Some(c) => {
            let head = slice_to_vec(t.as_slice(), 0, c);
            let head = trimmed(head.as_slice());
            let ls: Vec<char> = vec!['L'];
            let (a, _) = trim_bounds(head.as_slice(), false, ls.as_slice());
            let stripped = slice_to_vec(head.as_slice(), a, head.len());
            let num = trimmed(stripped.as_slice());
            assert(head@.skip(a as int) =~= stripped@);
            assert(ls@ =~= seq!['L']);
            assert(t@.subrange(0, c as int) =~= t@.take(c as int));
            match parse_usize(num.as_slice()) {
                Some(n) => {
                    let rest = slice_to_vec(t.as_slice(), c + 1, t.len());
                    assert(t@.subrange(c + 1, t@.len() as int) =~= t@.skip(c + 1));
                    let text = trimmed(rest.as_slice());
                    let s = crate::text::string_from(text.as_slice());
                    Some(Some((n, s)))
                },
                None => None,
            }
        },
        None => {
            if t.len() == 0 {
                Some(None)
            } else {
                None
            }
        },
    }
}

fn parse_numbered_lines(lines: &Vec<String>) -> (r: Option<Vec<(usize, String)>>)
    ensures
        match numbered_lines(views(lines@)) {
            None => r is None,
            Some(ms) => r matches Some(v) && pairs_view(v@) == ms,
        },
{
    let mut out: Vec<(usize, String)> = Vec::new();
    let mut i: usize = 0;
    assert(views(lines@).take(0) =~= Seq::<Seq<char>>::empty());
    while i < lines.len()
        invariant
            i <= lines.len(),
            numbered_lines(views(lines@).take(i as int)) == Some(pairs_view(out@)),
        decreases lines.len() - i,
    {
        let cs = chars_of(lines[i].as_str());
        let ghost ls = views(lines@).take(i + 1);
        assert(ls.drop_last() =~= views(lines@).take(i as int));
        assert(ls.last() == cs@);
        match parse_numbered_line(cs.as_slice()) {
            None => {
                proof {
                    lemma_numbered_lines_none_extends(views(lines@), i as int + 1);
                }
                return None;
            },
            Some(None) => {},
            Some(Some(m)) => {
                let ghost before = out@;
                out.push(m);
                assert(pairs_view(out@) =~= pairs_view(before).push((m.0, m.1@)));
            },
        }
        i += 1;
    }
    assert(views(lines@).take(lines.len() as int) =~= views(lines@));
    Some(out)
}

proof fn lemma_numbered_lines_none_extends(ls: Seq<Seq<char>>, k: int)
    requires
        0 <= k <= ls.len(),
        numbered_lines(ls.take(k)) is None,
    ensures
        numbered_lines(ls) is None,
    decreases ls.len() - k,
{
    if k < ls.len() {
        assert(ls.take(k + 1).drop_last() =~= ls.take(k));
        lemma_numbered_lines_none_extends(ls, k + 1);
    } else {
        assert(ls.take(k) =~= ls);
    }
}

/// Extracts a count from natural language such as `Found 15 async
/// functions` or `count: 42`.
pub fn extract_count_from_text(text: &str) -> (r: Option<usize>)
    ensures
        r == count_in_text(text@),
{
    let re = match compile(
        "(?i)(?:found|count:?\\s*)\\s*(\\d+)|(\\d+)\\s+(?:functions?|matches?|occurrences?|items?|results?)",
    ) {
        Ok(re) => re,
        Err(_) => {
            return None;
        },
    };
    let caps = captures_all(&re, text);
    let ghost all = regex_captures_all(count_regex(), text@);
    let mut i: usize = 0;
    assert(all.skip(0) =~= all);
    while i < caps.len()
        invariant
            i <= caps.len(),
            caps@.len() == all.len(),
            forall|k: int| 0 <= k < caps@.len() ==> group_views(#[trigger] caps@[k]@) == all[k],
            count_in_captures(all.skip(i as int)) == count_in_text(text@),
        decreases caps.len() - i,
    {
        let g = &caps[i];
        assert(all.skip(i as int)[0] == group_views(g@));
        assert(all.skip(i as int).drop_first() =~= all.skip(i + 1));
        if let Some(m) = group_at(g, 1) {
            let d = chars_of(m.as_str());
            if let Some(n) = parse_usize(d.as_slice()) {
                return Some(n);
            }
        }
        if let Some(m) = group_at(g, 2) {
            let d = chars_of(m.as_str());
            if let Some(n) = parse_usize(d.as_slice()) {
                return Some(n);
            }
        }
        i += 1;
    }
    None
}

impl FinalAnswerFormat {
    /// Parses a FINAL() answer into its classified format.
    pub fn parse(answer: &str) -> (r: Self)
        ensures
            r@ == parse_answer(answer@),
    {
        let cs = chars_of(answer);
        let lines = split_lines(cs.as_slice());
        if let Some(matches) = parse_numbered_lines(&lines) {
            if matches.len() > 0 {
                return FinalAnswerFormat::LineNumberedMatches { matches };
            }
        }
        let lower = lowercase_chars(cs.as_slice());
        if contains_str(lower.as_slice(), "found") || contains_str(lower.as_slice(), "count:")
            || contains_str(lower.as_slice(), "occurrences") {
            if let Some(count) = extract_count_from_text(answer) {
                return FinalAnswerFormat::CountResult { count };
            }
        }
        let t = trimmed(cs.as_slice());
        if starts_with_str(t.as_slice(), "{") || starts_with_str(t.as_slice(), "[") {
            if parses_as_json(answer) {
                return FinalAnswerFormat::StructuredData { data: crate::text::string_from(cs.as_slice()) };
            }
        }
        FinalAnswerFormat::FreeFormText { text: crate::text::string_from(cs.as_slice()) }
    }
}

} // verus!
