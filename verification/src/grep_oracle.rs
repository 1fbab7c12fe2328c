//! Grep-based oracle for pattern-match verification.
//!
//! Verifies FINAL() answers that claim to find patterns in source code by
//! running the inferred pattern over the source and comparing results.

use vstd::prelude::*;
use crate::oracle::{
    parse_answer, pairs_view, AnswerFormatView, FinalAnswerFormat, QueryType,
};
use crate::pattern::{
    captures, compile, escape, escaped, group, group_at, group_views, is_match, regex_captures,
    regex_compile_error, regex_is_match, Pattern,
};
use crate::text::{
    chars_of, contains_any, contains_one_of, lines_of, lowercase, lowercase_chars, parse_usize,
    parse_usize_spec, push_str, split_lines, string_from, trim, trim_by, trimmed, trimmed_by,
    views,
};

verus! {

/// Result of grep oracle verification.
#[derive(Debug, Clone, PartialEq)]
pub enum GrepVerification {
    /// The answer matches the ground truth exactly.
    ExactMatch,
    /// The answer matches, in a different order.
    UnorderedMatch,
    /// The answer is a subset of the ground truth: it claims fewer items
    /// than there are.
    SubsetMatch { claimed: usize, actual: usize },
    /// The answer claims lines that the ground truth lacks.
    HasFalsePositives { false_positives: Vec<(usize, String)> },
    /// The answer misses lines of the ground truth.
    HasFalseNegatives { false_negatives: Vec<(usize, String)> },
    /// The answer is completely different.
    Mismatch,
    /// The answer could not be checked.
    CannotVerify { reason: String },
}

/// The mathematical content of a [`GrepVerification`].
pub enum GrepVerificationView {
    ExactMatch,
    UnorderedMatch,
    SubsetMatch(usize, usize),
    HasFalsePositives(Seq<(usize, Seq<char>)>),
    HasFalseNegatives(Seq<(usize, Seq<char>)>),
    Mismatch,
    CannotVerify(Seq<char>),
}

impl View for GrepVerification {
    type V = GrepVerificationView;

    open spec fn view(&self) -> GrepVerificationView {
        match self {
            GrepVerification::ExactMatch => GrepVerificationView::ExactMatch,
            GrepVerification::UnorderedMatch => GrepVerificationView::UnorderedMatch,
            GrepVerification::SubsetMatch { claimed, actual } => GrepVerificationView::SubsetMatch(
                *claimed,
                *actual,
            ),
            GrepVerification::HasFalsePositives { false_positives } =>
                GrepVerificationView::HasFalsePositives(pairs_view(false_positives@)),
            GrepVerification::HasFalseNegatives { false_negatives } =>
                GrepVerificationView::HasFalseNegatives(pairs_view(false_negatives@)),
            GrepVerification::Mismatch => GrepVerificationView::Mismatch,
            GrepVerification::CannotVerify { reason } => GrepVerificationView::CannotVerify(reason@),
        }
    }
}

/// Grep-based oracle over one source file.
pub struct GrepOracle {
    source: String,
    source_lines: Vec<String>,
}

/// Phrases that mark a pattern-match query.
pub open spec fn pattern_match_phrases() -> Seq<&'static str> {
    seq!["find all", "list all", "search for", "grep", "lines matching", "occurrences of", "count"]
}

/// Phrases that mark a structure query.
pub open spec fn structure_phrases() -> Seq<&'static str> {
    seq!["signature", "parameters", "return type", "fields of", "implements", "trait"]
}

/// `GrepOracle::classify_query`, on the lowercase query.
pub open spec fn classify_spec(query: Seq<char>) -> QueryType {
    let lower = lowercase(query);
    if contains_any(lower, pattern_match_phrases()) {
        QueryType::PatternMatch
    } else if contains_any(lower, structure_phrases()) {
        QueryType::Structure
    } else {
        QueryType::Semantic
    }
}

/// A quoted literal after `occurrences of`, `grep`, `matching` or `containing`.
pub open spec fn quoted_after_verb_regex() -> Seq<char> {
    "(?i)(?:occurrences?\\s+of|grep(?:\\s+for)?|matching|containing)\\s+['\"`]([^'\"`]+)['\"`]"@
}

/// Any quoted literal.
pub open spec fn any_quoted_regex() -> Seq<char> {
    "['\"`]([^'\"`]+)['\"`]"@
}

/// An unquoted `occurrences of X in ...`.
pub open spec fn bare_occurrences_regex() -> Seq<char> {
    "(?i)occurrences?\\s+of\\s+(.+?)(?:\\s+in\\b|$)"@
}

/// Query phrasings and the grep patterns they stand for, in order.
pub open spec fn phrase_patterns() -> Seq<(&'static str, &'static str)> {
    seq![
        ("(?i)find\\s+all\\s+async\\s+functions?", "\\basync\\s+fn\\b"),
        ("(?i)list\\s+async\\s+functions?", "\\basync\\s+fn\\b"),
        ("(?i)async\\s+functions?", "\\basync\\s+fn\\b"),
        ("(?i)public\\s+functions?", "\\bpub\\s+fn\\b"),
        ("(?i)pub\\s+functions?", "\\bpub\\s+fn\\b"),
        ("(?i)find\\s+all\\s+structs?", "\\bstruct\\b"),
        ("(?i)list\\s+structs?", "\\bstruct\\b"),
        ("(?i)all\\s+structs?", "\\bstruct\\b"),
        ("(?i)find\\s+all\\s+enums?", "\\benum\\b"),
        ("(?i)list\\s+enums?", "\\benum\\b"),
        ("(?i)find\\s+all\\s+traits?", "\\btrait\\b"),
        ("(?i)list\\s+traits?", "\\btrait\\b"),
        ("(?i)find\\s+all\\s+impls?", "\\bimpl\\b"),
        ("(?i)implementations?", "\\bimpl\\b"),
        ("(?i)error\\s+handling", "Result|anyhow|Error|\\?"),
        ("(?i)unwrap\\s+calls?", "\\.unwrap\\(\\)"),
        ("(?i)expect\\s+calls?", "\\.expect\\("),
        ("(?i)use\\s+statements?", "\\buse\\b"),
        ("(?i)imports?", "\\buse\\b"),
        ("(?i)test\\s+functions?", "#\\[test\\]"),
        ("(?i)async\\s+tests?", "#\\[tokio::test\\]"),
        ("(?i)todo\\s+comments?", "TODO|FIXME|XXX"),
        ("(?i)comments?", "//|/\\*"),
        ("(?i)macro\\s+calls?", "[a-zA-Z_]+!"),
        ("(?i)println!?", "println!"),
        ("(?i)string\\s+literals?", "\"[^\"]*\""),
    ]
}

/// The grep pattern of the first phrasing (that compiles) matching `lower`.
pub open spec fn phrase_pattern(table: Seq<(&'static str, &'static str)>, lower: Seq<char>) -> Option<
    Seq<char>,
>
    decreases table.len(),
{
    if table.len() == 0 {
        None
    } else if regex_compile_error(table[0].0@) is None && regex_is_match(table[0].0@, lower) {
        Some(table[0].1@)
    } else {
        phrase_pattern(table.drop_first(), lower)
    }
}

/// Capture group 1 of the first match of `pattern` in `text`.
pub open spec fn first_group(pattern: Seq<char>, text: Seq<char>) -> Option<Seq<char>> {
    match regex_captures(pattern, text) {
        Some(g) => group(g, 1),
        None => None,
    }
}

/// The quote characters trimmed from a bare literal.
pub open spec fn quote_chars() -> Seq<char> {
    seq!['"', '\'', '`']
}

/// `GrepOracle::infer_pattern`: an escaped quoted or bare literal, else the
/// pattern of a known phrasing. A pattern of the procedure that does not
/// compile ends it with `None`.
pub open spec fn infer_spec(query: Seq<char>) -> Option<Seq<char>> {
    if regex_compile_error(quoted_after_verb_regex()) is Some {
        None
    } else if first_group(quoted_after_verb_regex(), query) is Some {
        Some(escaped(first_group(quoted_after_verb_regex(), query).unwrap()))
    } else if regex_compile_error(any_quoted_regex()) is Some {
        None
    } else if first_group(any_quoted_regex(), query) is Some {
        Some(escaped(first_group(any_quoted_regex(), query).unwrap()))
    } else if regex_compile_error(bare_occurrences_regex()) is Some {
        None
    } else if first_group(bare_occurrences_regex(), query) is Some && trim_by(
        trim(first_group(bare_occurrences_regex(), query).unwrap()),
        false,
        quote_chars(),
    ).len() > 0 {
        Some(
            escaped(
                trim_by(trim(first_group(bare_occurrences_regex(), query).unwrap()), false, quote_chars()),
            ),
        )
    } else {
        phrase_pattern(phrase_patterns(), lowercase(query))
    }
}

/// The lines (numbered from 1) of `lines` that `pattern` matches.
pub open spec fn grep_lines(pattern: Seq<char>, lines: Seq<Seq<char>>) -> Seq<(usize, Seq<char>)>
    decreases lines.len(),
{
    if lines.len() == 0 {
        Seq::empty()
    } else {
        let prev = grep_lines(pattern, lines.drop_last());
        if regex_is_match(pattern, lines.last()) {
            prev.push((lines.len() as usize, lines.last()))
        } else {
            prev
        }
    }
}

/// The items of `c` that `t` lacks, in order.
pub open spec fn absent_from(c: Seq<(usize, Seq<char>)>, t: Seq<(usize, Seq<char>)>) -> Seq<
    (usize, Seq<char>),
>
    decreases c.len(),
{
    if c.len() == 0 {
        Seq::empty()
    } else {
        let prev = absent_from(c.drop_last(), t);
        if t.contains(c.last()) {
            prev
        } else {
            prev.push(c.last())
        }
    }
}

/// `c` and `t` hold the same items.
pub open spec fn same_items(c: Seq<(usize, Seq<char>)>, t: Seq<(usize, Seq<char>)>) -> bool {
    forall|x: (usize, Seq<char>)| c.contains(x) <==> t.contains(x)
}

/// `GrepOracle::verify_matches`.
pub open spec fn verify_matches_spec(c: Seq<(usize, Seq<char>)>, t: Seq<(usize, Seq<char>)>) -> GrepVerificationView {
    if c == t {
        GrepVerificationView::ExactMatch
    } else if same_items(c, t) {
        GrepVerificationView::UnorderedMatch
    } else {
        let fp = absent_from(c, t);
        let fneg = absent_from(t, c);
        if fp.len() > 0 && fneg.len() > 0 {
            GrepVerificationView::Mismatch
        } else if fp.len() > 0 {
            GrepVerificationView::HasFalsePositives(fp)
        } else if fneg.len() > 0 {
            GrepVerificationView::HasFalseNegatives(fneg)
        } else {
            GrepVerificationView::Mismatch
        }
    }
}

/// Grep verification reports a match (exact or unordered) exactly when the
/// claimed items and the ground-truth items are the same set: an answer
/// that leaves out a ground-truth item, or claims one that is not there,
/// is never a match.
pub proof fn law_match_means_same_items(c: Seq<(usize, Seq<char>)>, t: Seq<(usize, Seq<char>)>)
    ensures
        (verify_matches_spec(c, t) is ExactMatch || verify_matches_spec(c, t) is UnorderedMatch) <==> (forall|
            x: (usize, Seq<char>),
        | c.contains(x) <==> t.contains(x)),
{
    if c == t {
        assert forall|x: (usize, Seq<char>)| c.contains(x) <==> t.contains(x) by {}
    }
}

/// A line reference in free text: `line 42: text`, `L42: text` or `42: text`.
pub open spec fn line_reference_regex() -> Seq<char> {
    "(?i)(?:line\\s+|L)?(\\d+):\\s*(.+)"@
}

/// The line references of one line of free text.
pub open spec fn line_reference(line: Seq<char>) -> Option<(usize, Seq<char>)> {
    match regex_captures(line_reference_regex(), line) {
        Some(g) => match (group(g, 1), group(g, 2)) {
            (Some(num), Some(content)) => match parse_usize_spec(num) {
                Some(n) => Some((n as usize, trim(content))),
                None => None,
            },
            _ => None,
        },
        None => None,
    }
}

/// The line references of each line of free text, in order.
pub open spec fn line_references(ls: Seq<Seq<char>>) -> Seq<(usize, Seq<char>)>
    decreases ls.len(),
{
    if ls.len() == 0 {
        Seq::empty()
    } else {
        match line_reference(ls.last()) {
            Some(m) => line_references(ls.drop_last()).push(m),
            None => line_references(ls.drop_last()),
        }
    }
}

/// `extract_line_numbers_from_text`: `None` when the pattern does not
/// compile or no line gives a reference.
pub open spec fn extracted_lines(text: Seq<char>) -> Option<Seq<(usize, Seq<char>)>> {
    if regex_compile_error(line_reference_regex()) is Some {
        None
    } else if line_references(lines_of(text)).len() == 0 {
        None
    } else {
        Some(line_references(lines_of(text)))
    }
}

/// What `verify` concludes from the parsed answer and the ground truth.
pub open spec fn judge_spec(format: AnswerFormatView, truth: Seq<(usize, Seq<char>)>) -> GrepVerificationView {
    match format {
        AnswerFormatView::LineNumberedMatches(claimed) => verify_matches_spec(claimed, truth),
        AnswerFormatView::CountResult(n) => if n == truth.len() {
            GrepVerificationView::ExactMatch
        } else if n < truth.len() {
            GrepVerificationView::SubsetMatch(n, truth.len() as usize)
        } else {
            GrepVerificationView::Mismatch
        },
        AnswerFormatView::StructuredData(_) => GrepVerificationView::CannotVerify(
            "Structured data not supported by grep oracle"@,
        ),
        AnswerFormatView::FreeFormText(text) => match extracted_lines(text) {
            Some(claimed) => verify_matches_spec(claimed, truth),
            None => GrepVerificationView::CannotVerify(
                "Could not extract line numbers from free-form text"@,
            ),
        },
    }
}

/// `GrepOracle::verify` over the lines of the source.
pub open spec fn verify_spec(lines: Seq<Seq<char>>, answer: Seq<char>, query: Seq<char>) -> GrepVerificationView {
    let pattern = match infer_spec(query) {
        Some(p) => Some(p),
        None => infer_spec(answer),
    };
    match pattern {
        None => GrepVerificationView::CannotVerify("Could not infer grep pattern from query"@),
        Some(p) => match regex_compile_error(p) {
            Some(e) => GrepVerificationView::CannotVerify("Grep failed: "@ + e),
            None => judge_spec(parse_answer(answer), grep_lines(p, lines)),
        },
    }
}

proof fn lemma_absent_from_empty(c: Seq<(usize, Seq<char>)>, t: Seq<(usize, Seq<char>)>)
    ensures
        absent_from(c, t).len() == 0 <==> forall|x: (usize, Seq<char>)| c.contains(x) ==> t.contains(x),
    decreases c.len(),
{
    if c.len() > 0 {
        lemma_absent_from_empty(c.drop_last(), t);
        if absent_from(c, t).len() == 0 {
            assert forall|x: (usize, Seq<char>)| c.contains(x) implies t.contains(x) by {
                let i = choose|i: int| 0 <= i < c.len() && c[i] == x;
                if i < c.len() - 1 {
                    assert(c.drop_last()[i] == x);
                }
            }
        } else {
            if !t.contains(c.last()) {
                assert(c.contains(c.last()));
            } else {
                let x = choose|x: (usize, Seq<char>)| c.drop_last().contains(x) && !t.contains(x);
                let i = choose|i: int| 0 <= i < c.drop_last().len() && c.drop_last()[i] == x;
                assert(c[i] == x);
            }
        }
    }
}

fn pairs_contain(t: &[(usize, String)], x: &(usize, String)) -> (b: bool)
    ensures
        b == pairs_view(t@).contains((x.0, x.1@)),
{
    let mut i: usize = 0;
    while i < t.len()
        invariant
            i <= t.len(),
            forall|k: int| 0 <= k < i ==> pairs_view(t@)[k] != (x.0, x.1@),
        decreases t.len() - i,
    {
        if t[i].0 == x.0 && t[i].1 == x.1 {
            assert(pairs_view(t@)[i as int] == (x.0, x.1@));
            return true;
        }
        i += 1;
    }
    false
}

fn absent_items(c: &[(usize, String)], t: &[(usize, String)]) -> (r: Vec<(usize, String)>)
    ensures
        pairs_view(r@) == absent_from(pairs_view(c@), pairs_view(t@)),
{
    let mut r: Vec<(usize, String)> = Vec::new();
    let mut i: usize = 0;
    assert(pairs_view(c@).take(0) =~= Seq::<(usize, Seq<char>)>::empty());
    while i < c.len()
        invariant
            i <= c.len(),
            pairs_view(r@) == absent_from(pairs_view(c@).take(i as int), pairs_view(t@)),
        decreases c.len() - i,
    {
        let ghost cs = pairs_view(c@).take(i + 1);
        assert(cs.drop_last() =~= pairs_view(c@).take(i as int));
        assert(cs.last() == (c@[i as int].0, c@[i as int].1@));
        if !pairs_contain(t, &c[i]) {
            let ghost before = r@;
            r.push((c[i].0, c[i].1.clone()));
            assert(pairs_view(r@) =~= pairs_view(before).push(cs.last()));
        }
        i += 1;
    }
    assert(pairs_view(c@).take(c.len() as int) =~= pairs_view(c@));
    r
}

fn pairs_equal(c: &[(usize, String)], t: &[(usize, String)]) -> (b: bool)
    ensures
        b == (pairs_view(c@) == pairs_view(t@)),
{
    if c.len() != t.len() {
        assert(pairs_view(c@).len() != pairs_view(t@).len());
        return false;
    }
    let mut i: usize = 0;
    while i < c.len()
        invariant
            i <= c.len(),
            c.len() == t.len(),
            forall|k: int| 0 <= k < i ==> pairs_view(c@)[k] == pairs_view(t@)[k],
        decreases c.len() - i,
    {
        if c[i].0 != t[i].0 || c[i].1 != t[i].1 {
            assert(pairs_view(c@)[i as int] != pairs_view(t@)[i as int]);
            return false;
        }
        i += 1;
    }
    assert(pairs_view(c@) =~= pairs_view(t@));
    true
}

impl GrepOracle {
    /// The lines of the source.
    pub closed spec fn lines(&self) -> Seq<Seq<char>> {
        views(self.source_lines@)
    }

    /// The source text.
    pub closed spec fn source(&self) -> Seq<char> {
        self.source@
    }

    /// Creates an oracle for the given source file content.
    pub fn new(source: String) -> (r: Self)
        ensures
            r.source() == source@,
            r.lines() == lines_of(source@),
    {
        let cs = chars_of(source.as_str());
        let source_lines = split_lines(cs.as_slice());
        GrepOracle { source, source_lines }
    }

    /// Classifies a query by its keywords.
    pub fn classify_query(query: &str) -> (r: QueryType)
        ensures
            r == classify_spec(query@),
    {
        let q = chars_of(query);
        let lower = lowercase_chars(q.as_slice());
        let pm = vec!["find all", "list all", "search for", "grep", "lines matching", "occurrences of", "count"];
        assert(pm@ =~= pattern_match_phrases());
        if contains_one_of(lower.as_slice(), pm.as_slice()) {
            return QueryType::PatternMatch;
        }
        let st = vec!["signature", "parameters", "return type", "fields of", "implements", "trait"];
        assert(st@ =~= structure_phrases());
        if contains_one_of(lower.as_slice(), st.as_slice()) {
            return QueryType::Structure;
        }
        QueryType::Semantic
    }

    fn first_group_of(pattern: &str, text: &str) -> (r: Result<Option<String>, ()>)
        ensures
            regex_compile_error(pattern@) is Some <==> r is Err,
            r matches Ok(o) ==> match o {
                Some(s) => first_group(pattern@, text@) == Some(s@),
                None => first_group(pattern@, text@) is None,
            },
    {
        let re = match compile(pattern) {
            Ok(re) => re,
            Err(_) => {
                return Err(());
            },
        };
        match captures(&re, text) {
            Some(g) => Ok(group_at(&g, 1)),
            None => Ok(None),
        }
    }

    /// Infers a grep pattern from a query, if it can be inferred reliably.
    pub fn infer_pattern(query: &str) -> (r: Option<String>)
        ensures
            match r {
                Some(p) => infer_spec(query@) == Some(p@),
                None => infer_spec(query@) is None,
            },
    {
        match Self::first_group_of(
            "(?i)(?:occurrences?\\s+of|grep(?:\\s+for)?|matching|containing)\\s+['\"`]([^'\"`]+)['\"`]",
            query,
        ) {
            Err(_) => {
                return None;
            },
            Ok(Some(m)) => {
                return Some(escape(m.as_str()));
            },
            Ok(None) => {},
        }
        match Self::first_group_of("['\"`]([^'\"`]+)['\"`]", query) {
            Err(_) => {
                return None;
            },
            Ok(Some(m)) => {
                return Some(escape(m.as_str()));
            },
            Ok(None) => {},
        }
        match Self::first_group_of("(?i)occurrences?\\s+of\\s+(.+?)(?:\\s+in\\b|$)", query) {
            Err(_) => {
                return None;
            },
            Ok(Some(m)) => {
                let mc = chars_of(m.as_str());
                let t = trimmed(mc.as_slice());
                let quotes: Vec<char> = vec!['"', '\'', '`'];
                assert(quotes@ =~= quote_chars());
                let candidate = trimmed_by(t.as_slice(), quotes.as_slice());
                if candidate.len() > 0 {
                    let c = string_from(candidate.as_slice());
                    return Some(escape(c.as_str()));
                }
            },
            Ok(None) => {},
        }
        let q = chars_of(query);
        let lower_cs = lowercase_chars(q.as_slice());
        let lower = string_from(lower_cs.as_slice());
        let table = vec![
            ("(?i)find\\s+all\\s+async\\s+functions?", "\\basync\\s+fn\\b"),
            ("(?i)list\\s+async\\s+functions?", "\\basync\\s+fn\\b"),
            ("(?i)async\\s+functions?", "\\basync\\s+fn\\b"),
            ("(?i)public\\s+functions?", "\\bpub\\s+fn\\b"),
            ("(?i)pub\\s+functions?", "\\bpub\\s+fn\\b"),
            ("(?i)find\\s+all\\s+structs?", "\\bstruct\\b"),
            ("(?i)list\\s+structs?", "\\bstruct\\b"),
            ("(?i)all\\s+structs?", "\\bstruct\\b"),
            ("(?i)find\\s+all\\s+enums?", "\\benum\\b"),
            ("(?i)list\\s+enums?", "\\benum\\b"),
            ("(?i)find\\s+all\\s+traits?", "\\btrait\\b"),
            ("(?i)list\\s+traits?", "\\btrait\\b"),
            ("(?i)find\\s+all\\s+impls?", "\\bimpl\\b"),
            ("(?i)implementations?", "\\bimpl\\b"),
            ("(?i)error\\s+handling", "Result|anyhow|Error|\\?"),
            ("(?i)unwrap\\s+calls?", "\\.unwrap\\(\\)"),
            ("(?i)expect\\s+calls?", "\\.expect\\("),
            ("(?i)use\\s+statements?", "\\buse\\b"),
            ("(?i)imports?", "\\buse\\b"),
            ("(?i)test\\s+functions?", "#\\[test\\]"),
            ("(?i)async\\s+tests?", "#\\[tokio::test\\]"),
            ("(?i)todo\\s+comments?", "TODO|FIXME|XXX"),
            ("(?i)comments?", "//|/\\*"),
            ("(?i)macro\\s+calls?", "[a-zA-Z_]+!"),
            ("(?i)println!?", "println!"),
            ("(?i)string\\s+literals?", "\"[^\"]*\""),
        ];
        assert(table@ =~= phrase_patterns());
        let mut i: usize = 0;
        assert(table@.skip(0) =~= table@);
        while i < table.len()
            invariant
                i <= table.len(),
                table@ == phrase_patterns(),
                lower@ == lowercase(query@),
                infer_spec(query@) == phrase_pattern(phrase_patterns(), lower@),
                phrase_pattern(table@.skip(i as int), lower@) == phrase_pattern(phrase_patterns(), lower@),
            decreases table.len() - i,
        {
            let (pattern_re, grep_pattern) = table[i];
            assert(table@.skip(i as int)[0] == table@[i as int]);
            assert(table@.skip(i as int).drop_first() =~= table@.skip(i + 1));
            if let Ok(re) = compile(pattern_re) {
                if is_match(&re, lower.as_str()) {
                    let mut out = String::new();
                    push_str(&mut out, grep_pattern);
                    return Some(out);
                }
            }
            i += 1;
        }
        None
    }

    /// Runs `pattern` over the source and returns the matching lines with
    /// their numbers (from 1); the error is the pattern's compile error.
    pub fn grep(&self, pattern: &str) -> (r: Result<Vec<(usize, String)>, String>)
        ensures
            match r {
                Ok(v) => regex_compile_error(pattern@) is None && pairs_view(v@) == grep_lines(
                    pattern@,
                    self.lines(),
                ),
                Err(e) => regex_compile_error(pattern@) == Some(e@),
            },
    {
        let re = match compile(pattern) {
            Ok(re) => re,
            Err(e) => {
                return Err(e);
            },
        };
        let mut out: Vec<(usize, String)> = Vec::new();
        let mut i: usize = 0;
        assert(self.lines().take(0) =~= Seq::<Seq<char>>::empty());
        while i < self.source_lines.len()
            invariant
                i <= self.source_lines.len(),
                re.source() == pattern@,
                pairs_view(out@) == grep_lines(pattern@, self.lines().take(i as int)),
            decreases self.source_lines.len() - i,
        {
            let ghost ls = self.lines().take(i + 1);
            assert(ls.drop_last() =~= self.lines().take(i as int));
            assert(ls.last() == self.source_lines@[i as int]@);
            if is_match(&re, self.source_lines[i].as_str()) {
                let ghost before = out@;
                out.push((i + 1, self.source_lines[i].clone()));
                assert(pairs_view(out@) =~= pairs_view(before).push(((i + 1) as usize, ls.last())));
            }
            i += 1;
        }
        assert(self.lines().take(self.source_lines.len() as int) =~= self.lines());
        Ok(out)
    }

    /// Verifies claimed matches against the ground truth.
    pub fn verify_matches(&self, claimed: &[(usize, String)], ground_truth: &[(usize, String)]) -> (r:
        GrepVerification)
        ensures
            r@ == verify_matches_spec(pairs_view(claimed@), pairs_view(ground_truth@)),
    {
        if pairs_equal(claimed, ground_truth) {
            return GrepVerification::ExactMatch;
        }
        let false_positives = absent_items(claimed, ground_truth);
        let false_negatives = absent_items(ground_truth, claimed);
        proof {
            lemma_absent_from_empty(pairs_view(claimed@), pairs_view(ground_truth@));
            lemma_absent_from_empty(pairs_view(ground_truth@), pairs_view(claimed@));
        }
        if false_positives.len() == 0 && false_negatives.len() == 0 {
            assert(pairs_view(false_positives@).len() == 0);
            assert(pairs_view(false_negatives@).len() == 0);
            return GrepVerification::UnorderedMatch;
        }
        assert(pairs_view(false_positives@).len() == false_positives@.len());
        assert(pairs_view(false_negatives@).len() == false_negatives@.len());
        if false_positives.len() > 0 && false_negatives.len() > 0 {
            GrepVerification::Mismatch
        } else if false_positives.len() > 0 {
            GrepVerification::HasFalsePositives { false_positives }
        } else {
            GrepVerification::HasFalseNegatives { false_negatives }
        }
    }

    /// Line references (`line 42: text`, `L42: text`, `42: text`) in free text.
    fn extract_line_numbers_from_text(&self, text: &str) -> (r: Option<Vec<(usize, String)>>)
        ensures
            match r {
                Some(v) => extracted_lines(text@) == Some(pairs_view(v@)),
                None => extracted_lines(text@) is None,
            },
    {
        let re = match compile("(?i)(?:line\\s+|L)?(\\d+):\\s*(.+)") {
            Ok(re) => re,
            Err(_) => {
                return None;
            },
        };
        let cs = chars_of(text);
        let lines = split_lines(cs.as_slice());
        let mut results: Vec<(usize, String)> = Vec::new();
        let mut i: usize = 0;
        assert(views(lines@).take(0) =~= Seq::<Seq<char>>::empty());
        while i < lines.len()
            invariant
                i <= lines.len(),
                re.source() == line_reference_regex(),
                views(lines@) == lines_of(text@),
                pairs_view(results@) == line_references(views(lines@).take(i as int)),
            decreases lines.len() - i,
        {
            let ghost ls = views(lines@).take(i + 1);
            assert(ls.drop_last() =~= views(lines@).take(i as int));
            assert(ls.last() == lines@[i as int]@);
            if let Some(g) = captures(&re, lines[i].as_str()) {
                let num = group_at(&g, 1);
                let content = group_at(&g, 2);
                if let (Some(num), Some(content)) = (num, content) {
                    let nd = chars_of(num.as_str());
                    if let Some(n) = parse_usize(nd.as_slice()) {
                        let cc = chars_of(content.as_str());
                        let t = trimmed(cc.as_slice());
                        let ghost before = results@;
                        results.push((n, string_from(t.as_slice())));
                        assert(pairs_view(results@) =~= pairs_view(before).push((n, trim(content@))));
                    }
                }
            }
            i += 1;
        }
        assert(views(lines@).take(lines.len() as int) =~= views(lines@));
        if results.len() == 0 {
            assert(pairs_view(results@).len() == 0);
            None
        } else {
            Some(results)
        }
    }

    /// What `verify` concludes from a parsed answer and the ground truth.
    pub fn judge(&self, format: &FinalAnswerFormat, ground_truth: &[(usize, String)]) -> (r:
        GrepVerification)
        ensures
            r@ == judge_spec(format@, pairs_view(ground_truth@)),
    {
        match format {
            FinalAnswerFormat::LineNumberedMatches { matches } => self.verify_matches(
                matches.as_slice(),
                ground_truth,
            ),
            FinalAnswerFormat::CountResult { count } => {
                if *count == ground_truth.len() {
                    GrepVerification::ExactMatch
                } else if *count < ground_truth.len() {
                    GrepVerification::SubsetMatch { claimed: *count, actual: ground_truth.len() }
                } else {
                    GrepVerification::Mismatch
                }
            },
            FinalAnswerFormat::StructuredData { .. } => {
                let mut reason = String::new();
                push_str(&mut reason, "Structured data not supported by grep oracle");
                GrepVerification::CannotVerify { reason }
            },
            FinalAnswerFormat::FreeFormText { text } => {
                match self.extract_line_numbers_from_text(text.as_str()) {
                    Some(extracted) => self.verify_matches(extracted.as_slice(), ground_truth),
                    None => {
                        let mut reason = String::new();
                        push_str(&mut reason, "Could not extract line numbers from free-form text");
                        GrepVerification::CannotVerify { reason }
                    },
                }
            },
        }
    }

    /// Verifies a FINAL() answer against the ground truth: infers the
    /// pattern from the query (or the answer), greps, and compares.
    pub fn verify(&self, answer: &str, query: &str) -> (r: GrepVerification)
        ensures
            r@ == verify_spec(self.lines(), answer@, query@),
    {
        let format = FinalAnswerFormat::parse(answer);
        let pattern = match Self::infer_pattern(query) {
            Some(p) => p,
            None => match Self::infer_pattern(answer) {
                Some(p) => p,
                None => {
                    let mut reason = String::new();
                    push_str(&mut reason, "Could not infer grep pattern from query");
                    return GrepVerification::CannotVerify { reason };
                },
            },
        };
        let ground_truth = match self.grep(pattern.as_str()) {
            Ok(m) => m,
            Err(e) => {
                let mut reason = String::new();
                push_str(&mut reason, "Grep failed: ");
                push_str(&mut reason, e.as_str());
                return GrepVerification::CannotVerify { reason };
            },
        };
        self.judge(&format, ground_truth.as_slice())
    }
}

} // verus!
