//! The analysis executor's decisions: how it reads tool and code output,
//! what counts as grep evidence, how a final answer is recovered from the
//! trace, and the steps it records.

use vstd::prelude::*;
use crate::grep_oracle::{classify_spec, infer_spec, GrepOracle};
use crate::json::{
    bool_field, fields_view, json_bool_field, json_object, json_object_text, json_quote, json_str_field, json_string,
    str_field, JsonScalar, JsonScalarView,
};
use crate::oracle::{pairs_view, QueryType};
use crate::payload::{FinalPayload, FinalPayloadView};
use crate::repl::{DslResult, RlmRepl};
use crate::router::RlmStats;
use crate::tools::{dispatch_spec, dispatch_tool_call, RlmToolResult, ToolResultView};
use crate::validator::{step_views, RlmAnalysisResult, SubQuery, TraceStep};
use crate::text::{
    byte_len, chars_of, contains, first_of, join, lines_of, lowercase, lowercase_chars,
    matches_at, owned, parse_usize, parse_usize_spec, push_all, push_str, split_lines,
    split_words, starts_with, string_from, trim, trim_by, trim_end_by, trim_start_by, trimmed,
    utf8_len, views, words,
};

verus! {

/// `value` cut to `max` characters, with `...` appended when something was
/// cut (empty when `max` is zero).
pub open spec fn truncated_spec(value: Seq<char>, max: nat) -> Seq<char> {
    if max == 0 {
        Seq::empty()
    } else if value.len() <= max {
        value
    } else {
        value.take(max as int) + "..."@
    }
}

/// Cuts `value` to `max_chars` characters, appending `...` when something
/// was cut.
pub fn truncate_with_ellipsis(value: &str, max_chars: usize) -> (r: String)
    ensures
        r@ == truncated_spec(value@, max_chars as nat),
{
    if max_chars == 0 {
        return String::new();
    }
    let cs = chars_of(value);
    if cs.len() <= max_chars {
        return owned(value);
    }
    let mut out = string_from(crate::text::slice_to_vec(cs.as_slice(), 0, max_chars).as_slice());
    push_str(&mut out, "...");
    out
}

/// `text` cut to `max` characters, with `...` appended when something was
/// cut.
pub open spec fn clipped_spec(text: Seq<char>, max: nat) -> Seq<char> {
    if text.len() > max {
        text.take(max as int) + "..."@
    } else {
        text
    }
}

/// Cuts `text` to `max` characters, appending `...` when something was
/// cut.
pub fn clipped(text: &str, max: usize) -> (r: String)
    ensures
        r@ == clipped_spec(text@, max as nat),
{
    let cs = chars_of(text);
    if cs.len() > max {
        let mut out = string_from(crate::text::slice_to_vec(cs.as_slice(), 0, max).as_slice());
        push_str(&mut out, "...");
        out
    } else {
        owned(text)
    }
}

/// The byte offset of the character at `char_index` in `value` (the
/// length of `value` when there is no such character).
pub open spec fn byte_index_spec(value: Seq<char>, char_index: nat) -> nat {
    if char_index == 0 {
        0
    } else if char_index < value.len() {
        utf8_len(value.take(char_index as int))
    } else {
        utf8_len(value)
    }
}

/// The byte offset of the character at `char_index` in `value`.
pub fn char_index_to_byte_index(value: &str, char_index: usize) -> (r: usize)
    ensures
        r == byte_index_spec(value@, char_index as nat),
{
    if char_index == 0 {
        return 0;
    }
    let bytes = value.as_bytes();
    let cs = chars_of(value);
    assert(bytes@.len() == utf8_len(value@));
    let k = if char_index < cs.len() {
        char_index
    } else {
        cs.len()
    };
    let prefix = crate::text::slice_to_vec(cs.as_slice(), 0, k);
    proof {
        crate::text::lemma_utf8_len_prefix(value@, k as int);
        assert(value@.take(k as int) =~= prefix@);
        if k == cs.len() {
            assert(value@.take(k as int) =~= value@);
        }
    }
    match crate::text::utf8_len_below(prefix.as_slice(), bytes.len()) {
        Some(b) => b,
        None => bytes.len(),
    }
}

/// A numbered output line `N:text` (`N` may be preceded by `L`s and
/// spaces): its number and text, without a trailing carriage return.
pub open spec fn numbered_output_line(line: Seq<char>) -> Option<(usize, Seq<char>)> {
    let t = trim(line);
    if !t.contains(':') {
        None
    } else {
        let k = first_of(t, ':');
        match parse_usize_spec(trim_start_by(trim(t.take(k)), false, seq!['L'])) {
            Some(n) => Some((n as usize, trim_end_by(t.skip(k + 1), false, seq!['\r']))),
            None => None,
        }
    }
}

/// The numbered lines among `ls`, in order.
pub open spec fn numbered_outputs(ls: Seq<Seq<char>>) -> Seq<(usize, Seq<char>)>
    decreases ls.len(),
{
    if ls.len() == 0 {
        Seq::empty()
    } else {
        let prev = numbered_outputs(ls.drop_last());
        match numbered_output_line(ls.last()) {
            Some(p) => prev.push(p),
            None => prev,
        }
    }
}

/// The numbered lines of an output, in order.
pub open spec fn line_numbered_spec(output: Seq<char>) -> Seq<(usize, Seq<char>)> {
    numbered_outputs(lines_of(output))
}

fn numbered_line(line: &str) -> (r: Option<(usize, String)>)
    ensures
        match r {
            Some(p) => numbered_output_line(line@) == Some((p.0, p.1@)),
            None => numbered_output_line(line@) is None,
        },
{
    let cs = chars_of(line);
    let t = trimmed(cs.as_slice());
    let k = match crate::text::find_char(t.as_slice(), ':') {
        Some(k) => k,
        None => {
            return None;
        },
    };
    let head = crate::text::slice_to_vec(t.as_slice(), 0, k);
    let head_t = trimmed(head.as_slice());
    let ls: Vec<char> = vec!['L'];
    let digits = crate::text::trimmed_start_by(head_t.as_slice(), ls.as_slice());
    let n = match parse_usize(digits.as_slice()) {
        Some(n) => n,
        None => {
            assert(ls@ =~= seq!['L']);
            assert(head@ =~= t@.take(k as int));
            return None;
        },
    };
    let rest = crate::text::slice_to_vec(t.as_slice(), k + 1, t.len());
    let cr: Vec<char> = vec!['\r'];
    let text = crate::text::trimmed_end_by(rest.as_slice(), cr.as_slice());
    proof {
        assert(ls@ =~= seq!['L']);
        assert(cr@ =~= seq!['\r']);
        assert(head@ =~= t@.take(k as int));
        assert(rest@ =~= t@.skip(k + 1));
    }
    Some((n, string_from(text.as_slice())))
}

/// The numbered lines (`N:text`) of an output, in order.
pub fn parse_line_numbered_output(output: &str) -> (r: Vec<(usize, String)>)
    ensures
        crate::oracle::pairs_view(r@) == line_numbered_spec(output@),
{
    let cs = chars_of(output);
    let ls = split_lines(cs.as_slice());
    let ghost lv = lines_of(output@);
    let mut r: Vec<(usize, String)> = Vec::new();
    let mut i: usize = 0;
    while i < ls.len()
        invariant
            i <= ls.len(),
            lv == lines_of(output@),
            views(ls@) == lv,
            crate::oracle::pairs_view(r@) == numbered_outputs(lv.take(i as int)),
        decreases ls.len() - i,
    {
        assert(lv.take(i + 1).drop_last() =~= lv.take(i as int));
        assert(lv.take(i + 1).last() == ls@[i as int]@);
        match numbered_line(ls[i].as_str()) {
            Some(p) => {
                let ghost before = crate::oracle::pairs_view(r@);
                let ghost pv = (p.0, p.1@);
                r.push(p);
                assert(crate::oracle::pairs_view(r@) =~= before.push(pv));
            },
            None => {},
        }
        i += 1;
    }
    assert(lv.take(ls.len() as int) =~= lv);
    r
}

/// The index of the last occurrence of `p` in `s` (meaningful when there
/// is one).
pub open spec fn last_match(s: Seq<char>, p: Seq<char>) -> int {
    choose|i: int| matches_at(s, p, i) && forall|j: int| i < j ==> !matches_at(s, p, j)
}

/// The characters trimmed from a file name.
pub open spec fn file_trim_set() -> Seq<char> {
    seq!['"', '\'', '`', '.', ',']
}

/// The file a query names after its last ` in `: the next word, stripped
/// of quotes, backticks, dots and commas. The position is found in the
/// lowercased query and applied to the query.
pub open spec fn infer_file_spec(query: Seq<char>) -> Option<Seq<char>> {
    let lower = lowercase(query);
    if !contains(lower, " in "@) {
        None
    } else {
        let k = last_match(lower, " in "@) + 4;
        let ws = words(query.skip(if k <= query.len() { k } else { query.len() as int }));
        let first = if ws.len() > 0 {
            ws[0]
        } else {
            Seq::empty()
        };
        let c = trim_by(first, false, file_trim_set());
        if c.len() == 0 {
            None
        } else {
            Some(c)
        }
    }
}

/// The file a query names after its last ` in `, such as `src/main.rs`
/// in `Find all async functions in src/main.rs`.
pub fn infer_file_from_query(query: &str) -> (r: Option<String>)
    ensures
        match r {
            Some(f) => infer_file_spec(query@) == Some(f@),
            None => infer_file_spec(query@) is None,
        },
{
    let qc = chars_of(query);
    let lower = lowercase_chars(qc.as_slice());
    let pat: Vec<char> = vec![' ', 'i', 'n', ' '];
    proof {
        reveal_strlit(" in ");
        assert(pat@ =~= " in "@);
    }
    let idx = match crate::text::rfind(lower.as_slice(), pat.as_slice()) {
        Some(i) => i,
        None => {
            return None;
        },
    };
    proof {
        let c = last_match(lower@, " in "@);
        assert(matches_at(lower@, " in "@, c) && forall|j: int| c < j ==> !matches_at(lower@, " in "@, j));
        if c < idx {
        } else if idx < c {
        }
        assert(c == idx);
    }
    let lim = lower.len();
    assert(idx + 4 <= lim);
    let start = if idx + 4 <= qc.len() {
        idx + 4
    } else {
        qc.len()
    };
    let rest = crate::text::slice_to_vec(qc.as_slice(), start, qc.len());
    assert(rest@ =~= qc@.skip(start as int));
    let ws = split_words(rest.as_slice());
    let first: Vec<char> = if ws.len() > 0 {
        crate::text::slice_to_vec(ws[0].as_slice(), 0, ws[0].len())
    } else {
        Vec::new()
    };
    let set: Vec<char> = vec!['"', '\'', '`', '.', ','];
    assert(set@ =~= file_trim_set());
    let c = crate::text::trimmed_by(first.as_slice(), set.as_slice());
    if ws.len() == 0 {
        assert(first@ =~= Seq::<char>::empty());
    } else {
        assert(first@ =~= words(rest@)[0]);
    }
    if c.len() == 0 {
        None
    } else {
        Some(string_from(c.as_slice()))
    }
}

/// Whether an output is kept whole in a trace: `(no matches)`, or output
/// with numbered lines; anything else is cut to 240 characters.
pub open spec fn stored_output_spec(output: Seq<char>) -> Seq<char> {
    if trim(output) == "(no matches)"@ || line_numbered_spec(output).len() > 0 {
        output
    } else {
        truncated_spec(output, 240)
    }
}

/// The form in which a tool's output is stored in a trace step.
pub fn trace_output_for_storage(output: &str) -> (r: String)
    ensures
        r@ == stored_output_spec(output@),
{
    let cs = chars_of(output);
    let t = trimmed(cs.as_slice());
    let keep = crate::text::eq_str(t.as_slice(), "(no matches)") || parse_line_numbered_output(output).len() > 0;
    if keep {
        owned(output)
    } else {
        truncate_with_ellipsis(output, 240)
    }
}

/// The lines inside code fences, and whether the last fence is open; a
/// line starting with three backticks opens or closes a fence.
pub open spec fn fenced(ls: Seq<Seq<char>>) -> (Seq<Seq<char>>, bool)
    decreases ls.len(),
{
    if ls.len() == 0 {
        (Seq::empty(), false)
    } else {
        let (acc, inside) = fenced(ls.drop_last());
        if starts_with(ls.last(), "```"@) {
            (acc, !inside)
        } else if inside {
            (acc.push(ls.last()), inside)
        } else {
            (acc, inside)
        }
    }
}

/// The starts of lines that look like code.
pub open spec fn code_starts() -> Seq<&'static str> {
    seq![
        "head(",
        "tail(",
        "grep(",
        "count(",
        "llm_query(",
        "ast_query(",
        "FINAL(",
        "let ",
        "const ",
        "print",
        "console.",
    ]
}

/// The lines that, trimmed, look like code.
pub open spec fn code_like(ls: Seq<Seq<char>>) -> Seq<Seq<char>>
    decreases ls.len(),
{
    if ls.len() == 0 {
        Seq::empty()
    } else if crate::text::starts_with_any(trim(ls.last()), code_starts()) {
        code_like(ls.drop_last()).push(ls.last())
    } else {
        code_like(ls.drop_last())
    }
}

/// The code of a model reply: the lines inside code fences, or else the
/// lines that look like code, joined by newlines.
pub open spec fn extract_code_spec(text: Seq<char>) -> Seq<char> {
    let ls = lines_of(text);
    if fenced(ls).0.len() > 0 {
        join(fenced(ls).0, "\n"@)
    } else {
        join(code_like(ls), "\n"@)
    }
}

/// The code of a model reply.
pub fn extract_code(text: &str) -> (r: String)
    ensures
        r@ == extract_code_spec(text@),
{
    let cs = chars_of(text);
    let ls = split_lines(cs.as_slice());
    let ghost lv = lines_of(text@);
    let mut code: Vec<String> = Vec::new();
    let mut like: Vec<String> = Vec::new();
    let mut inside = false;
    let starts: [&str; 11] = [
        "head(",
        "tail(",
        "grep(",
        "count(",
        "llm_query(",
        "ast_query(",
        "FINAL(",
        "let ",
        "const ",
        "print",
        "console.",
    ];
    assert(starts@ == code_starts());
    let mut i: usize = 0;
    while i < ls.len()
        invariant
            i <= ls.len(),
            lv == lines_of(text@),
            views(ls@) == lv,
            starts@ == code_starts(),
            (views(code@), inside) == fenced(lv.take(i as int)),
            views(like@) == code_like(lv.take(i as int)),
        decreases ls.len() - i,
    {
        assert(lv.take(i + 1).drop_last() =~= lv.take(i as int));
        assert(lv.take(i + 1).last() == ls@[i as int]@);
        let lc = chars_of(ls[i].as_str());
        if crate::text::starts_with_str(lc.as_slice(), "```") {
            inside = !inside;
        } else if inside {
            let ghost before = views(code@);
            code.push(ls[i].clone());
            assert(views(code@) =~= before.push(ls@[i as int]@));
        }
        let t = trimmed(lc.as_slice());
        if crate::text::starts_any(t.as_slice(), starts.as_slice()) {
            let ghost before = views(like@);
            like.push(ls[i].clone());
            assert(views(like@) =~= before.push(ls@[i as int]@));
        }
        i += 1;
    }
    assert(lv.take(ls.len() as int) =~= lv);
    if code.len() > 0 {
        crate::text::join_strings(&code, "\n")
    } else {
        crate::text::join_strings(&like, "\n")
    }
}

/// The content of a trace step: iteration, action and output.
pub type StepView = (usize, Seq<char>, Seq<char>);

/// A step shows grep evidence: a grep call, or output that is `(no
/// matches)` or has numbered lines.
pub open spec fn step_evidence(s: StepView) -> bool {
    contains(s.1, "grep("@) || contains(s.1, "rlm_grep("@) || contains(s.2, "(no matches)"@)
        || line_numbered_spec(s.2).len() > 0
}

/// Some step shows grep evidence.
pub open spec fn has_evidence_spec(steps: Seq<StepView>) -> bool {
    exists|i: int| 0 <= i < steps.len() && #[trigger] step_evidence(steps[i])
}

fn step_shows_evidence(step: &crate::validator::TraceStep) -> (b: bool)
    ensures
        b == step_evidence((step.iteration, step.action@, step.output@)),
{
    let a = chars_of(step.action.as_str());
    let o = chars_of(step.output.as_str());
    crate::text::contains_str(a.as_slice(), "grep(") || crate::text::contains_str(a.as_slice(), "rlm_grep(")
        || crate::text::contains_str(o.as_slice(), "(no matches)") || parse_line_numbered_output(
        step.output.as_str(),
    ).len() > 0
}

/// Whether any trace step shows grep evidence.
pub fn has_pattern_evidence(steps: &Vec<crate::validator::TraceStep>) -> (b: bool)
    ensures
        b == has_evidence_spec(crate::validator::step_views(steps@)),
{
    let ghost sv = crate::validator::step_views(steps@);
    let mut i: usize = 0;
    while i < steps.len()
        invariant
            i <= steps.len(),
            sv == crate::validator::step_views(steps@),
            forall|k: int| 0 <= k < i ==> !#[trigger] step_evidence(sv[k]),
        decreases steps.len() - i,
    {
        if step_shows_evidence(&steps[i]) {
            assert(step_evidence(sv[i as int]));
            return true;
        }
        i += 1;
    }
    false
}

/// A step records a grep call.
pub open spec fn is_grep_step(s: StepView) -> bool {
    contains(s.1, "grep("@) || contains(s.1, "rlm_grep("@)
}

/// The matches of the latest grep step that settles the question: `(no matches)`
/// gives none, numbered output gives its lines; steps without either are
/// passed over.
pub open spec fn latest_grep(steps: Seq<StepView>) -> Option<Seq<(usize, Seq<char>)>>
    decreases steps.len(),
{
    if steps.len() == 0 {
        None
    } else {
        let s = steps.last();
        if is_grep_step(s) && trim(s.2) == "(no matches)"@ {
            Some(Seq::empty())
        } else if is_grep_step(s) && line_numbered_spec(s.2).len() > 0 {
            Some(line_numbered_spec(s.2))
        } else {
            latest_grep(steps.drop_last())
        }
    }
}

/// The numbered lines of the latest step whose output has some.
pub open spec fn latest_numbered(steps: Seq<StepView>) -> Option<Seq<(usize, Seq<char>)>>
    decreases steps.len(),
{
    if steps.len() == 0 {
        None
    } else if line_numbered_spec(steps.last().2).len() > 0 {
        Some(line_numbered_spec(steps.last().2))
    } else {
        latest_numbered(steps.drop_last())
    }
}

/// The matches the trace last found: those of the latest grep step, or
/// else the numbered lines of the latest step that has some.
pub open spec fn latest_matches_spec(steps: Seq<StepView>) -> Option<Seq<(usize, Seq<char>)>> {
    match latest_grep(steps) {
        Some(m) => Some(m),
        None => latest_numbered(steps),
    }
}

/// The matches the trace last found.
pub fn extract_latest_grep_matches(steps: &Vec<crate::validator::TraceStep>) -> (r: Option<Vec<(usize, String)>>)
    ensures
        match r {
            Some(v) => latest_matches_spec(crate::validator::step_views(steps@)) == Some(crate::oracle::pairs_view(v@)),
            None => latest_matches_spec(crate::validator::step_views(steps@)) is None,
        },
{
    let ghost sv = crate::validator::step_views(steps@);
    let mut i: usize = steps.len();
    assert(sv.take(steps.len() as int) =~= sv);
    while i > 0
        invariant
            i <= steps.len(),
            sv == crate::validator::step_views(steps@),
            latest_grep(sv) == latest_grep(sv.take(i as int)),
        decreases i,
    {
        let ghost pre = sv.take(i as int);
        assert(pre.drop_last() =~= sv.take(i - 1));
        assert(pre.last() == sv[i - 1]);
        let step = &steps[i - 1];
        let a = chars_of(step.action.as_str());
        let grep_step = crate::text::contains_str(a.as_slice(), "grep(") || crate::text::contains_str(
            a.as_slice(),
            "rlm_grep(",
        );
        if grep_step {
            let o = chars_of(step.output.as_str());
            let t = trimmed(o.as_slice());
            if crate::text::eq_str(t.as_slice(), "(no matches)") {
                let v: Vec<(usize, String)> = Vec::new();
                assert(crate::oracle::pairs_view(v@) =~= Seq::<(usize, Seq<char>)>::empty());
                return Some(v);
            }
            let parsed = parse_line_numbered_output(step.output.as_str());
            if parsed.len() > 0 {
                return Some(parsed);
            }
        }
        i -= 1;
    }
    assert(sv.take(0) =~= Seq::<StepView>::empty());
    let mut j: usize = steps.len();
    assert(sv.take(steps.len() as int) =~= sv);
    while j > 0
        invariant
            j <= steps.len(),
            sv == crate::validator::step_views(steps@),
            latest_grep(sv) is None,
            latest_numbered(sv) == latest_numbered(sv.take(j as int)),
        decreases j,
    {
        let ghost pre = sv.take(j as int);
        assert(pre.drop_last() =~= sv.take(j - 1));
        assert(pre.last() == sv[j - 1]);
        let parsed = parse_line_numbered_output(steps[j - 1].output.as_str());
        if parsed.len() > 0 {
            return Some(parsed);
        }
        j -= 1;
    }
    assert(sv.take(0) =~= Seq::<StepView>::empty());
    None
}

/// The index of the first occurrence of `p` in `s` (meaningful when there
/// is one).
pub open spec fn first_match(s: Seq<char>, p: Seq<char>) -> int {
    choose|i: int| matches_at(s, p, i) && forall|j: int| 0 <= j < i ==> !matches_at(s, p, j)
}

/// The answer of a processed result: what follows its first blank line
/// (the whole text when there is none), trimmed.
pub open spec fn answer_text_spec(processed: Seq<char>) -> Seq<char> {
    if contains(processed, "\n\n"@) {
        trim(processed.skip(first_match(processed, "\n\n"@) + 2))
    } else {
        trim(processed)
    }
}

/// The answer of a processed result, without its header.
pub fn answer_text(processed: &str) -> (r: String)
    ensures
        r@ == answer_text_spec(processed@),
{
    let cs = chars_of(processed);
    let sep: Vec<char> = vec!['\n', '\n'];
    proof {
        reveal_strlit("\n\n");
        assert(sep@ =~= "\n\n"@);
    }
    match crate::text::find(cs.as_slice(), sep.as_slice()) {
        Some(i) => {
            proof {
                let c = first_match(cs@, "\n\n"@);
                assert(matches_at(cs@, "\n\n"@, c) && forall|j: int| 0 <= j < c ==> !matches_at(cs@, "\n\n"@, j));
                assert(c == i);
            }
            let lim = cs.len();
            assert(i + 2 <= lim);
            let rest = crate::text::slice_to_vec(cs.as_slice(), i + 2, cs.len());
            assert(rest@ =~= cs@.skip(i + 2));
            string_from(trimmed(rest.as_slice()).as_slice())
        },
        None => string_from(trimmed(cs.as_slice()).as_slice()),
    }
}

/// The file a coerced payload names: the one the query names, or
/// `unknown`.
pub open spec fn file_of_query(query: Seq<char>) -> Seq<char> {
    match infer_file_spec(query) {
        Some(f) => f,
        None => "unknown"@,
    }
}

/// The grep payload a trace supports for a pattern-match query: the file
/// the query names, the pattern it implies and the matches the trace last
/// found.
pub open spec fn coerce_spec(query: Seq<char>, steps: Seq<StepView>) -> Option<
    (Seq<char>, Seq<char>, Seq<(usize, Seq<char>)>),
> {
    if classify_spec(query) != QueryType::PatternMatch {
        None
    } else {
        match infer_spec(query) {
            None => None,
            Some(p) => match latest_matches_spec(steps) {
                None => None,
                Some(ms) => Some((file_of_query(query), p, ms)),
            },
        }
    }
}

/// The JSON text of a claimed match.
pub open spec fn match_json(m: (usize, Seq<char>)) -> Seq<char> {
    "{\"line\":"@ + decimal_of(m.0) + ",\"text\":"@ + json_string(m.1) + "}"@
}

/// The decimal text of `n`.
pub open spec fn decimal_of(n: usize) -> Seq<char> {
    crate::text::decimal(n as nat)
}

/// The JSON text of a grep payload, fields in the order `kind`, `file`,
/// `pattern`, `matches`.
pub open spec fn grep_payload_json(file: Seq<char>, pattern: Seq<char>, ms: Seq<(usize, Seq<char>)>) -> Seq<char> {
    "{\"kind\":\"grep\",\"file\":"@ + json_string(file) + ",\"pattern\":"@ + json_string(pattern)
        + ",\"matches\":["@ + join(ms.map_values(|m: (usize, Seq<char>)| match_json(m)), ","@) + "]}"@
}

/// Writes the JSON text of a grep payload.
pub fn grep_payload_text(file: &str, pattern: &str, ms: &Vec<(usize, String)>) -> (r: String)
    ensures
        r@ == grep_payload_json(file@, pattern@, pairs_view(ms@)),
{
    let ghost mv = pairs_view(ms@);
    let mut items: Vec<String> = Vec::new();
    let mut i: usize = 0;
    while i < ms.len()
        invariant
            i <= ms.len(),
            mv == pairs_view(ms@),
            views(items@) == mv.take(i as int).map_values(|m: (usize, Seq<char>)| match_json(m)),
        decreases ms.len() - i,
    {
        let mut t = owned("{\"line\":");
        push_str(&mut t, crate::text::decimal_string(ms[i].0).as_str());
        push_str(&mut t, ",\"text\":");
        push_str(&mut t, json_quote(ms[i].1.as_str()).as_str());
        push_str(&mut t, "}");
        let ghost before = views(items@);
        assert(mv[i as int] == (ms@[i as int].0, ms@[i as int].1@));
        items.push(t);
        assert(views(items@) =~= before.push(match_json(mv[i as int])));
        assert(mv.take(i + 1).map_values(|m: (usize, Seq<char>)| match_json(m)) =~= mv.take(i as int).map_values(
            |m: (usize, Seq<char>)| match_json(m),
        ).push(match_json(mv[i as int])));
        i += 1;
    }
    assert(mv.take(ms.len() as int) =~= mv);
    let mut r = owned("{\"kind\":\"grep\",\"file\":");
    push_str(&mut r, json_quote(file).as_str());
    push_str(&mut r, ",\"pattern\":");
    push_str(&mut r, json_quote(pattern).as_str());
    push_str(&mut r, ",\"matches\":[");
    push_str(&mut r, crate::text::join_strings(&items, ",").as_str());
    push_str(&mut r, "]}");
    r
}

/// The grep payload the trace supports for a pattern-match query, as
/// file, pattern and matches.
pub fn coerce_grep_payload_from_trace(query: &str, steps: &Vec<TraceStep>) -> (r: Option<(String, String, Vec<(usize, String)>)>)
    ensures
        match r {
            Some(x) => coerce_spec(query@, step_views(steps@)) == Some((x.0@, x.1@, pairs_view(x.2@))),
            None => coerce_spec(query@, step_views(steps@)) is None,
        },
{
    match GrepOracle::classify_query(query) {
        QueryType::PatternMatch => {},
        _ => {
            return None;
        },
    }
    let pattern = match GrepOracle::infer_pattern(query) {
        Some(p) => p,
        None => {
            return None;
        },
    };
    let matches = match extract_latest_grep_matches(steps) {
        Some(m) => m,
        None => {
            return None;
        },
    };
    let file = match infer_file_from_query(query) {
        Some(f) => f,
        None => owned("unknown"),
    };
    Some((file, pattern, matches))
}

/// The iteration of the last step, or 1.
pub open spec fn last_iteration(steps: Seq<StepView>) -> usize {
    if steps.len() > 0 {
        steps.last().0
    } else {
        1
    }
}

/// The answer an analysis ends with, from its raw final text (parsed as
/// `parsed`): for a pattern-match query whose trace found matches, the
/// canonical grep payload of those matches replaces a non-grep payload,
/// and a grep payload that differs from it; with the step that records
/// the replacement.
pub open spec fn structured_final_spec(
    query: Seq<char>,
    raw: Seq<char>,
    parsed: FinalPayloadView,
    steps: Seq<StepView>,
) -> (Seq<char>, Option<StepView>) {
    match coerce_spec(query, steps) {
        None => (raw, None),
        Some((f, p, ms)) => {
            let canonical = grep_payload_json(f, p, ms);
            let it = last_iteration(steps);
            match parsed {
                FinalPayloadView::Grep(_, _, _) => if parsed == FinalPayloadView::Grep(f, p, ms) {
                    (raw, None)
                } else {
                    (canonical, Some((it, "normalize_final_payload(grep_trace)"@, truncated_spec(canonical, 240))))
                },
                _ => (canonical, Some((it, "coerce_final_payload(grep_trace)"@, truncated_spec(canonical, 240)))),
            }
        },
    }
}

fn same_grep_payload(g: &crate::payload::GrepPayload, file: &String, pattern: &String, ms: &Vec<(usize, String)>) -> (b: bool)
    ensures
        b == (FinalPayloadView::Grep(g.file@, g.pattern@, crate::payload::grep_match_views(g.matches@))
            == FinalPayloadView::Grep(file@, pattern@, pairs_view(ms@))),
{
    if !(g.file == *file) || !(g.pattern == *pattern) || g.matches.len() != ms.len() {
        proof {
            if g.matches.len() != ms.len() {
                assert(crate::payload::grep_match_views(g.matches@).len() != pairs_view(ms@).len());
            }
        }
        return false;
    }
    let ghost a = crate::payload::grep_match_views(g.matches@);
    let ghost b = pairs_view(ms@);
    let mut i: usize = 0;
    while i < ms.len()
        invariant
            i <= ms.len(),
            g.matches.len() == ms.len(),
            a == crate::payload::grep_match_views(g.matches@),
            b == pairs_view(ms@),
            forall|k: int| 0 <= k < i ==> a[k] == b[k],
        decreases ms.len() - i,
    {
        if g.matches[i].line != ms[i].0 || !(g.matches[i].text == ms[i].1) {
            assert(a[i as int] != b[i as int]);
            return false;
        }
        i += 1;
    }
    assert(a =~= b);
    true
}

/// Makes sure an analysis ends with a structured payload: returns the
/// answer, and the step that records a replacement when there is one.
pub fn ensure_structured_final_payload(
    query: &str,
    raw_final_text: String,
    parsed: &FinalPayload,
    steps: &Vec<TraceStep>,
) -> (r: (String, Option<TraceStep>))
    ensures
        r.0@ == structured_final_spec(query@, raw_final_text@, parsed@, step_views(steps@)).0,
        match r.1 {
            Some(s) => structured_final_spec(query@, raw_final_text@, parsed@, step_views(steps@)).1 == Some(
                (s.iteration, s.action@, s.output@),
            ),
            None => structured_final_spec(query@, raw_final_text@, parsed@, step_views(steps@)).1 is None,
        },
{
    let (file, pattern, matches) = match coerce_grep_payload_from_trace(query, steps) {
        Some(x) => x,
        None => {
            return (raw_final_text, None);
        },
    };
    let canonical = grep_payload_text(file.as_str(), pattern.as_str(), &matches);
    let iteration = if steps.len() > 0 {
        steps[steps.len() - 1].iteration
    } else {
        1
    };
    proof {
        if steps@.len() > 0 {
            assert(step_views(steps@).last() == (steps@.last().iteration, steps@.last().action@, steps@.last().output@));
        }
    }
    match parsed {
        FinalPayload::Grep(g) => {
            if same_grep_payload(g, &file, &pattern, &matches) {
                (raw_final_text, None)
            } else {
                let output = truncate_with_ellipsis(canonical.as_str(), 240);
                let step = TraceStep { iteration, action: owned("normalize_final_payload(grep_trace)"), output };
                (canonical, Some(step))
            }
        },
        _ => {
            let output = truncate_with_ellipsis(canonical.as_str(), 240);
            let step = TraceStep { iteration, action: owned("coerce_final_payload(grep_trace)"), output };
            (canonical, Some(step))
        },
    }
}

/// The analysis system prompt for a context of `bytes` bytes and `lines`
/// lines whose first lines are `preview`.
pub open spec fn analysis_prompt_spec(bytes: nat, lines: nat, preview: Seq<char>) -> Seq<char> {
    "You are a code analysis assistant. Answer questions by examining the provided context.\n\nCRITICAL OUTPUT CONTRACT:\n- Your final response MUST be exactly one FINAL(<json>) call.\n- Never end with prose and never use FINAL(\"...\").\n- For pattern/grep queries, you MUST run grep/head/tail first. Never guess line numbers or matches.\n- The JSON inside FINAL(...) MUST match one of these shapes:\n1) {\"kind\":\"grep\",\"file\":\"<path>\",\"pattern\":\"<regex>\",\"matches\":[{\"line\":123,\"text\":\"...\"}]}\n2) {\"kind\":\"ast\",\"file\":\"<path>\",\"query\":\"<tree-sitter query>\",\"results\":[{\"name\":\"...\",\"args\":[],\"return_type\":null,\"span\":[1,2]}]}\n3) {\"kind\":\"semantic\",\"file\":\"<path>\",\"answer\":\"...\"} (only if deterministic payload is impossible)\n- For grep/list/find/count style queries, emit kind=grep with exact line-numbered matches.\n\nAvailable commands:\n- head(n), tail(n): See first/last n lines\n- grep(\"pattern\"): Search for patterns\n- ast_query(\"s-expr\"): Tree-sitter AST query (e.g., '(function_item name: (identifier) @name)')\n- llm_query(\"question\"): Ask a focused sub-question\n- FINAL({\"kind\":\"...\", ...}): Return your final structured payload (REQUIRED)\n\nThe context has "@ + crate::text::decimal(bytes) + " chars across "@ + crate::text::decimal(lines) + " lines. A preview follows:\n\n"@ + preview + "\n\nExample final response:\nFINAL({\"kind\":\"grep\",\"file\":\"src/rlm/repl.rs\",\"pattern\":\"async fn\",\"matches\":[{\"line\":570,\"text\":\"pub async fn analyze(...)\"}]})\n\nNow analyze the context. Use 1-2 commands if needed, then call FINAL() with valid JSON payload."@
}

/// The argument text of a call line: between its first `(` and its last
/// `)` (the end of the line when there is none).
pub open spec fn call_args(line: Seq<char>) -> Seq<char> {
    let start = first_of(line, '(') + 1;
    let end = if line.contains(')') {
        crate::text::last_of(line, ')')
    } else {
        line.len() as int
    };
    line.subrange(start, end)
}

/// The line has a `(`, and no `)` before its first `(`.
pub open spec fn call_well_formed(line: Seq<char>) -> bool {
    &&& line.contains('(')
    &&& line.contains(')') ==> crate::text::last_of(line, ')') >= first_of(line, '(') + 1
}

/// The split of call arguments so far: finished parts, the current part,
/// and whether a quote is open. Quotes (single or double) toggle; a comma
/// outside quotes ends a part, which is trimmed.
pub open spec fn arg_scan(cs: Seq<char>) -> (Seq<Seq<char>>, Seq<char>, bool)
    decreases cs.len(),
{
    if cs.len() == 0 {
        (Seq::empty(), Seq::empty(), false)
    } else {
        let (ps, cur, q) = arg_scan(cs.drop_last());
        let c = cs.last();
        if c == '"' || c == '\'' {
            (ps, cur.push(c), !q)
        } else if c == ',' && !q {
            (ps.push(trim(cur)), Seq::empty(), q)
        } else {
            (ps, cur.push(c), q)
        }
    }
}

/// The comma-separated parts of call arguments, trimmed.
pub open spec fn split_args(args: Seq<char>) -> Seq<Seq<char>> {
    let (ps, cur, _) = arg_scan(args);
    if cur.len() > 0 {
        ps.push(trim(cur))
    } else {
        ps
    }
}

/// The question of an `llm_query(...)` line: its first argument without
/// surrounding quotes.
pub open spec fn llm_question(line: Seq<char>) -> Seq<char> {
    let ps = split_args(call_args(line));
    if ps.len() > 0 {
        trim_by(ps[0], false, seq!['"', '\''])
    } else {
        Seq::empty()
    }
}

/// The context expression of an `llm_query(...)` line: its second
/// argument, if any.
pub open spec fn llm_context_expr(line: Seq<char>) -> Option<Seq<char>> {
    let ps = split_args(call_args(line));
    if ps.len() > 1 {
        Some(ps[1])
    } else {
        None
    }
}

/// The context an evaluated expression gives: none when it is empty or
/// starts with `[`.
pub open spec fn context_of_value(c: Seq<char>) -> Option<Seq<char>> {
    if c.len() > 0 && c[0] != '[' {
        Some(c)
    } else {
        None
    }
}

/// The comma-separated parts of call arguments.
pub fn split_args_of(args: &[char]) -> (r: Vec<String>)
    ensures
        views(r@) == split_args(args@),
{
    let mut parts: Vec<String> = Vec::new();
    let mut cur: Vec<char> = Vec::new();
    let mut q = false;
    let mut i: usize = 0;
    assert(args@.take(0) =~= Seq::<char>::empty());
    while i < args.len()
        invariant
            i <= args.len(),
            (views(parts@), cur@, q) == arg_scan(args@.take(i as int)),
        decreases args.len() - i,
    {
        let ghost pre = args@.take(i + 1);
        assert(pre.drop_last() =~= args@.take(i as int));
        assert(pre.last() == args@[i as int]);
        let c = args[i];
        if c == '"' || c == '\'' {
            cur.push(c);
            q = !q;
        } else if c == ',' && !q {
            let ghost before = views(parts@);
            let t = trimmed(cur.as_slice());
            parts.push(string_from(t.as_slice()));
            assert(views(parts@) =~= before.push(trim(cur@)));
            cur = Vec::new();
            assert(cur@ =~= Seq::<char>::empty());
        } else {
            cur.push(c);
        }
        i += 1;
    }
    assert(args@.take(args.len() as int) =~= args@);
    if cur.len() > 0 {
        let ghost before = views(parts@);
        let t = trimmed(cur.as_slice());
        parts.push(string_from(t.as_slice()));
        assert(views(parts@) =~= before.push(trim(cur@)));
    }
    parts
}

/// The argument text of a call line.
pub fn call_args_exec(cs: &[char]) -> (r: Vec<char>)
    requires
        call_well_formed(cs@),
    ensures
        r@ == call_args(cs@),
{
    let open = match crate::text::find_char(cs, '(') {
        Some(i) => i,
        None => {
            return Vec::new();
        },
    };
    let end = match crate::text::rfind_char(cs, ')') {
        Some(j) => j,
        None => cs.len(),
    };
    crate::text::slice_to_vec(cs, open + 1, end)
}

/// Reads an `llm_query("question", context?)` line: the question, and the
/// context its second argument evaluates to in the REPL (none when that is
/// empty or starts with `[`).
pub fn parse_llm_query(line: &str, repl: &mut RlmRepl) -> (r: (String, Option<String>))
    requires
        call_well_formed(line@),
        old(repl).wf(),
    ensures
        *final(repl) == *old(repl),
        r.0@ == llm_question(line@),
        llm_context_expr(line@) is None ==> r.1 is None,
        llm_context_expr(line@) matches Some(e) ==> crate::payload::text_opt(r.1) == context_of_value(
            crate::repl::eval_spec(old(repl)@, e),
        ),
{
    let cs = chars_of(line);
    let args = call_args_exec(cs.as_slice());
    let parts = split_args_of(args.as_slice());
    let quotes: Vec<char> = vec!['"', '\''];
    assert(quotes@ =~= seq!['"', '\'']);
    let query = if parts.len() > 0 {
        let p0 = chars_of(parts[0].as_str());
        string_from(crate::text::trimmed_by(p0.as_slice(), quotes.as_slice()).as_slice())
    } else {
        String::new()
    };
    let context = if parts.len() > 1 {
        let c = repl.evaluate_expression(parts[1].as_str());
        let cc = chars_of(c.as_str());
        if cc.len() > 0 && cc[0] != '[' {
            Some(c)
        } else {
            None
        }
    } else {
        None
    };
    (query, context)
}

/// The trace step of an analysis run by the engine: `rlm_engine(query)`
/// (the query cut to 120 characters) with the answer (cut to 240), at the
/// run's iteration count (at least 1).
pub fn engine_trace_step(query: &str, answer: &str, iterations: usize) -> (s: TraceStep)
    ensures
        s.iteration == if iterations == 0 { 1 } else { iterations },
        s.action@ == "rlm_engine("@ + clipped_spec(query@, 120) + ")"@,
        s.output@ == clipped_spec(answer@, 240),
{
    let mut action = owned("rlm_engine(");
    push_str(&mut action, clipped(query, 120).as_str());
    push_str(&mut action, ")");
    TraceStep { iteration: if iterations == 0 { 1 } else { iterations }, action, output: clipped(answer, 240) }
}

/// The tool arguments an engine run is given: the JSON object whose one
/// field `query` is the query.
pub fn engine_tool_args(query: &str) -> (r: String)
    ensures
        r@ == json_object_text(seq![("query"@, JsonScalarView::Str(query@))]),
        json_str_field(r@, "query"@) == Some(query@),
{
    let mut fields: Vec<(String, JsonScalar)> = Vec::new();
    fields.push((owned("query"), JsonScalar::Str(owned(query))));
    assert(fields_view(fields@) =~= seq![("query"@, JsonScalarView::Str(query@))]);
    let r = json_object(&fields);
    assert(fields@[0].0@ == "query"@);
    r
}

/// The analysis result of an engine run: the answer without the result's
/// header, one sub-query for the whole run, the run's counts and the
/// elapsed time.
pub fn engine_analysis_result(query: &str, processed: &str, stats: &RlmStats, elapsed_ms: u64) -> (r: RlmAnalysisResult)
    ensures
        r.answer@ == answer_text_spec(processed@),
        r.iterations == stats.iterations,
        r.sub_queries@.len() == 1,
        r.sub_queries@[0].query@ == query@,
        r.sub_queries@[0].context_slice is None,
        r.sub_queries@[0].response@ == answer_text_spec(processed@),
        r.sub_queries@[0].tokens_used == stats.output_tokens,
        r.stats.input_tokens == stats.input_tokens,
        r.stats.output_tokens == stats.output_tokens,
        r.stats.iterations == stats.iterations,
        r.stats.subcalls == stats.subcalls,
        r.stats.elapsed_ms == elapsed_ms,
{
    let answer = answer_text(processed);
    let mut subs: Vec<SubQuery> = Vec::new();
    subs.push(SubQuery { query: owned(query), context_slice: None, response: answer.clone(), tokens_used: stats.output_tokens });
    RlmAnalysisResult {
        answer,
        iterations: stats.iterations,
        sub_queries: subs,
        stats: RlmStats {
            input_tokens: stats.input_tokens,
            output_tokens: stats.output_tokens,
            iterations: stats.iterations,
            subcalls: stats.subcalls,
            elapsed_ms,
        },
    }
}

} // verus!
