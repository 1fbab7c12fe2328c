//! The REPL's operations as tool definitions, and the dispatch of
//! structured tool calls against a REPL.

use vstd::prelude::*;
use crate::json::{
    distinct_keys, fields_view, json_bool_field, json_object, json_object_text, json_str_field, json_u64_field, str_field, u64_field,
    JsonScalar, JsonScalarView,
};
use crate::repl::{
    head_spec, numbered_text, repl_count, repl_grep, tail_spec, ReplView, RlmRepl,
};
use crate::text::{chars_of, decimal, decimal_string, eq_str, join, join_strings, push_str, views};

verus! {

/// A tool offered to the model: its name, description and the JSON schema
/// of its parameters (as JSON text).
#[derive(Debug, Clone)]
pub struct ToolDefinition {
    pub name: String,
    pub description: String,
    pub parameters: String,
}

/// The lines `start..end` (0-indexed, end exclusive) joined by newlines;
/// the end is cut to the number of lines and the start to the end.
pub open spec fn line_range_spec(lines: Seq<Seq<char>>, start: usize, end: usize) -> Seq<char> {
    let e = if end < lines.len() { end as int } else { lines.len() as int };
    let s = if start < e { start as int } else { e };
    join(lines.subrange(s, e), "\n"@)
}

fn line_range(lines: &[String], start: usize, end: usize) -> (r: String)
    ensures
        r@ == line_range_spec(views(lines@), start, end),
{
    let b = if end < lines.len() { end } else { lines.len() };
    let a = if start < b { start } else { b };
    let ghost ps = views(lines@).subrange(a as int, b as int);
    let mut r = String::new();
    let mut i: usize = a;
    while i < b
        invariant
            a <= i <= b <= lines.len(),
            ps == views(lines@).subrange(a as int, b as int),
            r@ == join(ps.take(i - a), "\n"@),
        decreases b - i,
    {
        let ghost before = ps.take(i - a);
        if i > a {
            push_str(&mut r, "\n");
        }
        push_str(&mut r, lines[i].as_str());
        assert(ps.take(i + 1 - a).drop_last() =~= before);
        assert(ps.take(i + 1 - a).last() == lines@[i as int]@);
        if i == a {
            assert(ps.take(1) =~= seq![lines@[a as int]@]);
        }
        i += 1;
    }
    assert(ps.take(b - a) =~= ps);
    r
}

/// The fields of the object that asks the host for a sub-model query: the
/// query marker, the question and the context slice (`null` when absent).
pub open spec fn llm_query_fields(query: Seq<char>, context_slice: Option<Seq<char>>) -> Seq<(Seq<char>, JsonScalarView)> {
    seq![
        ("__rlm_llm_query"@, JsonScalarView::Bool(true)),
        ("query"@, JsonScalarView::Str(query)),
        ("context_slice"@, match context_slice {
            Some(c) => JsonScalarView::Str(c),
            None => JsonScalarView::Null,
        }),
    ]
}

/// The JSON text of the sub-model query request for `query` and the slice.
fn llm_query_object(query: String, context_slice: Option<String>) -> (r: String)
    ensures
        r@ == json_object_text(llm_query_fields(query@, crate::payload::text_opt(context_slice))),
        json_bool_field(r@, "__rlm_llm_query"@) == Some(true),
        json_str_field(r@, "query"@) == Some(query@),
        json_str_field(r@, "context_slice"@) == crate::payload::text_opt(context_slice),
{
    proof {
        reveal_strlit("__rlm_llm_query");
        reveal_strlit("query");
        reveal_strlit("context_slice");
    }
    let ghost q = query@;
    let ghost c = crate::payload::text_opt(context_slice);
    let mut fields: Vec<(String, JsonScalar)> = Vec::new();
    fields.push((owned_str("__rlm_llm_query"), JsonScalar::Bool(true)));
    fields.push((owned_str("query"), JsonScalar::Str(query)));
    let slice = match context_slice {
        Some(s) => JsonScalar::Str(s),
        None => JsonScalar::Null,
    };
    fields.push((owned_str("context_slice"), slice));
    assert(fields_view(fields@) =~= llm_query_fields(q, c));
    assert("__rlm_llm_query"@.len() == 15 && "query"@.len() == 5 && "context_slice"@.len() == 13);
    assert(distinct_keys(fields_view(fields@)));
    let r = json_object(&fields);
    assert(fields@[0].0@ == "__rlm_llm_query"@);
    assert(fields@[1].0@ == "query"@);
    assert(fields@[2].0@ == "context_slice"@);
    r
}

fn owned_str(s: &str) -> (r: String)
    ensures
        r@ == s@,
{
    let mut r = String::new();
    push_str(&mut r, s);
    r
}

/// The names of the tools, in order.
pub open spec fn tool_names() -> Seq<Seq<char>> {
    seq!["rlm_head"@, "rlm_tail"@, "rlm_grep"@, "rlm_count"@, "rlm_slice"@, "rlm_llm_query"@, "rlm_final"@]
}

fn tool(name: &str, description: &str, parameters: &str) -> (t: ToolDefinition)
    ensures
        t.name@ == name@,
        t.description@ == description@,
        t.parameters@ == parameters@,
{
    let mut n = String::new();
    push_str(&mut n, name);
    let mut d = String::new();
    push_str(&mut d, description);
    let mut p = String::new();
    push_str(&mut p, parameters);
    ToolDefinition { name: n, description: d, parameters: p }
}

/// The tools as (name, description, JSON schema of the parameters), in order.
pub open spec fn tool_table() -> Seq<(Seq<char>, Seq<char>, Seq<char>)> {
    seq![
        ("rlm_head"@, "Return the first N lines of the loaded context."@, "{\"properties\":{\"n\":{\"description\":\"Number of lines from the start (default: 10)\",\"type\":\"integer\"}},\"required\":[],\"type\":\"object\"}"@),
        ("rlm_tail"@, "Return the last N lines of the loaded context."@, "{\"properties\":{\"n\":{\"description\":\"Number of lines from the end (default: 10)\",\"type\":\"integer\"}},\"required\":[],\"type\":\"object\"}"@),
        ("rlm_grep"@, "Search the loaded context for lines matching a regex pattern. Returns matching lines with line numbers."@, "{\"properties\":{\"pattern\":{\"description\":\"Regex pattern to search for\",\"type\":\"string\"}},\"required\":[\"pattern\"],\"type\":\"object\"}"@),
        ("rlm_count"@, "Count occurrences of a regex pattern in the loaded context."@, "{\"properties\":{\"pattern\":{\"description\":\"Regex pattern to count\",\"type\":\"string\"}},\"required\":[\"pattern\"],\"type\":\"object\"}"@),
        ("rlm_slice"@, "Return a slice of the context by line range."@, "{\"properties\":{\"end\":{\"description\":\"End line number (exclusive)\",\"type\":\"integer\"},\"start\":{\"description\":\"Start line number (0-indexed)\",\"type\":\"integer\"}},\"required\":[\"start\",\"end\"],\"type\":\"object\"}"@),
        ("rlm_llm_query"@, "Ask a focused sub-question about a portion of the context. Use this for semantic understanding of specific sections."@, "{\"properties\":{\"context_slice\":{\"description\":\"Optional: specific text slice to analyze (if omitted, uses full context)\",\"type\":\"string\"},\"query\":{\"description\":\"The question to answer about the context\",\"type\":\"string\"}},\"required\":[\"query\"],\"type\":\"object\"}"@),
        ("rlm_final"@, "Return the final answer to the analysis query. Call this when you have gathered enough information to answer."@, "{\"properties\":{\"answer\":{\"description\":\"The complete, detailed answer to the original query\",\"type\":\"string\"}},\"required\":[\"answer\"],\"type\":\"object\"}"@),
    ]
}

/// A definition as its name, description and parameter schema.
pub open spec fn tool_row(t: ToolDefinition) -> (Seq<char>, Seq<char>, Seq<char>) {
    (t.name@, t.description@, t.parameters@)
}

/// All REPL operations as tool definitions.
pub fn rlm_tool_definitions() -> (r: Vec<ToolDefinition>)
    ensures
        r@.map_values(|t: ToolDefinition| tool_row(t)) == tool_table(),
        r@.map_values(|t: ToolDefinition| t.name@) == tool_names(),
{
    let mut r: Vec<ToolDefinition> = Vec::new();
    r.push(tool(
        "rlm_head",
        "Return the first N lines of the loaded context.",
        "{\"properties\":{\"n\":{\"description\":\"Number of lines from the start (default: 10)\",\"type\":\"integer\"}},\"required\":[],\"type\":\"object\"}",
    ));
    r.push(tool(
        "rlm_tail",
        "Return the last N lines of the loaded context.",
        "{\"properties\":{\"n\":{\"description\":\"Number of lines from the end (default: 10)\",\"type\":\"integer\"}},\"required\":[],\"type\":\"object\"}",
    ));
    r.push(tool(
        "rlm_grep",
        "Search the loaded context for lines matching a regex pattern. Returns matching lines with line numbers.",
        "{\"properties\":{\"pattern\":{\"description\":\"Regex pattern to search for\",\"type\":\"string\"}},\"required\":[\"pattern\"],\"type\":\"object\"}",
    ));
    r.push(tool(
        "rlm_count",
        "Count occurrences of a regex pattern in the loaded context.",
        "{\"properties\":{\"pattern\":{\"description\":\"Regex pattern to count\",\"type\":\"string\"}},\"required\":[\"pattern\"],\"type\":\"object\"}",
    ));
    r.push(tool(
        "rlm_slice",
        "Return a slice of the context by line range.",
        "{\"properties\":{\"end\":{\"description\":\"End line number (exclusive)\",\"type\":\"integer\"},\"start\":{\"description\":\"Start line number (0-indexed)\",\"type\":\"integer\"}},\"required\":[\"start\",\"end\"],\"type\":\"object\"}",
    ));
    r.push(tool(
        "rlm_llm_query",
        "Ask a focused sub-question about a portion of the context. Use this for semantic understanding of specific sections.",
        "{\"properties\":{\"context_slice\":{\"description\":\"Optional: specific text slice to analyze (if omitted, uses full context)\",\"type\":\"string\"},\"query\":{\"description\":\"The question to answer about the context\",\"type\":\"string\"}},\"required\":[\"query\"],\"type\":\"object\"}",
    ));
    r.push(tool(
        "rlm_final",
        "Return the final answer to the analysis query. Call this when you have gathered enough information to answer.",
        "{\"properties\":{\"answer\":{\"description\":\"The complete, detailed answer to the original query\",\"type\":\"string\"}},\"required\":[\"answer\"],\"type\":\"object\"}",
    ));
    assert(r@.map_values(|t: ToolDefinition| t.name@) =~= tool_names());
    r
}

/// Result of dispatching a tool call.
pub enum RlmToolResult {
    /// Output to feed back to the model.
    Output(String),
    /// The final answer, which ends the loop.
    Final(String),
}

/// The mathematical content of an [`RlmToolResult`].
pub enum ToolResultView {
    Output(Seq<char>),
    Final(Seq<char>),
}

impl View for RlmToolResult {
    type V = ToolResultView;

    open spec fn view(&self) -> ToolResultView {
        match self {
            RlmToolResult::Output(s) => ToolResultView::Output(s@),
            RlmToolResult::Final(s) => ToolResultView::Final(s@),
        }
    }
}

/// A number argument, or `default`.
pub open spec fn count_arg(args: Seq<char>, key: Seq<char>, default: u64) -> usize {
    match json_u64_field(args, key) {
        Some(n) => n as usize,
        None => default as usize,
    }
}

/// A string argument, or the empty string.
pub open spec fn text_arg(args: Seq<char>, key: Seq<char>) -> Seq<char> {
    match json_str_field(args, key) {
        Some(s) => s,
        None => Seq::empty(),
    }
}

/// `dispatch_tool_call` on a REPL state.
pub open spec fn dispatch_spec(name: Seq<char>, args: Seq<char>, v: ReplView) -> Option<ToolResultView> {
    if name == "rlm_head"@ {
        Some(ToolResultView::Output(join(head_spec(v.lines, count_arg(args, "n"@, 10)), "\n"@)))
    } else if name == "rlm_tail"@ {
        Some(ToolResultView::Output(join(tail_spec(v.lines, count_arg(args, "n"@, 10)), "\n"@)))
    } else if name == "rlm_grep"@ {
        let out = join(numbered_text(repl_grep(text_arg(args, "pattern"@), v.lines)), "\n"@);
        Some(ToolResultView::Output(if out.len() == 0 { "(no matches)"@ } else { out }))
    } else if name == "rlm_count"@ {
        Some(ToolResultView::Output(decimal(repl_count(text_arg(args, "pattern"@), v.context) as nat)))
    } else if name == "rlm_slice"@ {
        Some(
            ToolResultView::Output(
                line_range_spec(v.lines, count_arg(args, "start"@, 0), count_arg(args, "end"@, 0)),
            ),
        )
    } else if name == "rlm_llm_query"@ {
        Some(
            ToolResultView::Output(
                json_object_text(llm_query_fields(text_arg(args, "query"@), json_str_field(args, "context_slice"@))),
            ),
        )
    } else if name == "rlm_final"@ {
        Some(ToolResultView::Final(text_arg(args, "answer"@)))
    } else {
        None
    }
}

/// The view of an optional tool result.
pub open spec fn tool_result_view(r: Option<RlmToolResult>) -> Option<ToolResultView> {
    match r {
        Some(t) => Some(t@),
        None => None,
    }
}

fn arg_count(arguments: &str, key: &str, default: u64) -> (n: usize)
    ensures
        n == count_arg(arguments@, key@, default),
{
    let v = match u64_field(arguments, key) {
        Some(n) => n,
        None => default,
    };
    v as usize
}

fn arg_text(arguments: &str, key: &str) -> (s: String)
    ensures
        s@ == text_arg(arguments@, key@),
{
    match str_field(arguments, key) {
        Some(s) => s,
        None => String::new(),
    }
}

pub(crate) fn lines_text(h: &Vec<&str>) -> (r: String)
    ensures
        r@ == join(h@.map_values(|s: &str| s@), "\n"@),
{
    let mut parts: Vec<String> = Vec::new();
    let mut i: usize = 0;
    while i < h.len()
        invariant
            i <= h.len(),
            views(parts@) == h@.map_values(|s: &str| s@).take(i as int),
        decreases h.len() - i,
    {
        let mut t = String::new();
        push_str(&mut t, h[i]);
        let ghost before = views(parts@);
        parts.push(t);
        assert(views(parts@) =~= before.push(h@[i as int]@));
        assert(h@.map_values(|s: &str| s@).take(i + 1) =~= h@.map_values(|s: &str| s@).take(i as int).push(
            h@[i as int]@,
        ));
        i += 1;
    }
    assert(h@.map_values(|s: &str| s@).take(h.len() as int) =~= h@.map_values(|s: &str| s@));
    join_strings(&parts, "\n")
}

fn numbered_lines_text(ms: &Vec<(usize, &str)>) -> (r: String)
    ensures
        r@ == join(numbered_text(ms@.map_values(|m: (usize, &str)| (m.0, m.1@))), "\n"@),
{
    let ghost mv = ms@.map_values(|m: (usize, &str)| (m.0, m.1@));
    let mut parts: Vec<String> = Vec::new();
    let mut i: usize = 0;
    while i < ms.len()
        invariant
            i <= ms.len(),
            mv == ms@.map_values(|m: (usize, &str)| (m.0, m.1@)),
            views(parts@) == numbered_text(mv).take(i as int),
        decreases ms.len() - i,
    {
        let mut line = decimal_string(ms[i].0);
        push_str(&mut line, ":");
        push_str(&mut line, ms[i].1);
        let ghost lv = line@;
        assert(mv[i as int] == (ms@[i as int].0, ms@[i as int].1@));
        assert(lv == numbered_text(mv)[i as int]);
        let ghost before = views(parts@);
        parts.push(line);
        assert(views(parts@) =~= before.push(lv));
        assert(numbered_text(mv).take(i + 1) =~= numbered_text(mv).take(i as int).push(lv));
        i += 1;
    }
    assert(numbered_text(mv).take(ms.len() as int) =~= numbered_text(mv));
    join_strings(&parts, "\n")
}

/// Dispatches a structured tool call against the REPL; `None` when `name`
/// is not one of the REPL's tools. The arguments are a JSON object's text.
pub fn dispatch_tool_call(name: &str, arguments: &str, repl: &mut RlmRepl) -> (r: Option<RlmToolResult>)
    ensures
        *final(repl) == *old(repl),
        tool_result_view(r) == dispatch_spec(name@, arguments@, old(repl)@),
        name@ == "rlm_llm_query"@ ==> (r matches Some(RlmToolResult::Output(o)) && {
            &&& json_bool_field(o@, "__rlm_llm_query"@) == Some(true)
            &&& json_str_field(o@, "query"@) == Some(text_arg(arguments@, "query"@))
            &&& json_str_field(o@, "context_slice"@) == json_str_field(arguments@, "context_slice"@)
        }),
{
    proof {
        reveal_strlit("rlm_head");
        reveal_strlit("rlm_tail");
        reveal_strlit("rlm_grep");
        reveal_strlit("rlm_count");
        reveal_strlit("rlm_slice");
        reveal_strlit("rlm_llm_query");
        reveal_strlit("rlm_final");
        assert("rlm_head"@.len() != "rlm_llm_query"@.len());
        assert("rlm_tail"@.len() != "rlm_llm_query"@.len());
        assert("rlm_grep"@.len() != "rlm_llm_query"@.len());
        assert("rlm_count"@.len() != "rlm_llm_query"@.len());
        assert("rlm_slice"@.len() != "rlm_llm_query"@.len());
        assert("rlm_final"@.len() != "rlm_llm_query"@.len());
    }
    let n = chars_of(name);
    if eq_str(n.as_slice(), "rlm_head") {
        let k = arg_count(arguments, "n", 10);
        let h = repl.head(k);
        return Some(RlmToolResult::Output(lines_text(&h)));
    }
    if eq_str(n.as_slice(), "rlm_tail") {
        let k = arg_count(arguments, "n", 10);
        let h = repl.tail(k);
        return Some(RlmToolResult::Output(lines_text(&h)));
    }
    if eq_str(n.as_slice(), "rlm_grep") {
        let pattern = arg_text(arguments, "pattern");
        let ms = repl.grep(pattern.as_str());
        let out = numbered_lines_text(&ms);
        if out.as_str().is_empty() {
            let mut s = String::new();
            push_str(&mut s, "(no matches)");
            return Some(RlmToolResult::Output(s));
        }
        return Some(RlmToolResult::Output(out));
    }
    if eq_str(n.as_slice(), "rlm_count") {
        let pattern = arg_text(arguments, "pattern");
        let c = repl.count(pattern.as_str());
        return Some(RlmToolResult::Output(decimal_string(c)));
    }
    if eq_str(n.as_slice(), "rlm_slice") {
        let start = arg_count(arguments, "start", 0);
        let end = arg_count(arguments, "end", 0);
        return Some(RlmToolResult::Output(line_range(repl.lines(), start, end)));
    }
    if eq_str(n.as_slice(), "rlm_llm_query") {
        let query = arg_text(arguments, "query");
        let slice = str_field(arguments, "context_slice");
        let payload = llm_query_object(query, slice);
        return Some(RlmToolResult::Output(payload));
    }
    if eq_str(n.as_slice(), "rlm_final") {
        let answer = arg_text(arguments, "answer");
        return Some(RlmToolResult::Final(answer));
    }
    None
}

} // verus!
