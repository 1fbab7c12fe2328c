//! Tree-sitter oracle for structural AST verification.
//!
//! Parses Rust source with tree-sitter and answers structural queries:
//! function signatures, struct fields, enum variants, impl blocks and error
//! handling patterns. What tree-sitter reports for a source and a query is
//! named below; the assembly of matches and the verification logic are
//! stated over those names.

use vstd::prelude::*;
use streaming_iterator::StreamingIterator;
use crate::assoc::{assign, assoc_get, assoc_set, assoc_view, lookup};
use crate::oracle::QueryType;
use crate::pattern::{captures, captures_all, compile, group, group_at, group_views, regex_captures,
    regex_captures_all, regex_compile_error};
use crate::text::{
    chars_of, contains, contains_one_of, count_occurrences, equals_any, equals_one_of, lines_of,
    lowercase, lowercase_chars, occurrences, push_str, split_lines, string_from, views,
};

verus! {

#[verifier::external_type_specification]
#[verifier::external_body]
pub struct ExParser(tree_sitter::Parser);

#[verifier::external_type_specification]
#[verifier::external_body]
pub struct ExTree(tree_sitter::Tree);

#[verifier::external_type_specification]
#[verifier::external_body]
pub struct ExQuery(tree_sitter::Query);

/// One capture as tree-sitter reports it: capture name, node text (or the
/// UTF-8 error's message), start row and start column (both from 0).
pub type CaptureView = (Seq<char>, Result<Seq<char>, Seq<char>>, usize, usize);

/// The error message of `tree_sitter::Query::new` for `query` on the Rust
/// grammar, or `None` when the query compiles.
pub uninterp spec fn ts_query_error(query: Seq<char>) -> Option<Seq<char>>;

/// The captures of each successive match of `query` over the tree of
/// `source` (`QueryCursor::matches` with the source text).
pub uninterp spec fn ts_query_captures(source: Seq<char>, query: Seq<char>) -> Seq<Seq<CaptureView>>;

/// A source text and its syntax tree.
pub struct ParsedSource {
    source: String,
    tree: tree_sitter::Tree,
}

impl ParsedSource {
    /// The text the tree was parsed from.
    pub closed spec fn source(&self) -> Seq<char> {
        self.source@
    }
}

/// A query compiled for the Rust grammar, with its text.
pub struct RustQuery {
    text: String,
    query: tree_sitter::Query,
}

impl RustQuery {
    /// The query text.
    pub closed spec fn text(&self) -> Seq<char> {
        self.text@
    }
}

/// The view of one capture.
pub open spec fn capture_view(c: (String, Result<String, String>, usize, usize)) -> CaptureView {
    (c.0@, match c.1 {
        Ok(t) => Ok(t@),
        Err(e) => Err(e@),
    }, c.2, c.3)
}

/// The views of the captures of one match.
pub open spec fn caps_view(m: Seq<(String, Result<String, String>, usize, usize)>) -> Seq<CaptureView> {
    m.map_values(|c: (String, Result<String, String>, usize, usize)| capture_view(c))
}

/// The views of the captures of each match.
pub open spec fn capture_views(r: Seq<Vec<(String, Result<String, String>, usize, usize)>>) -> Seq<Seq<CaptureView>> {
    r.map_values(|m: Vec<(String, Result<String, String>, usize, usize)>| caps_view(m@))
}

/// A tree-sitter parser whose language is the Rust grammar.
pub struct RustParser {
    parser: tree_sitter::Parser,
}

/// A parser for the Rust grammar: `Parser::new`, then `set_language` with
/// the Rust grammar. `set_language` fails only when the grammar's ABI
/// version lies outside the range the tree-sitter crate accepts; the Rust
/// grammar in use is within it, so the result is always a parser.
#[verifier::external_body]
fn rust_parser() -> (r: Result<RustParser, String>)
    ensures
        r is Ok,
{
    let mut parser = tree_sitter::Parser::new();
    parser.set_language(&tree_sitter_rust::LANGUAGE.into()).map_err(|e| e.to_string())?;
    Ok(RustParser { parser })
}

/// `Parser::parse` of `source` with no earlier tree; the tree comes with
/// the text it was parsed from. `parse` gives no tree only when the parser
/// has no language, and a [`RustParser`] always has one, so a tree is
/// always given.
#[verifier::external_body]
fn parse_source(parser: &mut RustParser, source: &str) -> (r: Option<ParsedSource>)
    ensures
        r is Some,
        r matches Some(p) ==> p.source() == source@,
{
    parser.parser.parse(source, None).map(|tree| ParsedSource { source: source.to_string(), tree })
}

/// `Query::new` on the Rust grammar; the error is the query error's message.
#[verifier::external_body]
fn compile_query(query: &str) -> (r: Result<RustQuery, String>)
    ensures
        match r {
            Ok(q) => ts_query_error(query@) is None && q.text() == query@,
            Err(e) => ts_query_error(query@) == Some(e@),
        },
{
    match tree_sitter::Query::new(&tree_sitter_rust::LANGUAGE.into(), query) {
        Ok(q) => Ok(RustQuery { text: query.to_string(), query: q }),
        Err(e) => Err(e.to_string()),
    }
}

/// `QueryCursor::matches` of `q` over the tree of `p`: for each match, its
/// captures with their names, texts and start positions, as
/// [`ts_query_captures`] names them for the source and the query text.
#[verifier::external_body]
fn query_captures(q: &RustQuery, p: &ParsedSource) -> (r: Vec<Vec<(String, Result<String, String>, usize, usize)>>)
    ensures
        capture_views(r@) == ts_query_captures(p.source(), q.text()),
{
    let mut cursor = tree_sitter::QueryCursor::new();
    let bytes = p.source.as_bytes();
    let mut it = cursor.matches(&q.query, p.tree.root_node(), bytes);
    let mut out = Vec::new();
    while let Some(m) = it.next() {
        out.push(m.captures().iter().map(|c| (q.query.capture_names()[c.index as usize].to_string(),
            c.node.utf8_text(bytes).map(|t| t.to_string()).map_err(|e| e.to_string()),
            c.node.start_position().row, c.node.start_position().column)).collect());
    }
    out
}

/// A single match of an AST query.
#[derive(Debug, Clone, PartialEq)]
pub struct AstMatch {
    /// Line number (from 1).
    pub line: usize,
    /// Column (from 1).
    pub column: usize,
    /// Captured nodes by capture name, in order of first capture.
    pub captures: Vec<(String, String)>,
    /// Full text of the first captured node.
    pub text: String,
}

/// The result of an AST query.
#[derive(Debug, Clone, PartialEq)]
pub struct AstQueryResult {
    /// The query that was executed.
    pub query_type: String,
    /// The matches with their captures.
    pub matches: Vec<AstMatch>,
}

/// The mathematical content of an [`AstMatch`].
pub struct AstMatchView {
    pub line: usize,
    pub column: usize,
    pub captures: Seq<(Seq<char>, Seq<char>)>,
    pub text: Seq<char>,
}

impl View for AstMatch {
    type V = AstMatchView;

    open spec fn view(&self) -> AstMatchView {
        AstMatchView {
            line: self.line,
            column: self.column,
            captures: assoc_view(self.captures@),
            text: self.text@,
        }
    }
}

/// The views of matches.
pub open spec fn match_views(ms: Seq<AstMatch>) -> Seq<AstMatchView> {
    ms.map_values(|m: AstMatch| m@)
}

/// A position from 0 as a position from 1 (`+ 1`, wrapping).
pub open spec fn one_based(n: usize) -> usize {
    if n == usize::MAX {
        0
    } else {
        (n + 1) as usize
    }
}

/// Assembles one match from its captures: each capture is recorded under
/// its name (a later one with the same name replaces the value); the
/// match's text and position are those of the first capture with
/// non-empty text (or the last one tried while the text is still empty).
pub open spec fn assemble_match(caps: Seq<CaptureView>) -> Result<AstMatchView, Seq<char>>
    decreases caps.len(),
{
    if caps.len() == 0 {
        Ok(AstMatchView { line: 1, column: 1, captures: Seq::empty(), text: Seq::empty() })
    } else {
        match assemble_match(caps.drop_last()) {
            Err(e) => Err(e),
            Ok(m) => {
                let c = caps.last();
                match c.1 {
                    Err(e) => Err(e),
                    Ok(t) => if m.text.len() == 0 {
                        Ok(
                            AstMatchView {
                                line: one_based(c.2),
                                column: one_based(c.3),
                                captures: assign(m.captures, c.0, t),
                                text: t,
                            },
                        )
                    } else {
                        Ok(AstMatchView { captures: assign(m.captures, c.0, t), ..m })
                    },
                }
            },
        }
    }
}

/// Assembles all matches; the first error stops.
pub open spec fn assemble_matches(ms: Seq<Seq<CaptureView>>) -> Result<Seq<AstMatchView>, Seq<char>>
    decreases ms.len(),
{
    if ms.len() == 0 {
        Ok(Seq::empty())
    } else {
        match assemble_matches(ms.drop_last()) {
            Err(e) => Err(e),
            Ok(prev) => match assemble_match(ms.last()) {
                Err(e) => Err(e),
                Ok(m) => Ok(prev.push(m)),
            },
        }
    }
}

/// The matches of `query` over `source`, or the error that stops the query.
pub open spec fn query_spec(source: Seq<char>, query: Seq<char>) -> Result<Seq<AstMatchView>, Seq<char>> {
    match ts_query_error(query) {
        Some(e) => Err(e),
        None => assemble_matches(ts_query_captures(source, query)),
    }
}

/// Tree-sitter based oracle for structural queries over one source file.
pub struct TreeSitterOracle {
    source: String,
    parsed: Option<(RustParser, ParsedSource)>,
}

/// Result of tree-sitter oracle verification.
#[derive(Debug, Clone, PartialEq)]
pub enum TreeSitterVerification {
    /// The answer matches the AST truth exactly.
    ExactMatch,
    /// The answer matches in a different order.
    UnorderedMatch,
    /// The answer is a subset (partial match).
    SubsetMatch { claimed: usize, actual: usize },
    /// The answer contains incorrect claims.
    HasErrors { errors: Vec<String> },
    /// The answer is completely different.
    Mismatch,
    /// Could not parse or verify.
    CannotVerify { reason: String },
}


/// The capture named `name`, or the empty string.
pub open spec fn capture_or_empty(m: AstMatchView, name: Seq<char>) -> Seq<char> {
    match lookup(m.captures, name) {
        Some(v) => v,
        None => Seq::empty(),
    }
}

proof fn lemma_assemble_match_err(caps: Seq<CaptureView>, k: int, e: Seq<char>)
    requires
        0 <= k <= caps.len(),
        assemble_match(caps.take(k)) == Err::<AstMatchView, Seq<char>>(e),
    ensures
        assemble_match(caps) == Err::<AstMatchView, Seq<char>>(e),
    decreases caps.len() - k,
{
    if k < caps.len() {
        assert(caps.take(k + 1).drop_last() =~= caps.take(k));
        lemma_assemble_match_err(caps, k + 1, e);
    } else {
        assert(caps.take(k) =~= caps);
    }
}

proof fn lemma_assemble_matches_err(ms: Seq<Seq<CaptureView>>, k: int, e: Seq<char>)
    requires
        0 <= k <= ms.len(),
        assemble_matches(ms.take(k)) == Err::<Seq<AstMatchView>, Seq<char>>(e),
    ensures
        assemble_matches(ms) == Err::<Seq<AstMatchView>, Seq<char>>(e),
    decreases ms.len() - k,
{
    if k < ms.len() {
        assert(ms.take(k + 1).drop_last() =~= ms.take(k));
        lemma_assemble_matches_err(ms, k + 1, e);
    } else {
        assert(ms.take(k) =~= ms);
    }
}

fn one_based_exec(n: usize) -> (r: usize)
    ensures
        r == one_based(n),
{
    if n == usize::MAX {
        0
    } else {
        n + 1
    }
}

/// Assembles one match from its captures.
fn assemble_one(caps: &Vec<(String, Result<String, String>, usize, usize)>) -> (r: Result<AstMatch, String>)
    ensures
        match r {
            Ok(m) => assemble_match(caps_view(caps@)) == Ok::<AstMatchView, Seq<char>>(m@),
            Err(e) => assemble_match(caps_view(caps@)) == Err::<AstMatchView, Seq<char>>(e@),
        },
{
    let ghost cv = caps_view(caps@);
    let mut line: usize = 1;
    let mut column: usize = 1;
    let mut captured: Vec<(String, String)> = Vec::new();
    let mut text = String::new();
    let mut i: usize = 0;
    assert(cv.take(0) =~= Seq::<CaptureView>::empty());
    assert(assoc_view(captured@) =~= Seq::<(Seq<char>, Seq<char>)>::empty());
    while i < caps.len()
        invariant
            i <= caps.len(),
            cv == caps_view(caps@),
            crate::assoc::distinct_names(assoc_view(captured@)),
            assemble_match(cv.take(i as int)) == Ok::<AstMatchView, Seq<char>>(
                AstMatchView { line, column, captures: assoc_view(captured@), text: text@ },
            ),
        decreases caps.len() - i,
    {
        assert(cv.take(i + 1).drop_last() =~= cv.take(i as int));
        assert(cv.take(i + 1).last() == capture_view(caps@[i as int]));
        match &caps[i].1 {
            Err(e) => {
                proof {
                    lemma_assemble_match_err(cv, i + 1, e@);
                }
                return Err(e.clone());
            },
            Ok(t) => {
                if text.as_str().is_empty() {
                    text = t.clone();
                    line = one_based_exec(caps[i].2);
                    column = one_based_exec(caps[i].3);
                }
                assoc_set(&mut captured, caps[i].0.clone(), t.clone());
            },
        }
        i += 1;
    }
    assert(cv.take(caps.len() as int) =~= cv);
    Ok(AstMatch { line, column, captures: captured, text })
}

impl TreeSitterOracle {
    #[verifier::type_invariant]
    spec fn inv(&self) -> bool {
        self.parsed matches Some(p) ==> p.1.source() == self.source@
    }

    /// The source text.
    pub closed spec fn source(&self) -> Seq<char> {
        self.source@
    }

    /// The parser is set up and the source parsed.
    pub closed spec fn ready(&self) -> bool {
        self.parsed is Some
    }

    /// Creates an oracle for the given source.
    pub fn new(source: String) -> (r: Self)
        ensures
            r.source() == source@,
    {
        TreeSitterOracle { source, parsed: None }
    }

    /// Sets up the parser and parses the source, once.
    fn prepare(&mut self) -> (r: Result<(), String>)
        ensures
            final(self).source() == old(self).source(),
            r is Ok,
            final(self).ready(),
    {
        proof {
            use_type_invariant(&*self);
        }
        if self.parsed.is_none() {
            let mut parser = match rust_parser() {
                Ok(p) => p,
                Err(e) => {
                    return Err(e);
                },
            };
            match parse_source(&mut parser, self.source.as_str()) {
                Some(t) => {
                    self.parsed = Some((parser, t));
                },
                None => {
                    let mut msg = String::new();
                    push_str(&mut msg, "Failed to parse source");
                    return Err(msg);
                },
            }
        }
        Ok(())
    }

    /// Executes a tree-sitter S-expression query over the source.
    pub fn query(&mut self, query_str: &str) -> (r: Result<AstQueryResult, String>)
        ensures
            final(self).source() == old(self).source(),
            final(self).ready(),
            match r {
                Ok(res) => res.query_type@ == query_str@ && query_spec(final(self).source(), query_str@)
                    == Ok::<Seq<AstMatchView>, Seq<char>>(match_views(res.matches@)),
                Err(e) => query_spec(final(self).source(), query_str@) == Err::<Seq<AstMatchView>, Seq<char>>(
                    e@,
                ),
            },
    {
        match self.prepare() {
            Ok(()) => {},
            Err(e) => {
                return Err(e);
            },
        }
        proof {
            use_type_invariant(&*self);
        }
        let q = match compile_query(query_str) {
            Ok(q) => q,
            Err(e) => {
                return Err(e);
            },
        };
        let all = match &self.parsed {
            Some(p) => query_captures(&q, &p.1),
            None => {
                return Err(String::new());
            },
        };
        let ghost cv = capture_views(all@);
        let mut results: Vec<AstMatch> = Vec::new();
        let mut i: usize = 0;
        assert(cv.take(0) =~= Seq::<Seq<CaptureView>>::empty());
        assert(match_views(results@) =~= Seq::<AstMatchView>::empty());
        while i < all.len()
            invariant
                i <= all.len(),
                self.source@ == old(self).source@,
                self.parsed is Some,
                cv == capture_views(all@),
                cv == ts_query_captures(self.source@, query_str@),
                ts_query_error(query_str@) is None,
                assemble_matches(cv.take(i as int)) == Ok::<Seq<AstMatchView>, Seq<char>>(
                    match_views(results@),
                ),
            decreases all.len() - i,
        {
            assert(cv.take(i + 1).drop_last() =~= cv.take(i as int));
            assert(cv.take(i + 1).last() == caps_view(all@[i as int]@));
            match assemble_one(&all[i]) {
                Ok(m) => {
                    let ghost before = results@;
                    results.push(m);
                    assert(match_views(results@) =~= match_views(before).push(m@));
                },
                Err(e) => {
                    proof {
                        lemma_assemble_matches_err(cv, i + 1, e@);
                    }
                    return Err(e);
                },
            }
            i += 1;
        }
        assert(cv.take(all.len() as int) =~= cv);
        let mut query_type = String::new();
        push_str(&mut query_type, query_str);
        Ok(AstQueryResult { query_type, matches: results })
    }
}


/// Function signature information.
#[derive(Debug, Clone, PartialEq)]
pub struct FunctionSignature {
    pub name: String,
    pub params: String,
    pub return_type: Option<String>,
    pub line: usize,
}

/// Struct definition information.
#[derive(Debug, Clone, PartialEq)]
pub struct StructDefinition {
    pub name: String,
    pub fields: Vec<String>,
    pub line: usize,
}

/// Enum definition information.
#[derive(Debug, Clone, PartialEq)]
pub struct EnumDefinition {
    pub name: String,
    pub variants: Vec<String>,
    pub line: usize,
}

/// Impl block information.
#[derive(Debug, Clone, PartialEq)]
pub struct ImplDefinition {
    pub self_type: String,
    pub trait_name: Option<String>,
    pub method_count: usize,
    pub line: usize,
}

/// Counts of error handling patterns.
#[derive(Debug, Clone, PartialEq)]
pub struct ErrorPatternCounts {
    pub result_types: usize,
    pub try_operators: usize,
    pub unwrap_calls: usize,
    pub expect_calls: usize,
    pub match_expressions: usize,
}

/// The view of an optional string.
pub open spec fn opt_view(o: Option<String>) -> Option<Seq<char>> {
    match o {
        Some(s) => Some(s@),
        None => None,
    }
}

/// The views of strings.
pub open spec fn string_views(v: Seq<String>) -> Seq<Seq<char>> {
    v.map_values(|s: String| s@)
}

/// The mathematical content of a [`FunctionSignature`].
pub type FunctionView = (Seq<char>, Seq<char>, Option<Seq<char>>, usize);

/// The views of function signatures: name, parameters, return type, line.
pub open spec fn function_views(v: Seq<FunctionSignature>) -> Seq<FunctionView> {
    v.map_values(|f: FunctionSignature| (f.name@, f.params@, opt_view(f.return_type), f.line))
}

/// The query for function signatures.
pub open spec fn functions_query() -> Seq<char> {
    "\n            (function_item\n                name: (identifier) @name\n                parameters: (parameters) @params\n                return_type: (_)? @return_type)\n            "@
}

/// The query for struct definitions.
pub open spec fn structs_query() -> Seq<char> {
    "\n            (struct_item\n                name: (type_identifier) @name\n                body: (field_declaration_list)? @body)\n            "@
}

/// The query for enum definitions.
pub open spec fn enums_query() -> Seq<char> {
    "\n            (enum_item\n                name: (type_identifier) @name\n                body: (enum_variant_list)? @body)\n            "@
}

/// The query for impl blocks.
pub open spec fn impls_query() -> Seq<char> {
    "\n            [\n                (impl_item\n                    type: (type_identifier) @type\n                    trait: (type_identifier)? @trait\n                    body: (declaration_list)? @body)\n                (impl_item\n                    for: (type_identifier) @for\n                    trait: (type_identifier) @trait\n                    body: (declaration_list)? @body)\n            ]\n            "@
}

/// The signature of each function match.
pub open spec fn functions_of(ms: Seq<AstMatchView>) -> Seq<FunctionView> {
    ms.map_values(|m: AstMatchView| (
        capture_or_empty(m, "name"@),
        capture_or_empty(m, "params"@),
        lookup(m.captures, "return_type"@),
        m.line,
    ))
}

/// The field-name pattern of a struct body.
pub open spec fn field_regex() -> Seq<char> {
    "(?:pub\\s+)?(\\w+)\\s*:"@
}

/// The variant-name pattern of an enum body.
pub open spec fn variant_regex() -> Seq<char> {
    "(\\w+)\\s*(?:,|=|\\{|\\()"@
}

/// Group 1 of each match that has it.
pub open spec fn first_groups(caps: Seq<Seq<Option<Seq<char>>>>) -> Seq<Seq<char>>
    decreases caps.len(),
{
    if caps.len() == 0 {
        Seq::empty()
    } else {
        match group(caps.last(), 1) {
            Some(t) => first_groups(caps.drop_last()).push(t),
            None => first_groups(caps.drop_last()),
        }
    }
}

/// Words that never name an enum variant.
pub open spec fn variant_keywords() -> Seq<&'static str> {
    seq!["pub", "fn", "struct", "enum", "impl", "trait"]
}

/// Group 1 of each match that has it and is not a keyword.
pub open spec fn variant_names(caps: Seq<Seq<Option<Seq<char>>>>) -> Seq<Seq<char>>
    decreases caps.len(),
{
    if caps.len() == 0 {
        Seq::empty()
    } else {
        match group(caps.last(), 1) {
            Some(t) => if equals_any(t, variant_keywords()) {
                variant_names(caps.drop_last())
            } else {
                variant_names(caps.drop_last()).push(t)
            },
            None => variant_names(caps.drop_last()),
        }
    }
}

/// The field names of a struct body, or the field pattern's error.
pub open spec fn fields_of(body: Seq<char>) -> Result<Seq<Seq<char>>, Seq<char>> {
    match regex_compile_error(field_regex()) {
        Some(e) => Err(e),
        None => Ok(first_groups(regex_captures_all(field_regex(), body))),
    }
}

/// The variant names of an enum body, or the variant pattern's error.
pub open spec fn variants_of(body: Seq<char>) -> Result<Seq<Seq<char>>, Seq<char>> {
    match regex_compile_error(variant_regex()) {
        Some(e) => Err(e),
        None => Ok(variant_names(regex_captures_all(variant_regex(), body))),
    }
}

/// Name, member names and line of each struct or enum match, members by
/// `members`; the first error stops.
pub open spec fn definitions_of(
    ms: Seq<AstMatchView>,
    members: spec_fn(Seq<char>) -> Result<Seq<Seq<char>>, Seq<char>>,
) -> Result<Seq<(Seq<char>, Seq<Seq<char>>, usize)>, Seq<char>>
    decreases ms.len(),
{
    if ms.len() == 0 {
        Ok(Seq::empty())
    } else {
        match definitions_of(ms.drop_last(), members) {
            Err(e) => Err(e),
            Ok(prev) => match members(capture_or_empty(ms.last(), "body"@)) {
                Err(e) => Err(e),
                Ok(fs) => Ok(prev.push((capture_or_empty(ms.last(), "name"@), fs, ms.last().line))),
            },
        }
    }
}

/// The views of struct definitions.
pub open spec fn struct_views(v: Seq<StructDefinition>) -> Seq<(Seq<char>, Seq<Seq<char>>, usize)> {
    v.map_values(|d: StructDefinition| (d.name@, string_views(d.fields@), d.line))
}

/// The views of enum definitions.
pub open spec fn enum_views(v: Seq<EnumDefinition>) -> Seq<(Seq<char>, Seq<Seq<char>>, usize)> {
    v.map_values(|d: EnumDefinition| (d.name@, string_views(d.variants@), d.line))
}

/// The views of impl definitions.
pub open spec fn impl_views(v: Seq<ImplDefinition>) -> Seq<(Seq<char>, Option<Seq<char>>, usize, usize)> {
    v.map_values(|d: ImplDefinition| (d.self_type@, opt_view(d.trait_name), d.method_count, d.line))
}

/// The type name, trait name, method count and line of each impl match.
pub open spec fn impls_of(ms: Seq<AstMatchView>) -> Seq<(Seq<char>, Option<Seq<char>>, usize, usize)> {
    ms.map_values(|m: AstMatchView| (
        match lookup(m.captures, "type"@) {
            Some(t) => t,
            None => capture_or_empty(m, "for"@),
        },
        lookup(m.captures, "trait"@),
        occurrences(capture_or_empty(m, "body"@), "fn "@) as usize,
        m.line,
    ))
}

/// The queries counted as error handling patterns, in order.
pub open spec fn error_pattern_queries() -> Seq<Seq<char>> {
    seq!["(generic_type type: (type_identifier) @name (#eq? @name \"Result\"))"@, "(try_expression)"@, "(call_expression function: (field_expression field: (field_identifier) @method (#eq? @method \"unwrap\")))"@, "(call_expression function: (field_expression field: (field_identifier) @method (#eq? @method \"expect\")))"@, "(match_expression)"@]
}

/// Phrases that mark a structure query for the AST oracle.
pub open spec fn ast_structure_phrases() -> Seq<&'static str> {
    seq![
        "signature",
        "parameters",
        "return type",
        "fields of",
        "what fields",
        "struct definition",
        "enum variants",
        "implements",
        "methods",
    ]
}

/// The AST oracle's classification of a query.
pub open spec fn ast_classify_spec(query: Seq<char>) -> QueryType {
    if crate::text::contains_any(lowercase(query), ast_structure_phrases()) {
        QueryType::Structure
    } else {
        QueryType::Semantic
    }
}

/// The name patterns that find claimed functions and structs in an answer.
pub open spec fn fn_name_regex() -> Seq<char> {
    "\\bfn\\s+(\\w+)"@
}

/// Struct names claimed in an answer.
pub open spec fn struct_name_regex() -> Seq<char> {
    "\\bstruct\\s+(\\w+)"@
}

/// The names claimed on the lines of an answer, one per matching line.
pub open spec fn claimed_names(pattern: Seq<char>, ls: Seq<Seq<char>>) -> Seq<Seq<char>>
    decreases ls.len(),
{
    if ls.len() == 0 {
        Seq::empty()
    } else {
        let prev = claimed_names(pattern, ls.drop_last());
        if regex_compile_error(pattern) is Some {
            prev
        } else {
            match regex_captures(pattern, ls.last()) {
                Some(g) => match group(g, 1) {
                    Some(n) => prev.push(n),
                    None => prev,
                },
                None => prev,
            }
        }
    }
}

/// The mathematical content of a [`TreeSitterVerification`].
pub enum TreeSitterVerificationView {
    ExactMatch,
    UnorderedMatch,
    SubsetMatch(usize, usize),
    HasErrors(Seq<Seq<char>>),
    Mismatch,
    CannotVerify(Seq<char>),
}

impl View for TreeSitterVerification {
    type V = TreeSitterVerificationView;

    open spec fn view(&self) -> TreeSitterVerificationView {
        match self {
            TreeSitterVerification::ExactMatch => TreeSitterVerificationView::ExactMatch,
            TreeSitterVerification::UnorderedMatch => TreeSitterVerificationView::UnorderedMatch,
            TreeSitterVerification::SubsetMatch { claimed, actual } =>
                TreeSitterVerificationView::SubsetMatch(*claimed, *actual),
            TreeSitterVerification::HasErrors { errors } => TreeSitterVerificationView::HasErrors(
                string_views(errors@),
            ),
            TreeSitterVerification::Mismatch => TreeSitterVerificationView::Mismatch,
            TreeSitterVerification::CannotVerify { reason } => TreeSitterVerificationView::CannotVerify(
                reason@,
            ),
        }
    }
}

/// The error for each claimed name the source lacks, in order.
pub open spec fn not_found(claimed: Seq<Seq<char>>, actual: Seq<Seq<char>>, kind: Seq<char>) -> Seq<Seq<char>>
    decreases claimed.len(),
{
    if claimed.len() == 0 {
        Seq::empty()
    } else if actual.contains(claimed.last()) {
        not_found(claimed.drop_last(), actual, kind)
    } else {
        not_found(claimed.drop_last(), actual, kind).push(kind + " '"@ + claimed.last() + "' not found"@)
    }
}

/// How claimed names compare with the actual ones.
pub open spec fn compare_names(claimed: Seq<Seq<char>>, actual: Seq<Seq<char>>, kind: Seq<char>, what: Seq<char>) -> TreeSitterVerificationView {
    if claimed.len() == 0 {
        TreeSitterVerificationView::CannotVerify("Could not extract "@ + what + " names from answer"@)
    } else if forall|x: Seq<char>| claimed.contains(x) <==> actual.contains(x) {
        TreeSitterVerificationView::ExactMatch
    } else if forall|x: Seq<char>| claimed.contains(x) ==> actual.contains(x) {
        TreeSitterVerificationView::SubsetMatch(claimed.len() as usize, actual.len() as usize)
    } else {
        TreeSitterVerificationView::HasErrors(not_found(claimed, actual, kind))
    }
}

/// `TreeSitterOracle::verify` given the query results for functions and
/// structs over the source.
pub open spec fn ts_verify_spec(source: Seq<char>, answer: Seq<char>, query: Seq<char>) -> TreeSitterVerificationView {
    if ast_classify_spec(query) == QueryType::Structure {
        let lower = lowercase(query);
        if contains(lower, "function"@) {
            match query_spec(source, functions_query()) {
                Err(e) => TreeSitterVerificationView::CannotVerify("Failed to parse functions: "@ + e),
                Ok(ms) => compare_names(
                    claimed_names(fn_name_regex(), lines_of(answer)),
                    functions_of(ms).map_values(|f: FunctionView| f.0),
                    "Function"@,
                    "function"@,
                ),
            }
        } else if contains(lower, "struct"@) {
            match query_spec(source, structs_query()) {
                Err(e) => TreeSitterVerificationView::CannotVerify("Failed to parse structs: "@ + e),
                Ok(ms) => match definitions_of(ms, |b: Seq<char>| fields_of(b)) {
                    Err(e) => TreeSitterVerificationView::CannotVerify("Failed to parse structs: "@ + e),
                    Ok(ds) => compare_names(
                        claimed_names(struct_name_regex(), lines_of(answer)),
                        ds.map_values(|d: (Seq<char>, Seq<Seq<char>>, usize)| d.0),
                        "Struct"@,
                        "struct"@,
                    ),
                },
            }
        } else if contains(lower, "enum"@) {
            TreeSitterVerificationView::CannotVerify("Enum verification not yet implemented"@)
        } else if contains(lower, "impl"@) {
            TreeSitterVerificationView::CannotVerify("Impl verification not yet implemented"@)
        } else {
            TreeSitterVerificationView::CannotVerify("Unknown structural query type"@)
        }
    } else {
        TreeSitterVerificationView::CannotVerify("Not a structural query"@)
    }
}

fn capture_or_empty_exec(m: &AstMatch, name: &str) -> (r: String)
    ensures
        r@ == capture_or_empty(m@, name@),
{
    match assoc_get(&m.captures, name) {
        Some(v) => {
            let mut s = String::new();
            push_str(&mut s, v);
            s
        },
        None => String::new(),
    }
}

fn capture_opt(m: &AstMatch, name: &str) -> (r: Option<String>)
    ensures
        opt_view(r) == lookup(m@.captures, name@),
{
    match assoc_get(&m.captures, name) {
        Some(v) => {
            let mut s = String::new();
            push_str(&mut s, v);
            Some(s)
        },
        None => None,
    }
}

/// Group 1 of each match of `re` in `body`, skipping `skip` words.
fn groups_of(re: &crate::pattern::Pattern, body: &str, skip: bool) -> (r: Vec<String>)
    ensures
        skip ==> string_views(r@) == variant_names(regex_captures_all(re.source(), body@)),
        !skip ==> string_views(r@) == first_groups(regex_captures_all(re.source(), body@)),
{
    let caps = captures_all(re, body);
    let ghost all = regex_captures_all(re.source(), body@);
    let kws = vec!["pub", "fn", "struct", "enum", "impl", "trait"];
    assert(kws@ =~= variant_keywords());
    let mut out: Vec<String> = Vec::new();
    let mut i: usize = 0;
    assert(all.take(0) =~= Seq::<Seq<Option<Seq<char>>>>::empty());
    while i < caps.len()
        invariant
            i <= caps.len(),
            kws@ == variant_keywords(),
            caps@.len() == all.len(),
            forall|k: int| 0 <= k < caps@.len() ==> group_views(#[trigger] caps@[k]@) == all[k],
            skip ==> string_views(out@) == variant_names(all.take(i as int)),
            !skip ==> string_views(out@) == first_groups(all.take(i as int)),
        decreases caps.len() - i,
    {
        assert(all.take(i + 1).drop_last() =~= all.take(i as int));
        assert(all.take(i + 1).last() == group_views(caps@[i as int]@));
        if let Some(t) = group_at(&caps[i], 1) {
            let tc = chars_of(t.as_str());
            if !(skip && equals_one_of(tc.as_slice(), kws.as_slice())) {
                let ghost before = out@;
                out.push(t);
                assert(string_views(out@) =~= string_views(before).push(tc@));
            }
        }
        i += 1;
    }
    assert(all.take(caps.len() as int) =~= all);
    out
}

fn names_contain(v: &Vec<String>, x: &String) -> (b: bool)
    ensures
        b == string_views(v@).contains(x@),
{
    let mut i: usize = 0;
    while i < v.len()
        invariant
            i <= v.len(),
            forall|k: int| 0 <= k < i ==> string_views(v@)[k] != x@,
        decreases v.len() - i,
    {
        if v[i] == *x {
            assert(string_views(v@)[i as int] == x@);
            return true;
        }
        i += 1;
    }
    false
}

proof fn lemma_not_found_empty(claimed: Seq<Seq<char>>, actual: Seq<Seq<char>>, kind: Seq<char>)
    ensures
        not_found(claimed, actual, kind).len() == 0 <==> forall|x: Seq<char>| claimed.contains(x)
            ==> actual.contains(x),
    decreases claimed.len(),
{
    if claimed.len() > 0 {
        lemma_not_found_empty(claimed.drop_last(), actual, kind);
        if not_found(claimed, actual, kind).len() == 0 {
            assert forall|x: Seq<char>| claimed.contains(x) implies actual.contains(x) by {
                let i = choose|i: int| 0 <= i < claimed.len() && claimed[i] == x;
                if i < claimed.len() - 1 {
                    assert(claimed.drop_last()[i] == x);
                }
            }
        } else if actual.contains(claimed.last()) {
            let x = choose|x: Seq<char>| claimed.drop_last().contains(x) && !actual.contains(x);
            let i = choose|i: int| 0 <= i < claimed.drop_last().len() && claimed.drop_last()[i] == x;
            assert(claimed[i] == x);
        } else {
            assert(claimed.contains(claimed.last()));
        }
    }
}

/// Compares claimed names with the actual ones.
fn compare_names_exec(claimed: &Vec<String>, actual: &Vec<String>, kind: &str, what: &str) -> (r:
    TreeSitterVerification)
    ensures
        r@ == compare_names(string_views(claimed@), string_views(actual@), kind@, what@),
{
    let ghost c = string_views(claimed@);
    let ghost a = string_views(actual@);
    if claimed.len() == 0 {
        let mut reason = String::new();
        push_str(&mut reason, "Could not extract ");
        push_str(&mut reason, what);
        push_str(&mut reason, " names from answer");
        return TreeSitterVerification::CannotVerify { reason };
    }
    let mut errors: Vec<String> = Vec::new();
    let mut i: usize = 0;
    assert(c.take(0) =~= Seq::<Seq<char>>::empty());
    while i < claimed.len()
        invariant
            i <= claimed.len(),
            c == string_views(claimed@),
            a == string_views(actual@),
            string_views(errors@) == not_found(c.take(i as int), a, kind@),
        decreases claimed.len() - i,
    {
        assert(c.take(i + 1).drop_last() =~= c.take(i as int));
        assert(c.take(i + 1).last() == claimed@[i as int]@);
        if !names_contain(actual, &claimed[i]) {
            let mut e = String::new();
            push_str(&mut e, kind);
            push_str(&mut e, " '");
            push_str(&mut e, claimed[i].as_str());
            push_str(&mut e, "' not found");
            let ghost before = errors@;
            errors.push(e);
            assert(string_views(errors@) =~= string_views(before).push(
                kind@ + " '"@ + claimed@[i as int]@ + "' not found"@,
            ));
        }
        i += 1;
    }
    assert(c.take(claimed.len() as int) =~= c);
    let mut j: usize = 0;
    let mut all_claimed = true;
    while j < actual.len()
        invariant
            j <= actual.len(),
            c == string_views(claimed@),
            a == string_views(actual@),
            all_claimed <==> forall|k: int| 0 <= k < j ==> c.contains(a[k]),
        decreases actual.len() - j,
    {
        let found = names_contain(claimed, &actual[j]);
        assert(a[j as int] == actual@[j as int]@);
        if !found {
            all_claimed = false;
        }
        assert(all_claimed <==> forall|k: int| 0 <= k < j + 1 ==> c.contains(a[k])) by {
            if all_claimed {
                assert forall|k: int| 0 <= k < j + 1 implies c.contains(a[k]) by {
                    if k == j {
                    }
                }
            }
        }
        j += 1;
    }
    proof {
        lemma_not_found_empty(c, a, kind@);
        if all_claimed {
            assert forall|x: Seq<char>| a.contains(x) implies c.contains(x) by {
                let k = choose|k: int| 0 <= k < a.len() && a[k] == x;
            }
        } else {
            let k = choose|k: int| 0 <= k < j && !c.contains(a[k]);
            assert(a.contains(a[k]));
        }
    }
    if errors.len() == 0 {
        assert(string_views(errors@).len() == 0);
        if all_claimed {
            TreeSitterVerification::ExactMatch
        } else {
            TreeSitterVerification::SubsetMatch { claimed: claimed.len(), actual: actual.len() }
        }
    } else {
        assert(string_views(errors@).len() > 0);
        TreeSitterVerification::HasErrors { errors }
    }
}

impl TreeSitterOracle {
    /// All function signatures in the source.
    pub fn get_functions(&mut self) -> (r: Result<Vec<FunctionSignature>, String>)
        ensures
            final(self).source() == old(self).source(),
            final(self).ready(),
            match r {
                Ok(fs) => (query_spec(final(self).source(), functions_query()) matches Ok(ms) && function_views(fs@)
                    == functions_of(ms)),
                Err(e) => query_spec(final(self).source(), functions_query()) == Err::<Seq<AstMatchView>, Seq<char>>(e@),
            },
    {
        let result = match self.query("\n            (function_item\n                name: (identifier) @name\n                parameters: (parameters) @params\n                return_type: (_)? @return_type)\n            ") {
            Ok(r) => r,
            Err(e) => {
                return Err(e);
            },
        };
        let ms = result.matches;
        let mut out: Vec<FunctionSignature> = Vec::new();
        let mut i: usize = 0;
        while i < ms.len()
            invariant
                i <= ms.len(),
                function_views(out@) == functions_of(match_views(ms@)).take(i as int),
            decreases ms.len() - i,
        {
            let m = &ms[i];
            let f = FunctionSignature {
                name: capture_or_empty_exec(m, "name"),
                params: capture_or_empty_exec(m, "params"),
                return_type: capture_opt(m, "return_type"),
                line: m.line,
            };
            let ghost fv = (f.name@, f.params@, opt_view(f.return_type), f.line);
            assert(match_views(ms@)[i as int] == ms@[i as int]@);
            assert(functions_of(match_views(ms@))[i as int] == fv);
            let ghost before = out@;
            out.push(f);
            assert(function_views(out@) =~= function_views(before).push(fv));
            assert(functions_of(match_views(ms@)).take(i + 1) =~= functions_of(match_views(ms@)).take(
                i as int,
            ).push(fv));
            i += 1;
        }
        assert(functions_of(match_views(ms@)).take(ms.len() as int) =~= functions_of(match_views(ms@)));
        Ok(out)
    }

    fn definitions(&mut self, query: &str, pattern: &str, skip: bool) -> (r: Result<Vec<(String, Vec<String>, usize)>, String>)
        requires
            skip ==> pattern@ == variant_regex(),
            !skip ==> pattern@ == field_regex(),
        ensures
            final(self).source() == old(self).source(),
            final(self).ready(),
            match query_spec(final(self).source(), query@) {
                Err(e) => (r matches Err(x) && x@ == e),
                Ok(ms) => match definitions_of(ms, if skip { |b: Seq<char>| variants_of(b) } else { |b: Seq<char>| fields_of(b) }) {
                    Err(e) => (r matches Err(x) && x@ == e),
                    Ok(ds) => (r matches Ok(v) && v@.map_values(|d: (String, Vec<String>, usize)| (d.0@, string_views(d.1@), d.2)) == ds),
                },
            },
    {
        let result = match self.query(query) {
            Ok(r) => r,
            Err(e) => {
                return Err(e);
            },
        };
        let ghost members = if skip { |b: Seq<char>| variants_of(b) } else { |b: Seq<char>| fields_of(b) };
        let ms = result.matches;
        let ghost mv = match_views(ms@);
        let mut out: Vec<(String, Vec<String>, usize)> = Vec::new();
        let mut i: usize = 0;
        assert(mv.take(0) =~= Seq::<AstMatchView>::empty());
        assert(out@.map_values(|d: (String, Vec<String>, usize)| (d.0@, string_views(d.1@), d.2)) =~= Seq::<(Seq<char>, Seq<Seq<char>>, usize)>::empty());
        while i < ms.len()
            invariant
                i <= ms.len(),
                mv == match_views(ms@),
                members == (if skip { |b: Seq<char>| variants_of(b) } else { |b: Seq<char>| fields_of(b) }),
                skip ==> pattern@ == variant_regex(),
                !skip ==> pattern@ == field_regex(),
                self.source@ == old(self).source@,
                self.parsed is Some,
                query_spec(self.source@, query@) == Ok::<Seq<AstMatchView>, Seq<char>>(mv),
                definitions_of(mv.take(i as int), members) == Ok::<Seq<(Seq<char>, Seq<Seq<char>>, usize)>, Seq<char>>(
                    out@.map_values(|d: (String, Vec<String>, usize)| (d.0@, string_views(d.1@), d.2)),
                ),
            decreases ms.len() - i,
        {
            assert(mv.take(i + 1).drop_last() =~= mv.take(i as int));
            assert(mv.take(i + 1).last() == ms@[i as int]@);
            let m = &ms[i];
            let body = capture_or_empty_exec(m, "body");
            let re = match compile(pattern) {
                Ok(re) => re,
                Err(e) => {
                    proof {
                        lemma_definitions_err(mv, i + 1, members, e@);
                    }
                    return Err(e);
                },
            };
            let members_found = groups_of(&re, body.as_str(), skip);
            let name = capture_or_empty_exec(m, "name");
            let ghost fs = string_views(members_found@);
            assert(members(capture_or_empty(ms@[i as int]@, "body"@)) == Ok::<Seq<Seq<char>>, Seq<char>>(fs));
            let ghost before = out@;
            let ghost entry = (name@, fs, m.line);
            out.push((name, members_found, m.line));
            assert(out@.map_values(|d: (String, Vec<String>, usize)| (d.0@, string_views(d.1@), d.2))
                =~= before.map_values(|d: (String, Vec<String>, usize)| (d.0@, string_views(d.1@), d.2)).push(entry));
            i += 1;
        }
        assert(mv.take(ms.len() as int) =~= mv);
        Ok(out)
    }
}

proof fn lemma_definitions_err(
    ms: Seq<AstMatchView>,
    k: int,
    members: spec_fn(Seq<char>) -> Result<Seq<Seq<char>>, Seq<char>>,
    e: Seq<char>,
)
    requires
        0 <= k <= ms.len(),
        definitions_of(ms.take(k), members) == Err::<Seq<(Seq<char>, Seq<Seq<char>>, usize)>, Seq<char>>(e),
    ensures
        definitions_of(ms, members) == Err::<Seq<(Seq<char>, Seq<Seq<char>>, usize)>, Seq<char>>(e),
    decreases ms.len() - k,
{
    if k < ms.len() {
        assert(ms.take(k + 1).drop_last() =~= ms.take(k));
        lemma_definitions_err(ms, k + 1, members, e);
    } else {
        assert(ms.take(k) =~= ms);
    }
}


/// The views of definitions as returned by `definitions`.
pub open spec fn def_tuple_views(v: Seq<(String, Vec<String>, usize)>) -> Seq<(Seq<char>, Seq<Seq<char>>, usize)> {
    v.map_values(|d: (String, Vec<String>, usize)| (d.0@, string_views(d.1@), d.2))
}

impl TreeSitterOracle {
    /// All struct definitions in the source with their field names.
    pub fn get_structs(&mut self) -> (r: Result<Vec<StructDefinition>, String>)
        ensures
            final(self).source() == old(self).source(),
            final(self).ready(),
            match query_spec(final(self).source(), structs_query()) {
                Err(e) => (r matches Err(x) && x@ == e),
                Ok(ms) => match definitions_of(ms, |b: Seq<char>| fields_of(b)) {
                    Err(e) => (r matches Err(x) && x@ == e),
                    Ok(ds) => (r matches Ok(v) && struct_views(v@) == ds),
                },
            },
    {
        let defs = match self.definitions("\n            (struct_item\n                name: (type_identifier) @name\n                body: (field_declaration_list)? @body)\n            ", "(?:pub\\s+)?(\\w+)\\s*:", false) {
            Ok(d) => d,
            Err(e) => {
                return Err(e);
            },
        };
        let mut out: Vec<StructDefinition> = Vec::new();
        let mut rest = defs;
        let ghost all = def_tuple_views(rest@);
        let n = rest.len();
        let mut i: usize = 0;
        while i < n
            invariant
                n == all.len(),
                i <= n,
                rest@.len() == n - i,
                forall|k: int| 0 <= k < n - i ==> (#[trigger] def_tuple_views(rest@)[k]) == all[i + k],
                struct_views(out@) == all.take(i as int),
            decreases n - i,
        {
            let ghost old_rest = rest@;
            let (name, fields, line) = rest.remove(0);
            assert(def_tuple_views(old_rest)[0] == all[i as int]);
            assert forall|k: int| 0 <= k < n - i - 1 implies (#[trigger] def_tuple_views(rest@)[k]) == all[i + 1 + k] by {
                assert(rest@[k] == old_rest[k + 1]);
                assert(def_tuple_views(old_rest)[k + 1] == all[i + 1 + k]);
            }
            let ghost tv = (name@, string_views(fields@), line);
            assert(tv == all[i as int]);
            let ghost before = out@;
            out.push(StructDefinition { name, fields, line });
            assert(struct_views(out@) =~= struct_views(before).push(tv));
            assert(all.take(i + 1) =~= all.take(i as int).push(tv));
            i += 1;
        }
        assert(all.take(n as int) =~= all);
        Ok(out)
    }

    /// All enum definitions in the source with their variant names.
    pub fn get_enums(&mut self) -> (r: Result<Vec<EnumDefinition>, String>)
        ensures
            final(self).source() == old(self).source(),
            final(self).ready(),
            match query_spec(final(self).source(), enums_query()) {
                Err(e) => (r matches Err(x) && x@ == e),
                Ok(ms) => match definitions_of(ms, |b: Seq<char>| variants_of(b)) {
                    Err(e) => (r matches Err(x) && x@ == e),
                    Ok(ds) => (r matches Ok(v) && enum_views(v@) == ds),
                },
            },
    {
        let defs = match self.definitions("\n            (enum_item\n                name: (type_identifier) @name\n                body: (enum_variant_list)? @body)\n            ", "(\\w+)\\s*(?:,|=|\\{|\\()", true) {
            Ok(d) => d,
            Err(e) => {
                return Err(e);
            },
        };
        let mut out: Vec<EnumDefinition> = Vec::new();
        let mut rest = defs;
        let ghost all = def_tuple_views(rest@);
        let n = rest.len();
        let mut i: usize = 0;
        while i < n
            invariant
                n == all.len(),
                i <= n,
                rest@.len() == n - i,
                forall|k: int| 0 <= k < n - i ==> (#[trigger] def_tuple_views(rest@)[k]) == all[i + k],
                enum_views(out@) == all.take(i as int),
            decreases n - i,
        {
            let ghost old_rest = rest@;
            let (name, variants, line) = rest.remove(0);
            assert(def_tuple_views(old_rest)[0] == all[i as int]);
            assert forall|k: int| 0 <= k < n - i - 1 implies (#[trigger] def_tuple_views(rest@)[k]) == all[i + 1 + k] by {
                assert(rest@[k] == old_rest[k + 1]);
                assert(def_tuple_views(old_rest)[k + 1] == all[i + 1 + k]);
            }
            let ghost tv = (name@, string_views(variants@), line);
            assert(tv == all[i as int]);
            let ghost before = out@;
            out.push(EnumDefinition { name, variants, line });
            assert(enum_views(out@) =~= enum_views(before).push(tv));
            assert(all.take(i + 1) =~= all.take(i as int).push(tv));
            i += 1;
        }
        assert(all.take(n as int) =~= all);
        Ok(out)
    }

    /// All impl blocks in the source.
    pub fn get_impls(&mut self) -> (r: Result<Vec<ImplDefinition>, String>)
        ensures
            final(self).source() == old(self).source(),
            final(self).ready(),
            match query_spec(final(self).source(), impls_query()) {
                Err(e) => (r matches Err(x) && x@ == e),
                Ok(ms) => (r matches Ok(v) && impl_views(v@) == impls_of(ms)),
            },
    {
        let result = match self.query("\n            [\n                (impl_item\n                    type: (type_identifier) @type\n                    trait: (type_identifier)? @trait\n                    body: (declaration_list)? @body)\n                (impl_item\n                    for: (type_identifier) @for\n                    trait: (type_identifier) @trait\n                    body: (declaration_list)? @body)\n            ]\n            ") {
            Ok(r) => r,
            Err(e) => {
                return Err(e);
            },
        };
        let ms = result.matches;
        let mut out: Vec<ImplDefinition> = Vec::new();
        let mut i: usize = 0;
        while i < ms.len()
            invariant
                i <= ms.len(),
                impl_views(out@) == impls_of(match_views(ms@)).take(i as int),
            decreases ms.len() - i,
        {
            let m = &ms[i];
            let self_type = match capture_opt(m, "type") {
                Some(t) => t,
                None => capture_or_empty_exec(m, "for"),
            };
            let body = capture_or_empty_exec(m, "body");
            let bc = chars_of(body.as_str());
            let fnk: Vec<char> = vec!['f', 'n', ' '];
            assert(fnk@ =~= "fn "@) by {
                reveal_strlit("fn ");
            }
            let method_count = count_occurrences(bc.as_slice(), fnk.as_slice());
            let d = ImplDefinition { self_type, trait_name: capture_opt(m, "trait"), method_count, line: m.line };
            let ghost dv = (d.self_type@, opt_view(d.trait_name), d.method_count, d.line);
            assert(match_views(ms@)[i as int] == ms@[i as int]@);
            assert(impls_of(match_views(ms@))[i as int] == dv);
            let ghost before = out@;
            out.push(d);
            assert(impl_views(out@) =~= impl_views(before).push(dv));
            assert(impls_of(match_views(ms@)).take(i + 1) =~= impls_of(match_views(ms@)).take(i as int).push(dv));
            i += 1;
        }
        assert(impls_of(match_views(ms@)).take(ms.len() as int) =~= impls_of(match_views(ms@)));
        Ok(out)
    }
}


/// The number of matches of each query, in order; the first error stops.
pub open spec fn match_counts(source: Seq<char>, qs: Seq<Seq<char>>) -> Result<Seq<usize>, Seq<char>>
    decreases qs.len(),
{
    if qs.len() == 0 {
        Ok(Seq::empty())
    } else {
        match match_counts(source, qs.drop_last()) {
            Err(e) => Err(e),
            Ok(prev) => match query_spec(source, qs.last()) {
                Err(e) => Err(e),
                Ok(ms) => Ok(prev.push(ms.len() as usize)),
            },
        }
    }
}

proof fn lemma_match_counts_err(source: Seq<char>, qs: Seq<Seq<char>>, k: int, e: Seq<char>)
    requires
        0 <= k <= qs.len(),
        match_counts(source, qs.take(k)) == Err::<Seq<usize>, Seq<char>>(e),
    ensures
        match_counts(source, qs) == Err::<Seq<usize>, Seq<char>>(e),
    decreases qs.len() - k,
{
    if k < qs.len() {
        assert(qs.take(k + 1).drop_last() =~= qs.take(k));
        lemma_match_counts_err(source, qs, k + 1, e);
    } else {
        assert(qs.take(k) =~= qs);
    }
}

/// Whether `verify` consults the syntax tree for `query`.
pub open spec fn uses_tree(query: Seq<char>) -> bool {
    ast_classify_spec(query) == QueryType::Structure && (contains(lowercase(query), "function"@)
        || contains(lowercase(query), "struct"@))
}

fn claimed_names_exec(pattern: &str, answer: &str) -> (r: Vec<String>)
    ensures
        string_views(r@) == claimed_names(pattern@, lines_of(answer@)),
{
    let cs = chars_of(answer);
    let lines = split_lines(cs.as_slice());
    let mut out: Vec<String> = Vec::new();
    let mut i: usize = 0;
    assert(views(lines@).take(0) =~= Seq::<Seq<char>>::empty());
    while i < lines.len()
        invariant
            i <= lines.len(),
            views(lines@) == lines_of(answer@),
            string_views(out@) == claimed_names(pattern@, views(lines@).take(i as int)),
        decreases lines.len() - i,
    {
        let ghost ls = views(lines@).take(i + 1);
        assert(ls.drop_last() =~= views(lines@).take(i as int));
        assert(ls.last() == lines@[i as int]@);
        if let Ok(re) = compile(pattern) {
            if let Some(g) = captures(&re, lines[i].as_str()) {
                if let Some(n) = group_at(&g, 1) {
                    let ghost before = out@;
                    let ghost nv = n@;
                    out.push(n);
                    assert(string_views(out@) =~= string_views(before).push(nv));
                }
            }
        }
        i += 1;
    }
    assert(views(lines@).take(lines.len() as int) =~= views(lines@));
    out
}

impl TreeSitterOracle {
    /// Counts error handling patterns: `Result` types, `?` operators,
    /// `.unwrap()` and `.expect()` calls, and match expressions.
    pub fn count_error_patterns(&mut self) -> (r: Result<ErrorPatternCounts, String>)
        ensures
            final(self).source() == old(self).source(),
            final(self).ready(),
            match match_counts(final(self).source(), error_pattern_queries()) {
                Err(e) => (r matches Err(x) && x@ == e),
                Ok(cs) => (r matches Ok(c) && c.result_types == cs[0] && c.try_operators == cs[1]
                    && c.unwrap_calls == cs[2] && c.expect_calls == cs[3] && c.match_expressions == cs[4]),
            },
    {
        let qs = vec!["(generic_type type: (type_identifier) @name (#eq? @name \"Result\"))", "(try_expression)", "(call_expression function: (field_expression field: (field_identifier) @method (#eq? @method \"unwrap\")))", "(call_expression function: (field_expression field: (field_identifier) @method (#eq? @method \"expect\")))", "(match_expression)"];
        let ghost qv = error_pattern_queries();
        assert(qs@.map_values(|q: &str| q@) =~= qv);
        let mut counts: Vec<usize> = Vec::new();
        let mut i: usize = 0;
        assert(qv.take(0) =~= Seq::<Seq<char>>::empty());
        while i < qs.len()
            invariant
                i <= qs.len(),
                qs@.len() == 5,
                qs@.map_values(|q: &str| q@) == qv,
                qv == error_pattern_queries(),
                self.source@ == old(self).source@,
                counts@.len() == i,
                i > 0 ==> self.parsed is Some,
                i > 0 ==> match_counts(self.source@, qv.take(i as int)) == Ok::<Seq<usize>, Seq<char>>(counts@),
                old(self).ready() ==> self.parsed is Some,
            decreases qs.len() - i,
        {
            assert(qv.take(i + 1).drop_last() =~= qv.take(i as int));
            assert(qv.take(i + 1).last() == qs@[i as int]@);
            if i == 0 {
                assert(qv.take(0) =~= Seq::<Seq<char>>::empty());
            }
            match self.query(qs[i]) {
                Ok(res) => {
                    let ghost prev = counts@;
                    counts.push(res.matches.len());
                    assert(match_views(res.matches@).len() == res.matches@.len());
                    if i == 0 {
                        assert(match_counts(self.source@, qv.take(0)) == Ok::<Seq<usize>, Seq<char>>(
                            Seq::empty(),
                        ));
                        assert(prev =~= Seq::<usize>::empty());
                    }
                    assert(counts@ =~= prev.push(res.matches.len()));
                },
                Err(e) => {
                    proof {
                        if self.parsed is Some {
                            if i == 0 {
                                assert(match_counts(self.source@, qv.take(0)) == Ok::<Seq<usize>, Seq<char>>(Seq::empty()));
                            }
                            lemma_match_counts_err(self.source@, qv, i + 1, e@);
                        }
                    }
                    return Err(e);
                },
            }
            i += 1;
        }
        assert(qv.take(5) =~= qv);
        Ok(ErrorPatternCounts {
            result_types: counts[0],
            try_operators: counts[1],
            unwrap_calls: counts[2],
            expect_calls: counts[3],
            match_expressions: counts[4],
        })
    }

    /// Classifies a query for tree-sitter routing.
    fn classify_query(query: &str) -> (r: QueryType)
        ensures
            r == ast_classify_spec(query@),
    {
        let q = chars_of(query);
        let lower = lowercase_chars(q.as_slice());
        let phrases = vec![
            "signature",
            "parameters",
            "return type",
            "fields of",
            "what fields",
            "struct definition",
            "enum variants",
            "implements",
            "methods",
        ];
        assert(phrases@ =~= ast_structure_phrases());
        if contains_one_of(lower.as_slice(), phrases.as_slice()) {
            QueryType::Structure
        } else {
            QueryType::Semantic
        }
    }

    fn verify_functions(&mut self, answer: &str) -> (r: TreeSitterVerification)
        ensures
            final(self).source() == old(self).source(),
            final(self).ready(),
            r@ == match query_spec(final(self).source(), functions_query()) {
                Err(e) => TreeSitterVerificationView::CannotVerify("Failed to parse functions: "@ + e),
                Ok(ms) => compare_names(
                    claimed_names(fn_name_regex(), lines_of(answer@)),
                    functions_of(ms).map_values(|f: FunctionView| f.0),
                    "Function"@,
                    "function"@,
                ),
            },
    {
        let functions = match self.get_functions() {
            Ok(f) => f,
            Err(e) => {
                let mut reason = String::new();
                push_str(&mut reason, "Failed to parse functions: ");
                push_str(&mut reason, e.as_str());
                return TreeSitterVerification::CannotVerify { reason };
            },
        };
        let claimed = claimed_names_exec("\\bfn\\s+(\\w+)", answer);
        let mut actual: Vec<String> = Vec::new();
        let mut i: usize = 0;
        while i < functions.len()
            invariant
                i <= functions.len(),
                string_views(actual@) == function_views(functions@).map_values(|f: FunctionView| f.0).take(i as int),
            decreases functions.len() - i,
        {
            let ghost before = actual@;
            let ghost all = function_views(functions@).map_values(|f: FunctionView| f.0);
            assert(all[i as int] == functions@[i as int].name@);
            actual.push(functions[i].name.clone());
            assert(string_views(actual@) =~= string_views(before).push(all[i as int]));
            assert(all.take(i + 1) =~= all.take(i as int).push(all[i as int]));
            i += 1;
        }
        assert(function_views(functions@).map_values(|f: FunctionView| f.0).take(functions.len() as int)
            =~= function_views(functions@).map_values(|f: FunctionView| f.0));
        compare_names_exec(&claimed, &actual, "Function", "function")
    }

    fn verify_structs(&mut self, answer: &str) -> (r: TreeSitterVerification)
        ensures
            final(self).source() == old(self).source(),
            final(self).ready(),
            r@ == match query_spec(final(self).source(), structs_query()) {
                Err(e) => TreeSitterVerificationView::CannotVerify("Failed to parse structs: "@ + e),
                Ok(ms) => match definitions_of(ms, |b: Seq<char>| fields_of(b)) {
                    Err(e) => TreeSitterVerificationView::CannotVerify("Failed to parse structs: "@ + e),
                    Ok(ds) => compare_names(
                        claimed_names(struct_name_regex(), lines_of(answer@)),
                        ds.map_values(|d: (Seq<char>, Seq<Seq<char>>, usize)| d.0),
                        "Struct"@,
                        "struct"@,
                    ),
                },
            },
    {
        let structs = match self.get_structs() {
            Ok(s) => s,
            Err(e) => {
                let mut reason = String::new();
                push_str(&mut reason, "Failed to parse structs: ");
                push_str(&mut reason, e.as_str());
                return TreeSitterVerification::CannotVerify { reason };
            },
        };
        let claimed = claimed_names_exec("\\bstruct\\s+(\\w+)", answer);
        let mut actual: Vec<String> = Vec::new();
        let mut i: usize = 0;
        while i < structs.len()
            invariant
                i <= structs.len(),
                string_views(actual@) == struct_views(structs@).map_values(|d: (Seq<char>, Seq<Seq<char>>, usize)| d.0).take(i as int),
            decreases structs.len() - i,
        {
            let ghost before = actual@;
            let ghost all = struct_views(structs@).map_values(|d: (Seq<char>, Seq<Seq<char>>, usize)| d.0);
            assert(all[i as int] == structs@[i as int].name@);
            actual.push(structs[i].name.clone());
            assert(string_views(actual@) =~= string_views(before).push(all[i as int]));
            assert(all.take(i + 1) =~= all.take(i as int).push(all[i as int]));
            i += 1;
        }
        assert(struct_views(structs@).map_values(|d: (Seq<char>, Seq<Seq<char>>, usize)| d.0).take(structs.len() as int)
            =~= struct_views(structs@).map_values(|d: (Seq<char>, Seq<Seq<char>>, usize)| d.0));
        compare_names_exec(&claimed, &actual, "Struct", "struct")
    }

    fn verify_enums(&mut self, _answer: &str) -> (r: TreeSitterVerification)
        ensures
            *final(self) == *old(self),
            r@ == TreeSitterVerificationView::CannotVerify("Enum verification not yet implemented"@),
    {
        let mut reason = String::new();
        push_str(&mut reason, "Enum verification not yet implemented");
        TreeSitterVerification::CannotVerify { reason }
    }

    fn verify_impls(&mut self, _answer: &str) -> (r: TreeSitterVerification)
        ensures
            *final(self) == *old(self),
            r@ == TreeSitterVerificationView::CannotVerify("Impl verification not yet implemented"@),
    {
        let mut reason = String::new();
        push_str(&mut reason, "Impl verification not yet implemented");
        TreeSitterVerification::CannotVerify { reason }
    }

    /// Verifies a FINAL() answer against the AST truth.
    pub fn verify(&mut self, answer: &str, query: &str) -> (r: TreeSitterVerification)
        ensures
            final(self).source() == old(self).source(),
            r@ == ts_verify_spec(final(self).source(), answer@, query@),
    {
        if Self::classify_query(query) == QueryType::Structure {
            let q = chars_of(query);
            let lower = lowercase_chars(q.as_slice());
            if contains_str_exec(lower.as_slice(), "function") {
                self.verify_functions(answer)
            } else if contains_str_exec(lower.as_slice(), "struct") {
                self.verify_structs(answer)
            } else if contains_str_exec(lower.as_slice(), "enum") {
                self.verify_enums(answer)
            } else if contains_str_exec(lower.as_slice(), "impl") {
                self.verify_impls(answer)
            } else {
                let mut reason = String::new();
                push_str(&mut reason, "Unknown structural query type");
                TreeSitterVerification::CannotVerify { reason }
            }
        } else {
            let mut reason = String::new();
            push_str(&mut reason, "Not a structural query");
            TreeSitterVerification::CannotVerify { reason }
        }
    }
}

fn contains_str_exec(s: &[char], lit: &str) -> (b: bool)
    ensures
        b == contains(s@, lit@),
{
    crate::text::contains_str(s, lit)
}


/// One capture as listed: `name="text"` (the text in `Debug` form).
pub open spec fn capture_text(c: (Seq<char>, Seq<char>)) -> Seq<char> {
    c.0 + "="@ + crate::text::debug_text(c.1)
}

/// One match as listed: `L{line}: {text} [{captures}]`.
pub open spec fn match_text(m: AstMatchView) -> Seq<char> {
    "L"@ + crate::text::decimal(m.line as nat) + ": "@ + m.text + " ["@ + crate::text::join(
        m.captures.map_values(|c: (Seq<char>, Seq<char>)| capture_text(c)),
        ", "@,
    ) + "]"@
}

/// The listing of an AST query's matches, or its error.
pub open spec fn listing_spec(source: Seq<char>, query: Seq<char>) -> Seq<char> {
    match query_spec(source, query) {
        Ok(ms) => if ms.len() == 0 {
            "(no AST matches)"@
        } else {
            crate::text::join(ms.map_values(|m: AstMatchView| match_text(m)), "\n"@)
        },
        Err(e) => "AST query error: "@ + e,
    }
}

fn match_text_exec(m: &AstMatch) -> (r: String)
    ensures
        r@ == match_text(m@),
{
    let mut parts: Vec<String> = Vec::new();
    let mut i: usize = 0;
    let ghost cv = assoc_view(m.captures@);
    while i < m.captures.len()
        invariant
            i <= m.captures.len(),
            cv == assoc_view(m.captures@),
            views(parts@) == cv.map_values(|c: (Seq<char>, Seq<char>)| capture_text(c)).take(i as int),
        decreases m.captures.len() - i,
    {
        let mut t = String::new();
        push_str(&mut t, m.captures[i].0.as_str());
        push_str(&mut t, "=");
        let d = crate::text::debug_str(m.captures[i].1.as_str());
        push_str(&mut t, d.as_str());
        let ghost tv = t@;
        assert(cv[i as int] == (m.captures@[i as int].0@, m.captures@[i as int].1@));
        assert(tv == capture_text(cv[i as int]));
        let ghost before = views(parts@);
        parts.push(t);
        assert(views(parts@) =~= before.push(tv));
        assert(cv.map_values(|c: (Seq<char>, Seq<char>)| capture_text(c)).take(i + 1) =~= cv.map_values(
            |c: (Seq<char>, Seq<char>)| capture_text(c),
        ).take(i as int).push(tv));
        i += 1;
    }
    assert(cv.map_values(|c: (Seq<char>, Seq<char>)| capture_text(c)).take(m.captures.len() as int)
        =~= cv.map_values(|c: (Seq<char>, Seq<char>)| capture_text(c)));
    let joined = crate::text::join_strings(&parts, ", ");
    let mut r = String::new();
    push_str(&mut r, "L");
    let ln = crate::text::decimal_string(m.line);
    push_str(&mut r, ln.as_str());
    push_str(&mut r, ": ");
    push_str(&mut r, m.text.as_str());
    push_str(&mut r, " [");
    push_str(&mut r, joined.as_str());
    push_str(&mut r, "]");
    r
}

/// Runs an AST query over `source` and lists its matches, or the query's
/// error.
pub fn ast_query_listing(source: String, query: &str) -> (listing: String)
    ensures
        listing@ == listing_spec(source@, query@),
{
    let ghost src = source@;
    let mut oracle = TreeSitterOracle::new(source);
    let res = oracle.query(query);
    match res {
        Ok(result) => {
            assert(oracle.ready());
            assert(query_spec(src, query@) == Ok::<Seq<AstMatchView>, Seq<char>>(match_views(result.matches@)));
            if result.matches.len() == 0 {
                let mut out = String::new();
                push_str(&mut out, "(no AST matches)");
                assert(match_views(result.matches@).len() == 0);
                assert(out@ =~= "(no AST matches)"@);
                assert(out@ == listing_spec(src, query@));
                assert(src == source@);
                out
            } else {
                let ms = &result.matches;
                let mut lines: Vec<String> = Vec::new();
                let mut i: usize = 0;
                while i < ms.len()
                    invariant
                        i <= ms.len(),
                        views(lines@) == match_views(ms@).map_values(|m: AstMatchView| match_text(m)).take(i as int),
                    decreases ms.len() - i,
                {
                    let t = match_text_exec(&ms[i]);
                    let ghost tv = t@;
                    assert(match_views(ms@)[i as int] == ms@[i as int]@);
                    let ghost before = views(lines@);
                    lines.push(t);
                    assert(views(lines@) =~= before.push(tv));
                    assert(match_views(ms@).map_values(|m: AstMatchView| match_text(m)).take(i + 1)
                        =~= match_views(ms@).map_values(|m: AstMatchView| match_text(m)).take(i as int).push(tv));
                    i += 1;
                }
                assert(match_views(ms@).map_values(|m: AstMatchView| match_text(m)).take(ms.len() as int)
                    =~= match_views(ms@).map_values(|m: AstMatchView| match_text(m)));
                assert(match_views(ms@).len() > 0);
                let out = crate::text::join_strings(&lines, "\n");
                assert(out@ == listing_spec(src, query@));
                out
            }
        },
        Err(e) => {
            let mut out = String::new();
            push_str(&mut out, "AST query error: ");
            push_str(&mut out, e.as_str());
            assert(src == source@);
            out
        },
    }
}

} // verus!
