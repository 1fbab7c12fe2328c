//! The trace validator: routes an analysis result to the oracle that can
//! check it, and classifies the trace as golden (verified), consensus
//! (agreed by several runs), unverified or failed.
//!
//! Thresholds are shares in thousandths: a coverage `claimed / actual`
//! reaches a threshold `t` when `claimed * 1000 >= t * actual`.

use vstd::prelude::*;
use crate::ast::{
    definitions_of, enum_views, enums_query, fields_of, function_views, functions_of,
    functions_query, impl_views, impls_of, impls_query, query_spec, struct_views, structs_query,
    variants_of, EnumDefinition, FunctionSignature, FunctionView, ImplDefinition,
    StructDefinition, TreeSitterOracle,
};
use crate::grep_oracle::{classify_spec, grep_lines, verify_matches_spec, verify_spec, GrepOracle};
use crate::oracle::QueryType;
use crate::pattern::regex_compile_error;
use crate::payload::{
    ast_result_views, canonical_spec, canonicalize_semantic_answer, normalize_ast_result,
    normalize_ast_spec, params_spec, parse_params, text_opt, AstPayload, AstResult, AstResultView,
    FinalPayload, FinalPayloadView, GrepPayload, SemanticPayload,
};
use crate::router::RlmStats;
use crate::text::{
    chars_of, decimal, decimal_string, eq_str, lines_of, owned, push_str, string_from,
    strip_prefixes, strip_prefixes_of, trim, trim_bounds, trim_start_by, trimmed, views,
};
use crate::validation::{
    at_least_one, claimed_pairs, consensus, failed, failed_with_diff, gives, golden, grep_outcome,
    grep_verdict, judgement, leader, most_common, percent_of, percent_text, reaches, share_reached,
    strings_debug, strings_debug_text, trace_of, unverified, verdict_word, Judgement, Verdict,
};

verus! {

/// A single step of an analysis trace.
#[derive(Debug, Clone, PartialEq)]
pub struct TraceStep {
    /// Iteration number (from 1).
    pub iteration: usize,
    /// Action performed, such as `grep("async fn")`.
    pub action: String,
    /// Output of the action.
    pub output: String,
}

/// Method used to verify a trace.
#[derive(Debug, Clone, Copy, PartialEq, Eq, Structural)]
pub enum VerificationMethod {
    GrepOracle,
    TreeSitterOracle,
    AstOracle,
    Consensus,
    /// No oracle was applied.
    NoOracle,
}

/// A validated trace ready for training data export.
#[derive(Debug, Clone)]
pub struct ValidatedTrace {
    pub prompt: String,
    pub trace: Vec<TraceStep>,
    pub final_payload: Option<FinalPayload>,
    pub verdict: String,
    pub oracle_diff: Option<String>,
    pub repo_revision: String,
    pub timestamp: String,
    pub answer: String,
    pub iterations: usize,
    pub subcalls: usize,
    pub input_tokens: usize,
    pub output_tokens: usize,
    pub elapsed_ms: u64,
    pub source_path: Option<String>,
    pub verification_method: VerificationMethod,
    pub trace_id: String,
}

/// Result of oracle validation.
#[derive(Debug, Clone)]
pub enum OracleResult {
    /// Verified correct (golden training example).
    Golden(ValidatedTrace),
    /// Weakly verified by multi-run agreement: `agreeing` of `runs` runs
    /// gave the winning answer.
    Consensus { trace: ValidatedTrace, agreeing: usize, runs: usize },
    /// No deterministic oracle available.
    Unverified { reason: String, trace: ValidatedTrace },
    /// The oracle disagrees with the answer.
    Failed { reason: String, diff: Option<String>, trace: ValidatedTrace },
}

/// The record persisted for an oracle outcome.
#[derive(Debug, Clone)]
pub struct OracleTraceRecord {
    pub verdict: String,
    pub reason: Option<String>,
    /// Agreeing runs and total runs, for consensus records.
    pub agreement: Option<(usize, usize)>,
    pub trace: ValidatedTrace,
}

/// Record of a sub-model call.
#[derive(Debug, Clone)]
pub struct SubQuery {
    pub query: String,
    pub context_slice: Option<String>,
    pub response: String,
    pub tokens_used: usize,
}

/// Result of an analysis run as the validator sees it.
#[derive(Debug, Clone)]
pub struct RlmAnalysisResult {
    pub answer: String,
    pub iterations: usize,
    pub sub_queries: Vec<SubQuery>,
    pub stats: RlmStats,
}


/// The view of a trace step: iteration, action and output.
pub open spec fn step_views(steps: Seq<TraceStep>) -> Seq<(usize, Seq<char>, Seq<char>)> {
    steps.map_values(|s: TraceStep| (s.iteration, s.action@, s.output@))
}

/// The view of optional trace steps: none are the empty list.
pub open spec fn opt_step_views(steps: Option<Vec<TraceStep>>) -> Seq<(usize, Seq<char>, Seq<char>)> {
    match steps {
        Some(v) => step_views(v@),
        None => Seq::empty(),
    }
}

/// A copy of trace steps with the same content.
pub fn copy_steps(steps: &Option<Vec<TraceStep>>) -> (r: Option<Vec<TraceStep>>)
    ensures
        opt_step_views(r) == opt_step_views(*steps),
        r is Some <==> steps is Some,
{
    match steps {
        None => None,
        Some(v) => {
            let mut out: Vec<TraceStep> = Vec::new();
            let mut i: usize = 0;
            while i < v.len()
                invariant
                    i <= v.len(),
                    step_views(out@) == step_views(v@).take(i as int),
                decreases v.len() - i,
            {
                let s = &v[i];
                let ghost before = step_views(out@);
                out.push(TraceStep { iteration: s.iteration, action: s.action.clone(), output: s.output.clone() });
                assert(step_views(out@) =~= before.push((s.iteration, s.action@, s.output@)));
                assert(step_views(v@).take(i + 1) =~= step_views(v@).take(i as int).push(
                    (s.iteration, s.action@, s.output@),
                ));
                i += 1;
            }
            assert(step_views(v@).take(v.len() as int) =~= step_views(v@));
            Some(out)
        },
    }
}

/// The view of an optional payload.
pub open spec fn opt_payload_view(p: Option<FinalPayload>) -> Option<FinalPayloadView> {
    match p {
        Some(x) => Some(x@),
        None => None,
    }
}

/// The view of an optional string slice.
pub open spec fn str_opt(o: Option<&str>) -> Option<Seq<char>> {
    match o {
        Some(s) => Some(s@),
        None => None,
    }
}

/// The prompt of an analysis: its first sub-query, or `unknown query`.
pub open spec fn prompt_spec(result: RlmAnalysisResult) -> Seq<char> {
    if result.sub_queries@.len() > 0 {
        result.sub_queries@[0].query@
    } else {
        "unknown query"@
    }
}

/// The recorded revision: the given one, or `unknown`.
pub open spec fn revision_spec(repo_revision: Option<&str>) -> Seq<char> {
    match repo_revision {
        Some(r) => r@,
        None => "unknown"@,
    }
}

/// `t` records the analysis `result`, the steps, the payload, the source
/// path and the revision, as a base trace does (all fields but the
/// verdict, the method, the diff, the time stamp and the id).
pub open spec fn records(
    t: ValidatedTrace,
    result: RlmAnalysisResult,
    source_path: Option<&str>,
    repo_revision: Option<&str>,
    steps: Seq<(usize, Seq<char>, Seq<char>)>,
    payload: FinalPayloadView,
) -> bool {
    &&& t.prompt@ == prompt_spec(result)
    &&& step_views(t.trace@) == steps
    &&& opt_payload_view(t.final_payload) == Some(payload)
    &&& t.repo_revision@ == revision_spec(repo_revision)
    &&& t.answer@ == result.answer@
    &&& t.iterations == result.iterations
    &&& t.subcalls == result.sub_queries@.len()
    &&& t.input_tokens == result.stats.input_tokens
    &&& t.output_tokens == result.stats.output_tokens
    &&& t.elapsed_ms == result.stats.elapsed_ms
    &&& text_opt(t.source_path) == str_opt(source_path)
}

/// A base trace: it records the analysis, is unverified, by no oracle,
/// with no diff.
pub open spec fn is_base_trace(
    t: ValidatedTrace,
    result: RlmAnalysisResult,
    source_path: Option<&str>,
    repo_revision: Option<&str>,
    steps: Seq<(usize, Seq<char>, Seq<char>)>,
    payload: FinalPayloadView,
) -> bool {
    &&& records(t, result, source_path, repo_revision, steps, payload)
    &&& t.verdict@ == "unverified"@
    &&& t.oracle_diff is None
    &&& t.verification_method == VerificationMethod::NoOracle
}

/// `chrono::Utc::now().to_rfc3339()`: the current time in RFC 3339 form.
/// Nothing is stated of the text: it comes from the clock.
#[verifier::external_body]
fn now_rfc3339() -> (r: String) {
    chrono::Utc::now().to_rfc3339()
}

/// `uuid::Uuid::new_v4().to_string()`: a fresh random identifier in its
/// hyphenated form of 36 characters (the crate's `Display`).
#[verifier::external_body]
pub(crate) fn new_trace_id() -> (r: String)
    ensures
        r@.len() == 36,
{
    uuid::Uuid::new_v4().to_string()
}

/// The first sub-query of an analysis, or `unknown query`.
fn prompt_of(result: &RlmAnalysisResult) -> (r: String)
    ensures
        r@ == prompt_spec(*result),
{
    if result.sub_queries.len() > 0 {
        result.sub_queries[0].query.clone()
    } else {
        owned("unknown query")
    }
}

/// The given revision, or `unknown`.
fn revision_of(repo_revision: Option<&str>) -> (r: String)
    ensures
        r@ == revision_spec(repo_revision),
{
    match repo_revision {
        Some(r) => owned(r),
        None => owned("unknown"),
    }
}

fn owned_opt(o: Option<&str>) -> (r: Option<String>)
    ensures
        text_opt(r) == str_opt(o),
{
    match o {
        Some(s) => Some(owned(s)),
        None => None,
    }
}

/// Builds the base trace of an analysis with the given time stamp and id.
/// The revision is the given one, or `unknown`; the caller that can read
/// the repository's revision passes it.
pub fn build_base_trace(
    result: &RlmAnalysisResult,
    source_path: Option<&str>,
    repo_revision: Option<&str>,
    trace_steps: Option<Vec<TraceStep>>,
    final_payload: FinalPayload,
    timestamp: String,
    trace_id: String,
) -> (t: ValidatedTrace)
    ensures
        is_base_trace(t, *result, source_path, repo_revision, opt_step_views(trace_steps), final_payload@),
        t.timestamp == timestamp,
        t.trace_id == trace_id,
{
    let steps = match trace_steps {
        Some(v) => v,
        None => Vec::new(),
    };
    assert(step_views(steps@) =~= opt_step_views(trace_steps));
    ValidatedTrace {
        prompt: prompt_of(result),
        trace: steps,
        final_payload: Some(final_payload),
        verdict: owned("unverified"),
        oracle_diff: None,
        repo_revision: revision_of(repo_revision),
        timestamp,
        answer: result.answer.clone(),
        iterations: result.iterations,
        subcalls: result.sub_queries.len(),
        input_tokens: result.stats.input_tokens,
        output_tokens: result.stats.output_tokens,
        elapsed_ms: result.stats.elapsed_ms,
        source_path: owned_opt(source_path),
        verification_method: VerificationMethod::NoOracle,
        trace_id,
    }
}

/// The base trace of an analysis, stamped now with a fresh id.
pub fn fresh_base_trace(
    result: &RlmAnalysisResult,
    source_path: Option<&str>,
    repo_revision: Option<&str>,
    trace_steps: Option<Vec<TraceStep>>,
    final_payload: FinalPayload,
) -> (t: ValidatedTrace)
    ensures
        is_base_trace(t, *result, source_path, repo_revision, opt_step_views(trace_steps), final_payload@),
{
    let timestamp = now_rfc3339();
    let trace_id = new_trace_id();
    build_base_trace(result, source_path, repo_revision, trace_steps, final_payload, timestamp, trace_id)
}

/// A placeholder trace: it records no analysis; prompt `unknown query`,
/// no steps, zero counters.
pub open spec fn is_placeholder_trace(
    t: ValidatedTrace,
    source_path: Option<&str>,
    repo_revision: Option<&str>,
    payload: Option<FinalPayloadView>,
) -> bool {
    &&& t.prompt@ == "unknown query"@
    &&& t.trace@.len() == 0
    &&& opt_payload_view(t.final_payload) == payload
    &&& t.verdict@ == "unverified"@
    &&& t.oracle_diff is None
    &&& t.repo_revision@ == revision_spec(repo_revision)
    &&& t.answer@.len() == 0
    &&& t.iterations == 0
    &&& t.subcalls == 0
    &&& t.input_tokens == 0
    &&& t.output_tokens == 0
    &&& t.elapsed_ms == 0
    &&& text_opt(t.source_path) == str_opt(source_path)
    &&& t.verification_method == VerificationMethod::NoOracle
}

/// A summary trace: like a placeholder, with the given source path and
/// revision, whatever its answer, verdict and method.
pub open spec fn is_summary_trace(t: ValidatedTrace, source_path: Option<&str>, repo_revision: Option<&str>) -> bool {
    &&& t.prompt@ == "unknown query"@
    &&& t.trace@.len() == 0
    &&& t.final_payload is None
    &&& t.oracle_diff is None
    &&& t.repo_revision@ == revision_spec(repo_revision)
    &&& t.iterations == 0
    &&& t.subcalls == 0
    &&& t.input_tokens == 0
    &&& t.output_tokens == 0
    &&& t.elapsed_ms == 0
    &&& text_opt(t.source_path) == str_opt(source_path)
}

/// Builds a placeholder trace, stamped now with a fresh id.
pub fn build_placeholder_trace(
    source_path: Option<&str>,
    repo_revision: Option<&str>,
    final_payload: Option<FinalPayload>,
) -> (t: ValidatedTrace)
    ensures
        is_placeholder_trace(t, source_path, repo_revision, opt_payload_view(final_payload)),
{
    ValidatedTrace {
        prompt: owned("unknown query"),
        trace: Vec::new(),
        final_payload,
        verdict: owned("unverified"),
        oracle_diff: None,
        repo_revision: revision_of(repo_revision),
        timestamp: now_rfc3339(),
        answer: String::new(),
        iterations: 0,
        subcalls: 0,
        input_tokens: 0,
        output_tokens: 0,
        elapsed_ms: 0,
        source_path: owned_opt(source_path),
        verification_method: VerificationMethod::NoOracle,
        trace_id: new_trace_id(),
    }
}

/// The entries of `s` without repeats, each where it first occurs.
pub open spec fn distinct(s: Seq<Seq<char>>) -> Seq<Seq<char>>
    decreases s.len(),
{
    if s.len() == 0 {
        Seq::empty()
    } else {
        let d = distinct(s.drop_last());
        if d.contains(s.last()) {
            d
        } else {
            d.push(s.last())
        }
    }
}

/// The entries of `s` that `other` lacks, in order.
pub open spec fn not_in(s: Seq<Seq<char>>, other: Seq<Seq<char>>) -> Seq<Seq<char>>
    decreases s.len(),
{
    if s.len() == 0 {
        Seq::empty()
    } else {
        let r = not_in(s.drop_last(), other);
        if other.contains(s.last()) {
            r
        } else {
            r.push(s.last())
        }
    }
}

/// The canonical texts of AST results.
pub open spec fn normalized(rs: Seq<AstResultView>) -> Seq<Seq<char>> {
    rs.map_values(|r: AstResultView| normalize_ast_spec(r))
}

/// The verdict of comparing claimed with actual structure entries as
/// sets: equal sets are golden; a proper subset is golden when it covers
/// `t` thousandths of the actual entries, else failed; anything else
/// failed, listing the extra and the missing entries (each in the order
/// of its list).
pub open spec fn compare_structures(c: Seq<Seq<char>>, a: Seq<Seq<char>>, t: u32) -> Verdict {
    let m = Some(VerificationMethod::TreeSitterOracle);
    let extra = not_in(distinct(c), a);
    let missing = not_in(distinct(a), c);
    if extra.len() == 0 && missing.len() == 0 {
        (Judgement::Golden, m)
    } else if extra.len() == 0 {
        let nc = distinct(c).len();
        let na = distinct(a).len();
        if share_reached(nc, at_least_one(na), t as nat) {
            (Judgement::Golden, m)
        } else {
            let d = "Partial structural match. Claimed "@ + decimal(nc) + " entries, actual "@
                + decimal(na) + " entries."@;
            (Judgement::Failed(d, Some(d)), m)
        }
    } else {
        let d = "Structural mismatch. extra="@ + decimal(extra.len()) + " missing="@ + decimal(
            missing.len(),
        ) + " extra_items="@ + strings_debug(extra) + " missing_items="@ + strings_debug(missing);
        (Judgement::Failed(d, Some(d)), m)
    }
}

fn has_string(v: &Vec<String>, x: &String) -> (b: bool)
    ensures
        b == views(v@).contains(x@),
{
    let mut i: usize = 0;
    while i < v.len()
        invariant
            i <= v.len(),
            forall|k: int| 0 <= k < i ==> v@[k]@ != x@,
        decreases v.len() - i,
    {
        if v[i] == *x {
            assert(views(v@)[i as int] == x@);
            return true;
        }
        i += 1;
    }
    assert(!views(v@).contains(x@)) by {
        if views(v@).contains(x@) {
            let k = choose|k: int| 0 <= k < views(v@).len() && views(v@)[k] == x@;
            assert(v@[k]@ == x@);
        }
    }
    false
}

fn distinct_strings(v: &Vec<String>) -> (r: Vec<String>)
    ensures
        views(r@) == distinct(views(v@)),
{
    let ghost sv = views(v@);
    let mut r: Vec<String> = Vec::new();
    let mut i: usize = 0;
    while i < v.len()
        invariant
            i <= v.len(),
            sv == views(v@),
            views(r@) == distinct(sv.take(i as int)),
        decreases v.len() - i,
    {
        assert(sv.take(i + 1).drop_last() =~= sv.take(i as int));
        assert(sv.take(i + 1).last() == v@[i as int]@);
        if !has_string(&r, &v[i]) {
            let ghost before = views(r@);
            r.push(v[i].clone());
            assert(views(r@) =~= before.push(v@[i as int]@));
        }
        i += 1;
    }
    assert(sv.take(v.len() as int) =~= sv);
    r
}

fn strings_not_in(v: &Vec<String>, other: &Vec<String>) -> (r: Vec<String>)
    ensures
        views(r@) == not_in(views(v@), views(other@)),
{
    let ghost sv = views(v@);
    let mut r: Vec<String> = Vec::new();
    let mut i: usize = 0;
    while i < v.len()
        invariant
            i <= v.len(),
            sv == views(v@),
            views(r@) == not_in(sv.take(i as int), views(other@)),
        decreases v.len() - i,
    {
        assert(sv.take(i + 1).drop_last() =~= sv.take(i as int));
        assert(sv.take(i + 1).last() == v@[i as int]@);
        if !has_string(other, &v[i]) {
            let ghost before = views(r@);
            r.push(v[i].clone());
            assert(views(r@) =~= before.push(v@[i as int]@));
        }
        i += 1;
    }
    assert(sv.take(v.len() as int) =~= sv);
    r
}

fn normalize_all(rs: &Vec<AstResult>) -> (r: Vec<String>)
    ensures
        views(r@) == normalized(ast_result_views(rs@)),
{
    let ghost rv = ast_result_views(rs@);
    let mut r: Vec<String> = Vec::new();
    let mut i: usize = 0;
    while i < rs.len()
        invariant
            i <= rs.len(),
            rv == ast_result_views(rs@),
            views(r@) == normalized(rv.take(i as int)),
        decreases rs.len() - i,
    {
        let ghost before = views(r@);
        r.push(normalize_ast_result(&rs[i]));
        assert(views(r@) =~= before.push(normalize_ast_spec(rv[i as int])));
        assert(normalized(rv.take(i + 1)) =~= normalized(rv.take(i as int)).push(
            normalize_ast_spec(rv[i as int]),
        ));
        i += 1;
    }
    assert(rv.take(rs.len() as int) =~= rv);
    r
}

/// Gives the verdict of a structural comparison to the trace `base`.
fn structure_outcome(claimed: &Vec<AstResult>, actual: &Vec<AstResult>, t: u32, base: ValidatedTrace) -> (r:
    OracleResult)
    ensures
        gives(
            r,
            base,
            compare_structures(
                normalized(ast_result_views(claimed@)),
                normalized(ast_result_views(actual@)),
                t,
            ),
        ),
{
    let c = normalize_all(claimed);
    let a = normalize_all(actual);
    let dc = distinct_strings(&c);
    let da = distinct_strings(&a);
    let extra = strings_not_in(&dc, &a);
    let missing = strings_not_in(&da, &c);
    if extra.len() == 0 && missing.len() == 0 {
        golden(base, VerificationMethod::TreeSitterOracle)
    } else if extra.len() == 0 {
        let na = if da.len() == 0 {
            1
        } else {
            da.len()
        };
        if reaches(dc.len(), na, t) {
            golden(base, VerificationMethod::TreeSitterOracle)
        } else {
            let mut d = owned("Partial structural match. Claimed ");
            push_str(&mut d, decimal_string(dc.len()).as_str());
            push_str(&mut d, " entries, actual ");
            push_str(&mut d, decimal_string(da.len()).as_str());
            push_str(&mut d, " entries.");
            failed_with_diff(base, d, VerificationMethod::TreeSitterOracle)
        }
    } else {
        let mut d = owned("Structural mismatch. extra=");
        push_str(&mut d, decimal_string(extra.len()).as_str());
        push_str(&mut d, " missing=");
        push_str(&mut d, decimal_string(missing.len()).as_str());
        push_str(&mut d, " extra_items=");
        push_str(&mut d, strings_debug_text(&extra).as_str());
        push_str(&mut d, " missing_items=");
        push_str(&mut d, strings_debug_text(&missing).as_str());
        failed_with_diff(base, d, VerificationMethod::TreeSitterOracle)
    }
}

/// A function signature as an AST result: its parameter list split, its
/// return type without `->`, its line as span.
pub open spec fn function_result(f: FunctionView) -> AstResultView {
    (
        f.0,
        params_spec(f.1),
        match f.2 {
            Some(r) => Some(trim(strip_prefixes(trim(r), "->"@))),
            None => None,
        },
        Some((f.3, f.3)),
    )
}

/// A struct or enum definition as an AST result: its members as
/// arguments, its line as span.
pub open spec fn definition_result(d: (Seq<char>, Seq<Seq<char>>, usize)) -> AstResultView {
    (d.0, d.1, None, Some((d.2, d.2)))
}

/// An impl block as an AST result: the trait as its one argument, the
/// method count as `methods:<n>`, its line as span.
pub open spec fn impl_result(i: (Seq<char>, Option<Seq<char>>, usize, usize)) -> AstResultView {
    (
        i.0,
        match i.1 {
            Some(t) => seq![t],
            None => Seq::empty(),
        },
        Some("methods:"@ + decimal(i.2 as nat)),
        Some((i.3, i.3)),
    )
}

/// The query kinds an AST payload may name.
pub open spec fn named_kind(q: Seq<char>) -> bool {
    q == "functions"@ || q == "structs"@ || q == "enums"@ || q == "impls"@
}

/// What the tree-sitter oracle finds in `source` for the query kind `q`
/// (functions for any kind it does not name), once its parser is set up.
pub open spec fn ast_actual(source: Seq<char>, q: Seq<char>) -> Result<Seq<AstResultView>, Seq<char>> {
    if q == "structs"@ {
        match query_spec(source, structs_query()) {
            Err(e) => Err(e),
            Ok(ms) => match definitions_of(ms, |b: Seq<char>| fields_of(b)) {
                Err(e) => Err(e),
                Ok(ds) => Ok(ds.map_values(|d: (Seq<char>, Seq<Seq<char>>, usize)| definition_result(d))),
            },
        }
    } else if q == "enums"@ {
        match query_spec(source, enums_query()) {
            Err(e) => Err(e),
            Ok(ms) => match definitions_of(ms, |b: Seq<char>| variants_of(b)) {
                Err(e) => Err(e),
                Ok(ds) => Ok(ds.map_values(|d: (Seq<char>, Seq<Seq<char>>, usize)| definition_result(d))),
            },
        }
    } else if q == "impls"@ {
        match query_spec(source, impls_query()) {
            Err(e) => Err(e),
            Ok(ms) => Ok(impls_of(ms).map_values(|i: (Seq<char>, Option<Seq<char>>, usize, usize)| impl_result(i))),
        }
    } else {
        match query_spec(source, functions_query()) {
            Err(e) => Err(e),
            Ok(ms) => Ok(functions_of(ms).map_values(|f: FunctionView| function_result(f))),
        }
    }
}

/// The verdict on an AST payload whose results are `claimed`, for the
/// query kind `q`, given what the oracle found: a failure of a named kind
/// leaves the trace unverified; for other kinds it counts as finding
/// nothing.
pub open spec fn ast_verdict(
    claimed: Seq<AstResultView>,
    q: Seq<char>,
    actual: Result<Seq<AstResultView>, Seq<char>>,
    t: u32,
) -> Verdict {
    match actual {
        Err(e) => if named_kind(q) {
            (Judgement::Unverified("Failed to parse AST: "@ + e), None)
        } else {
            compare_structures(normalized(claimed), Seq::empty(), t)
        },
        Ok(a) => compare_structures(normalized(claimed), normalized(a), t),
    }
}

fn return_type_text(r: &Option<String>) -> (o: Option<String>)
    ensures
        text_opt(o) == match text_opt(*r) {
            Some(x) => Some(trim(strip_prefixes(trim(x), "->"@))),
            None => None,
        },
{
    match r {
        Some(x) => {
            let cs = chars_of(x.as_str());
            let t1 = trimmed(cs.as_slice());
            proof {
                reveal_strlit("->");
            }
            let t2 = strip_prefixes_of(t1.as_slice(), "->");
            let t3 = trimmed(t2.as_slice());
            Some(string_from(t3.as_slice()))
        },
        None => None,
    }
}

fn function_results(fs: &Vec<FunctionSignature>) -> (r: Vec<AstResult>)
    ensures
        ast_result_views(r@) == function_views(fs@).map_values(|f: FunctionView| function_result(f)),
{
    let ghost fv = function_views(fs@);
    let mut r: Vec<AstResult> = Vec::new();
    let mut i: usize = 0;
    while i < fs.len()
        invariant
            i <= fs.len(),
            fv == function_views(fs@),
            ast_result_views(r@) == fv.take(i as int).map_values(|f: FunctionView| function_result(f)),
        decreases fs.len() - i,
    {
        let f = &fs[i];
        let a = AstResult {
            name: f.name.clone(),
            args: parse_params(f.params.as_str()),
            return_type: return_type_text(&f.return_type),
            span: Some((f.line, f.line)),
        };
        let ghost before = ast_result_views(r@);
        r.push(a);
        assert(ast_result_views(r@) =~= before.push(function_result(fv[i as int])));
        assert(fv.take(i + 1).map_values(|f: FunctionView| function_result(f)) =~= fv.take(
            i as int,
        ).map_values(|f: FunctionView| function_result(f)).push(function_result(fv[i as int])));
        i += 1;
    }
    assert(fv.take(fs.len() as int) =~= fv);
    r
}

fn copy_all(v: &Vec<String>) -> (r: Vec<String>)
    ensures
        views(r@) == views(v@),
{
    let mut r: Vec<String> = Vec::new();
    let mut i: usize = 0;
    while i < v.len()
        invariant
            i <= v.len(),
            views(r@) == views(v@).take(i as int),
        decreases v.len() - i,
    {
        let ghost before = views(r@);
        r.push(v[i].clone());
        assert(views(r@) =~= before.push(v@[i as int]@));
        assert(views(v@).take(i + 1) =~= views(v@).take(i as int).push(v@[i as int]@));
        i += 1;
    }
    assert(views(v@).take(v.len() as int) =~= views(v@));
    r
}

fn struct_results(ds: &Vec<StructDefinition>) -> (r: Vec<AstResult>)
    ensures
        ast_result_views(r@) == struct_views(ds@).map_values(
            |d: (Seq<char>, Seq<Seq<char>>, usize)| definition_result(d),
        ),
{
    let ghost dv = struct_views(ds@);
    let mut r: Vec<AstResult> = Vec::new();
    let mut i: usize = 0;
    while i < ds.len()
        invariant
            i <= ds.len(),
            dv == struct_views(ds@),
            ast_result_views(r@) == dv.take(i as int).map_values(
                |d: (Seq<char>, Seq<Seq<char>>, usize)| definition_result(d),
            ),
        decreases ds.len() - i,
    {
        let d = &ds[i];
        let a = AstResult {
            name: d.name.clone(),
            args: copy_all(&d.fields),
            return_type: None,
            span: Some((d.line, d.line)),
        };
        let ghost before = ast_result_views(r@);
        r.push(a);
        assert(crate::ast::string_views(d.fields@) =~= views(d.fields@));
        assert(ast_result_views(r@) =~= before.push(definition_result(dv[i as int])));
        assert(dv.take(i + 1).map_values(|d: (Seq<char>, Seq<Seq<char>>, usize)| definition_result(d))
            =~= dv.take(i as int).map_values(
            |d: (Seq<char>, Seq<Seq<char>>, usize)| definition_result(d),
        ).push(definition_result(dv[i as int])));
        i += 1;
    }
    assert(dv.take(ds.len() as int) =~= dv);
    r
}

fn enum_results(ds: &Vec<EnumDefinition>) -> (r: Vec<AstResult>)
    ensures
        ast_result_views(r@) == enum_views(ds@).map_values(
            |d: (Seq<char>, Seq<Seq<char>>, usize)| definition_result(d),
        ),
{
    let ghost dv = enum_views(ds@);
    let mut r: Vec<AstResult> = Vec::new();
    let mut i: usize = 0;
    while i < ds.len()
        invariant
            i <= ds.len(),
            dv == enum_views(ds@),
            ast_result_views(r@) == dv.take(i as int).map_values(
                |d: (Seq<char>, Seq<Seq<char>>, usize)| definition_result(d),
            ),
        decreases ds.len() - i,
    {
        let d = &ds[i];
        let a = AstResult {
            name: d.name.clone(),
            args: copy_all(&d.variants),
            return_type: None,
            span: Some((d.line, d.line)),
        };
        let ghost before = ast_result_views(r@);
        r.push(a);
        assert(crate::ast::string_views(d.variants@) =~= views(d.variants@));
        assert(ast_result_views(r@) =~= before.push(definition_result(dv[i as int])));
        assert(dv.take(i + 1).map_values(|d: (Seq<char>, Seq<Seq<char>>, usize)| definition_result(d))
            =~= dv.take(i as int).map_values(
            |d: (Seq<char>, Seq<Seq<char>>, usize)| definition_result(d),
        ).push(definition_result(dv[i as int])));
        i += 1;
    }
    assert(dv.take(ds.len() as int) =~= dv);
    r
}

fn impl_results(is: &Vec<ImplDefinition>) -> (r: Vec<AstResult>)
    ensures
        ast_result_views(r@) == impl_views(is@).map_values(
            |i: (Seq<char>, Option<Seq<char>>, usize, usize)| impl_result(i),
        ),
{
    let ghost iv = impl_views(is@);
    let mut r: Vec<AstResult> = Vec::new();
    let mut k: usize = 0;
    while k < is.len()
        invariant
            k <= is.len(),
            iv == impl_views(is@),
            ast_result_views(r@) == iv.take(k as int).map_values(
                |i: (Seq<char>, Option<Seq<char>>, usize, usize)| impl_result(i),
            ),
        decreases is.len() - k,
    {
        let d = &is[k];
        let args: Vec<String> = match &d.trait_name {
            Some(t) => {
                let mut v: Vec<String> = Vec::new();
                v.push(t.clone());
                v
            },
            None => Vec::new(),
        };
        let mut rt = owned("methods:");
        push_str(&mut rt, decimal_string(d.method_count).as_str());
        let a = AstResult {
            name: d.self_type.clone(),
            args,
            return_type: Some(rt),
            span: Some((d.line, d.line)),
        };
        let ghost before = ast_result_views(r@);
        r.push(a);
        assert(views(a.args@) =~= impl_result(iv[k as int]).1);
        assert(ast_result_views(r@) =~= before.push(impl_result(iv[k as int])));
        assert(iv.take(k + 1).map_values(|i: (Seq<char>, Option<Seq<char>>, usize, usize)| impl_result(i))
            =~= iv.take(k as int).map_values(
            |i: (Seq<char>, Option<Seq<char>>, usize, usize)| impl_result(i),
        ).push(impl_result(iv[k as int])));
        k += 1;
    }
    assert(iv.take(is.len() as int) =~= iv);
    r
}

/// What the oracle finds for the query kind `q`, as AST results.
fn actual_results(oracle: &mut TreeSitterOracle, q: &str) -> (r: Result<Vec<AstResult>, String>)
    ensures
        final(oracle).source() == old(oracle).source(),
        match ast_actual(old(oracle).source(), q@) {
            Ok(a) => (r matches Ok(v) && ast_result_views(v@) == a),
            Err(e) => (r matches Err(x) && x@ == e),
        },
{
    proof {
        reveal_strlit("structs");
        reveal_strlit("enums");
        reveal_strlit("impls");
    }
    if crate::text::eq_str(chars_of(q).as_slice(), "structs") {
        match oracle.get_structs() {
            Ok(ds) => Ok(struct_results(&ds)),
            Err(e) => Err(e),
        }
    } else if crate::text::eq_str(chars_of(q).as_slice(), "enums") {
        match oracle.get_enums() {
            Ok(ds) => Ok(enum_results(&ds)),
            Err(e) => Err(e),
        }
    } else if crate::text::eq_str(chars_of(q).as_slice(), "impls") {
        match oracle.get_impls() {
            Ok(is) => Ok(impl_results(&is)),
            Err(e) => Err(e),
        }
    } else {
        match oracle.get_functions() {
            Ok(fs) => Ok(function_results(&fs)),
            Err(e) => Err(e),
        }
    }
}

/// The text of a complete grep mismatch.
pub open spec fn complete_mismatch_text() -> Seq<char> {
    "Complete mismatch between claimed and actual matches"@
}

/// The reason a semantic payload stays unverified.
pub open spec fn semantic_reason() -> Seq<char> {
    "Semantic queries require LLM understanding - no deterministic oracle available"@
}

/// The reason a plain-text answer to a structure query stays unverified.
pub open spec fn structured_reason() -> Seq<char> {
    "Structured query result was not emitted as FINAL(JSON); deterministic AST verification requires typed payload"@
}

/// The reason a plain-text answer to a semantic query stays unverified.
pub open spec fn free_form_reason() -> Seq<char> {
    "Semantic/free-form answer without FINAL(JSON) payload"@
}

/// The verdict on a grep payload: the claimed matches against the lines
/// the pattern matches in `source`.
pub open spec fn grep_route(
    pattern: Seq<char>,
    matches: Seq<(usize, Seq<char>)>,
    source: Seq<char>,
    t: u32,
) -> Verdict {
    match regex_compile_error(pattern) {
        Some(e) => (Judgement::Unverified("Could not run grep: "@ + e), None),
        None => grep_verdict(
            verify_matches_spec(matches, grep_lines(pattern, lines_of(source))),
            t,
            complete_mismatch_text(),
        ),
    }
}

/// The verdict on an answer that did not parse as a payload: an attempt
/// at JSON fails; plain text to a pattern-match query is checked by grep;
/// plain text to other queries stays unverified.
pub open spec fn malformed_verdict(
    error: Seq<char>,
    raw: Seq<char>,
    source: Seq<char>,
    answer: Seq<char>,
    query: Seq<char>,
    t: u32,
) -> Verdict {
    let s = trim_start_by(raw, true, Seq::empty());
    if s.len() > 0 && (s[0] == '{' || s[0] == '[') {
        (Judgement::Failed("Malformed FINAL payload: "@ + error, None), None)
    } else {
        match classify_spec(query) {
            QueryType::PatternMatch => grep_verdict(
                verify_spec(lines_of(source), answer, query),
                t,
                complete_mismatch_text(),
            ),
            QueryType::Structure => (Judgement::Unverified(structured_reason()), None),
            QueryType::Semantic => (Judgement::Unverified(free_form_reason()), None),
        }
    }
}

/// The query kind of an AST payload (empty for other payloads).
pub open spec fn ast_kind(p: FinalPayloadView) -> Seq<char> {
    match p {
        FinalPayloadView::Ast(_, q, _) => q,
        _ => Seq::empty(),
    }
}

/// The verdict on an analysis with payload `p` over `source`, given its
/// answer, its query, the coverage threshold `t` and what the tree-sitter
/// oracle found (`actual`, used for AST payloads only).
pub open spec fn validate_verdict(
    p: FinalPayloadView,
    source: Seq<char>,
    answer: Seq<char>,
    query: Seq<char>,
    t: u32,
    actual: Result<Seq<AstResultView>, Seq<char>>,
) -> Verdict {
    match p {
        FinalPayloadView::Grep(_, pattern, matches) => grep_route(pattern, matches, source, t),
        FinalPayloadView::Ast(_, q, rs) => ast_verdict(rs, q, actual, t),
        FinalPayloadView::Semantic(_, _) => (Judgement::Unverified(semantic_reason()), None),
        FinalPayloadView::Malformed(error, raw) => malformed_verdict(error, raw, source, answer, query, t),
    }
}

/// `r` settles an analysis with the verdict `v`: it says `v`'s judgement,
/// and its trace records the analysis and carries `v`'s marks.
pub open spec fn settles(
    r: OracleResult,
    v: Verdict,
    result: RlmAnalysisResult,
    source_path: Option<&str>,
    repo_revision: Option<&str>,
    steps: Seq<(usize, Seq<char>, Seq<char>)>,
    payload: FinalPayloadView,
) -> bool {
    let t = trace_of(r);
    &&& judgement(r) == v.0
    &&& t.verdict@ == verdict_word(v.0)
    &&& t.verification_method == match v.1 {
        Some(m) => m,
        None => VerificationMethod::NoOracle,
    }
    &&& text_opt(t.oracle_diff) == match v.0 {
        Judgement::Failed(_, Some(d)) => Some(d),
        _ => None,
    }
    &&& records(t, result, source_path, repo_revision, steps, payload)
}

/// `r` is what validating the analysis `result` with payload `payload`
/// over `source` gives, with the coverage threshold `t`: the verdict of
/// [`validate_verdict`], where an AST payload is judged by what the
/// tree-sitter oracle finds.
pub open spec fn validated(
    r: OracleResult,
    t: u32,
    result: RlmAnalysisResult,
    payload: FinalPayloadView,
    source: Seq<char>,
    source_path: Option<&str>,
    repo_revision: Option<&str>,
    steps: Seq<(usize, Seq<char>, Seq<char>)>,
) -> bool {
    settles(
        r,
        validate_verdict(payload, source, result.answer@, prompt_spec(result), t, ast_actual(source, ast_kind(payload))),
        result,
        source_path,
        repo_revision,
        steps,
        payload,
    )
}

proof fn lemma_settles(
    r: OracleResult,
    base: ValidatedTrace,
    v: Verdict,
    result: RlmAnalysisResult,
    source_path: Option<&str>,
    repo_revision: Option<&str>,
    steps: Seq<(usize, Seq<char>, Seq<char>)>,
    payload: FinalPayloadView,
)
    requires
        is_base_trace(base, result, source_path, repo_revision, steps, payload),
        gives(r, base, v),
    ensures
        settles(r, v, result, source_path, repo_revision, steps, payload),
{
}

/// The answer of a semantic payload.
pub open spec fn semantic_answer(p: FinalPayloadView) -> Option<Seq<char>> {
    match p {
        FinalPayloadView::Semantic(_, a) => Some(a),
        _ => None,
    }
}

/// The payloads of a list of runs.
pub open spec fn run_payloads(runs: Seq<(RlmAnalysisResult, FinalPayload)>) -> Seq<FinalPayloadView> {
    runs.map_values(|r: (RlmAnalysisResult, FinalPayload)| r.1@)
}

/// Every payload is semantic.
pub open spec fn all_semantic(ps: Seq<FinalPayloadView>) -> bool {
    forall|i: int| 0 <= i < ps.len() ==> (#[trigger] semantic_answer(ps[i])) is Some
}

/// The semantic answers of the payloads.
pub open spec fn semantic_answers(ps: Seq<FinalPayloadView>) -> Seq<Seq<char>> {
    ps.map_values(|p: FinalPayloadView| semantic_answer(p).unwrap())
}

/// The canonical semantic answers of the payloads.
pub open spec fn canonical_answers(ps: Seq<FinalPayloadView>) -> Seq<Seq<char>> {
    ps.map_values(|p: FinalPayloadView| canonical_spec(semantic_answer(p).unwrap()))
}

/// The file a consensus payload names: the source path, or `unknown`.
pub open spec fn file_or_unknown(source_path: Option<&str>) -> Seq<char> {
    match source_path {
        Some(p) => p@,
        None => "unknown"@,
    }
}

/// The reason consensus is not reached: the best agreement in percent
/// and its canonical answer.
pub open spec fn no_consensus_reason(count: nat, runs: nat, canonical: Seq<char>) -> Seq<char> {
    "Consensus not reached: best agreement "@ + percent_text(count, runs) + "% for answer '"@ + canonical
        + "'"@
}

/// Routes analysis results to the oracle that can check them, and
/// classifies their traces.
pub struct TraceValidator {
    /// Coverage a partial answer needs for a golden verdict, in thousandths.
    confidence_threshold: u32,
    /// Share of agreeing runs consensus needs, in thousandths.
    consensus_threshold: u32,
}

impl TraceValidator {
    /// The coverage threshold, in thousandths.
    pub closed spec fn confidence(&self) -> u32 {
        self.confidence_threshold
    }

    /// The consensus threshold, in thousandths.
    pub closed spec fn agreement(&self) -> u32 {
        self.consensus_threshold
    }

    /// A validator with a coverage threshold of 950 and a consensus
    /// threshold of 1000 thousandths.
    pub fn new() -> (v: Self)
        ensures
            v.confidence() == 950,
            v.agreement() == 1000,
    {
        TraceValidator { confidence_threshold: 950, consensus_threshold: 1000 }
    }

    /// Sets the coverage threshold, clamped to 1000 thousandths.
    pub fn with_confidence_threshold(self, threshold: u32) -> (v: Self)
        ensures
            v.confidence() == if threshold > 1000 {
                1000
            } else {
                threshold
            },
            v.agreement() == self.agreement(),
    {
        let mut v = self;
        v.confidence_threshold = if threshold > 1000 {
            1000
        } else {
            threshold
        };
        v
    }

    /// Sets the consensus threshold, clamped to 1000 thousandths.
    pub fn with_consensus_threshold(self, threshold: u32) -> (v: Self)
        ensures
            v.agreement() == if threshold > 1000 {
                1000
            } else {
                threshold
            },
            v.confidence() == self.confidence(),
    {
        let mut v = self;
        v.consensus_threshold = if threshold > 1000 {
            1000
        } else {
            threshold
        };
        v
    }

    /// Gives the verdict on a grep verification to the trace `base`.
    pub fn oracle_result_from_grep_verification(
        &self,
        verification: crate::grep_oracle::GrepVerification,
        base: ValidatedTrace,
    ) -> (r: OracleResult)
        ensures
            gives(r, base, grep_verdict(verification@, self.confidence(), complete_mismatch_text())),
    {
        grep_outcome(verification, self.confidence_threshold, base, "Complete mismatch between claimed and actual matches")
    }

    fn validate_grep_payload(&self, g: &GrepPayload, source: &str, base: ValidatedTrace) -> (r: OracleResult)
        ensures
            gives(
                r,
                base,
                grep_route(g.pattern@, crate::payload::grep_match_views(g.matches@), source@, self.confidence()),
            ),
    {
        let oracle = GrepOracle::new(owned(source));
        let truth = match oracle.grep(g.pattern.as_str()) {
            Ok(m) => m,
            Err(e) => {
                let mut reason = owned("Could not run grep: ");
                push_str(&mut reason, e.as_str());
                return unverified(base, reason);
            },
        };
        let claimed = claimed_pairs(&g.matches);
        let v = oracle.verify_matches(claimed.as_slice(), truth.as_slice());
        self.oracle_result_from_grep_verification(v, base)
    }

    fn validate_ast_payload(&self, a: &AstPayload, source: &str, base: ValidatedTrace) -> (r: OracleResult)
        ensures
            gives(
                r,
                base,
                ast_verdict(ast_result_views(a.results@), a.query@, ast_actual(source@, a.query@), self.confidence()),
            ),
    {
        let mut oracle = TreeSitterOracle::new(owned(source));
        let found = actual_results(&mut oracle, a.query.as_str());
        match found {
            Ok(v) => {
                let r = structure_outcome(&a.results, &v, self.confidence_threshold, base);
                assert(gives(
                    r,
                    base,
                    ast_verdict(ast_result_views(a.results@), a.query@, Ok(ast_result_views(v@)), self.confidence()),
                ));
                r
            },
            Err(e) => {
                proof {
                    reveal_strlit("functions");
                    reveal_strlit("structs");
                    reveal_strlit("enums");
                    reveal_strlit("impls");
                }
                let q = chars_of(a.query.as_str());
                let named = eq_str(q.as_slice(), "functions") || eq_str(q.as_slice(), "structs")
                    || eq_str(q.as_slice(), "enums") || eq_str(q.as_slice(), "impls");
                let r = if named {
                    let mut reason = owned("Failed to parse AST: ");
                    push_str(&mut reason, e.as_str());
                    unverified(base, reason)
                } else {
                    let none: Vec<AstResult> = Vec::new();
                    let r = structure_outcome(&a.results, &none, self.confidence_threshold, base);
                    assert(ast_result_views(none@) =~= Seq::<AstResultView>::empty());
                    assert(normalized(Seq::<AstResultView>::empty()) =~= Seq::<Seq<char>>::empty());
                    r
                };
                assert(gives(
                    r,
                    base,
                    ast_verdict(ast_result_views(a.results@), a.query@, Err(e@), self.confidence()),
                ));
                r
            },
        }
    }

    fn validate_malformed(
        &self,
        error: &String,
        raw: &String,
        answer: &str,
        query: &str,
        source: &str,
        base: ValidatedTrace,
    ) -> (r: OracleResult)
        ensures
            gives(r, base, malformed_verdict(error@, raw@, source@, answer@, query@, self.confidence())),
    {
        let cs = chars_of(raw.as_str());
        let empty: Vec<char> = Vec::new();
        let (a, _) = trim_bounds(cs.as_slice(), true, empty.as_slice());
        assert(empty@ =~= Seq::<char>::empty());
        if a < cs.len() && (cs[a] == '{' || cs[a] == '[') {
            let mut reason = owned("Malformed FINAL payload: ");
            push_str(&mut reason, error.as_str());
            return failed(base, reason);
        }
        match GrepOracle::classify_query(query) {
            QueryType::PatternMatch => {
                let oracle = GrepOracle::new(owned(source));
                let v = oracle.verify(answer, query);
                self.oracle_result_from_grep_verification(v, base)
            },
            QueryType::Structure => unverified(
                base,
                owned(
                    "Structured query result was not emitted as FINAL(JSON); deterministic AST verification requires typed payload",
                ),
            ),
            QueryType::Semantic => unverified(
                base,
                owned("Semantic/free-form answer without FINAL(JSON) payload"),
            ),
        }
    }

    /// Validates an analysis against the source it analysed, routed by its
    /// payload: grep payloads by the grep oracle, AST payloads by the
    /// tree-sitter oracle, semantic payloads stay unverified, and an
    /// answer that is no payload fails when it attempted JSON and is
    /// otherwise checked by grep when its query is a pattern match.
    /// The revision recorded is `repo_revision`, or `unknown`.
    pub fn validate(
        &self,
        result: &RlmAnalysisResult,
        payload: &FinalPayload,
        source: &str,
        source_path: Option<&str>,
        repo_revision: Option<&str>,
        trace_steps: Option<Vec<TraceStep>>,
    ) -> (r: OracleResult)
        ensures
            validated(
                r,
                self.confidence(),
                *result,
                payload@,
                source@,
                source_path,
                repo_revision,
                opt_step_views(trace_steps),
            ),
    {
        let query = prompt_of(result);
        let ghost steps = opt_step_views(trace_steps);
        let base = fresh_base_trace(result, source_path, repo_revision, trace_steps, payload.copy());
        match payload {
            FinalPayload::Grep(g) => {
                let r = self.validate_grep_payload(g, source, base);
                proof {
                    let v = validate_verdict(payload@, source@, result.answer@, query@, self.confidence(), ast_actual(source@, ast_kind(payload@)));
                    lemma_settles(r, base, v, *result, source_path, repo_revision, steps, payload@);
                }
                r
            },
            FinalPayload::Ast(a) => {
                let r = self.validate_ast_payload(a, source, base);
                proof {
                    let v = validate_verdict(
                        payload@,
                        source@,
                        result.answer@,
                        query@,
                        self.confidence(),
                        ast_actual(source@, ast_kind(payload@)),
                    );
                    lemma_settles(r, base, v, *result, source_path, repo_revision, steps, payload@);
                }
                r
            },
            FinalPayload::Semantic(_) => {
                let r = unverified(
                    base,
                    owned("Semantic queries require LLM understanding - no deterministic oracle available"),
                );
                proof {
                    let v = validate_verdict(payload@, source@, result.answer@, query@, self.confidence(), ast_actual(source@, ast_kind(payload@)));
                    lemma_settles(r, base, v, *result, source_path, repo_revision, steps, payload@);
                }
                r
            },
            FinalPayload::Malformed { error, raw } => {
                let r = self.validate_malformed(error, raw, result.answer.as_str(), query.as_str(), source, base);
                proof {
                    let v = validate_verdict(payload@, source@, result.answer@, query@, self.confidence(), ast_actual(source@, ast_kind(payload@)));
                    lemma_settles(r, base, v, *result, source_path, repo_revision, steps, payload@);
                }
                r
            },
        }
    }
}

impl Default for TraceValidator {
    fn default() -> (v: Self)
        ensures
            v.confidence() == 950,
            v.agreement() == 1000,
    {
        TraceValidator::new()
    }
}

/// The canonical answers of the runs, when every payload is semantic.
fn canonical_runs(runs: &[(RlmAnalysisResult, FinalPayload)]) -> (r: Option<Vec<Vec<char>>>)
    ensures
        r is Some <==> all_semantic(run_payloads(runs@)),
        r matches Some(v) ==> v@.map_values(|c: Vec<char>| c@) == canonical_answers(run_payloads(runs@)),
{
    let ghost ps = run_payloads(runs@);
    let ghost cs = canonical_answers(ps);
    let mut canon: Vec<Vec<char>> = Vec::new();
    let mut i: usize = 0;
    while i < runs.len()
        invariant
            i <= runs.len(),
            ps == run_payloads(runs@),
            cs == canonical_answers(ps),
            forall|k: int| 0 <= k < i ==> (#[trigger] semantic_answer(ps[k])) is Some,
            canon@.map_values(|v: Vec<char>| v@) == cs.take(i as int),
        decreases runs.len() - i,
    {
        let answer = match &runs[i].1 {
            FinalPayload::Semantic(p) => &p.answer,
            _ => {
                proof {
                    assert(semantic_answer(ps[i as int]) is None);
                }
                return None;
            },
        };
        let c = canonicalize_semantic_answer(answer.as_str());
        let ghost before = canon@;
        canon.push(chars_of(c.as_str()));
        assert(canon@.map_values(|v: Vec<char>| v@) =~= before.map_values(|v: Vec<char>| v@).push(cs[i as int]));
        assert(cs.take(i + 1) =~= cs.take(i as int).push(cs[i as int]));
        i += 1;
    }
    assert(cs.take(runs.len() as int) =~= cs);
    Some(canon)
}

impl TraceValidator {
    /// Validates several runs of one semantic question by strict
    /// consensus. Runs whose first payload is not semantic are validated
    /// as that first run alone; otherwise every payload must be semantic,
    /// and the most common answer up to whitespace (the first among
    /// equally common ones) must be given by at least the consensus
    /// threshold of the runs. The consensus trace records the first run
    /// with a semantic payload holding the winning answer.
    pub fn validate_with_consensus(
        &self,
        runs: &[(RlmAnalysisResult, FinalPayload)],
        source: &str,
        source_path: Option<&str>,
        repo_revision: Option<&str>,
        trace_steps: Option<Vec<TraceStep>>,
    ) -> (r: OracleResult)
        ensures
            runs@.len() == 0 ==> judgement(r) == Judgement::Unverified(
                "Consensus validation requires at least one result"@,
            ) && is_placeholder_trace(trace_of(r), source_path, repo_revision, None),
            runs@.len() > 0 && semantic_answer(runs@[0].1@) is None ==> validated(
                r,
                self.confidence(),
                runs@[0].0,
                runs@[0].1@,
                source@,
                source_path,
                repo_revision,
                opt_step_views(trace_steps),
            ),
            runs@.len() > 0 && semantic_answer(runs@[0].1@) is Some && !all_semantic(run_payloads(runs@))
                ==> settles(
                r,
                (Judgement::Unverified("Consensus validation requires semantic payloads for all runs"@), None),
                runs@[0].0,
                source_path,
                repo_revision,
                opt_step_views(trace_steps),
                runs@[0].1@,
            ),
            runs@.len() > 0 && all_semantic(run_payloads(runs@)) ==> {
                let ps = run_payloads(runs@);
                let cs = canonical_answers(ps);
                let n = runs@.len();
                let (c, i) = leader(cs, n);
                if share_reached(c, n, self.agreement() as nat) {
                    settles(
                        r,
                        (Judgement::Consensus(c as usize, n as usize), Some(VerificationMethod::Consensus)),
                        runs@[0].0,
                        source_path,
                        repo_revision,
                        opt_step_views(trace_steps),
                        FinalPayloadView::Semantic(file_or_unknown(source_path), semantic_answers(ps)[i]),
                    )
                } else {
                    settles(
                        r,
                        (Judgement::Unverified(no_consensus_reason(c, n, cs[i])), None),
                        runs@[0].0,
                        source_path,
                        repo_revision,
                        opt_step_views(trace_steps),
                        runs@[0].1@,
                    )
                }
            },
    {
        if runs.len() == 0 {
            let trace = build_placeholder_trace(source_path, repo_revision, None);
            return unverified(trace, owned("Consensus validation requires at least one result"));
        }
        let first = &runs[0].0;
        let first_payload = &runs[0].1;
        let ghost steps = opt_step_views(trace_steps);
        if !matches!(first_payload, FinalPayload::Semantic(_)) {
            proof {
                assert(semantic_answer(run_payloads(runs@)[0]) is None);
            }
            return self.validate(first, first_payload, source, source_path, repo_revision, trace_steps);
        }
        let ghost ps = run_payloads(runs@);
        let ghost cs = canonical_answers(ps);
        let canon = match canonical_runs(runs) {
            Some(c) => c,
            None => {
                let base = fresh_base_trace(first, source_path, repo_revision, trace_steps, first_payload.copy());
                let r = unverified(base, owned("Consensus validation requires semantic payloads for all runs"));
                proof {
                    lemma_settles(
                        r,
                        base,
                        (Judgement::Unverified("Consensus validation requires semantic payloads for all runs"@), None),
                        *first,
                        source_path,
                        repo_revision,
                        steps,
                        first_payload@,
                    );
                }
                return r;
            },
        };
        let (count, at) = most_common(&canon);
        if reaches(count, runs.len(), self.consensus_threshold) {
            let winner = match &runs[at].1 {
                FinalPayload::Semantic(p) => p.answer.clone(),
                _ => {
                    proof {
                        assert(semantic_answer(ps[at as int]) is Some);
                    }
                    String::new()
                },
            };
            let file = match source_path {
                Some(p) => owned(p),
                None => owned("unknown"),
            };
            let payload = FinalPayload::Semantic(SemanticPayload { file, answer: winner });
            let base = fresh_base_trace(first, source_path, repo_revision, trace_steps, payload);
            let r = consensus(base, count, runs.len());
            proof {
                lemma_settles(
                    r,
                    base,
                    (Judgement::Consensus(count, runs.len()), Some(VerificationMethod::Consensus)),
                    *first,
                    source_path,
                    repo_revision,
                    steps,
                    payload@,
                );
            }
            r
        } else {
            let mut reason = owned("Consensus not reached: best agreement ");
            push_str(&mut reason, percent_of(count, runs.len()).as_str());
            push_str(&mut reason, "% for answer '");
            push_str(&mut reason, string_from(canon[at].as_slice()).as_str());
            push_str(&mut reason, "'");
            let base = fresh_base_trace(first, source_path, repo_revision, trace_steps, first_payload.copy());
            let r = unverified(base, reason);
            proof {
                lemma_settles(r, base, (Judgement::Unverified(reason@), None), *first, source_path, repo_revision, steps, first_payload@);
            }
            r
        }
    }
}

/// The traces of the golden outcomes, in order.
pub open spec fn goldens(os: Seq<OracleResult>) -> Seq<ValidatedTrace>
    decreases os.len(),
{
    if os.len() == 0 {
        Seq::empty()
    } else {
        match os.last() {
            OracleResult::Golden(t) => goldens(os.drop_last()).push(t),
            _ => goldens(os.drop_last()),
        }
    }
}

/// The traces of the consensus outcomes, in order.
pub open spec fn consensuses(os: Seq<OracleResult>) -> Seq<ValidatedTrace>
    decreases os.len(),
{
    if os.len() == 0 {
        Seq::empty()
    } else {
        match os.last() {
            OracleResult::Consensus { trace, .. } => consensuses(os.drop_last()).push(trace),
            _ => consensuses(os.drop_last()),
        }
    }
}

/// The traces and reasons of the unverified outcomes, in order.
pub open spec fn unverifieds(os: Seq<OracleResult>) -> Seq<(ValidatedTrace, String)>
    decreases os.len(),
{
    if os.len() == 0 {
        Seq::empty()
    } else {
        match os.last() {
            OracleResult::Unverified { reason, trace } => unverifieds(os.drop_last()).push((trace, reason)),
            _ => unverifieds(os.drop_last()),
        }
    }
}

/// The traces and reasons of the failed outcomes, in order.
pub open spec fn faileds(os: Seq<OracleResult>) -> Seq<(ValidatedTrace, String)>
    decreases os.len(),
{
    if os.len() == 0 {
        Seq::empty()
    } else {
        match os.last() {
            OracleResult::Failed { reason, trace, .. } => faileds(os.drop_last()).push((trace, reason)),
            _ => faileds(os.drop_last()),
        }
    }
}

/// Traces of a batch, by outcome.
#[derive(Debug, Clone)]
pub struct BatchValidationStats {
    /// Traces verified as golden (ready for training).
    pub golden: Vec<ValidatedTrace>,
    /// Traces weakly verified by consensus.
    pub consensus: Vec<ValidatedTrace>,
    /// Traces that could not be verified, with the reason.
    pub unverified: Vec<(ValidatedTrace, String)>,
    /// Traces that failed verification, with the reason.
    pub failed: Vec<(ValidatedTrace, String)>,
}

/// The stats hold exactly the outcomes `os`, sorted by kind, each kind in
/// order.
pub open spec fn sorts(stats: BatchValidationStats, os: Seq<OracleResult>) -> bool {
    &&& stats.golden@ == goldens(os)
    &&& stats.consensus@ == consensuses(os)
    &&& stats.unverified@ == unverifieds(os)
    &&& stats.failed@ == faileds(os)
}

impl BatchValidationStats {
    /// Stats of an empty batch.
    pub fn new() -> (s: Self)
        ensures
            sorts(s, Seq::empty()),
    {
        let s = BatchValidationStats {
            golden: Vec::new(),
            consensus: Vec::new(),
            unverified: Vec::new(),
            failed: Vec::new(),
        };
        assert(s.golden@ =~= goldens(Seq::empty()));
        assert(s.consensus@ =~= consensuses(Seq::empty()));
        assert(s.unverified@ =~= unverifieds(Seq::empty()));
        assert(s.failed@ =~= faileds(Seq::empty()));
        s
    }

    /// Files the outcome `r` under its kind.
    pub fn record(&mut self, r: OracleResult)
        ensures
            forall|os: Seq<OracleResult>| sorts(*old(self), os) ==> #[trigger] sorts(*final(self), os.push(r)),
    {
        let ghost r0 = r;
        match r {
            OracleResult::Golden(trace) => {
                self.golden.push(trace);
            },
            OracleResult::Consensus { trace, .. } => {
                self.consensus.push(trace);
            },
            OracleResult::Unverified { reason, trace } => {
                self.unverified.push((trace, reason));
            },
            OracleResult::Failed { reason, trace, .. } => {
                self.failed.push((trace, reason));
            },
        }
        assert forall|os: Seq<OracleResult>| sorts(*old(self), os) implies #[trigger] sorts(
            *self,
            os.push(r0),
        ) by {
            assert(os.push(r0).drop_last() =~= os);
        }
    }

    /// Number of traces in all buckets.
    pub fn total(&self) -> (n: usize)
        requires
            self.golden@.len() + self.consensus@.len() + self.unverified@.len() + self.failed@.len()
                <= usize::MAX,
        ensures
            n == self.golden@.len() + self.consensus@.len() + self.unverified@.len() + self.failed@.len(),
    {
        self.golden.len() + self.consensus.len() + self.unverified.len() + self.failed.len()
    }
}

impl Default for BatchValidationStats {
    fn default() -> (s: Self)
        ensures
            sorts(s, Seq::empty()),
    {
        BatchValidationStats::new()
    }
}

/// Where a split write of batch stats went, and how many of each.
#[derive(Debug, Clone, PartialEq, Eq)]
pub struct SplitWriteStats {
    pub golden_path: String,
    pub consensus_path: String,
    pub failed_path: String,
    pub unverified_path: String,
    pub golden_count: usize,
    pub consensus_count: usize,
    pub failed_count: usize,
    pub unverified_count: usize,
}

/// `rs` records the traces `ts` one for one under `verdict`, with no reason
/// and no agreement.
pub open spec fn records_of(rs: Seq<OracleTraceRecord>, ts: Seq<ValidatedTrace>, verdict: Seq<char>) -> bool {
    &&& rs.len() == ts.len()
    &&& forall|i: int|
        0 <= i < rs.len() ==> {
            &&& (#[trigger] rs[i]).verdict@ == verdict
            &&& rs[i].reason is None
            &&& rs[i].agreement is None
            &&& same_trace(rs[i].trace, ts[i])
        }
}

/// `rs` records the traces of `ts` one for one under `verdict`, each with
/// its reason and no agreement.
pub open spec fn reason_records_of(
    rs: Seq<OracleTraceRecord>,
    ts: Seq<(ValidatedTrace, String)>,
    verdict: Seq<char>,
) -> bool {
    &&& rs.len() == ts.len()
    &&& forall|i: int|
        0 <= i < rs.len() ==> {
            &&& (#[trigger] rs[i]).verdict@ == verdict
            &&& text_opt(rs[i].reason) == Some(ts[i].1@)
            &&& rs[i].agreement is None
            &&& same_trace(rs[i].trace, ts[i].0)
        }
}

fn trace_records(ts: &Vec<ValidatedTrace>, verdict: &str) -> (rs: Vec<OracleTraceRecord>)
    ensures
        records_of(rs@, ts@, verdict@),
{
    let mut rs: Vec<OracleTraceRecord> = Vec::new();
    let mut i: usize = 0;
    while i < ts.len()
        invariant
            i <= ts.len(),
            rs.len() == i,
            forall|j: int|
                0 <= j < i ==> {
                    &&& (#[trigger] rs@[j]).verdict@ == verdict@
                    &&& rs@[j].reason is None
                    &&& rs@[j].agreement is None
                    &&& same_trace(rs@[j].trace, ts@[j])
                },
        decreases ts.len() - i,
    {
        rs.push(OracleTraceRecord { verdict: owned(verdict), reason: None, agreement: None, trace: ts[i].copy() });
        i += 1;
    }
    rs
}

fn reason_records(ts: &Vec<(ValidatedTrace, String)>, verdict: &str) -> (rs: Vec<OracleTraceRecord>)
    ensures
        reason_records_of(rs@, ts@, verdict@),
{
    let mut rs: Vec<OracleTraceRecord> = Vec::new();
    let mut i: usize = 0;
    while i < ts.len()
        invariant
            i <= ts.len(),
            rs.len() == i,
            forall|j: int|
                0 <= j < i ==> {
                    &&& (#[trigger] rs@[j]).verdict@ == verdict@
                    &&& text_opt(rs@[j].reason) == Some(ts@[j].1@)
                    &&& rs@[j].agreement is None
                    &&& same_trace(rs@[j].trace, ts@[j].0)
                },
        decreases ts.len() - i,
    {
        let reason = owned(ts[i].1.as_str());
        rs.push(OracleTraceRecord { verdict: owned(verdict), reason: Some(reason), agreement: None, trace: ts[i].0.copy() });
        i += 1;
    }
    rs
}

impl BatchValidationStats {
    /// The records each bucket is written as, in bucket order: golden,
    /// consensus, failed and unverified, the last two with their reasons.
    pub fn bucket_records(&self) -> (r: (
        Vec<OracleTraceRecord>,
        Vec<OracleTraceRecord>,
        Vec<OracleTraceRecord>,
        Vec<OracleTraceRecord>,
    ))
        ensures
            records_of(r.0@, self.golden@, "golden"@),
            records_of(r.1@, self.consensus@, "consensus"@),
            reason_records_of(r.2@, self.failed@, "failed"@),
            reason_records_of(r.3@, self.unverified@, "unverified"@),
    {
        (
            trace_records(&self.golden, "golden"),
            trace_records(&self.consensus, "consensus"),
            reason_records(&self.failed, "failed"),
            reason_records(&self.unverified, "unverified"),
        )
    }
}

impl TraceValidator {
    /// Validates a batch of analyses, each with its payload, source and
    /// source path, and sorts the outcomes by kind.
    pub fn batch_validate<'a>(
        &self,
        traces: Vec<(RlmAnalysisResult, FinalPayload, &'a str, Option<&'a str>)>,
    ) -> (stats: BatchValidationStats)
        ensures
            exists|os: Seq<OracleResult>|
                {
                    &&& os.len() == traces@.len()
                    &&& forall|i: int|
                        0 <= i < os.len() ==> #[trigger] validated(
                            os[i],
                            self.confidence(),
                            traces@[i].0,
                            traces@[i].1@,
                            traces@[i].2@,
                            traces@[i].3,
                            None,
                            Seq::empty(),
                        )
                    &&& sorts(stats, os)
                },
    {
        let ghost tv = traces@;
        let stats = self.batch_validate_with_options(traces, None, None);
        proof {
            let none: Option<Vec<TraceStep>> = None;
            assert(opt_step_views(none) =~= Seq::<(usize, Seq<char>, Seq<char>)>::empty());
            let os = choose|os: Seq<OracleResult>|
                {
                    &&& os.len() == tv.len()
                    &&& forall|i: int|
                        0 <= i < os.len() ==> #[trigger] validated(
                            os[i],
                            self.confidence(),
                            tv[i].0,
                            tv[i].1@,
                            tv[i].2@,
                            tv[i].3,
                            None,
                            opt_step_views(none),
                        )
                    &&& sorts(stats, os)
                };
            assert(forall|i: int|
                0 <= i < os.len() ==> #[trigger] validated(
                    os[i],
                    self.confidence(),
                    tv[i].0,
                    tv[i].1@,
                    tv[i].2@,
                    tv[i].3,
                    None,
                    Seq::empty(),
                ));
        }
        stats
    }

    /// Validates a batch of analyses with the given revision and steps
    /// recorded in every trace, and sorts the outcomes by kind.
    pub fn batch_validate_with_options<'a>(
        &self,
        traces: Vec<(RlmAnalysisResult, FinalPayload, &'a str, Option<&'a str>)>,
        repo_revision: Option<&str>,
        trace_steps: Option<Vec<TraceStep>>,
    ) -> (stats: BatchValidationStats)
        ensures
            exists|os: Seq<OracleResult>|
                {
                    &&& os.len() == traces@.len()
                    &&& forall|i: int|
                        0 <= i < os.len() ==> #[trigger] validated(
                            os[i],
                            self.confidence(),
                            traces@[i].0,
                            traces@[i].1@,
                            traces@[i].2@,
                            traces@[i].3,
                            repo_revision,
                            opt_step_views(trace_steps),
                        )
                    &&& sorts(stats, os)
                },
    {
        let mut stats = BatchValidationStats::new();
        let ghost mut os: Seq<OracleResult> = Seq::empty();
        let mut i: usize = 0;
        while i < traces.len()
            invariant
                i <= traces.len(),
                os.len() == i,
                forall|k: int|
                    0 <= k < i ==> #[trigger] validated(
                        os[k],
                        self.confidence(),
                        traces@[k].0,
                        traces@[k].1@,
                        traces@[k].2@,
                        traces@[k].3,
                        repo_revision,
                        opt_step_views(trace_steps),
                    ),
                sorts(stats, os),
            decreases traces.len() - i,
        {
            let t = &traces[i];
            let steps = copy_steps(&trace_steps);
            let r = self.validate(&t.0, &t.1, t.2, t.3, repo_revision, steps);
            proof {
                os = os.push(r);
            }
            stats.record(r);
            i += 1;
        }
        stats
    }
}

/// `a` and `b` hold the same content.
pub open spec fn same_trace(a: ValidatedTrace, b: ValidatedTrace) -> bool {
    &&& a.prompt@ == b.prompt@
    &&& step_views(a.trace@) == step_views(b.trace@)
    &&& opt_payload_view(a.final_payload) == opt_payload_view(b.final_payload)
    &&& a.verdict@ == b.verdict@
    &&& text_opt(a.oracle_diff) == text_opt(b.oracle_diff)
    &&& a.repo_revision@ == b.repo_revision@
    &&& a.timestamp@ == b.timestamp@
    &&& a.answer@ == b.answer@
    &&& a.iterations == b.iterations
    &&& a.subcalls == b.subcalls
    &&& a.input_tokens == b.input_tokens
    &&& a.output_tokens == b.output_tokens
    &&& a.elapsed_ms == b.elapsed_ms
    &&& text_opt(a.source_path) == text_opt(b.source_path)
    &&& a.verification_method == b.verification_method
    &&& a.trace_id@ == b.trace_id@
}

fn copy_text(o: &Option<String>) -> (r: Option<String>)
    ensures
        text_opt(r) == text_opt(*o),
{
    match o {
        Some(s) => Some(s.clone()),
        None => None,
    }
}

impl ValidatedTrace {
    /// A copy of the trace with the same content.
    pub fn copy(&self) -> (r: ValidatedTrace)
        ensures
            same_trace(r, *self),
    {
        let steps = copy_steps(&Some(copy_step_list(&self.trace)));
        let trace = match steps {
            Some(v) => v,
            None => Vec::new(),
        };
        ValidatedTrace {
            prompt: self.prompt.clone(),
            trace,
            final_payload: match &self.final_payload {
                Some(p) => Some(p.copy()),
                None => None,
            },
            verdict: self.verdict.clone(),
            oracle_diff: copy_text(&self.oracle_diff),
            repo_revision: self.repo_revision.clone(),
            timestamp: self.timestamp.clone(),
            answer: self.answer.clone(),
            iterations: self.iterations,
            subcalls: self.subcalls,
            input_tokens: self.input_tokens,
            output_tokens: self.output_tokens,
            elapsed_ms: self.elapsed_ms,
            source_path: copy_text(&self.source_path),
            verification_method: self.verification_method,
            trace_id: self.trace_id.clone(),
        }
    }
}

fn copy_step_list(v: &Vec<TraceStep>) -> (r: Vec<TraceStep>)
    ensures
        step_views(r@) == step_views(v@),
{
    let mut out: Vec<TraceStep> = Vec::new();
    let mut i: usize = 0;
    while i < v.len()
        invariant
            i <= v.len(),
            step_views(out@) == step_views(v@).take(i as int),
        decreases v.len() - i,
    {
        let s = &v[i];
        let ghost before = step_views(out@);
        out.push(TraceStep { iteration: s.iteration, action: s.action.clone(), output: s.output.clone() });
        assert(step_views(out@) =~= before.push((s.iteration, s.action@, s.output@)));
        assert(step_views(v@).take(i + 1) =~= step_views(v@).take(i as int).push(
            (s.iteration, s.action@, s.output@),
        ));
        i += 1;
    }
    assert(step_views(v@).take(v.len() as int) =~= step_views(v@));
    out
}

impl OracleResult {
    /// The record persisted for this outcome: its verdict word, the reason
    /// of an unverified or failed outcome, the agreement of a consensus,
    /// and a copy of the trace.
    pub fn to_record(&self) -> (rec: OracleTraceRecord)
        ensures
            rec.verdict@ == verdict_word(judgement(*self)),
            text_opt(rec.reason) == match judgement(*self) {
                Judgement::Unverified(reason) => Some(reason),
                Judgement::Failed(reason, _) => Some(reason),
                _ => None,
            },
            rec.agreement == match judgement(*self) {
                Judgement::Consensus(a, n) => Some((a, n)),
                _ => None,
            },
            same_trace(rec.trace, trace_of(*self)),
    {
        match self {
            OracleResult::Golden(trace) => OracleTraceRecord {
                verdict: owned("golden"),
                reason: None,
                agreement: None,
                trace: trace.copy(),
            },
            OracleResult::Consensus { trace, agreeing, runs } => OracleTraceRecord {
                verdict: owned("consensus"),
                reason: None,
                agreement: Some((*agreeing, *runs)),
                trace: trace.copy(),
            },
            OracleResult::Unverified { reason, trace } => OracleTraceRecord {
                verdict: owned("unverified"),
                reason: Some(reason.clone()),
                agreement: None,
                trace: trace.copy(),
            },
            OracleResult::Failed { reason, trace, .. } => OracleTraceRecord {
                verdict: owned("failed"),
                reason: Some(reason.clone()),
                agreement: None,
                trace: trace.copy(),
            },
        }
    }
}

/// The outcome of persisting one oracle trace record.
#[derive(Debug, Clone)]
pub struct OracleTracePersistResult {
    pub verdict: String,
    pub spooled_path: String,
    pub uploaded: bool,
    pub remote_key: Option<String>,
    pub remote_url: Option<String>,
    pub pending_count: usize,
    pub warning: Option<String>,
}

/// The outcome of syncing spooled records to remote storage.
#[derive(Debug, Clone, Copy, PartialEq, Eq, Structural)]
pub struct OracleTraceSyncStats {
    pub uploaded: usize,
    pub retained: usize,
    pub failed: usize,
    pub pending_after: usize,
}

impl Default for OracleTraceSyncStats {
    fn default() -> (s: Self)
        ensures
            s.uploaded == 0 && s.retained == 0 && s.failed == 0 && s.pending_after == 0,
    {
        OracleTraceSyncStats { uploaded: 0, retained: 0, failed: 0, pending_after: 0 }
    }
}

/// A grep payload whose claims are the lines its pattern matches in the
/// source, in any order, is golden by the grep oracle, whatever the
/// coverage threshold.
pub proof fn law_matching_grep_claims_are_golden(
    file: Seq<char>,
    pattern: Seq<char>,
    matches: Seq<(usize, Seq<char>)>,
    source: Seq<char>,
    answer: Seq<char>,
    query: Seq<char>,
    t: u32,
    actual: Result<Seq<AstResultView>, Seq<char>>,
)
    requires
        regex_compile_error(pattern) is None,
        crate::grep_oracle::same_items(matches, grep_lines(pattern, lines_of(source))),
    ensures
        validate_verdict(FinalPayloadView::Grep(file, pattern, matches), source, answer, query, t, actual) == (
            Judgement::Golden,
            Some(VerificationMethod::GrepOracle),
        ),
{
}

/// A semantic payload is never verified: it stays unverified, by no
/// oracle.
pub proof fn law_semantic_stays_unverified(
    file: Seq<char>,
    text: Seq<char>,
    source: Seq<char>,
    answer: Seq<char>,
    query: Seq<char>,
    t: u32,
    actual: Result<Seq<AstResultView>, Seq<char>>,
)
    ensures
        validate_verdict(FinalPayloadView::Semantic(file, text), source, answer, query, t, actual) == (
            Judgement::Unverified(semantic_reason()),
            None::<VerificationMethod>,
        ),
{
}

/// An answer that attempts JSON (its first non-blank character is `{` or
/// `[`) but does not parse as a payload fails.
pub proof fn law_malformed_json_fails(
    error: Seq<char>,
    raw: Seq<char>,
    source: Seq<char>,
    answer: Seq<char>,
    query: Seq<char>,
    t: u32,
    actual: Result<Seq<AstResultView>, Seq<char>>,
)
    requires
        trim_start_by(raw, true, Seq::empty()).len() > 0,
        trim_start_by(raw, true, Seq::empty())[0] == '{' || trim_start_by(raw, true, Seq::empty())[0] == '[',
    ensures
        validate_verdict(FinalPayloadView::Malformed(error, raw), source, answer, query, t, actual).0
            == Judgement::Failed("Malformed FINAL payload: "@ + error, None),
{
}

/// A batch files every outcome in exactly one bucket: the buckets hold as
/// many traces as there were outcomes.
pub proof fn law_batch_total(os: Seq<OracleResult>)
    ensures
        goldens(os).len() + consensuses(os).len() + unverifieds(os).len() + faileds(os).len() == os.len(),
    decreases os.len(),
{
    if os.len() > 0 {
        law_batch_total(os.drop_last());
    }
}

} // verus!
