//! Oracle outcomes: what a validation says of an analysis, how it marks
//! the trace, and the payload checks that decide it.
//!
//! Thresholds are shares in thousandths: a share `num / den` reaches a
//! threshold `t` when `num * 1000 >= t * den`.

use vstd::prelude::*;
use crate::grep_oracle::{grep_lines, verify_matches_spec, GrepOracle, GrepVerification, GrepVerificationView};
use crate::pattern::regex_compile_error;
use crate::payload::{ast_result_views, grep_match_views, text_opt, AstResultView, FinalPayload, FinalPayloadView};
use crate::text::{
    chars_of, contains, debug_str, debug_text, decimal, decimal_string, decimal_wide, has, join,
    join_strings, lines_of, owned, push_all, push_str, string_from, views,
};
use crate::validator::{OracleResult, ValidatedTrace, VerificationMethod};

verus! {

/// What an oracle outcome says, apart from the trace it carries.
pub enum Judgement {
    Golden,
    /// Agreeing runs and all runs.
    Consensus(usize, usize),
    /// The reason.
    Unverified(Seq<char>),
    /// The reason and the diff.
    Failed(Seq<char>, Option<Seq<char>>),
}

/// The judgement of an outcome.
pub open spec fn judgement(r: OracleResult) -> Judgement {
    match r {
        OracleResult::Golden(_) => Judgement::Golden,
        OracleResult::Consensus { agreeing, runs, .. } => Judgement::Consensus(agreeing, runs),
        OracleResult::Unverified { reason, .. } => Judgement::Unverified(reason@),
        OracleResult::Failed { reason, diff, .. } => Judgement::Failed(reason@, text_opt(diff)),
    }
}

/// The trace an outcome carries.
pub open spec fn trace_of(r: OracleResult) -> ValidatedTrace {
    match r {
        OracleResult::Golden(t) => t,
        OracleResult::Consensus { trace, .. } => trace,
        OracleResult::Unverified { trace, .. } => trace,
        OracleResult::Failed { trace, .. } => trace,
    }
}

/// The verdict word a judgement writes into its trace.
pub open spec fn verdict_word(j: Judgement) -> Seq<char> {
    match j {
        Judgement::Golden => "golden"@,
        Judgement::Consensus(_, _) => "consensus"@,
        Judgement::Unverified(_) => "unverified"@,
        Judgement::Failed(_, _) => "failed"@,
    }
}

/// `t` agrees with `b` on everything but the verdict, the diff and the
/// verification method.
pub open spec fn keeps(t: ValidatedTrace, b: ValidatedTrace) -> bool {
    &&& t.prompt == b.prompt
    &&& t.trace == b.trace
    &&& t.final_payload == b.final_payload
    &&& t.repo_revision == b.repo_revision
    &&& t.timestamp == b.timestamp
    &&& t.answer == b.answer
    &&& t.iterations == b.iterations
    &&& t.subcalls == b.subcalls
    &&& t.input_tokens == b.input_tokens
    &&& t.output_tokens == b.output_tokens
    &&& t.elapsed_ms == b.elapsed_ms
    &&& t.source_path == b.source_path
    &&& t.trace_id == b.trace_id
}

/// An outcome to give: the judgement, and the verification method it records
/// (`None`: the trace keeps its method).
pub type Verdict = (Judgement, Option<VerificationMethod>);

/// The outcome `r` gives the verdict `v` on the trace `base`: the trace
/// carries the verdict's word, its method (or keeps `base`'s), the diff of
/// a failure that has one (or keeps `base`'s), and all else of `base`.
pub open spec fn gives(r: OracleResult, base: ValidatedTrace, v: Verdict) -> bool {
    let t = trace_of(r);
    &&& judgement(r) == v.0
    &&& t.verdict@ == verdict_word(v.0)
    &&& t.verification_method == match v.1 {
        Some(m) => m,
        None => base.verification_method,
    }
    &&& text_opt(t.oracle_diff) == match v.0 {
        Judgement::Failed(_, Some(d)) => Some(d),
        _ => text_opt(base.oracle_diff),
    }
    &&& keeps(t, base)
}

/// Marks `t` golden, verified by `m`.
pub fn golden(t: ValidatedTrace, m: VerificationMethod) -> (r: OracleResult)
    ensures
        gives(r, t, (Judgement::Golden, Some(m))),
{
    let mut t = t;
    t.verification_method = m;
    t.verdict = owned("golden");
    OracleResult::Golden(t)
}

/// Marks `t` unverified for `reason`.
pub fn unverified(t: ValidatedTrace, reason: String) -> (r: OracleResult)
    ensures
        gives(r, t, (Judgement::Unverified(reason@), None)),
{
    let mut t = t;
    t.verdict = owned("unverified");
    OracleResult::Unverified { reason, trace: t }
}

/// Marks `t` failed for `reason`, with no diff.
pub fn failed(t: ValidatedTrace, reason: String) -> (r: OracleResult)
    ensures
        gives(r, t, (Judgement::Failed(reason@, None), None)),
{
    let mut t = t;
    t.verdict = owned("failed");
    OracleResult::Failed { reason, diff: None, trace: t }
}

/// Marks `t` failed by the oracle `m`, with `diff` as reason and diff.
pub fn failed_with_diff(t: ValidatedTrace, diff: String, m: VerificationMethod) -> (r: OracleResult)
    ensures
        gives(r, t, (Judgement::Failed(diff@, Some(diff@)), Some(m))),
{
    let mut t = t;
    t.verification_method = m;
    t.verdict = owned("failed");
    t.oracle_diff = Some(diff.clone());
    OracleResult::Failed { reason: diff.clone(), diff: Some(diff), trace: t }
}

/// Marks `t` as agreed by `agreeing` of `runs` runs.
pub fn consensus(t: ValidatedTrace, agreeing: usize, runs: usize) -> (r: OracleResult)
    ensures
        gives(r, t, (Judgement::Consensus(agreeing, runs), Some(VerificationMethod::Consensus))),
{
    let mut t = t;
    t.verification_method = VerificationMethod::Consensus;
    t.verdict = owned("consensus");
    OracleResult::Consensus { trace: t, agreeing, runs }
}

/// `n`, or 1 when `n` is zero (`n.max(1)`).
pub open spec fn at_least_one(n: nat) -> nat {
    if n == 0 {
        1
    } else {
        n
    }
}

/// The share `num / den` reaches the threshold `t` (in thousandths).
pub open spec fn share_reached(num: nat, den: nat, t: nat) -> bool {
    num * 1000 >= t * den
}

/// `num * scale / den`, rounded half up (`den > 0`).
pub open spec fn scaled(num: nat, den: nat, scale: nat) -> nat {
    (2 * num * scale + den) / (2 * den)
}

/// `v / 10` with one decimal.
pub open spec fn one_place(v: nat) -> Seq<char> {
    decimal(v / 10) + "."@ + decimal(v % 10)
}

/// `v / 100` with two decimals.
pub open spec fn two_places(v: nat) -> Seq<char> {
    decimal(v / 100) + "."@ + if v % 100 < 10 {
        "0"@ + decimal(v % 100)
    } else {
        decimal(v % 100)
    }
}

/// The percentage `num / max(den, 1) * 100` with one decimal.
pub open spec fn percent_text(num: nat, den: nat) -> Seq<char> {
    one_place(scaled(num, at_least_one(den), 1000))
}

/// The share `num / den` (`den > 0`) with two decimals.
pub open spec fn share_text(num: nat, den: nat) -> Seq<char> {
    two_places(scaled(num, den, 100))
}

fn scaled_exec(num: usize, den: usize, scale: u128) -> (v: u128)
    requires
        den > 0,
        scale <= 1000,
    ensures
        v == scaled(num as nat, den as nat, scale as nat),
{
    let n = num as u128;
    let d = den as u128;
    assert(2 * n * scale <= 2000 * n) by (nonlinear_arith)
        requires
            scale <= 1000,
    ;
    assert(n < 0x1_0000_0000_0000_0000);
    (2 * n * scale + d) / (2 * d)
}

fn one_place_exec(v: u128) -> (r: String)
    ensures
        r@ == one_place(v as nat),
{
    let a = decimal_wide(v / 10);
    let b = decimal_wide(v % 10);
    let mut r = string_from(a.as_slice());
    push_str(&mut r, ".");
    push_all(&mut r, b.as_slice());
    proof {
        reveal_strlit(".");
    }
    r
}

fn two_places_exec(v: u128) -> (r: String)
    ensures
        r@ == two_places(v as nat),
{
    let a = decimal_wide(v / 100);
    let b = decimal_wide(v % 100);
    let mut r = string_from(a.as_slice());
    push_str(&mut r, ".");
    if v % 100 < 10 {
        push_str(&mut r, "0");
    }
    push_all(&mut r, b.as_slice());
    r
}

/// The percentage `num / max(den, 1) * 100` with one decimal.
pub fn percent_of(num: usize, den: usize) -> (r: String)
    ensures
        r@ == percent_text(num as nat, den as nat),
{
    let d = if den == 0 {
        1
    } else {
        den
    };
    one_place_exec(scaled_exec(num, d, 1000))
}

/// The share `num / den` with two decimals.
pub fn share_of(num: usize, den: usize) -> (r: String)
    requires
        den > 0,
    ensures
        r@ == share_text(num as nat, den as nat),
{
    two_places_exec(scaled_exec(num, den, 100))
}

/// Whether the share `num / den` reaches `t` thousandths.
pub fn reaches(num: usize, den: usize, t: u32) -> (b: bool)
    ensures
        b == share_reached(num as nat, den as nat, t as nat),
{
    let a = t as u128;
    let b = den as u128;
    assert(a * b <= 0xffff_ffff * 0xffff_ffff_ffff_ffff) by (nonlinear_arith)
        requires
            a <= 0xffff_ffff,
            b <= 0xffff_ffff_ffff_ffff,
    ;
    (num as u128) * 1000 >= a * b
}

/// The `Debug` text of a numbered line: `(n, "text")`.
pub open spec fn pair_debug(p: (usize, Seq<char>)) -> Seq<char> {
    "("@ + decimal(p.0 as nat) + ", "@ + debug_text(p.1) + ")"@
}

/// The `Debug` text of a list of numbered lines.
pub open spec fn pairs_debug(ps: Seq<(usize, Seq<char>)>) -> Seq<char> {
    "["@ + join(ps.map_values(|p: (usize, Seq<char>)| pair_debug(p)), ", "@) + "]"@
}

/// The `Debug` text of a list of strings.
pub open spec fn strings_debug(ss: Seq<Seq<char>>) -> Seq<char> {
    "["@ + join(ss.map_values(|s: Seq<char>| debug_text(s)), ", "@) + "]"@
}

fn bracketed(items: &Vec<String>) -> (r: String)
    ensures
        r@ == "["@ + join(views(items@), ", "@) + "]"@,
{
    let mut r = owned("[");
    let inner = join_strings(items, ", ");
    push_str(&mut r, inner.as_str());
    push_str(&mut r, "]");
    r
}

/// `format!("{:?}", pairs)`.
pub fn pairs_debug_text(ps: &Vec<(usize, String)>) -> (r: String)
    ensures
        r@ == pairs_debug(crate::oracle::pairs_view(ps@)),
{
    let ghost pv = crate::oracle::pairs_view(ps@);
    let mut items: Vec<String> = Vec::new();
    let mut i: usize = 0;
    while i < ps.len()
        invariant
            i <= ps.len(),
            pv == crate::oracle::pairs_view(ps@),
            views(items@) == pv.take(i as int).map_values(|p: (usize, Seq<char>)| pair_debug(p)),
        decreases ps.len() - i,
    {
        let mut s = owned("(");
        push_str(&mut s, decimal_string(ps[i].0).as_str());
        push_str(&mut s, ", ");
        push_str(&mut s, debug_str(ps[i].1.as_str()).as_str());
        push_str(&mut s, ")");
        let ghost before = views(items@);
        assert(pv[i as int] == (ps@[i as int].0, ps@[i as int].1@));
        items.push(s);
        assert(views(items@) =~= before.push(pair_debug(pv[i as int])));
        assert(pv.take(i + 1).map_values(|p: (usize, Seq<char>)| pair_debug(p)) =~= pv.take(
            i as int,
        ).map_values(|p: (usize, Seq<char>)| pair_debug(p)).push(pair_debug(pv[i as int])));
        i += 1;
    }
    assert(pv.take(ps.len() as int) =~= pv);
    bracketed(&items)
}

/// `format!("{:?}", strings)`.
pub fn strings_debug_text(ss: &Vec<String>) -> (r: String)
    ensures
        r@ == strings_debug(views(ss@)),
{
    let ghost sv = views(ss@);
    let mut items: Vec<String> = Vec::new();
    let mut i: usize = 0;
    while i < ss.len()
        invariant
            i <= ss.len(),
            sv == views(ss@),
            views(items@) == sv.take(i as int).map_values(|s: Seq<char>| debug_text(s)),
        decreases ss.len() - i,
    {
        let ghost before = views(items@);
        items.push(debug_str(ss[i].as_str()));
        assert(views(items@) =~= before.push(debug_text(sv[i as int])));
        assert(sv.take(i + 1).map_values(|s: Seq<char>| debug_text(s)) =~= sv.take(i as int).map_values(
            |s: Seq<char>| debug_text(s),
        ).push(debug_text(sv[i as int])));
        i += 1;
    }
    assert(sv.take(ss.len() as int) =~= sv);
    bracketed(&items)
}

/// The diff of a subset match.
pub open spec fn subset_text(claimed: usize, actual: usize) -> Seq<char> {
    "Subset match: model claimed "@ + decimal(claimed as nat) + " but source has "@ + decimal(
        actual as nat,
    ) + " (coverage: "@ + percent_text(claimed as nat, actual as nat) + "%)"@
}

/// The verdict on a grep verification, with a coverage threshold of
/// `t` thousandths and `mismatch` as the text of a complete mismatch.
pub open spec fn grep_verdict(v: GrepVerificationView, t: u32, mismatch: Seq<char>) -> Verdict {
    let g = Some(VerificationMethod::GrepOracle);
    match v {
        GrepVerificationView::ExactMatch => (Judgement::Golden, g),
        GrepVerificationView::UnorderedMatch => (Judgement::Golden, g),
        GrepVerificationView::SubsetMatch(c, a) => if c <= a && share_reached(
            c as nat,
            at_least_one(a as nat),
            t as nat,
        ) {
            (Judgement::Golden, g)
        } else {
            (Judgement::Failed(subset_text(c, a), Some(subset_text(c, a))), g)
        },
        GrepVerificationView::HasFalsePositives(fp) => {
            let d = "False positives: "@ + decimal(fp.len()) + " claims not found in source: "@
                + pairs_debug(fp);
            (Judgement::Failed(d, Some(d)), g)
        },
        GrepVerificationView::HasFalseNegatives(fneg) => {
            let d = "False negatives: "@ + decimal(fneg.len()) + " items in source not claimed: "@
                + pairs_debug(fneg);
            (Judgement::Failed(d, Some(d)), g)
        },
        GrepVerificationView::Mismatch => (Judgement::Failed(mismatch, Some(mismatch)), g),
        GrepVerificationView::CannotVerify(reason) => (Judgement::Unverified(reason), None),
    }
}

/// Gives the verdict on a grep verification to the trace `base`.
pub fn grep_outcome(v: GrepVerification, t: u32, base: ValidatedTrace, mismatch: &str) -> (r: OracleResult)
    ensures
        gives(r, base, grep_verdict(v@, t, mismatch@)),
{
    match v {
        GrepVerification::ExactMatch | GrepVerification::UnorderedMatch => golden(
            base,
            VerificationMethod::GrepOracle,
        ),
        GrepVerification::SubsetMatch { claimed, actual } => {
            let d = if actual == 0 {
                1
            } else {
                actual
            };
            if claimed <= actual && reaches(claimed, d, t) {
                golden(base, VerificationMethod::GrepOracle)
            } else {
                let mut diff = owned("Subset match: model claimed ");
                push_str(&mut diff, decimal_string(claimed).as_str());
                push_str(&mut diff, " but source has ");
                push_str(&mut diff, decimal_string(actual).as_str());
                push_str(&mut diff, " (coverage: ");
                push_str(&mut diff, percent_of(claimed, actual).as_str());
                push_str(&mut diff, "%)");
                failed_with_diff(base, diff, VerificationMethod::GrepOracle)
            }
        },
        GrepVerification::HasFalsePositives { false_positives } => {
            let mut diff = owned("False positives: ");
            push_str(&mut diff, decimal_string(false_positives.len()).as_str());
            push_str(&mut diff, " claims not found in source: ");
            push_str(&mut diff, pairs_debug_text(&false_positives).as_str());
            failed_with_diff(base, diff, VerificationMethod::GrepOracle)
        },
        GrepVerification::HasFalseNegatives { false_negatives } => {
            let mut diff = owned("False negatives: ");
            push_str(&mut diff, decimal_string(false_negatives.len()).as_str());
            push_str(&mut diff, " items in source not claimed: ");
            push_str(&mut diff, pairs_debug_text(&false_negatives).as_str());
            failed_with_diff(base, diff, VerificationMethod::GrepOracle)
        },
        GrepVerification::Mismatch => failed_with_diff(
            base,
            owned(mismatch),
            VerificationMethod::GrepOracle,
        ),
        GrepVerification::CannotVerify { reason } => unverified(base, reason),
    }
}

/// The text of a complete grep mismatch in payload validation.
pub open spec fn payload_mismatch_text() -> Seq<char> {
    "Grep verification mismatch between claimed and source matches"@
}

/// How many claimed matches have a text that occurs in `source`.
pub open spec fn found_count(ms: Seq<(usize, Seq<char>)>, source: Seq<char>) -> nat
    decreases ms.len(),
{
    if ms.len() == 0 {
        0
    } else {
        found_count(ms.drop_last(), source) + if contains(source, ms.last().1) {
            1nat
        } else {
            0nat
        }
    }
}

/// The verdict on a grep payload against `source`: the share of claimed
/// matches whose text occurs in the source must reach `t` thousandths for
/// a golden verdict; below it the payload stays unverified. A pattern that
/// does not compile leaves it unverified; other payloads fail.
pub open spec fn grep_payload_verdict(p: FinalPayloadView, source: Seq<char>, t: u32) -> Verdict {
    match p {
        FinalPayloadView::Grep(_, pattern, matches) => match regex_compile_error(pattern) {
            Some(e) => (Judgement::Unverified("Could not run grep: "@ + e), None),
            None => {
                let m = found_count(matches, source);
                let n = at_least_one(matches.len());
                if share_reached(m, n, t as nat) {
                    (Judgement::Golden, Some(VerificationMethod::GrepOracle))
                } else {
                    (
                        Judgement::Unverified(
                            "Grep match ratio "@ + share_text(m, n) + " below "@ + share_text(t as nat, 1000),
                        ),
                        None,
                    )
                }
            },
        },
        _ => (Judgement::Failed("Expected grep payload"@, None), None),
    }
}

/// The claimed matches of a grep payload as numbered lines.
pub fn claimed_pairs(ms: &Vec<crate::payload::GrepMatch>) -> (r: Vec<(usize, String)>)
    ensures
        crate::oracle::pairs_view(r@) == grep_match_views(ms@),
{
    let mut r: Vec<(usize, String)> = Vec::new();
    let mut i: usize = 0;
    while i < ms.len()
        invariant
            i <= ms.len(),
            crate::oracle::pairs_view(r@) == grep_match_views(ms@).take(i as int),
        decreases ms.len() - i,
    {
        let ghost before = crate::oracle::pairs_view(r@);
        r.push((ms[i].line, ms[i].text.clone()));
        assert(crate::oracle::pairs_view(r@) =~= before.push((ms@[i as int].line, ms@[i as int].text@)));
        assert(grep_match_views(ms@).take(i + 1) =~= grep_match_views(ms@).take(i as int).push(
            (ms@[i as int].line, ms@[i as int].text@),
        ));
        i += 1;
    }
    assert(grep_match_views(ms@).take(ms.len() as int) =~= grep_match_views(ms@));
    r
}

/// Validates the claimed matches of a grep payload against `source`: the
/// share of claimed match texts that occur in the source must reach
/// `confidence` thousandths for a golden verdict, else the payload stays
/// unverified. Other payloads fail.
pub fn validate_grep_payload(
    payload: &FinalPayload,
    source: &str,
    confidence: u32,
    base_trace: ValidatedTrace,
) -> (r: OracleResult)
    ensures
        gives(r, base_trace, grep_payload_verdict(payload@, source@, confidence)),
{
    match payload {
        FinalPayload::Grep(g) => {
            let oracle = GrepOracle::new(owned(source));
            match oracle.grep(g.pattern.as_str()) {
                Ok(_) => {},
                Err(e) => {
                    let mut reason = owned("Could not run grep: ");
                    push_str(&mut reason, e.as_str());
                    return unverified(base_trace, reason);
                },
            }
            let ghost ms = grep_match_views(g.matches@);
            let src = chars_of(source);
            let mut found: usize = 0;
            let mut i: usize = 0;
            while i < g.matches.len()
                invariant
                    i <= g.matches.len(),
                    src@ == source@,
                    ms == grep_match_views(g.matches@),
                    found == found_count(ms.take(i as int), source@),
                    found <= i,
                decreases g.matches.len() - i,
            {
                assert(ms.take(i + 1).drop_last() =~= ms.take(i as int));
                let text = chars_of(g.matches[i].text.as_str());
                if has(src.as_slice(), text.as_slice()) {
                    found += 1;
                }
                i += 1;
            }
            assert(ms.take(g.matches.len() as int) =~= ms);
            let n = if g.matches.len() == 0 {
                1
            } else {
                g.matches.len()
            };
            if reaches(found, n, confidence) {
                golden(base_trace, VerificationMethod::GrepOracle)
            } else {
                let mut reason = owned("Grep match ratio ");
                push_str(&mut reason, share_of(found, n).as_str());
                push_str(&mut reason, " below ");
                push_str(&mut reason, share_of(confidence as usize, 1000).as_str());
                unverified(base_trace, reason)
            }
        },
        _ => failed(base_trace, owned("Expected grep payload")),
    }
}

/// How many results name something that occurs in `source`.
pub open spec fn named_count(rs: Seq<AstResultView>, source: Seq<char>) -> nat
    decreases rs.len(),
{
    if rs.len() == 0 {
        0
    } else {
        named_count(rs.drop_last(), source) + if contains(source, rs.last().0) {
            1nat
        } else {
            0nat
        }
    }
}

/// The verdict on an AST payload by name occurrence: the share of results
/// whose name occurs in `source` must reach `t` thousandths.
pub open spec fn ast_payload_verdict(p: FinalPayloadView, source: Seq<char>, t: u32) -> Verdict {
    match p {
        FinalPayloadView::Ast(_, _, rs) => {
            let m = named_count(rs, source);
            let n = at_least_one(rs.len());
            if share_reached(m, n, t as nat) {
                (Judgement::Golden, Some(VerificationMethod::AstOracle))
            } else {
                (
                    Judgement::Unverified(
                        "AST match ratio "@ + share_text(m, n) + " below "@ + share_text(t as nat, 1000),
                    ),
                    None,
                )
            }
        },
        _ => (Judgement::Failed("Expected AST payload"@, None), None),
    }
}

/// Validates an AST payload by checking that the names it reports occur
/// in `source`; the share of found names must reach `confidence`
/// thousandths. Other payloads fail.
pub fn validate_ast_payload(
    payload: &FinalPayload,
    source: &str,
    confidence: u32,
    base_trace: ValidatedTrace,
) -> (r: OracleResult)
    ensures
        gives(r, base_trace, ast_payload_verdict(payload@, source@, confidence)),
{
    match payload {
        FinalPayload::Ast(a) => {
            let src = chars_of(source);
            let ghost rs = ast_result_views(a.results@);
            let mut matched: usize = 0;
            let mut i: usize = 0;
            while i < a.results.len()
                invariant
                    i <= a.results.len(),
                    src@ == source@,
                    rs == ast_result_views(a.results@),
                    matched == named_count(rs.take(i as int), source@),
                    matched <= i,
                decreases a.results.len() - i,
            {
                assert(rs.take(i + 1).drop_last() =~= rs.take(i as int));
                let name = chars_of(a.results[i].name.as_str());
                if has(src.as_slice(), name.as_slice()) {
                    matched += 1;
                }
                i += 1;
            }
            assert(rs.take(a.results.len() as int) =~= rs);
            let n = if a.results.len() == 0 {
                1
            } else {
                a.results.len()
            };
            if reaches(matched, n, confidence) {
                golden(base_trace, VerificationMethod::AstOracle)
            } else {
                let mut reason = owned("AST match ratio ");
                push_str(&mut reason, share_of(matched, n).as_str());
                push_str(&mut reason, " below ");
                push_str(&mut reason, share_of(confidence as usize, 1000).as_str());
                unverified(base_trace, reason)
            }
        },
        _ => failed(base_trace, owned("Expected AST payload")),
    }
}

/// How often `x` occurs in `s`.
pub open spec fn tally(s: Seq<Seq<char>>, x: Seq<char>) -> nat
    decreases s.len(),
{
    if s.len() == 0 {
        0
    } else {
        tally(s.drop_last(), x) + if s.last() == x {
            1nat
        } else {
            0nat
        }
    }
}

/// Among the first `k` entries of `s`, the largest tally and the first
/// entry that has it (`(0, 0)` when `k` is zero).
pub open spec fn leader(s: Seq<Seq<char>>, k: nat) -> (nat, int)
    decreases k,
{
    if k == 0 {
        (0, 0)
    } else {
        let (c, i) = leader(s, (k - 1) as nat);
        let n = tally(s, s[k - 1]);
        if n > c {
            (n, k - 1)
        } else {
            (c, i)
        }
    }
}

proof fn lemma_tally_bound(s: Seq<Seq<char>>, x: Seq<char>)
    ensures
        tally(s, x) <= s.len(),
    decreases s.len(),
{
    if s.len() > 0 {
        lemma_tally_bound(s.drop_last(), x);
    }
}

proof fn lemma_leader_bounds(s: Seq<Seq<char>>, k: nat)
    requires
        k <= s.len(),
    ensures
        leader(s, k).0 <= s.len(),
        k > 0 ==> 0 <= leader(s, k).1 < k,
        k > 0 ==> leader(s, k).0 == tally(s, s[leader(s, k).1]),
    decreases k,
{
    if k > 0 {
        lemma_leader_bounds(s, (k - 1) as nat);
        lemma_tally_bound(s, s[k - 1]);
        lemma_tally_positive(s, k - 1);
    }
}

proof fn lemma_tally_positive(s: Seq<Seq<char>>, i: int)
    requires
        0 <= i < s.len(),
    ensures
        tally(s, s[i]) >= 1,
    decreases s.len(),
{
    if i < s.len() - 1 {
        lemma_tally_positive(s.drop_last(), i);
        assert(s.drop_last()[i] == s[i]);
    }
}

/// How often `x` occurs in `s`.
pub fn count_equal(s: &Vec<Vec<char>>, x: &Vec<char>) -> (n: usize)
    ensures
        n == tally(s@.map_values(|v: Vec<char>| v@), x@),
{
    let ghost sv = s@.map_values(|v: Vec<char>| v@);
    let mut n: usize = 0;
    let mut i: usize = 0;
    while i < s.len()
        invariant
            i <= s.len(),
            sv == s@.map_values(|v: Vec<char>| v@),
            n == tally(sv.take(i as int), x@),
            n <= i,
        decreases s.len() - i,
    {
        assert(sv.take(i + 1).drop_last() =~= sv.take(i as int));
        if crate::text::same_chars(s[i].as_slice(), x.as_slice()) {
            n += 1;
        }
        i += 1;
    }
    assert(sv.take(s.len() as int) =~= sv);
    n
}

/// The most frequent entry of a non-empty list (the first one among
/// equally frequent ones), with its count.
pub fn most_common(s: &Vec<Vec<char>>) -> (r: (usize, usize))
    requires
        s.len() > 0,
    ensures
        r.0 == leader(s@.map_values(|v: Vec<char>| v@), s.len() as nat).0,
        r.1 == leader(s@.map_values(|v: Vec<char>| v@), s.len() as nat).1,
        r.1 < s.len(),
{
    let ghost sv = s@.map_values(|v: Vec<char>| v@);
    let mut best: usize = 0;
    let mut at: usize = 0;
    let mut i: usize = 0;
    while i < s.len()
        invariant
            i <= s.len(),
            sv == s@.map_values(|v: Vec<char>| v@),
            best == leader(sv, i as nat).0,
            at == leader(sv, i as nat).1,
            i > 0 ==> at < i,
            i == 0 ==> at == 0,
        decreases s.len() - i,
    {
        let n = count_equal(s, &s[i]);
        assert(sv[i as int] == s@[i as int]@);
        if n > best {
            best = n;
            at = i;
        }
        i += 1;
    }
    proof {
        lemma_leader_bounds(sv, s.len() as nat);
    }
    (best, at)
}

/// The answers of analysis results.
pub open spec fn answers_of(rs: Seq<crate::validator::RlmAnalysisResult>) -> Seq<Seq<char>> {
    rs.map_values(|r: crate::validator::RlmAnalysisResult| r.answer@)
}

/// The verdict of plain multi-run consensus: the most common answer (the
/// first among equals) must be given by at least `t` thousandths of the
/// runs.
pub open spec fn plain_consensus_judgement(answers: Seq<Seq<char>>, t: u32) -> Judgement {
    let (c, _) = leader(answers, answers.len());
    if share_reached(c, answers.len(), t as nat) {
        Judgement::Consensus(c as usize, answers.len() as usize)
    } else {
        Judgement::Unverified(
            "Consensus ratio "@ + share_text(c, answers.len()) + " below threshold "@ + share_text(
                t as nat,
                1000,
            ),
        )
    }
}

/// Validates several runs by agreement of their raw answers: the most
/// common answer must be given by at least `threshold` thousandths of the
/// runs. The trace is a placeholder carrying that answer, the source path
/// and the revision (`unknown` when none is given).
pub fn validate_with_consensus(
    results: &[crate::validator::RlmAnalysisResult],
    source_path: Option<&str>,
    repo_revision: Option<&str>,
    trace_steps: Option<Vec<crate::validator::TraceStep>>,
    threshold: u32,
) -> (r: OracleResult)
    ensures
        results@.len() == 0 ==> judgement(r) == Judgement::Unverified("No results to validate"@)
            && crate::validator::is_placeholder_trace(trace_of(r), None, None, None),
        results@.len() > 0 ==> {
            let answers = answers_of(results@);
            let j = plain_consensus_judgement(answers, threshold);
            let t = trace_of(r);
            &&& judgement(r) == j
            &&& t.verdict@ == verdict_word(j)
            &&& t.verification_method == (if j is Consensus {
                VerificationMethod::Consensus
            } else {
                VerificationMethod::NoOracle
            })
            &&& t.answer@ == answers[leader(answers, answers.len()).1]
            &&& crate::validator::is_summary_trace(t, source_path, repo_revision)
        },
{
    if results.len() == 0 {
        return unverified(
            crate::validator::build_placeholder_trace(None, None, None),
            owned("No results to validate"),
        );
    }
    let ghost answers = answers_of(results@);
    let mut texts: Vec<Vec<char>> = Vec::new();
    let mut i: usize = 0;
    while i < results.len()
        invariant
            i <= results.len(),
            answers == answers_of(results@),
            texts@.map_values(|v: Vec<char>| v@) == answers.take(i as int),
        decreases results.len() - i,
    {
        let ghost before = texts@;
        texts.push(chars_of(results[i].answer.as_str()));
        assert(texts@.map_values(|v: Vec<char>| v@) =~= before.map_values(|v: Vec<char>| v@).push(
            answers[i as int],
        ));
        assert(answers.take(i + 1) =~= answers.take(i as int).push(answers[i as int]));
        i += 1;
    }
    assert(answers.take(results.len() as int) =~= answers);
    let (best, at) = most_common(&texts);
    let mut trace = crate::validator::build_placeholder_trace(source_path, repo_revision, None);
    trace.answer = results[at].answer.clone();
    proof {
        lemma_leader_bounds(answers, answers.len());
    }
    if reaches(best, results.len(), threshold) {
        consensus(trace, best, results.len())
    } else {
        let mut reason = owned("Consensus ratio ");
        push_str(&mut reason, share_of(best, results.len()).as_str());
        push_str(&mut reason, " below threshold ");
        push_str(&mut reason, share_of(threshold as usize, 1000).as_str());
        unverified(trace, reason)
    }
}

proof fn lemma_tally_full(s: Seq<Seq<char>>, x: Seq<char>)
    ensures
        tally(s, x) == s.len() <==> forall|k: int| 0 <= k < s.len() ==> s[k] == x,
    decreases s.len(),
{
    if s.len() > 0 {
        lemma_tally_full(s.drop_last(), x);
        lemma_tally_bound(s.drop_last(), x);
        if tally(s, x) == s.len() {
            assert forall|k: int| 0 <= k < s.len() implies s[k] == x by {
                if k < s.len() - 1 {
                    assert(s.drop_last()[k] == s[k]);
                }
            }
        }
        if forall|k: int| 0 <= k < s.len() ==> s[k] == x {
            assert forall|k: int| 0 <= k < s.drop_last().len() implies s.drop_last()[k] == x by {
                assert(s.drop_last()[k] == s[k]);
            }
        }
    }
}

/// Strict consensus: with a threshold of 1000 thousandths, the most
/// common answer reaches it exactly when every run gives the same answer.
pub proof fn law_strict_consensus(answers: Seq<Seq<char>>)
    requires
        answers.len() > 0,
    ensures
        share_reached(leader(answers, answers.len()).0, answers.len(), 1000) <==> forall|k: int|
            0 <= k < answers.len() ==> #[trigger] answers[k] == answers[0],
{
    let n = answers.len();
    lemma_leader_bounds(answers, n);
    let (c, i) = leader(answers, n);
    if forall|k: int| 0 <= k < n ==> #[trigger] answers[k] == answers[0] {
        lemma_tally_full(answers, answers[0]);
        assert(answers[n - 1] == answers[0]);
        lemma_leader_bounds(answers, (n - 1) as nat);
    }
    if share_reached(c, n, 1000) {
        lemma_tally_full(answers, answers[i]);
        assert forall|k: int| 0 <= k < n implies #[trigger] answers[k] == answers[0] by {
            assert(answers[k] == answers[i]);
            assert(answers[0] == answers[i]);
        }
    }
}

} // verus!
