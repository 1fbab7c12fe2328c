use codetether_agent::payload::{AstPayload, AstResult, FinalPayload, GrepMatch, GrepPayload, SemanticPayload};
use codetether_agent::router::RlmStats;
use codetether_agent::validation;
use codetether_agent::validator::{
    build_base_trace, OracleResult, RlmAnalysisResult, SubQuery, TraceValidator, VerificationMethod,
};

fn make_result(answer: &str, query: &str) -> RlmAnalysisResult {
    RlmAnalysisResult {
        answer: answer.to_string(),
        iterations: 2,
        sub_queries: vec![SubQuery {
            query: query.to_string(),
            context_slice: None,
            response: answer.to_string(),
            tokens_used: 0,
        }],
        stats: RlmStats { input_tokens: 100, output_tokens: 50, iterations: 2, subcalls: 0, elapsed_ms: 500 },
    }
}

fn sample_rust_code() -> &'static str {
    r#"
pub async fn process(input: &str) -> Result<String> {
    let data = parse(input)?;
    Ok(data)
}

async fn parse(input: &str) -> Result<String> {
    Ok(input.to_uppercase())
}

pub struct Config {
    pub debug: bool,
}
"#
}

fn grep_payload(file: &str, pattern: &str, matches: &[(usize, &str)]) -> FinalPayload {
    FinalPayload::Grep(GrepPayload {
        file: file.to_string(),
        pattern: pattern.to_string(),
        matches: matches.iter().map(|(l, t)| GrepMatch { line: *l, text: t.to_string() }).collect(),
    })
}

fn semantic(file: &str, answer: &str) -> FinalPayload {
    FinalPayload::Semantic(SemanticPayload { file: file.to_string(), answer: answer.to_string() })
}

fn malformed(raw: &str) -> FinalPayload {
    let error = match serde_json::from_str::<serde_json::Value>(raw) {
        Ok(_) => "unknown payload kind".to_string(),
        Err(e) => e.to_string(),
    };
    FinalPayload::Malformed { error, raw: raw.to_string() }
}

const ASYNC_MATCHES: [(usize, &str); 2] = [
    (2, "pub async fn process(input: &str) -> Result<String> {"),
    (7, "async fn parse(input: &str) -> Result<String> {"),
];

#[test]
fn validate_grep_match() {
    let validator = TraceValidator::new();
    let source = sample_rust_code();
    let answer = r#"{"kind": "grep", "file": "test.rs", "pattern": "async fn", "matches": [{"line": 2, "text": "pub async fn process(input: &str) -> Result<String> {"}, {"line": 7, "text": "async fn parse(input: &str) -> Result<String> {"}]}"#;
    let result = make_result(answer, "Find all async functions");
    let payload = grep_payload("test.rs", "async fn", &ASYNC_MATCHES);
    match validator.validate(&result, &payload, source, Some("test.rs"), Some("abc123"), None) {
        OracleResult::Golden(trace) => {
            assert_eq!(trace.verification_method, VerificationMethod::GrepOracle);
            assert_eq!(trace.verdict, "golden");
        }
        OracleResult::Consensus { .. } => panic!("Expected deterministic golden"),
        OracleResult::Unverified { .. } => panic!("Expected golden"),
        OracleResult::Failed { .. } => panic!("Expected golden"),
    }
}

#[test]
fn validate_semantic_unverified() {
    let validator = TraceValidator::new();
    let source = sample_rust_code();
    let answer = r#"{"kind": "semantic", "file": "test.rs", "answer": "This function processes input by parsing it and returning uppercase"}"#;
    let result = make_result(answer, "Explain what the process function does");
    let payload = semantic("test.rs", "This function processes input by parsing it and returning uppercase");
    match validator.validate(&result, &payload, source, Some("test.rs"), Some("abc123"), None) {
        OracleResult::Unverified { reason, .. } => {
            assert!(reason.contains("Semantic"));
        }
        OracleResult::Golden(_) => panic!("Expected unverified"),
        OracleResult::Consensus { .. } => panic!("Expected unverified"),
        OracleResult::Failed { .. } => panic!("Expected unverified"),
    }
}

#[test]
fn validate_semantic_consensus() {
    let validator = TraceValidator::new();
    let source = sample_rust_code();
    let answer = r#"{"kind":"semantic","file":"x.rs","answer":"Auth middleware is mandatory for all routes except /health."}"#;
    let text = "Auth middleware is mandatory for all routes except /health.";
    let runs = vec![
        (make_result(answer, "Explain auth"), semantic("x.rs", text)),
        (make_result(answer, "Explain auth"), semantic("x.rs", text)),
        (make_result(answer, "Explain auth"), semantic("x.rs", text)),
    ];
    match validator.validate_with_consensus(&runs, source, Some("x.rs"), Some("abc123"), None) {
        OracleResult::Consensus { trace, agreeing, runs } => {
            assert_eq!(trace.verification_method, VerificationMethod::Consensus);
            assert_eq!(trace.verdict, "consensus");
            assert_eq!(agreeing, runs);
            assert_eq!(runs, 3);
        }
        _ => panic!("Expected consensus verification"),
    }
}

#[test]
fn validate_plain_text_pattern_query_without_json_is_verified() {
    let validator = TraceValidator::new();
    let source = sample_rust_code();
    let answer = "There are 2 occurrences of async functions in test.rs";
    let result = make_result(answer, "Find all async functions");
    let payload = malformed(answer);
    match validator.validate(&result, &payload, source, Some("test.rs"), Some("abc123"), None) {
        OracleResult::Golden(trace) => {
            assert_eq!(trace.verification_method, VerificationMethod::GrepOracle);
            assert_eq!(trace.verdict, "golden");
        }
        other => panic!("Expected golden from plaintext grep fallback, got {:?}", other),
    }
}

#[test]
fn validate_json_like_malformed_payload_stays_failed() {
    let validator = TraceValidator::new();
    let source = sample_rust_code();
    let result = make_result("{ this is not valid json", "Find all async functions");
    let payload = malformed("{ this is not valid json");
    match validator.validate(&result, &payload, source, Some("test.rs"), Some("abc123"), None) {
        OracleResult::Failed { reason, .. } => {
            assert!(reason.contains("Malformed FINAL payload"));
        }
        other => panic!("Expected failed verdict for malformed JSON-like payload, got {:?}", other),
    }
}

#[test]
fn batch_validate_mixed() {
    let validator = TraceValidator::new();
    let source = sample_rust_code();
    let grep_answer = r#"{"kind": "grep", "file": "x.rs", "pattern": "async fn", "matches": [{"line": 2, "text": "pub async fn process(input: &str) -> Result<String> {"}, {"line": 7, "text": "async fn parse(input: &str) -> Result<String> {"}]}"#;
    let traces = vec![
        (make_result(grep_answer, "Find async"), grep_payload("x.rs", "async fn", &ASYNC_MATCHES), source, None),
        (
            make_result(r#"{"kind": "semantic", "file": "x.rs", "answer": "text"}"#, "Explain"),
            semantic("x.rs", "text"),
            source,
            None,
        ),
    ];
    let stats = validator.batch_validate(traces);
    assert!(stats.golden.len() >= 1);
    assert!(stats.unverified.len() >= 1);
    assert!(stats.total() == 2);
}

#[test]
fn base_trace_records_the_analysis() {
    let validator = TraceValidator::new();
    let result = make_result("x", "Explain");
    let r = validator.validate(&result, &semantic("a.rs", "x"), "src", Some("a.rs"), None, None);
    let t = match r {
        OracleResult::Unverified { trace, .. } => trace,
        other => panic!("unexpected {:?}", other),
    };
    assert_eq!(t.prompt, "Explain");
    assert_eq!(t.repo_revision, "unknown");
    assert_eq!(t.iterations, 2);
    assert_eq!(t.subcalls, 1);
    assert_eq!(t.input_tokens, 100);
    assert_eq!(t.output_tokens, 50);
    assert_eq!(t.elapsed_ms, 500);
    assert_eq!(t.source_path.as_deref(), Some("a.rs"));
    assert_eq!(t.trace_id.len(), 36);
    assert!(!t.timestamp.is_empty());
    assert_eq!(t.verification_method, VerificationMethod::NoOracle);
}

#[test]
fn unordered_grep_claims_are_golden() {
    let validator = TraceValidator::new();
    let result = make_result("x", "Find all async functions");
    let payload = grep_payload("t.rs", "async fn", &[ASYNC_MATCHES[1], ASYNC_MATCHES[0]]);
    assert!(matches!(
        validator.validate(&result, &payload, sample_rust_code(), None, None, None),
        OracleResult::Golden(_)
    ));
}

#[test]
fn extra_grep_claims_fail_with_their_list() {
    let validator = TraceValidator::new();
    let result = make_result("x", "Find all async functions");
    let payload = grep_payload("t.rs", "async fn", &[ASYNC_MATCHES[0], ASYNC_MATCHES[1], (3, "ghost \"line\"")]);
    match validator.validate(&result, &payload, sample_rust_code(), None, None, None) {
        OracleResult::Failed { reason, diff, trace } => {
            assert_eq!(reason, "False positives: 1 claims not found in source: [(3, \"ghost \\\"line\\\"\")]");
            assert_eq!(diff.as_deref(), Some(reason.as_str()));
            assert_eq!(trace.oracle_diff.as_deref(), Some(reason.as_str()));
            assert_eq!(trace.verdict, "failed");
        }
        other => panic!("unexpected {:?}", other),
    }
}

#[test]
fn bad_grep_pattern_is_unverified() {
    let validator = TraceValidator::new();
    let result = make_result("x", "Find all");
    let payload = grep_payload("t.rs", "(unclosed", &[]);
    match validator.validate(&result, &payload, sample_rust_code(), None, None, None) {
        OracleResult::Unverified { reason, .. } => assert!(reason.starts_with("Could not run grep: ")),
        other => panic!("unexpected {:?}", other),
    }
}

#[test]
fn partial_count_answer_fails_with_its_coverage() {
    let validator = TraceValidator::new();
    let answer = "Found 1 async functions";
    let result = make_result(answer, "Count async functions");
    match validator.validate(&result, &malformed(answer), sample_rust_code(), None, None, None) {
        OracleResult::Failed { reason, .. } => {
            assert_eq!(reason, "Subset match: model claimed 1 but source has 2 (coverage: 50.0%)");
        }
        other => panic!("unexpected {:?}", other),
    }
    let lenient = TraceValidator::new().with_confidence_threshold(500);
    assert!(matches!(
        lenient.validate(&result, &malformed(answer), sample_rust_code(), None, None, None),
        OracleResult::Golden(_)
    ));
}

#[test]
fn plain_text_structure_query_is_unverified() {
    let validator = TraceValidator::new();
    let answer = "The struct has one field";
    let result = make_result(answer, "What is the signature of process");
    match validator.validate(&result, &malformed(answer), sample_rust_code(), None, None, None) {
        OracleResult::Unverified { reason, .. } => assert!(reason.starts_with("Structured query result")),
        other => panic!("unexpected {:?}", other),
    }
}

fn ast_result(name: &str, args: &[&str], rt: Option<&str>, line: usize) -> AstResult {
    AstResult {
        name: name.to_string(),
        args: args.iter().map(|a| a.to_string()).collect(),
        return_type: rt.map(|r| r.to_string()),
        span: Some((line, line)),
    }
}

#[test]
fn ast_payload_matching_the_source_is_golden() {
    let validator = TraceValidator::new();
    let result = make_result("x", "List functions");
    let payload = FinalPayload::Ast(AstPayload {
        file: "t.rs".to_string(),
        query: "functions".to_string(),
        results: vec![
            ast_result("process", &["input: &str"], Some("Result<String>"), 2),
            ast_result("parse", &["input:&str"], Some("Result< String >"), 7),
        ],
    });
    match validator.validate(&result, &payload, sample_rust_code(), None, None, None) {
        OracleResult::Golden(trace) => assert_eq!(trace.verification_method, VerificationMethod::TreeSitterOracle),
        other => panic!("unexpected {:?}", other),
    }
}

#[test]
fn ast_payload_with_unknown_items_fails() {
    let validator = TraceValidator::new();
    let result = make_result("x", "List functions");
    let payload = FinalPayload::Ast(AstPayload {
        file: "t.rs".to_string(),
        query: "functions".to_string(),
        results: vec![ast_result("nope", &[], None, 1)],
    });
    match validator.validate(&result, &payload, sample_rust_code(), None, None, None) {
        OracleResult::Failed { reason, .. } => {
            assert!(reason.starts_with("Structural mismatch. extra=1 missing=2 extra_items=[\"nope|||1:1\"]"));
        }
        other => panic!("unexpected {:?}", other),
    }
}

#[test]
fn ast_payload_listing_part_of_the_structs() {
    let validator = TraceValidator::new();
    let result = make_result("x", "List structs");
    let payload = FinalPayload::Ast(AstPayload {
        file: "t.rs".to_string(),
        query: "structs".to_string(),
        results: vec![ast_result("Config", &["debug"], None, 11)],
    });
    assert!(matches!(
        validator.validate(&result, &payload, sample_rust_code(), None, None, None),
        OracleResult::Golden(_)
    ));
}

#[test]
fn consensus_needs_every_run_by_default() {
    let validator = TraceValidator::new();
    let runs = vec![
        (make_result("a", "Explain"), semantic("x.rs", "The  answer")),
        (make_result("b", "Explain"), semantic("x.rs", "The answer")),
        (make_result("c", "Explain"), semantic("x.rs", "Another answer")),
    ];
    match validator.validate_with_consensus(&runs, "", Some("x.rs"), None, None) {
        OracleResult::Unverified { reason, .. } => {
            assert_eq!(reason, "Consensus not reached: best agreement 66.7% for answer 'The answer'");
        }
        other => panic!("unexpected {:?}", other),
    }
    let lenient = TraceValidator::new().with_consensus_threshold(600);
    match lenient.validate_with_consensus(&runs, "", Some("x.rs"), None, None) {
        OracleResult::Consensus { trace, agreeing, runs } => {
            assert_eq!((agreeing, runs), (2, 3));
            match trace.final_payload {
                Some(FinalPayload::Semantic(p)) => assert_eq!(p.answer, "The  answer"),
                other => panic!("unexpected {:?}", other),
            }
        }
        other => panic!("unexpected {:?}", other),
    }
}

#[test]
fn consensus_of_nothing_is_unverified() {
    let validator = TraceValidator::new();
    match validator.validate_with_consensus(&[], "", None, None, None) {
        OracleResult::Unverified { reason, .. } => {
            assert_eq!(reason, "Consensus validation requires at least one result");
        }
        other => panic!("unexpected {:?}", other),
    }
}

#[test]
fn consensus_of_non_semantic_runs_validates_the_first() {
    let validator = TraceValidator::new();
    let runs = vec![(make_result("x", "Find async"), grep_payload("t.rs", "async fn", &ASYNC_MATCHES))];
    assert!(matches!(
        validator.validate_with_consensus(&runs, sample_rust_code(), None, None, None),
        OracleResult::Golden(_)
    ));
}

#[test]
fn thresholds_are_clamped() {
    let v = TraceValidator::new().with_confidence_threshold(5000);
    let result = make_result("Found 1 async functions", "Count async functions");
    assert!(matches!(
        v.validate(&result, &malformed("Found 1 async functions"), sample_rust_code(), None, None, None),
        OracleResult::Failed { .. }
    ));
}

#[test]
fn records_carry_the_verdict() {
    let validator = TraceValidator::new();
    let result = make_result("x", "Explain");
    let r = validator.validate(&result, &semantic("a.rs", "x"), "src", None, Some("rev1"), None);
    let rec = r.to_record();
    assert_eq!(rec.verdict, "unverified");
    assert!(rec.reason.unwrap().contains("Semantic"));
    assert_eq!(rec.agreement, None);
    assert_eq!(rec.trace.repo_revision, "rev1");
}

#[test]
fn free_grep_validation() {
    let base = build_base_trace(&make_result("x", "q"), None, None, None, semantic("a", "b"), "t".to_string(), "id".to_string());
    match validation::validate_grep_payload(&semantic("a", "b"), sample_rust_code(), 950, base) {
        OracleResult::Failed { reason, diff, .. } => {
            assert_eq!(reason, "Expected grep payload");
            assert!(diff.is_none());
        }
        other => panic!("unexpected {:?}", other),
    }
    let base = build_base_trace(&make_result("x", "q"), None, None, None, semantic("a", "b"), "t".to_string(), "id".to_string());
    let payload = grep_payload("t.rs", "async fn", &ASYNC_MATCHES[..1]);
    assert!(matches!(
        validation::validate_grep_payload(&payload, sample_rust_code(), 950, base),
        OracleResult::Golden(_)
    ));
    let base = build_base_trace(&make_result("x", "q"), None, None, None, semantic("a", "b"), "t".to_string(), "id".to_string());
    let mut made_up = ASYNC_MATCHES[..1].to_vec();
    made_up.push((9, "async fn invented() {}"));
    let payload = grep_payload("t.rs", "async fn", &made_up);
    match validation::validate_grep_payload(&payload, sample_rust_code(), 950, base) {
        OracleResult::Unverified { reason, .. } => {
            assert_eq!(reason, "Grep match ratio 0.50 below 0.95");
        }
        other => panic!("unexpected {:?}", other),
    }
}

#[test]
fn free_ast_validation_by_name_share() {
    let mk = || build_base_trace(&make_result("x", "q"), None, None, None, semantic("a", "b"), "t".to_string(), "id".to_string());
    let payload = FinalPayload::Ast(AstPayload {
        file: "t.rs".to_string(),
        query: "functions".to_string(),
        results: vec![ast_result("process", &[], None, 2), ast_result("missing", &[], None, 9)],
    });
    match validation::validate_ast_payload(&payload, sample_rust_code(), 950, mk()) {
        OracleResult::Unverified { reason, .. } => assert_eq!(reason, "AST match ratio 0.50 below 0.95"),
        other => panic!("unexpected {:?}", other),
    }
    match validation::validate_ast_payload(&payload, sample_rust_code(), 500, mk()) {
        OracleResult::Golden(t) => assert_eq!(t.verification_method, VerificationMethod::AstOracle),
        other => panic!("unexpected {:?}", other),
    }
}

#[test]
fn free_consensus_on_raw_answers() {
    let results = vec![make_result("a", "q"), make_result("b", "q"), make_result("a", "q")];
    match validation::validate_with_consensus(&results, Some("p.rs"), None, None, 600) {
        OracleResult::Consensus { trace, agreeing, runs } => {
            assert_eq!((agreeing, runs), (2, 3));
            assert_eq!(trace.answer, "a");
            assert_eq!(trace.repo_revision, "unknown");
        }
        other => panic!("unexpected {:?}", other),
    }
    match validation::validate_with_consensus(&results, None, Some("r"), None, 700) {
        OracleResult::Unverified { reason, .. } => assert_eq!(reason, "Consensus ratio 0.67 below threshold 0.70"),
        other => panic!("unexpected {:?}", other),
    }
    match validation::validate_with_consensus(&[], None, None, None, 700) {
        OracleResult::Unverified { reason, .. } => assert_eq!(reason, "No results to validate"),
        other => panic!("unexpected {:?}", other),
    }
}

#[test]
fn payload_copies_are_equal() {
    let p = grep_payload("t.rs", "x", &ASYNC_MATCHES);
    assert_eq!(p.copy(), p);
}

#[test]
fn bucket_records_carry_verdicts_and_reasons() {
    let validator = TraceValidator::new();
    let source = sample_rust_code();
    let grep_answer = r#"{"kind": "grep", "file": "x.rs", "pattern": "async fn", "matches": [{"line": 2, "text": "pub async fn process(input: &str) -> Result<String> {"}, {"line": 7, "text": "async fn parse(input: &str) -> Result<String> {"}]}"#;
    let traces = vec![
        (make_result(grep_answer, "Find async"), grep_payload("x.rs", "async fn", &ASYNC_MATCHES), source, None),
        (
            make_result(r#"{"kind": "semantic", "file": "x.rs", "answer": "text"}"#, "Explain"),
            semantic("x.rs", "text"),
            source,
            None,
        ),
    ];
    let stats = validator.batch_validate(traces);
    let (golden, consensus, failed, unverified) = stats.bucket_records();
    assert_eq!(golden.len(), stats.golden.len());
    assert_eq!(consensus.len(), 0);
    assert_eq!(failed.len(), stats.failed.len());
    assert_eq!(unverified.len(), stats.unverified.len());
    assert!(golden.iter().all(|r| r.verdict == "golden" && r.reason.is_none() && r.agreement.is_none()));
    assert_eq!(golden[0].trace.prompt, "Find async");
    assert_eq!(unverified[0].verdict, "unverified");
    assert_eq!(unverified[0].reason.as_deref(), Some(stats.unverified[0].1.as_str()));
    assert_eq!(unverified[0].trace.prompt, "Explain");
}

#[test]
fn overcount_answer_is_not_golden() {
    let validator = TraceValidator::new().with_confidence_threshold(500);
    let answer = "Found 5 async functions";
    let result = make_result(answer, "Count async functions");
    let r = validator.validate(&result, &malformed(answer), sample_rust_code(), None, Some("abc123"), None);
    assert!(!matches!(r, OracleResult::Golden(_)));
}

#[test]
fn ast_answer_about_two_functions_is_golden() {
    let validator = TraceValidator::new();
    let result = make_result("x", "q");
    let payload = FinalPayload::Ast(AstPayload {
        file: "x.rs".to_string(),
        query: "functions".to_string(),
        results: vec![ast_result("b", &[], Some("u8"), 2), ast_result("a", &["x:u8"], None, 1)],
    });
    match validator.validate(&result, &payload, "fn a(x: u8) {}\nfn b() -> u8 { 0 }\n", None, None, None) {
        OracleResult::Golden(t) => {
            assert_eq!(t.verdict, "golden");
            assert_eq!(t.verification_method, VerificationMethod::TreeSitterOracle);
        }
        other => panic!("unexpected {:?}", other),
    }
}
