use codetether_agent::external::{extract_final, generate_bun_init, read_repl_line, ReplLine};
use codetether_agent::payload::{FinalPayload, SemanticPayload};
use codetether_agent::storage::{
    normalize_endpoint, object_key, object_url, persist_report, spool_filename, SyncOutcome, UploadOutcome,
};
use codetether_agent::validator::{build_base_trace, OracleTraceRecord, OracleTraceSyncStats, RlmAnalysisResult};
use codetether_agent::router::RlmStats;

fn record(verdict: &str, trace_id: &str) -> OracleTraceRecord {
    let result = RlmAnalysisResult {
        answer: "answer".to_string(),
        iterations: 1,
        sub_queries: vec![],
        stats: RlmStats { input_tokens: 1, output_tokens: 1, iterations: 1, subcalls: 0, elapsed_ms: 1 },
    };
    let payload = FinalPayload::Semantic(SemanticPayload { file: "src/main.rs".to_string(), answer: "answer".to_string() });
    let trace = build_base_trace(&result, Some("src/main.rs"), Some("abc123"), None, payload, "now".to_string(), trace_id.to_string());
    OracleTraceRecord { verdict: verdict.to_string(), reason: None, agreement: None, trace }
}

#[test]
fn endpoints_get_a_scheme() {
    assert_eq!(normalize_endpoint("minio:9000//", false), "http://minio:9000");
    assert_eq!(normalize_endpoint("minio:9000", true), "https://minio:9000");
    assert_eq!(normalize_endpoint("http://x/", true), "http://x");
}

#[test]
fn spool_files_are_named_by_time_id_and_verdict() {
    assert_eq!(spool_filename(&record("golden", "id-1"), 1700), "1700_id-1_golden.jsonl");
    assert_eq!(spool_filename(&record("failed", "id-2"), -5), "-5_id-2_failed.jsonl");
    let fresh = spool_filename(&record("failed", ""), 1);
    assert_eq!(fresh.len(), "1__failed.jsonl".len() + 36);
}

#[test]
fn object_keys_and_urls() {
    let key = object_key("traces//", &record("golden", "id-1"), "2024/01/02/03", "20240102T030405");
    assert_eq!(key, "traces/oracle/golden/2024/01/02/03/20240102T030405_id-1.jsonl");
    assert_eq!(object_url("http://m/", "b", &key), format!("http://m/b/{key}"));
}

#[test]
fn persist_reports() {
    let r = persist_report("golden", "/s/a.jsonl", UploadOutcome::NotConfigured, 3);
    assert!(!r.uploaded);
    assert_eq!(r.warning.as_deref(), Some("Remote MinIO not configured, kept local spool"));
    assert_eq!(r.pending_count, 3);
    let r = persist_report("failed", "/s/a.jsonl", UploadOutcome::Failed("boom".to_string()), 1);
    assert_eq!(r.warning.as_deref(), Some("Upload failed, kept local spool: boom"));
    let r = persist_report(
        "golden",
        "/s/a.jsonl",
        UploadOutcome::Uploaded { key: "k".to_string(), url: "u".to_string(), remove_error: Some("busy".to_string()) },
        0,
    );
    assert!(r.uploaded);
    assert_eq!(r.remote_key.as_deref(), Some("k"));
    assert_eq!(r.warning.as_deref(), Some("Uploaded but failed to remove spool file /s/a.jsonl: busy"));
}

#[test]
fn sync_counts() {
    let mut s = OracleTraceSyncStats::default();
    s.count(SyncOutcome::Uploaded);
    s.count(SyncOutcome::UploadedKept);
    s.count(SyncOutcome::Invalid);
    s.count(SyncOutcome::UploadFailed);
    assert_eq!((s.uploaded, s.failed, s.retained), (2, 3, 3));
    let u = OracleTraceSyncStats::unconfigured(4);
    assert_eq!((u.uploaded, u.retained, u.failed, u.pending_after), (0, 4, 0, 4));
}

#[test]
fn bun_script_escapes_the_context() {
    let script = generate_bun_init("a\"b\\c\nd");
    assert!(script.contains("const context = \"a\\\"b\\\\c\\nd\";"));
    assert!(script.starts_with("\nconst readline = require('readline');"));
    assert!(script.contains("console.log(\"READY\");"));
}

#[test]
fn repl_output_lines() {
    assert_eq!(extract_final("x __FINAL__42__FINAL_END__ y"), Some("42".to_string()));
    assert_eq!(extract_final("__FINAL__ no end"), None);
    assert!(matches!(read_repl_line("  __DONE__ "), ReplLine::Done));
    assert!(matches!(read_repl_line("__FINAL__ok__FINAL_END__"), ReplLine::Final(a) if a == "ok"));
    assert!(matches!(read_repl_line(" out "), ReplLine::Output(o) if o == "out"));
}
