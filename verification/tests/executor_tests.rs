use codetether_agent::analysis::{AnalysisSession, LineStep, ToolStep};
use codetether_agent::executor::{
    answer_text, char_index_to_byte_index, clipped, coerce_grep_payload_from_trace, engine_analysis_result,
    engine_tool_args, engine_trace_step, ensure_structured_final_payload, extract_code,
    extract_latest_grep_matches, has_pattern_evidence, infer_file_from_query, parse_line_numbered_output,
    parse_llm_query, trace_output_for_storage, truncate_with_ellipsis,
};
use codetether_agent::payload::{FinalPayload, GrepMatch, GrepPayload};
use codetether_agent::repl::{ReplRuntime, RlmRepl};
use codetether_agent::router::RlmStats;
use codetether_agent::validator::TraceStep;

fn step(iteration: usize, action: &str, output: &str) -> TraceStep {
    TraceStep { iteration, action: action.to_string(), output: output.to_string() }
}

#[test]
fn test_parse_line_numbered_output() {
    let parsed = parse_line_numbered_output("570:async fn analyze\nL1038:async fn x");
    assert_eq!(parsed.len(), 2);
    assert_eq!(parsed[0], (570, "async fn analyze".to_string()));
    assert_eq!(parsed[1], (1038, "async fn x".to_string()));
}

#[test]
fn test_infer_file_from_query() {
    let file = infer_file_from_query("Find all occurrences of 'async fn' in src/rlm/repl.rs");
    assert_eq!(file.as_deref(), Some("src/rlm/repl.rs"));
}

#[test]
fn infer_file_uses_the_last_in_and_strips_quotes() {
    assert_eq!(infer_file_from_query("Count TODO IN \"lib.rs\".").as_deref(), Some("lib.rs"));
    assert_eq!(infer_file_from_query("Find all async functions"), None);
    assert_eq!(infer_file_from_query("look in ''"), None);
}

#[test]
fn truncation_marks_what_was_cut() {
    assert_eq!(truncate_with_ellipsis("hello", 0), "");
    assert_eq!(truncate_with_ellipsis("hello", 5), "hello");
    assert_eq!(truncate_with_ellipsis("hello", 3), "hel...");
    assert_eq!(truncate_with_ellipsis("héllo", 2), "hé...");
    assert_eq!(clipped("hello", 0), "...");
    assert_eq!(clipped("hi", 5), "hi");
}

#[test]
fn byte_index_of_characters() {
    assert_eq!(char_index_to_byte_index("héllo", 0), 0);
    assert_eq!(char_index_to_byte_index("héllo", 2), 3);
    assert_eq!(char_index_to_byte_index("héllo", 9), 6);
}

#[test]
fn numbered_output_skips_other_lines() {
    let parsed = parse_line_numbered_output("header\n  12: a\r\nx:y\n7:b");
    assert_eq!(parsed, vec![(12, " a".to_string()), (7, "b".to_string())]);
}

#[test]
fn stored_output_keeps_matches_whole() {
    let long = "x".repeat(300);
    assert_eq!(trace_output_for_storage(&long), format!("{}...", "x".repeat(240)));
    assert_eq!(trace_output_for_storage(" (no matches) "), " (no matches) ");
    let numbered = format!("1:{}", "y".repeat(300));
    assert_eq!(trace_output_for_storage(&numbered), numbered);
}

#[test]
fn code_is_taken_from_fences_or_code_lines() {
    let fenced = "Let me look.\n```\nhead(5)\ngrep(\"fn\")\n```\nDone.";
    assert_eq!(extract_code(fenced), "head(5)\ngrep(\"fn\")");
    let bare = "I will run\n  grep(\"x\")\nand then\nFINAL(\"y\")";
    assert_eq!(extract_code(bare), "  grep(\"x\")\nFINAL(\"y\")");
    assert_eq!(extract_code("no code here"), "");
}

#[test]
fn evidence_of_grep() {
    assert!(!has_pattern_evidence(&vec![step(1, "head(3)", "a\nb")]));
    assert!(has_pattern_evidence(&vec![step(1, "rlm_grep({})", "")]));
    assert!(has_pattern_evidence(&vec![step(1, "execute_code()", "4:x")]));
    assert!(has_pattern_evidence(&vec![step(1, "x", "(no matches)")]));
}

#[test]
fn latest_matches_come_from_the_latest_grep() {
    let steps = vec![
        step(1, "rlm_grep({})", "1:a\n2:b"),
        step(2, "rlm_head({})", "9:z"),
        step(3, "rlm_grep({})", "nothing useful"),
    ];
    assert_eq!(extract_latest_grep_matches(&steps), Some(vec![(1, "a".to_string()), (2, "b".to_string())]));
    let none = vec![step(1, "rlm_grep({})", " (no matches) ")];
    assert_eq!(extract_latest_grep_matches(&none), Some(vec![]));
    let fallback = vec![step(1, "rlm_head({})", "9:z")];
    assert_eq!(extract_latest_grep_matches(&fallback), Some(vec![(9, "z".to_string())]));
    assert_eq!(extract_latest_grep_matches(&vec![step(1, "a", "b")]), None);
}

#[test]
fn answer_text_drops_the_header() {
    assert_eq!(answer_text("[RLM: 1 → 2 tokens]\n\n  the answer \n"), "the answer");
    assert_eq!(answer_text("  plain "), "plain");
}

#[test]
fn llm_query_lines_are_read() {
    let mut repl = RlmRepl::new("l1\nl2\nl3".to_string(), ReplRuntime::Rust);
    let (q, ctx) = parse_llm_query("llm_query(\"what, exactly?\", head(2))", &mut repl);
    assert_eq!(q, "what, exactly?");
    assert_eq!(ctx.as_deref(), Some("l1\nl2"));
    let (q, ctx) = parse_llm_query("x = llm_query('why')", &mut repl);
    assert_eq!(q, "why");
    assert_eq!(ctx, None);
}

#[test]
fn trace_evidence_becomes_a_grep_payload() {
    let steps = vec![step(1, "rlm_grep({\"pattern\":\"fn\"})", "3:fn \"a\"()")];
    let (file, pattern, matches) =
        coerce_grep_payload_from_trace("Find all occurrences of 'fn' in src/x.rs", &steps).unwrap();
    assert_eq!(file, "src/x.rs");
    assert_eq!(pattern, "fn");
    assert_eq!(matches, vec![(3, "fn \"a\"()".to_string())]);
    assert!(coerce_grep_payload_from_trace("Explain this", &steps).is_none());
}

#[test]
fn final_answers_are_made_structured() {
    let steps = vec![step(4, "rlm_grep({})", "3:fn a()")];
    let query = "Find all occurrences of 'fn' in src/x.rs";
    let raw = "I found one".to_string();
    let parsed = FinalPayload::Malformed { error: "e".to_string(), raw: raw.clone() };
    let (text, st) = ensure_structured_final_payload(query, raw, &parsed, &steps);
    assert_eq!(text, r#"{"kind":"grep","file":"src/x.rs","pattern":"fn","matches":[{"line":3,"text":"fn a()"}]}"#);
    let st = st.unwrap();
    assert_eq!(st.iteration, 4);
    assert_eq!(st.action, "coerce_final_payload(grep_trace)");
    let v: serde_json::Value = serde_json::from_str(&text).unwrap();
    assert_eq!(v["matches"][0]["line"], 3);

    let same = FinalPayload::Grep(GrepPayload {
        file: "src/x.rs".to_string(),
        pattern: "fn".to_string(),
        matches: vec![GrepMatch { line: 3, text: "fn a()".to_string() }],
    });
    let (text, st) = ensure_structured_final_payload(query, "RAW".to_string(), &same, &steps);
    assert_eq!(text, "RAW");
    assert!(st.is_none());
}

#[test]
fn engine_runs_are_recorded() {
    let s = engine_trace_step("q", "a", 0);
    assert_eq!((s.iteration, s.action.as_str(), s.output.as_str()), (1, "rlm_engine(q)", "a"));
    assert_eq!(engine_tool_args("say \"hi\""), r#"{"query":"say \"hi\""}"#);
    let stats = RlmStats { input_tokens: 10, output_tokens: 5, iterations: 3, subcalls: 2, elapsed_ms: 1 };
    let r = engine_analysis_result("q", "[RLM]\n\nanswer", &stats, 99);
    assert_eq!(r.answer, "answer");
    assert_eq!(r.sub_queries.len(), 1);
    assert_eq!(r.sub_queries[0].tokens_used, 5);
    assert_eq!(r.stats.elapsed_ms, 99);
    assert_eq!(r.iterations, 3);
}

#[test]
fn session_rejects_final_without_grep_evidence() {
    let mut s = AnalysisSession::start("fn a() {}\nfn b() {}".to_string(), "Find all functions", 5);
    assert!(s.requires_pattern_evidence);
    assert!(s.next_iteration());
    match s.on_tool_call("rlm_final", r#"{"answer": "2"}"#) {
        ToolStep::Rejected(t) => assert!(t.starts_with("FINAL rejected")),
        _ => panic!("expected a rejection"),
    }
    assert!(s.final_answer.is_none());
    match s.on_tool_call("rlm_grep", r#"{"pattern": "fn"}"#) {
        ToolStep::Output(o) => assert_eq!(o, "1:fn a() {}\n2:fn b() {}"),
        _ => panic!("expected output"),
    }
    match s.on_tool_call("rlm_final", r#"{"answer": "2"}"#) {
        ToolStep::Final(t) => assert_eq!(t, "FINAL: 2"),
        _ => panic!("expected final"),
    }
    assert_eq!(s.final_answer.as_deref(), Some("2"));
    assert!(!s.next_iteration());
    assert_eq!(s.trace_steps.len(), 3);
}

#[test]
fn session_asks_sub_queries_and_unknown_tools() {
    let mut s = AnalysisSession::start("data".to_string(), "Explain", 2);
    assert!(s.next_iteration());
    match s.on_tool_call("rlm_llm_query", r#"{"query": "why?", "context_slice": "part"}"#) {
        ToolStep::Query(q, c) => {
            assert_eq!(q, "why?");
            assert_eq!(c.as_deref(), Some("part"));
            let prompt = s.sub_query_prompt(&q, &c);
            assert_eq!(prompt, "Context:\npart\n\nQuestion: why?");
            let reply = s.on_tool_query(&q, c, "because", 7);
            assert_eq!(reply, "llm_query result: because");
        }
        _ => panic!("expected a query"),
    }
    assert_eq!(s.sub_queries.len(), 1);
    match s.on_tool_call("nope", "{}") {
        ToolStep::Unknown(t) => assert_eq!(t, "Unknown tool: nope"),
        _ => panic!("expected unknown"),
    }
}

#[test]
fn session_runs_code() {
    let mut s = AnalysisSession::start("alpha\nbeta\ngamma".to_string(), "Explain the context", 3);
    assert!(s.next_iteration());
    let code = s.begin_code("```\nhead(2)\n// skip\nFINAL(\"done\")\n```");
    assert_eq!(code, "head(2)\n// skip\nFINAL(\"done\")");
    let mut outputs = Vec::new();
    let mut fin = None;
    for line in code.lines() {
        assert!(s.can_run_line(line));
        match s.code_line(line) {
            LineStep::Output(o) => outputs.push(o),
            LineStep::Final(a) => {
                fin = Some(a);
                break;
            }
            LineStep::Skip => {}
            LineStep::Query(_, _) => panic!("no query expected"),
        }
    }
    assert_eq!(outputs, vec!["alpha\nbeta".to_string()]);
    assert_eq!(s.finish_code(&code, &outputs, fin), None);
    assert_eq!(s.final_answer.as_deref(), Some("done"));
    let parsed = FinalPayload::Malformed { error: "e".to_string(), raw: "done".to_string() };
    let r = s.finish(&parsed, 10);
    assert_eq!(r.answer, "done");
    assert_eq!(r.iterations, 1);
    assert_eq!(r.stats.elapsed_ms, 10);
}

#[test]
fn session_reports_code_output() {
    let mut s = AnalysisSession::start("alpha".to_string(), "Explain", 3);
    assert!(s.next_iteration());
    let code = s.begin_code("count(\"a\")");
    let out = s.code_line(&code);
    let outputs = match out {
        LineStep::Output(o) => vec![o],
        _ => panic!("expected output"),
    };
    assert_eq!(s.finish_code(&code, &outputs, None), Some("Execution result:\n2".to_string()));
    assert_eq!(s.trace_steps.last().unwrap().output, "2");
    assert_eq!(s.finish_code(&code, &vec![], None), Some("[No output]".to_string()));
}

#[test]
fn session_prompts() {
    let s = AnalysisSession::start("a\nb".to_string(), "Why?", 3);
    assert_eq!(s.user_prompt(), "Analyze and answer: Why?");
    let p = s.system_prompt();
    assert!(p.contains("The context has 3 chars across 2 lines. A preview follows:\n\na\nb\n\nExample final response:"));
    assert!(p.starts_with("You are a code analysis assistant."));
}

#[test]
fn empty_context_runs_chunk_lines() {
    let s = AnalysisSession::start(String::new(), "Explain", 1);
    assert!(s.can_run_line("chunks(3)"));
    assert!(s.can_run_line("head(3)"));
    assert!(!s.can_run_line("x) = llm_query(\"q\""));
    assert!(s.can_run_line("grep(\"chunk\")"));
    assert!(s.can_run_line("let c = chunks(2);"));
    assert!(s.can_run_line("llm_query(\"q\", chunks(4))"));
}
