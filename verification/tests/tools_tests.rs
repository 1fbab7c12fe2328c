use codetether_agent::repl::{ReplRuntime, RlmRepl};
use codetether_agent::tools::{dispatch_tool_call, rlm_tool_definitions, RlmToolResult};

#[test]
fn tool_definitions_are_complete() {
    let defs = rlm_tool_definitions();
    assert_eq!(defs.len(), 7);
    let names: Vec<&str> = defs.iter().map(|d| d.name.as_str()).collect();
    assert!(names.contains(&"rlm_head"));
    assert!(names.contains(&"rlm_tail"));
    assert!(names.contains(&"rlm_grep"));
    assert!(names.contains(&"rlm_count"));
    assert!(names.contains(&"rlm_slice"));
    assert!(names.contains(&"rlm_llm_query"));
    assert!(names.contains(&"rlm_final"));
}

#[test]
fn dispatch_head() {
    let ctx = "line 1\nline 2\nline 3\nline 4\nline 5".to_string();
    let mut repl = RlmRepl::new(ctx, ReplRuntime::Rust);
    let result = dispatch_tool_call("rlm_head", r#"{"n": 2}"#, &mut repl);
    match result {
        Some(RlmToolResult::Output(s)) => assert_eq!(s, "line 1\nline 2"),
        _ => panic!("expected Output"),
    }
}

#[test]
fn dispatch_tail() {
    let ctx = "line 1\nline 2\nline 3\nline 4\nline 5".to_string();
    let mut repl = RlmRepl::new(ctx, ReplRuntime::Rust);
    let result = dispatch_tool_call("rlm_tail", r#"{"n": 2}"#, &mut repl);
    match result {
        Some(RlmToolResult::Output(s)) => assert_eq!(s, "line 4\nline 5"),
        _ => panic!("expected Output"),
    }
}

#[test]
fn dispatch_grep() {
    let ctx = "error: fail\ninfo: ok\nerror: boom".to_string();
    let mut repl = RlmRepl::new(ctx, ReplRuntime::Rust);
    let result = dispatch_tool_call("rlm_grep", r#"{"pattern": "error"}"#, &mut repl);
    match result {
        Some(RlmToolResult::Output(s)) => {
            assert!(s.contains("error: fail"));
            assert!(s.contains("error: boom"));
        }
        _ => panic!("expected Output"),
    }
}

#[test]
fn dispatch_final() {
    let ctx = "whatever".to_string();
    let mut repl = RlmRepl::new(ctx, ReplRuntime::Rust);
    let result = dispatch_tool_call("rlm_final", r#"{"answer": "The answer is 42"}"#, &mut repl);
    match result {
        Some(RlmToolResult::Final(s)) => assert_eq!(s, "The answer is 42"),
        _ => panic!("expected Final"),
    }
}

#[test]
fn dispatch_unknown_returns_none() {
    let ctx = "data".to_string();
    let mut repl = RlmRepl::new(ctx, ReplRuntime::Rust);
    assert!(dispatch_tool_call("unknown_tool", "{}", &mut repl).is_none());
}

#[test]
fn dispatch_grep_without_matches() {
    let mut repl = RlmRepl::new("alpha\nbeta".to_string(), ReplRuntime::Rust);
    match dispatch_tool_call("rlm_grep", r#"{"pattern": "gamma"}"#, &mut repl) {
        Some(RlmToolResult::Output(s)) => assert_eq!(s, "(no matches)"),
        _ => panic!("expected Output"),
    }
}

#[test]
fn dispatch_llm_query_returns_a_request() {
    let mut repl = RlmRepl::new("data".to_string(), ReplRuntime::Rust);
    match dispatch_tool_call("rlm_llm_query", r#"{"query": "why?"}"#, &mut repl) {
        Some(RlmToolResult::Output(s)) => {
            let v: serde_json::Value = serde_json::from_str(&s).unwrap();
            assert_eq!(v["__rlm_llm_query"], true);
            assert_eq!(v["query"], "why?");
            assert!(v["context_slice"].is_null());
        }
        _ => panic!("expected Output"),
    }
}

#[test]
fn dispatch_count_and_slice() {
    let mut repl = RlmRepl::new("a b a b a".to_string(), ReplRuntime::Rust);
    match dispatch_tool_call("rlm_count", r#"{"pattern": "a"}"#, &mut repl) {
        Some(RlmToolResult::Output(s)) => assert_eq!(s, "3"),
        _ => panic!("expected Output"),
    }
    match dispatch_tool_call("rlm_slice", r#"{"start": 0, "end": 5}"#, &mut repl) {
        Some(RlmToolResult::Output(s)) => assert_eq!(s, "a b a b a"),
        _ => panic!("expected Output"),
    }
}

#[test]
fn dispatch_slice_takes_a_line_range() {
    let mut repl = RlmRepl::new("l0\nl1\nl2\nl3".to_string(), ReplRuntime::Rust);
    match dispatch_tool_call("rlm_slice", r#"{"start": 1, "end": 3}"#, &mut repl) {
        Some(RlmToolResult::Output(s)) => assert_eq!(s, "l1\nl2"),
        _ => panic!("expected Output"),
    }
    match dispatch_tool_call("rlm_slice", r#"{"start": 3, "end": 9}"#, &mut repl) {
        Some(RlmToolResult::Output(s)) => assert_eq!(s, "l3"),
        _ => panic!("expected Output"),
    }
}
