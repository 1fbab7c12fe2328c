use codetether_agent::repl::{DslResult, ReplRuntime, RlmRepl};

fn hundred_lines() -> String {
    (1..=100).map(|i| format!("line {}", i)).collect::<Vec<_>>().join("\n")
}

#[test]
fn test_repl_head_tail() {
    let repl = RlmRepl::new(hundred_lines(), ReplRuntime::Rust);
    let head = repl.head(5);
    assert_eq!(head.len(), 5);
    assert_eq!(head[0], "line 1");
    let tail = repl.tail(5);
    assert_eq!(tail.len(), 5);
    assert_eq!(tail[4], "line 100");
}

#[test]
fn test_repl_grep() {
    let context = "error: something failed\ninfo: all good\nerror: another failure".to_string();
    let repl = RlmRepl::new(context, ReplRuntime::Rust);
    let matches = repl.grep("error");
    assert_eq!(matches.len(), 2);
}

#[test]
fn test_repl_execute_final() {
    let context = "test content".to_string();
    let mut repl = RlmRepl::new(context, ReplRuntime::Rust);
    let result = repl.execute(r#"FINAL("This is the answer")"#);
    assert_eq!(result.final_answer, Some("This is the answer".to_string()));
}

#[test]
fn test_repl_chunks() {
    let repl = RlmRepl::new(hundred_lines(), ReplRuntime::Rust);
    let chunks = repl.chunks(5);
    assert_eq!(chunks.len(), 5);
}

#[test]
fn a_variable_reads_back_what_was_set() {
    let mut repl = RlmRepl::new("x".to_string(), ReplRuntime::Rust);
    repl.set_var("answer", "42".to_string());
    assert_eq!(repl.get_var("answer"), Some("42"));
    repl.set_var("answer", "43".to_string());
    assert_eq!(repl.get_var("answer"), Some("43"));
    assert_eq!(repl.get_var("other"), None);
}

#[test]
fn count_and_slice() {
    let repl = RlmRepl::new("abc error def error".to_string(), ReplRuntime::Rust);
    assert_eq!(repl.count("error"), 2);
    assert_eq!(repl.slice(4, 9), "error");
    assert_eq!(repl.slice(10, 100), "def error");
}

#[test]
fn dsl_lines_run() {
    let mut repl = RlmRepl::new(hundred_lines(), ReplRuntime::Rust);
    match repl.execute_dsl_line("head(2)") {
        Some(DslResult::Output(s)) => assert_eq!(s, "line 1\nline 2"),
        _ => panic!("expected output"),
    }
    assert!(repl.execute_dsl_line("let x = count(\"line\")").is_none());
    assert_eq!(repl.get_var("x"), Some("100"));
}

#[test]
fn chunks_of_zero_is_the_whole_context() {
    let repl = RlmRepl::new(hundred_lines(), ReplRuntime::Rust);
    let chunks = repl.chunks(0);
    assert_eq!(chunks.len(), 1);
    assert_eq!(chunks[0], hundred_lines());
}

#[test]
fn grep_with_equals_sign_searches() {
    let mut repl = RlmRepl::new("k=v\nother".to_string(), ReplRuntime::Rust);
    match repl.execute_dsl_line(r#"grep("k=v")"#) {
        Some(DslResult::Output(s)) => assert_eq!(s, "1:k=v"),
        other => panic!("unexpected {:?}", other.is_some()),
    }
    assert!(repl.get_var(r#"grep("k"#).is_none());
}

#[test]
fn chunks_of_empty_context_are_empty() {
    let repl = RlmRepl::new(String::new(), ReplRuntime::Rust);
    let cs = repl.chunks(3);
    assert!(cs.len() <= 3);
    assert_eq!(cs.concat(), "");
    assert_eq!(repl.chunks(0), vec![String::new()]);
}

#[test]
fn last_write_wins_over_many_writes() {
    let mut repl = RlmRepl::new("a\nb".to_string(), ReplRuntime::Rust);
    assert!(repl.get_var("n").is_none());
    repl.set_var("n", "v1".to_string());
    repl.set_var("m", "w1".to_string());
    repl.set_var("k", "w2".to_string());
    assert_eq!(repl.get_var("n"), Some("v1"));
    repl.set_var("n", "v2".to_string());
    repl.set_var("m", "w3".to_string());
    assert_eq!(repl.get_var("n"), Some("v2"));
    assert_eq!(repl.get_var("m"), Some("w3"));
    assert_eq!(repl.get_var("k"), Some("w2"));
}
