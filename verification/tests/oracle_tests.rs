use codetether_agent::grep_oracle::{GrepOracle, GrepVerification};
use codetether_agent::oracle::{extract_count_from_text, FinalAnswerFormat, QueryType};

fn sample_rust_code() -> String {
    r#"
use anyhow::Result;

/// Process data
pub async fn process(input: &str) -> Result<String> {
    let data = parse(input)?;
    Ok(data)
}

async fn parse(input: &str) -> Result<String> {
    Ok(input.to_uppercase())
}

pub struct Config {
    pub debug: bool,
}

impl Config {
    pub fn new() -> Self {
        Self { debug: false }
    }
}

#[cfg(test)]
mod tests {
    #[test]
    fn test_process() {
        assert!(true);
    }
}
"#
    .to_string()
}

#[test]
fn classify_pattern_match_query() {
    assert_eq!(GrepOracle::classify_query("Find all async functions"), QueryType::PatternMatch);
    assert_eq!(GrepOracle::classify_query("Count occurrences of TODO"), QueryType::PatternMatch);
}

#[test]
fn infer_async_pattern() {
    let pattern = GrepOracle::infer_pattern("Find all async functions");
    assert_eq!(pattern, Some(r"\basync\s+fn\b".to_string()));
}

#[test]
fn infer_pub_pattern() {
    let pattern = GrepOracle::infer_pattern("List all public functions");
    assert_eq!(pattern, Some(r"\bpub\s+fn\b".to_string()));
}

#[test]
fn infer_quoted_literal_pattern() {
    let pattern = GrepOracle::infer_pattern("Find all occurrences of 'async fn' in src/rlm/repl.rs");
    assert_eq!(pattern, Some(regex::escape("async fn")));
}

#[test]
fn grep_finds_matches() {
    let oracle = GrepOracle::new(sample_rust_code());
    let matches = oracle.grep(r"\basync\s+fn\b").unwrap();
    assert_eq!(matches.len(), 2);
}

#[test]
fn verify_exact_match() {
    let oracle = GrepOracle::new(sample_rust_code());
    let answer = oracle
        .grep(r"\basync\s+fn\b")
        .unwrap_or_default()
        .iter()
        .map(|(line, text)| format!("{line}:{text}"))
        .collect::<Vec<_>>()
        .join("\n");
    let result = oracle.verify(&answer, "Find all async functions");
    match result {
        GrepVerification::ExactMatch | GrepVerification::UnorderedMatch | GrepVerification::SubsetMatch { .. } => (),
        _ => panic!("Expected match, got {:?}", result),
    }
}

#[test]
fn verify_count_result() {
    let oracle = GrepOracle::new(sample_rust_code());
    let answer = "Found 2 async functions";
    let result = oracle.verify(answer, "Count async functions");
    assert_eq!(result, GrepVerification::ExactMatch);
}

#[test]
fn parse_line_numbered_matches() {
    let answer = "42:async fn foo()\n100:pub struct Bar\n";
    let format = FinalAnswerFormat::parse(answer);
    match format {
        FinalAnswerFormat::LineNumberedMatches { matches } => {
            assert_eq!(matches.len(), 2);
            assert_eq!(matches[0], (42, "async fn foo()".to_string()));
            assert_eq!(matches[1], (100, "pub struct Bar".to_string()));
        }
        _ => panic!("Expected LineNumberedMatches"),
    }
}

#[test]
fn parse_count_result() {
    let answer = "Found 15 async functions";
    let format = FinalAnswerFormat::parse(answer);
    match format {
        FinalAnswerFormat::CountResult { count } => assert_eq!(count, 15),
        _ => panic!("Expected CountResult"),
    }
}

#[test]
fn parse_structured_data() {
    let answer = r#"{"name": "foo", "args": ["x", "y"]}"#;
    let format = FinalAnswerFormat::parse(answer);
    match format {
        FinalAnswerFormat::StructuredData { data } => {
            let v: serde_json::Value = serde_json::from_str(&data).unwrap();
            assert_eq!(v["name"], "foo");
        }
        _ => panic!("Expected StructuredData"),
    }
}

#[test]
fn parse_free_form_text() {
    let answer = "This function handles error cases by using the ? operator";
    let format = FinalAnswerFormat::parse(answer);
    match format {
        FinalAnswerFormat::FreeFormText { text } => {
            assert!(text.contains("error cases"));
        }
        _ => panic!("Expected FreeFormText"),
    }
}

#[test]
fn grep_with_bad_pattern_reports_the_regex_error() {
    let oracle = GrepOracle::new(sample_rust_code());
    let err = oracle.grep("(unclosed").unwrap_err();
    assert!(!err.is_empty());
    assert_ne!(err, "(unclosed");
}

#[test]
fn verify_reports_false_positives() {
    let oracle = GrepOracle::new(sample_rust_code());
    let truth = oracle.grep(r"\basync\s+fn\b").unwrap();
    let mut claimed = truth.clone();
    claimed.push((99, "async fn ghost()".to_string()));
    match oracle.verify_matches(&claimed, &truth) {
        GrepVerification::HasFalsePositives { false_positives } => {
            assert_eq!(false_positives, vec![(99, "async fn ghost()".to_string())]);
        }
        other => panic!("unexpected {:?}", other),
    }
}

#[test]
fn verify_reports_unordered_match() {
    let oracle = GrepOracle::new(sample_rust_code());
    let truth = oracle.grep(r"\basync\s+fn\b").unwrap();
    let mut claimed = truth.clone();
    claimed.reverse();
    assert_eq!(oracle.verify_matches(&claimed, &truth), GrepVerification::UnorderedMatch);
}

#[test]
fn count_is_read_from_text() {
    assert_eq!(extract_count_from_text("Found 15 async functions"), Some(15));
    assert_eq!(extract_count_from_text("nothing to count"), None);
}

#[test]
fn lowercase_query_is_classified() {
    assert_eq!(GrepOracle::classify_query("FIND ALL ASYNC FUNCTIONS"), QueryType::PatternMatch);
    assert_eq!(GrepOracle::classify_query("Explain the design"), QueryType::Semantic);
}

#[test]
fn overcount_is_not_a_subset() {
    let oracle = GrepOracle::new(sample_rust_code());
    let result = oracle.verify("Found 5 async functions", "Count async functions");
    assert!(!matches!(
        result,
        GrepVerification::ExactMatch | GrepVerification::UnorderedMatch | GrepVerification::SubsetMatch { .. }
    ));
    assert_eq!(result, GrepVerification::Mismatch);
}
