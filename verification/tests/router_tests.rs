use codetether_agent::router::{AutoLoop, RlmConfig, RlmOutcome, RlmRouter, RoutingContext};

fn ctx(tool: &str) -> RoutingContext {
    RoutingContext {
        tool_id: tool.to_string(),
        session_id: "s".to_string(),
        call_id: None,
        model_context_limit: 200_000,
        current_context_tokens: Some(1000),
    }
}

#[test]
fn should_route_large_webfetch_output() {
    let output = "a".repeat(200_000);
    let cfg = RlmConfig::default();
    let result = RlmRouter::should_route(&output, &ctx("webfetch"), &cfg);
    assert!(result.should_route);
}

#[test]
fn should_route_large_output_for_unknown_tool_to_protect_context() {
    let output = "a".repeat(200_000);
    let cfg = RlmConfig::default();
    let result = RlmRouter::should_route(&output, &ctx("some_new_tool"), &cfg);
    assert!(result.should_route);
    assert!(result.reason.contains("ineligible") || result.reason.contains("threshold"));
}

#[test]
fn small_output_is_not_routed() {
    let cfg = RlmConfig::default();
    let result = RlmRouter::should_route("tiny", &ctx("webfetch"), &cfg);
    assert!(!result.should_route);
}

#[test]
fn auto_loop_stops_at_its_budget() {
    let cfg = RlmConfig::default();
    let mut l = AutoLoop::start(&cfg);
    let mut n = 0;
    while l.next_iteration() {
        n += 1;
        assert!(l.on_text("still thinking"));
    }
    assert!(n <= cfg.max_iterations);
    assert!(l.subcalls <= l.iterations);
    assert_eq!(l.outcome(), RlmOutcome::Exhausted);
}

#[test]
fn auto_loop_converges_on_final() {
    let cfg = RlmConfig::default();
    let mut l = AutoLoop::start(&cfg);
    assert!(l.next_iteration());
    assert!(!l.on_text("FINAL(\"42\")"));
    assert_eq!(l.outcome(), RlmOutcome::Converged);
    assert_eq!(l.final_answer.as_deref(), Some("42"));
}

#[test]
fn subcall_provider_from_second_iteration() {
    let cfg = RlmConfig::default_config();
    let mut l = AutoLoop::start(&cfg);
    assert!(l.next_iteration());
    assert!(!l.uses_subcall_provider(true));
    assert!(l.next_iteration());
    assert!(l.uses_subcall_provider(true));
    assert!(!l.uses_subcall_provider(false));
}

#[test]
fn smart_truncate_with_overlapping_head_and_tail() {
    let output = "\u{1F600}\u{1F600}";
    let (text, truncated, tokens) = RlmRouter::smart_truncate(output, "bash", "{}", 1);
    assert!(truncated);
    assert_eq!(tokens, 2);
    assert!(text.starts_with("\u{1F600}\u{1F600}"));
    assert!(text.contains("[... 0 tokens truncated ...]"));
}
