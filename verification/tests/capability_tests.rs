use codetether_agent::capability::{output_capability, rlm_eligible_tools, rlm_exact_content_tools, OutputCapability};

#[test]
fn classifies_known_tools() {
    assert_eq!(output_capability("webfetch"), OutputCapability::BulkSummarizable);
    assert_eq!(output_capability("session_context"), OutputCapability::BulkSummarizable);
    assert_eq!(output_capability("read"), OutputCapability::ExactContent);
    assert_eq!(output_capability("bash"), OutputCapability::ExactContent);
    assert_eq!(output_capability("session_recall"), OutputCapability::ExactContent);
    assert_eq!(output_capability("brand_new_tool"), OutputCapability::Unknown);
}

#[test]
fn tool_lists_are_disjoint() {
    let bulk = rlm_eligible_tools();
    let exact = rlm_exact_content_tools();
    for t in &bulk {
        assert!(!exact.contains(t));
        assert_eq!(output_capability(t), OutputCapability::BulkSummarizable);
    }
    for t in &exact {
        assert_eq!(output_capability(t), OutputCapability::ExactContent);
    }
}
