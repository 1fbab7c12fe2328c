use codetether_agent::templates::{GeneratedQuery, QueryTemplate, TemplateKind};

#[test]
fn render_simple_template() {
    let template = QueryTemplate::find("grep_find_occurrences").unwrap();
    let rendered = template.render(&["fn", "src/main.rs"]);
    assert_eq!(rendered, "Find all occurrences of fn in src/main.rs");
}

#[test]
fn find_template_by_id() {
    let template = QueryTemplate::find("ast_list_functions").unwrap();
    assert_eq!(template.kind, TemplateKind::Ast);
}

#[test]
fn filter_templates_by_kind() {
    let grep_count = QueryTemplate::iter_kind(TemplateKind::Grep).count();
    let ast_count = QueryTemplate::iter_kind(TemplateKind::Ast).count();
    assert!(grep_count > 0);
    assert!(ast_count > 0);
}

#[test]
fn template_has_examples() {
    for template in QueryTemplate::all() {
        assert!(!template.example.is_empty(), "Template {} has no examples", template.id);
    }
}

#[test]
fn generated_query_has_fields() {
    let template = QueryTemplate::find("grep_find_occurrences").unwrap();
    let generated = GeneratedQuery::render(&template, &["async fn", "src/lib.rs"]);
    assert_eq!(generated.query, "Find all occurrences of async fn in src/lib.rs");
    assert_eq!(generated.template_id, "grep_find_occurrences");
    assert_eq!(generated.kind, TemplateKind::Grep);
    assert_eq!(generated.file, "src/lib.rs");
}

#[test]
fn template_kind_to_payload_kind() {
    assert_eq!(TemplateKind::Grep.as_payload_kind(), "grep");
    assert_eq!(TemplateKind::Ast.as_payload_kind(), "ast");
    assert_eq!(TemplateKind::Semantic.as_payload_kind(), "semantic");
}

#[test]
fn unknown_template_is_not_found() {
    assert!(QueryTemplate::find("no_such_template").is_none());
}

#[test]
fn kinds_partition_the_templates() {
    let all = QueryTemplate::all().len();
    let by_kind = QueryTemplate::by_kind(TemplateKind::Grep).len()
        + QueryTemplate::by_kind(TemplateKind::Ast).len()
        + QueryTemplate::by_kind(TemplateKind::Semantic).len();
    assert_eq!(all, by_kind);
    assert_eq!(QueryTemplate::iter().count(), all);
}

#[test]
fn every_template_finds_itself() {
    for t in QueryTemplate::all() {
        let found = QueryTemplate::find(t.id).unwrap();
        assert_eq!(found.id, t.id);
        assert_eq!(found.kind, t.kind);
    }
}
