//! Oracle-friendly query templates for high-golden-rate trace generation.
//!
//! Each template gives the query text with `{PLACEHOLDERS}`, the oracle
//! kind expected to validate it (grep, ast or semantic), and example
//! parameters.

use vstd::prelude::*;
use crate::text::{chars_of, contains, eq_str, matches_at, push_str, replace, replace_all, string_from};

verus! {

/// The kind of oracle a template is designed for.
#[derive(Debug, Clone, Copy, PartialEq, Eq, Structural)]
pub enum TemplateKind {
    /// Grep/pattern-match oracle.
    Grep,
    /// Tree-sitter/AST oracle.
    Ast,
    /// Semantic (unverifiable), included for completeness.
    Semantic,
}

/// The `FinalPayload` kind string of a template kind.
pub open spec fn payload_kind(k: TemplateKind) -> Seq<char> {
    match k {
        TemplateKind::Grep => "grep"@,
        TemplateKind::Ast => "ast"@,
        TemplateKind::Semantic => "semantic"@,
    }
}

impl TemplateKind {
    /// Converts to the `FinalPayload` kind string.
    pub fn as_payload_kind(&self) -> (r: &'static str)
        ensures
            r@ == payload_kind(*self),
    {
        match self {
            TemplateKind::Grep => "grep",
            TemplateKind::Ast => "ast",
            TemplateKind::Semantic => "semantic",
        }
    }
}

/// A parameter of a query template.
#[derive(Debug, Clone, Copy)]
pub struct Param {
    /// Parameter name (used as placeholder).
    pub name: &'static str,
    /// Description of the value to provide.
    pub description: &'static str,
    /// Example value.
    pub example: &'static str,
}

/// A query template.
#[derive(Debug)]
pub struct QueryTemplate {
    /// Unique template identifier.
    pub id: &'static str,
    /// Human-readable description.
    pub description: &'static str,
    /// The template string with `{PLACEHOLDERS}`.
    pub template: &'static str,
    /// Parameters the template expects.
    pub params: Vec<Param>,
    /// Expected oracle kind.
    pub kind: TemplateKind,
    /// Example parameter values.
    pub example: Vec<&'static str>,
}

/// The mathematical content of a [`QueryTemplate`]; a parameter is its
/// name, description and example.
pub struct TemplateView {
    pub id: Seq<char>,
    pub description: Seq<char>,
    pub template: Seq<char>,
    pub params: Seq<(Seq<char>, Seq<char>, Seq<char>)>,
    pub kind: TemplateKind,
    pub example: Seq<Seq<char>>,
}

/// The views of parameters.
pub open spec fn params_view(ps: Seq<Param>) -> Seq<(Seq<char>, Seq<char>, Seq<char>)> {
    ps.map_values(|p: Param| (p.name@, p.description@, p.example@))
}

/// The views of string slices.
pub open spec fn strs_view(ss: Seq<&str>) -> Seq<Seq<char>> {
    ss.map_values(|s: &str| s@)
}

impl View for QueryTemplate {
    type V = TemplateView;

    open spec fn view(&self) -> TemplateView {
        TemplateView {
            id: self.id@,
            description: self.description@,
            template: self.template@,
            params: params_view(self.params@),
            kind: self.kind,
            example: strs_view(self.example@),
        }
    }
}

/// The views of templates.
pub open spec fn templates_view(ts: Seq<QueryTemplate>) -> Seq<TemplateView> {
    ts.map_values(|t: QueryTemplate| t@)
}

/// The placeholder for a parameter name: `{NAME}`.
pub open spec fn placeholder(name: Seq<char>) -> Seq<char> {
    seq!['{'] + name + seq!['}']
}

/// `template` with the placeholders of the first `n` values replaced, value
/// `i` standing for parameter `i` (values beyond the parameters are ignored).
pub open spec fn render_prefix(
    template: Seq<char>,
    params: Seq<(Seq<char>, Seq<char>, Seq<char>)>,
    values: Seq<Seq<char>>,
    n: int,
) -> Seq<char>
    decreases n,
{
    if n <= 0 {
        template
    } else {
        let prev = render_prefix(template, params, values, n - 1);
        if n - 1 < params.len() {
            replace_all(prev, placeholder(params[n - 1].0), values[n - 1])
        } else {
            prev
        }
    }
}

/// `QueryTemplate::render`.
pub open spec fn render_spec(t: TemplateView, values: Seq<Seq<char>>) -> Seq<char> {
    render_prefix(t.template, t.params, values, values.len() as int)
}

/// The templates of a kind, in order.
pub open spec fn of_kind(ts: Seq<TemplateView>, kind: TemplateKind) -> Seq<TemplateView>
    decreases ts.len(),
{
    if ts.len() == 0 {
        Seq::empty()
    } else if ts.last().kind == kind {
        of_kind(ts.drop_last(), kind).push(ts.last())
    } else {
        of_kind(ts.drop_last(), kind)
    }
}

/// The first template with the given id.
pub open spec fn find_by_id(ts: Seq<TemplateView>, id: Seq<char>) -> Option<TemplateView>
    decreases ts.len(),
{
    if ts.len() == 0 {
        None
    } else if ts[0].id == id {
        Some(ts[0])
    } else {
        find_by_id(ts.drop_first(), id)
    }
}

/// The first position at or after `from` whose template matches `kind`
/// (every template when `kind` is `None`), or the table's length.
pub open spec fn next_match(ts: Seq<TemplateView>, from: int, kind: Option<TemplateKind>) -> int
    decreases ts.len() - from,
{
    if from >= ts.len() {
        ts.len() as int
    } else if kind is None || ts[from].kind == kind.unwrap() {
        from
    } else {
        next_match(ts, from + 1, kind)
    }
}

/// The number of templates at or after `from` that match `kind`.
pub open spec fn count_from(ts: Seq<TemplateView>, from: int, kind: Option<TemplateKind>) -> nat
    decreases ts.len() - from,
{
    if from < 0 || from >= ts.len() {
        0
    } else if kind is None || ts[from].kind == kind.unwrap() {
        1 + count_from(ts, from + 1, kind)
    } else {
        count_from(ts, from + 1, kind)
    }
}

/// Entry 0 of the template table.
pub open spec fn template_entry_0() -> TemplateView {
    TemplateView {
        id: "grep_find_occurrences"@,
        description: "Find all occurrences of a string pattern in a file"@,
        template: "Find all occurrences of {PATTERN} in {FILE}"@,
        params: seq![("PATTERN"@, "String or regex pattern to search for"@, "async fn"@), ("FILE"@, "File path to search in"@, "src/main.rs"@)],
        kind: TemplateKind::Grep,
        example: seq!["async fn"@, "src/main.rs"@],
    }
}

/// Entry 1 of the template table.
pub open spec fn template_entry_1() -> TemplateView {
    TemplateView {
        id: "grep_find_regex"@,
        description: "Find all lines matching a regex pattern in a file"@,
        template: "Find all lines matching {REGEX} in {FILE}"@,
        params: seq![("REGEX"@, "Regular expression pattern"@, "\\bpub\\s+fn\\b"@), ("FILE"@, "File path to search in"@, "src/lib.rs"@)],
        kind: TemplateKind::Grep,
        example: seq!["\\bpub\\s+fn\\b"@, "src/lib.rs"@],
    }
}

/// Entry 2 of the template table.
pub open spec fn template_entry_2() -> TemplateView {
    TemplateView {
        id: "grep_count_occurrences"@,
        description: "Count occurrences of a pattern in a file"@,
        template: "Count occurrences of {PATTERN} in {FILE}"@,
        params: seq![("PATTERN"@, "Pattern to count"@, "TODO"@), ("FILE"@, "File path"@, "src/main.rs"@)],
        kind: TemplateKind::Grep,
        example: seq!["TODO"@, "src/main.rs"@],
    }
}

/// Entry 3 of the template table.
pub open spec fn template_entry_3() -> TemplateView {
    TemplateView {
        id: "grep_find_functions"@,
        description: "Find all function definitions matching a pattern"@,
        template: "Find all {VISIBILITY} functions matching {PATTERN} in {FILE}"@,
        params: seq![("VISIBILITY"@, "public, private, or all (leave empty)"@, "public"@), ("PATTERN"@, "Pattern in function definition"@, "async fn"@), ("FILE"@, "File path"@, "src/main.rs"@)],
        kind: TemplateKind::Grep,
        example: seq!["public"@, "async fn"@, "src/main.rs"@],
    }
}

/// Entry 4 of the template table.
pub open spec fn template_entry_4() -> TemplateView {
    TemplateView {
        id: "grep_find_structs"@,
        description: "Find all struct definitions"@,
        template: "Find all structs in {FILE}"@,
        params: seq![("FILE"@, "File path"@, "src/main.rs"@)],
        kind: TemplateKind::Grep,
        example: seq!["src/main.rs"@],
    }
}

/// Entry 5 of the template table.
pub open spec fn template_entry_5() -> TemplateView {
    TemplateView {
        id: "grep_find_enums"@,
        description: "Find all enum definitions"@,
        template: "Find all enums in {FILE}"@,
        params: seq![("FILE"@, "File path"@, "src/main.rs"@)],
        kind: TemplateKind::Grep,
        example: seq!["src/main.rs"@],
    }
}

/// Entry 6 of the template table.
pub open spec fn template_entry_6() -> TemplateView {
    TemplateView {
        id: "grep_find_traits"@,
        description: "Find all trait definitions"@,
        template: "Find all traits in {FILE}"@,
        params: seq![("FILE"@, "File path"@, "src/main.rs"@)],
        kind: TemplateKind::Grep,
        example: seq!["src/main.rs"@],
    }
}

/// Entry 7 of the template table.
pub open spec fn template_entry_7() -> TemplateView {
    TemplateView {
        id: "grep_find_impls"@,
        description: "Find all impl blocks"@,
        template: "Find all impl blocks in {FILE}"@,
        params: seq![("FILE"@, "File path"@, "src/main.rs"@)],
        kind: TemplateKind::Grep,
        example: seq!["src/main.rs"@],
    }
}

/// Entry 8 of the template table.
pub open spec fn template_entry_8() -> TemplateView {
    TemplateView {
        id: "grep_find_imports"@,
        description: "Find all use/import statements"@,
        template: "Find all imports in {FILE}"@,
        params: seq![("FILE"@, "File path"@, "src/main.rs"@)],
        kind: TemplateKind::Grep,
        example: seq!["src/main.rs"@],
    }
}

/// Entry 9 of the template table.
pub open spec fn template_entry_9() -> TemplateView {
    TemplateView {
        id: "grep_find_tests"@,
        description: "Find all test functions"@,
        template: "Find all test functions in {FILE}"@,
        params: seq![("FILE"@, "File path"@, "src/main.rs"@)],
        kind: TemplateKind::Grep,
        example: seq!["src/main.rs"@],
    }
}

/// Entry 10 of the template table.
pub open spec fn template_entry_10() -> TemplateView {
    TemplateView {
        id: "grep_find_error_handling"@,
        description: "Find error handling patterns (Result, ?, unwrap)"@,
        template: "Find all error handling patterns in {FILE}"@,
        params: seq![("FILE"@, "File path"@, "src/main.rs"@)],
        kind: TemplateKind::Grep,
        example: seq!["src/main.rs"@],
    }
}

/// Entry 11 of the template table.
pub open spec fn template_entry_11() -> TemplateView {
    TemplateView {
        id: "grep_find_macros"@,
        description: "Find macro invocations"@,
        template: "Find all macro calls in {FILE}"@,
        params: seq![("FILE"@, "File path"@, "src/main.rs"@)],
        kind: TemplateKind::Grep,
        example: seq!["src/main.rs"@],
    }
}

/// Entry 12 of the template table.
pub open spec fn template_entry_12() -> TemplateView {
    TemplateView {
        id: "grep_find_comments"@,
        description: "Find comments in code"@,
        template: "Find all comments in {FILE}"@,
        params: seq![("FILE"@, "File path"@, "src/main.rs"@)],
        kind: TemplateKind::Grep,
        example: seq!["src/main.rs"@],
    }
}

/// Entry 13 of the template table.
pub open spec fn template_entry_13() -> TemplateView {
    TemplateView {
        id: "grep_find_todos"@,
        description: "Find TODO/FIXME comments"@,
        template: "Find all TODO comments in {FILE}"@,
        params: seq![("FILE"@, "File path"@, "src/main.rs"@)],
        kind: TemplateKind::Grep,
        example: seq!["src/main.rs"@],
    }
}

/// Entry 14 of the template table.
pub open spec fn template_entry_14() -> TemplateView {
    TemplateView {
        id: "grep_find_string_literals"@,
        description: "Find string literals"@,
        template: "Find all string literals in {FILE}"@,
        params: seq![("FILE"@, "File path"@, "src/main.rs"@)],
        kind: TemplateKind::Grep,
        example: seq!["src/main.rs"@],
    }
}

/// Entry 15 of the template table.
pub open spec fn template_entry_15() -> TemplateView {
    TemplateView {
        id: "ast_list_functions"@,
        description: "List all function names in a file"@,
        template: "List all function names in {FILE}"@,
        params: seq![("FILE"@, "File path"@, "src/main.rs"@)],
        kind: TemplateKind::Ast,
        example: seq!["src/main.rs"@],
    }
}

/// Entry 16 of the template table.
pub open spec fn template_entry_16() -> TemplateView {
    TemplateView {
        id: "ast_list_structs"@,
        description: "List all structs and their fields"@,
        template: "List all structs and fields in {FILE}"@,
        params: seq![("FILE"@, "File path"@, "src/main.rs"@)],
        kind: TemplateKind::Ast,
        example: seq!["src/main.rs"@],
    }
}

/// Entry 17 of the template table.
pub open spec fn template_entry_17() -> TemplateView {
    TemplateView {
        id: "ast_list_enums"@,
        description: "List all enums and their variants"@,
        template: "List all enums and variants in {FILE}"@,
        params: seq![("FILE"@, "File path"@, "src/main.rs"@)],
        kind: TemplateKind::Ast,
        example: seq!["src/main.rs"@],
    }
}

/// Entry 18 of the template table.
pub open spec fn template_entry_18() -> TemplateView {
    TemplateView {
        id: "ast_list_impls"@,
        description: "List all impl blocks for a type"@,
        template: "List all impl blocks for {TYPE} in {FILE}"@,
        params: seq![("TYPE"@, "Type name to find impls for"@, "MyStruct"@), ("FILE"@, "File path"@, "src/main.rs"@)],
        kind: TemplateKind::Ast,
        example: seq!["MyStruct"@, "src/main.rs"@],
    }
}

/// Entry 19 of the template table.
pub open spec fn template_entry_19() -> TemplateView {
    TemplateView {
        id: "ast_function_signatures"@,
        description: "Get function signatures (name, params, return type)"@,
        template: "List all function signatures in {FILE}"@,
        params: seq![("FILE"@, "File path"@, "src/main.rs"@)],
        kind: TemplateKind::Ast,
        example: seq!["src/main.rs"@],
    }
}

/// Entry 20 of the template table.
pub open spec fn template_entry_20() -> TemplateView {
    TemplateView {
        id: "ast_pub_functions"@,
        description: "List public function signatures"@,
        template: "List all public function signatures in {FILE}"@,
        params: seq![("FILE"@, "File path"@, "src/main.rs"@)],
        kind: TemplateKind::Ast,
        example: seq!["src/main.rs"@],
    }
}

/// Entry 21 of the template table.
pub open spec fn template_entry_21() -> TemplateView {
    TemplateView {
        id: "ast_async_functions"@,
        description: "List async function signatures"@,
        template: "List all async function signatures in {FILE}"@,
        params: seq![("FILE"@, "File path"@, "src/main.rs"@)],
        kind: TemplateKind::Ast,
        example: seq!["src/main.rs"@],
    }
}

/// Entry 22 of the template table.
pub open spec fn template_entry_22() -> TemplateView {
    TemplateView {
        id: "ast_struct_fields"@,
        description: "Get struct field names and types"@,
        template: "What fields does {STRUCT} have in {FILE}?"@,
        params: seq![("STRUCT"@, "Struct name"@, "Config"@), ("FILE"@, "File path"@, "src/main.rs"@)],
        kind: TemplateKind::Ast,
        example: seq!["Config"@, "src/main.rs"@],
    }
}

/// Entry 23 of the template table.
pub open spec fn template_entry_23() -> TemplateView {
    TemplateView {
        id: "ast_enum_variants"@,
        description: "Get enum variant names"@,
        template: "What variants does {ENUM} have in {FILE}?"@,
        params: seq![("ENUM"@, "Enum name"@, "Status"@), ("FILE"@, "File path"@, "src/main.rs"@)],
        kind: TemplateKind::Ast,
        example: seq!["Status"@, "src/main.rs"@],
    }
}

/// Entry 24 of the template table.
pub open spec fn template_entry_24() -> TemplateView {
    TemplateView {
        id: "ast_trait_impls"@,
        description: "Find trait implementations"@,
        template: "What traits does {TYPE} implement in {FILE}?"@,
        params: seq![("TYPE"@, "Type name"@, "MyStruct"@), ("FILE"@, "File path"@, "src/main.rs"@)],
        kind: TemplateKind::Ast,
        example: seq!["MyStruct"@, "src/main.rs"@],
    }
}

/// Entry 25 of the template table.
pub open spec fn template_entry_25() -> TemplateView {
    TemplateView {
        id: "ast_error_handling_count"@,
        description: "Count error handling patterns"@,
        template: "Count the error handling patterns (Result, ?, unwrap, expect) in {FILE}"@,
        params: seq![("FILE"@, "File path"@, "src/main.rs"@)],
        kind: TemplateKind::Ast,
        example: seq!["src/main.rs"@],
    }
}

/// Entry 26 of the template table.
pub open spec fn template_entry_26() -> TemplateView {
    TemplateView {
        id: "ast_method_names"@,
        description: "List all method names in impl blocks"@,
        template: "List all methods defined in impl blocks in {FILE}"@,
        params: seq![("FILE"@, "File path"@, "src/main.rs"@)],
        kind: TemplateKind::Ast,
        example: seq!["src/main.rs"@],
    }
}

/// The template table, in order.
pub open spec fn template_table() -> Seq<TemplateView> {
    seq![
        template_entry_0(),
        template_entry_1(),
        template_entry_2(),
        template_entry_3(),
        template_entry_4(),
        template_entry_5(),
        template_entry_6(),
        template_entry_7(),
        template_entry_8(),
        template_entry_9(),
        template_entry_10(),
        template_entry_11(),
        template_entry_12(),
        template_entry_13(),
        template_entry_14(),
        template_entry_15(),
        template_entry_16(),
        template_entry_17(),
        template_entry_18(),
        template_entry_19(),
        template_entry_20(),
        template_entry_21(),
        template_entry_22(),
        template_entry_23(),
        template_entry_24(),
        template_entry_25(),
        template_entry_26(),
    ]
}

fn template_0() -> (t: QueryTemplate)
    ensures
        t@ == template_entry_0(),
{
    let t = QueryTemplate {
        id: "grep_find_occurrences",
        description: "Find all occurrences of a string pattern in a file",
        template: "Find all occurrences of {PATTERN} in {FILE}",
        params: vec![
            Param { name: "PATTERN", description: "String or regex pattern to search for", example: "async fn" },
            Param { name: "FILE", description: "File path to search in", example: "src/main.rs" },
        ],
        kind: TemplateKind::Grep,
        example: vec!["async fn", "src/main.rs"],
    };
    assert(params_view(t.params@) =~= template_entry_0().params);
    assert(strs_view(t.example@) =~= template_entry_0().example);
    t
}

fn template_1() -> (t: QueryTemplate)
    ensures
        t@ == template_entry_1(),
{
    let t = QueryTemplate {
        id: "grep_find_regex",
        description: "Find all lines matching a regex pattern in a file",
        template: "Find all lines matching {REGEX} in {FILE}",
        params: vec![
            Param { name: "REGEX", description: "Regular expression pattern", example: "\\bpub\\s+fn\\b" },
            Param { name: "FILE", description: "File path to search in", example: "src/lib.rs" },
        ],
        kind: TemplateKind::Grep,
        example: vec!["\\bpub\\s+fn\\b", "src/lib.rs"],
    };
    assert(params_view(t.params@) =~= template_entry_1().params);
    assert(strs_view(t.example@) =~= template_entry_1().example);
    t
}

fn template_2() -> (t: QueryTemplate)
    ensures
        t@ == template_entry_2(),
{
    let t = QueryTemplate {
        id: "grep_count_occurrences",
        description: "Count occurrences of a pattern in a file",
        template: "Count occurrences of {PATTERN} in {FILE}",
        params: vec![
            Param { name: "PATTERN", description: "Pattern to count", example: "TODO" },
            Param { name: "FILE", description: "File path", example: "src/main.rs" },
        ],
        kind: TemplateKind::Grep,
        example: vec!["TODO", "src/main.rs"],
    };
    assert(params_view(t.params@) =~= template_entry_2().params);
    assert(strs_view(t.example@) =~= template_entry_2().example);
    t
}

fn template_3() -> (t: QueryTemplate)
    ensures
        t@ == template_entry_3(),
{
    let t = QueryTemplate {
        id: "grep_find_functions",
        description: "Find all function definitions matching a pattern",
        template: "Find all {VISIBILITY} functions matching {PATTERN} in {FILE}",
        params: vec![
            Param { name: "VISIBILITY", description: "public, private, or all (leave empty)", example: "public" },
            Param { name: "PATTERN", description: "Pattern in function definition", example: "async fn" },
            Param { name: "FILE", description: "File path", example: "src/main.rs" },
        ],
        kind: TemplateKind::Grep,
        example: vec!["public", "async fn", "src/main.rs"],
    };
    assert(params_view(t.params@) =~= template_entry_3().params);
    assert(strs_view(t.example@) =~= template_entry_3().example);
    t
}

fn template_4() -> (t: QueryTemplate)
    ensures
        t@ == template_entry_4(),
{
    let t = QueryTemplate {
        id: "grep_find_structs",
        description: "Find all struct definitions",
        template: "Find all structs in {FILE}",
        params: vec![
            Param { name: "FILE", description: "File path", example: "src/main.rs" },
        ],
        kind: TemplateKind::Grep,
        example: vec!["src/main.rs"],
    };
    assert(params_view(t.params@) =~= template_entry_4().params);
    assert(strs_view(t.example@) =~= template_entry_4().example);
    t
}

fn template_5() -> (t: QueryTemplate)
    ensures
        t@ == template_entry_5(),
{
    let t = QueryTemplate {
        id: "grep_find_enums",
        description: "Find all enum definitions",
        template: "Find all enums in {FILE}",
        params: vec![
            Param { name: "FILE", description: "File path", example: "src/main.rs" },
        ],
        kind: TemplateKind::Grep,
        example: vec!["src/main.rs"],
    };
    assert(params_view(t.params@) =~= template_entry_5().params);
    assert(strs_view(t.example@) =~= template_entry_5().example);
    t
}

fn template_6() -> (t: QueryTemplate)
    ensures
        t@ == template_entry_6(),
{
    let t = QueryTemplate {
        id: "grep_find_traits",
        description: "Find all trait definitions",
        template: "Find all traits in {FILE}",
        params: vec![
            Param { name: "FILE", description: "File path", example: "src/main.rs" },
        ],
        kind: TemplateKind::Grep,
        example: vec!["src/main.rs"],
    };
    assert(params_view(t.params@) =~= template_entry_6().params);
    assert(strs_view(t.example@) =~= template_entry_6().example);
    t
}

fn template_7() -> (t: QueryTemplate)
    ensures
        t@ == template_entry_7(),
{
    let t = QueryTemplate {
        id: "grep_find_impls",
        description: "Find all impl blocks",
        template: "Find all impl blocks in {FILE}",
        params: vec![
            Param { name: "FILE", description: "File path", example: "src/main.rs" },
        ],
        kind: TemplateKind::Grep,
        example: vec!["src/main.rs"],
    };
    assert(params_view(t.params@) =~= template_entry_7().params);
    assert(strs_view(t.example@) =~= template_entry_7().example);
    t
}

fn template_8() -> (t: QueryTemplate)
    ensures
        t@ == template_entry_8(),
{
    let t = QueryTemplate {
        id: "grep_find_imports",
        description: "Find all use/import statements",
        template: "Find all imports in {FILE}",
        params: vec![
            Param { name: "FILE", description: "File path", example: "src/main.rs" },
        ],
        kind: TemplateKind::Grep,
        example: vec!["src/main.rs"],
    };
    assert(params_view(t.params@) =~= template_entry_8().params);
    assert(strs_view(t.example@) =~= template_entry_8().example);
    t
}

fn template_9() -> (t: QueryTemplate)
    ensures
        t@ == template_entry_9(),
{
    let t = QueryTemplate {
        id: "grep_find_tests",
        description: "Find all test functions",
        template: "Find all test functions in {FILE}",
        params: vec![
            Param { name: "FILE", description: "File path", example: "src/main.rs" },
        ],
        kind: TemplateKind::Grep,
        example: vec!["src/main.rs"],
    };
    assert(params_view(t.params@) =~= template_entry_9().params);
    assert(strs_view(t.example@) =~= template_entry_9().example);
    t
}

fn template_10() -> (t: QueryTemplate)
    ensures
        t@ == template_entry_10(),
{
    let t = QueryTemplate {
        id: "grep_find_error_handling",
        description: "Find error handling patterns (Result, ?, unwrap)",
        template: "Find all error handling patterns in {FILE}",
        params: vec![
            Param { name: "FILE", description: "File path", example: "src/main.rs" },
        ],
        kind: TemplateKind::Grep,
        example: vec!["src/main.rs"],
    };
    assert(params_view(t.params@) =~= template_entry_10().params);
    assert(strs_view(t.example@) =~= template_entry_10().example);
    t
}

fn template_11() -> (t: QueryTemplate)
    ensures
        t@ == template_entry_11(),
{
    let t = QueryTemplate {
        id: "grep_find_macros",
        description: "Find macro invocations",
        template: "Find all macro calls in {FILE}",
        params: vec![
            Param { name: "FILE", description: "File path", example: "src/main.rs" },
        ],
        kind: TemplateKind::Grep,
        example: vec!["src/main.rs"],
    };
    assert(params_view(t.params@) =~= template_entry_11().params);
    assert(strs_view(t.example@) =~= template_entry_11().example);
    t
}

fn template_12() -> (t: QueryTemplate)
    ensures
        t@ == template_entry_12(),
{
    let t = QueryTemplate {
        id: "grep_find_comments",
        description: "Find comments in code",
        template: "Find all comments in {FILE}",
        params: vec![
            Param { name: "FILE", description: "File path", example: "src/main.rs" },
        ],
        kind: TemplateKind::Grep,
        example: vec!["src/main.rs"],
    };
    assert(params_view(t.params@) =~= template_entry_12().params);
    assert(strs_view(t.example@) =~= template_entry_12().example);
    t
}

fn template_13() -> (t: QueryTemplate)
    ensures
        t@ == template_entry_13(),
{
    let t = QueryTemplate {
        id: "grep_find_todos",
        description: "Find TODO/FIXME comments",
        template: "Find all TODO comments in {FILE}",
        params: vec![
            Param { name: "FILE", description: "File path", example: "src/main.rs" },
        ],
        kind: TemplateKind::Grep,
        example: vec!["src/main.rs"],
    };
    assert(params_view(t.params@) =~= template_entry_13().params);
    assert(strs_view(t.example@) =~= template_entry_13().example);
    t
}

fn template_14() -> (t: QueryTemplate)
    ensures
        t@ == template_entry_14(),
{
    let t = QueryTemplate {
        id: "grep_find_string_literals",
        description: "Find string literals",
        template: "Find all string literals in {FILE}",
        params: vec![
            Param { name: "FILE", description: "File path", example: "src/main.rs" },
        ],
        kind: TemplateKind::Grep,
        example: vec!["src/main.rs"],
    };
    assert(params_view(t.params@) =~= template_entry_14().params);
    assert(strs_view(t.example@) =~= template_entry_14().example);
    t
}

fn template_15() -> (t: QueryTemplate)
    ensures
        t@ == template_entry_15(),
{
    let t = QueryTemplate {
        id: "ast_list_functions",
        description: "List all function names in a file",
        template: "List all function names in {FILE}",
        params: vec![
            Param { name: "FILE", description: "File path", example: "src/main.rs" },
        ],
        kind: TemplateKind::Ast,
        example: vec!["src/main.rs"],
    };
    assert(params_view(t.params@) =~= template_entry_15().params);
    assert(strs_view(t.example@) =~= template_entry_15().example);
    t
}

fn template_16() -> (t: QueryTemplate)
    ensures
        t@ == template_entry_16(),
{
    let t = QueryTemplate {
        id: "ast_list_structs",
        description: "List all structs and their fields",
        template: "List all structs and fields in {FILE}",
        params: vec![
            Param { name: "FILE", description: "File path", example: "src/main.rs" },
        ],
        kind: TemplateKind::Ast,
        example: vec!["src/main.rs"],
    };
    assert(params_view(t.params@) =~= template_entry_16().params);
    assert(strs_view(t.example@) =~= template_entry_16().example);
    t
}

fn template_17() -> (t: QueryTemplate)
    ensures
        t@ == template_entry_17(),
{
    let t = QueryTemplate {
        id: "ast_list_enums",
        description: "List all enums and their variants",
        template: "List all enums and variants in {FILE}",
        params: vec![
            Param { name: "FILE", description: "File path", example: "src/main.rs" },
        ],
        kind: TemplateKind::Ast,
        example: vec!["src/main.rs"],
    };
    assert(params_view(t.params@) =~= template_entry_17().params);
    assert(strs_view(t.example@) =~= template_entry_17().example);
    t
}

fn template_18() -> (t: QueryTemplate)
    ensures
        t@ == template_entry_18(),
{
    let t = QueryTemplate {
        id: "ast_list_impls",
        description: "List all impl blocks for a type",
        template: "List all impl blocks for {TYPE} in {FILE}",
        params: vec![
            Param { name: "TYPE", description: "Type name to find impls for", example: "MyStruct" },
            Param { name: "FILE", description: "File path", example: "src/main.rs" },
        ],
        kind: TemplateKind::Ast,
        example: vec!["MyStruct", "src/main.rs"],
    };
    assert(params_view(t.params@) =~= template_entry_18().params);
    assert(strs_view(t.example@) =~= template_entry_18().example);
    t
}

fn template_19() -> (t: QueryTemplate)
    ensures
        t@ == template_entry_19(),
{
    let t = QueryTemplate {
        id: "ast_function_signatures",
        description: "Get function signatures (name, params, return type)",
        template: "List all function signatures in {FILE}",
        params: vec![
            Param { name: "FILE", description: "File path", example: "src/main.rs" },
        ],
        kind: TemplateKind::Ast,
        example: vec!["src/main.rs"],
    };
    assert(params_view(t.params@) =~= template_entry_19().params);
    assert(strs_view(t.example@) =~= template_entry_19().example);
    t
}

fn template_20() -> (t: QueryTemplate)
    ensures
        t@ == template_entry_20(),
{
    let t = QueryTemplate {
        id: "ast_pub_functions",
        description: "List public function signatures",
        template: "List all public function signatures in {FILE}",
        params: vec![
            Param { name: "FILE", description: "File path", example: "src/main.rs" },
        ],
        kind: TemplateKind::Ast,
        example: vec!["src/main.rs"],
    };
    assert(params_view(t.params@) =~= template_entry_20().params);
    assert(strs_view(t.example@) =~= template_entry_20().example);
    t
}

fn template_21() -> (t: QueryTemplate)
    ensures
        t@ == template_entry_21(),
{
    let t = QueryTemplate {
        id: "ast_async_functions",
        description: "List async function signatures",
        template: "List all async function signatures in {FILE}",
        params: vec![
            Param { name: "FILE", description: "File path", example: "src/main.rs" },
        ],
        kind: TemplateKind::Ast,
        example: vec!["src/main.rs"],
    };
    assert(params_view(t.params@) =~= template_entry_21().params);
    assert(strs_view(t.example@) =~= template_entry_21().example);
    t
}

fn template_22() -> (t: QueryTemplate)
    ensures
        t@ == template_entry_22(),
{
    let t = QueryTemplate {
        id: "ast_struct_fields",
        description: "Get struct field names and types",
        template: "What fields does {STRUCT} have in {FILE}?",
        params: vec![
            Param { name: "STRUCT", description: "Struct name", example: "Config" },
            Param { name: "FILE", description: "File path", example: "src/main.rs" },
        ],
        kind: TemplateKind::Ast,
        example: vec!["Config", "src/main.rs"],
    };
    assert(params_view(t.params@) =~= template_entry_22().params);
    assert(strs_view(t.example@) =~= template_entry_22().example);
    t
}

fn template_23() -> (t: QueryTemplate)
    ensures
        t@ == template_entry_23(),
{
    let t = QueryTemplate {
        id: "ast_enum_variants",
        description: "Get enum variant names",
        template: "What variants does {ENUM} have in {FILE}?",
        params: vec![
            Param { name: "ENUM", description: "Enum name", example: "Status" },
            Param { name: "FILE", description: "File path", example: "src/main.rs" },
        ],
        kind: TemplateKind::Ast,
        example: vec!["Status", "src/main.rs"],
    };
    assert(params_view(t.params@) =~= template_entry_23().params);
    assert(strs_view(t.example@) =~= template_entry_23().example);
    t
}

fn template_24() -> (t: QueryTemplate)
    ensures
        t@ == template_entry_24(),
{
    let t = QueryTemplate {
        id: "ast_trait_impls",
        description: "Find trait implementations",
        template: "What traits does {TYPE} implement in {FILE}?",
        params: vec![
            Param { name: "TYPE", description: "Type name", example: "MyStruct" },
            Param { name: "FILE", description: "File path", example: "src/main.rs" },
        ],
        kind: TemplateKind::Ast,
        example: vec!["MyStruct", "src/main.rs"],
    };
    assert(params_view(t.params@) =~= template_entry_24().params);
    assert(strs_view(t.example@) =~= template_entry_24().example);
    t
}

fn template_25() -> (t: QueryTemplate)
    ensures
        t@ == template_entry_25(),
{
    let t = QueryTemplate {
        id: "ast_error_handling_count",
        description: "Count error handling patterns",
        template: "Count the error handling patterns (Result, ?, unwrap, expect) in {FILE}",
        params: vec![
            Param { name: "FILE", description: "File path", example: "src/main.rs" },
        ],
        kind: TemplateKind::Ast,
        example: vec!["src/main.rs"],
    };
    assert(params_view(t.params@) =~= template_entry_25().params);
    assert(strs_view(t.example@) =~= template_entry_25().example);
    t
}

fn template_26() -> (t: QueryTemplate)
    ensures
        t@ == template_entry_26(),
{
    let t = QueryTemplate {
        id: "ast_method_names",
        description: "List all method names in impl blocks",
        template: "List all methods defined in impl blocks in {FILE}",
        params: vec![
            Param { name: "FILE", description: "File path", example: "src/main.rs" },
        ],
        kind: TemplateKind::Ast,
        example: vec!["src/main.rs"],
    };
    assert(params_view(t.params@) =~= template_entry_26().params);
    assert(strs_view(t.example@) =~= template_entry_26().example);
    t
}

impl QueryTemplate {
    /// Renders the template with the given values: value `i` replaces the
    /// placeholder of parameter `i`.
    pub fn render(&self, values: &[&str]) -> (r: String)
        ensures
            r@ == render_spec(self@, strs_view(values@)),
    {
        let mut result: Vec<char> = chars_of(self.template);
        let mut i: usize = 0;
        while i < values.len()
            invariant
                i <= values.len(),
                result@ == render_prefix(
                    self.template@,
                    params_view(self.params@),
                    strs_view(values@),
                    i as int,
                ),
            decreases values.len() - i,
        {
            if i < self.params.len() {
                let mut ph: Vec<char> = Vec::new();
                ph.push('{');
                let name = chars_of(self.params[i].name);
                let mut k: usize = 0;
                while k < name.len()
                    invariant
                        k <= name.len(),
                        ph@ == seq!['{'] + name@.take(k as int),
                    decreases name.len() - k,
                {
                    ph.push(name[k]);
                    assert(name@.take(k + 1) =~= name@.take(k as int).push(name@[k as int]));
                    k += 1;
                }
                ph.push('}');
                assert(name@.take(name.len() as int) =~= name@);
                assert(ph@ =~= placeholder(params_view(self.params@)[i as int].0));
                let v = chars_of(values[i]);
                result = replace(result.as_slice(), ph.as_slice(), v.as_slice());
            }
            i += 1;
        }
        string_from(result.as_slice())
    }

    /// All defined templates, in table order.
    pub fn all() -> (r: Vec<QueryTemplate>)
        ensures
            templates_view(r@) == template_table(),
    {
        let mut r: Vec<QueryTemplate> = Vec::new();
        r.push(template_0());
        r.push(template_1());
        r.push(template_2());
        r.push(template_3());
        r.push(template_4());
        r.push(template_5());
        r.push(template_6());
        r.push(template_7());
        r.push(template_8());
        r.push(template_9());
        r.push(template_10());
        r.push(template_11());
        r.push(template_12());
        r.push(template_13());
        r.push(template_14());
        r.push(template_15());
        r.push(template_16());
        r.push(template_17());
        r.push(template_18());
        r.push(template_19());
        r.push(template_20());
        r.push(template_21());
        r.push(template_22());
        r.push(template_23());
        r.push(template_24());
        r.push(template_25());
        r.push(template_26());
        assert(templates_view(r@) =~= template_table());
        r
    }

    /// The templates of a kind, in table order.
    pub fn by_kind(kind: TemplateKind) -> (r: Vec<QueryTemplate>)
        ensures
            templates_view(r@) == of_kind(template_table(), kind),
    {
        let all = Self::all();
        let mut r: Vec<QueryTemplate> = Vec::new();
        let mut rest = all;
        let n = rest.len();
        let mut i: usize = 0;
        let ghost table = template_table();
        assert(table.take(0) =~= Seq::<TemplateView>::empty());
        while i < n
            invariant
                n == table.len(),
                i <= n,
                rest@.len() == n - i,
                forall|k: int| 0 <= k < n - i ==> (#[trigger] rest@[k])@ == table[i + k],
                templates_view(r@) == of_kind(table.take(i as int), kind),
            decreases n - i,
        {
            let ghost old_rest = rest@;
            let t = rest.remove(0);
            assert(t@ == table[i as int]);
            assert forall|k: int| 0 <= k < n - i - 1 implies (#[trigger] rest@[k])@ == table[i + 1 + k] by {
                assert(rest@[k] == old_rest[k + 1]);
            }
            assert(table.take(i + 1).drop_last() =~= table.take(i as int));
            if t.kind == kind {
                let ghost before = r@;
                r.push(t);
                assert(templates_view(r@) =~= templates_view(before).push(table[i as int]));
            }
            i += 1;
        }
        assert(table.take(n as int) =~= table);
        r
    }

    /// Finds a template by id.
    pub fn find(id: &str) -> (r: Option<QueryTemplate>)
        ensures
            match r {
                Some(t) => find_by_id(template_table(), id@) == Some(t@),
                None => find_by_id(template_table(), id@) is None,
            },
    {
        let all = Self::all();
        let mut rest = all;
        let ghost table = template_table();
        assert(table.skip(0) =~= table);
        let n = rest.len();
        let mut i: usize = 0;
        while i < n
            invariant
                n == table.len(),
                i <= n,
                rest@.len() == n - i,
                forall|k: int| 0 <= k < n - i ==> (#[trigger] rest@[k])@ == table[i + k],
                table == template_table(),
                find_by_id(table.skip(i as int), id@) == find_by_id(table, id@),
            decreases n - i,
        {
            let ghost old_rest = rest@;
            let t = rest.remove(0);
            assert(t@ == table[i as int]);
            assert forall|k: int| 0 <= k < n - i - 1 implies (#[trigger] rest@[k])@ == table[i + 1 + k] by {
                assert(rest@[k] == old_rest[k + 1]);
            }
            assert(table.skip(i as int)[0] == table[i as int]);
            assert(table.skip(i as int).drop_first() =~= table.skip(i + 1));
            let tid = chars_of(t.id);
            if eq_str(tid.as_slice(), id) {
                assert(find_by_id(table.skip(i as int), id@) == Some(table[i as int]));
                return Some(t);
            }
            i += 1;
        }
        None
    }

    /// An example query: the template rendered with its example values.
    pub fn random_example(&self) -> (r: String)
        ensures
            r@ == render_spec(self@, self@.example),
    {
        self.render(self.example.as_slice())
    }

    /// Iterates over all templates.
    pub fn iter() -> (r: TemplateIter)
        ensures
            r.index == 0,
            r.kind is None,
    {
        TemplateIter { index: 0, kind: None }
    }

    /// Iterates over the templates of one kind.
    pub fn iter_kind(kind: TemplateKind) -> (r: TemplateIter)
        ensures
            r.index == 0,
            r.kind == Some(kind),
    {
        TemplateIter { index: 0, kind: Some(kind) }
    }
}

/// A pre-generated query ready for use.
#[derive(Debug, Clone)]
pub struct GeneratedQuery {
    /// The rendered query text.
    pub query: String,
    /// Template id used.
    pub template_id: &'static str,
    /// Expected oracle kind.
    pub kind: TemplateKind,
    /// File the query targets: the last value.
    pub file: String,
}

impl GeneratedQuery {
    /// Renders a template with custom values; the file is the last value.
    pub fn render(template: &QueryTemplate, values: &[&str]) -> (r: Self)
        ensures
            r.query@ == render_spec(template@, strs_view(values@)),
            r.template_id == template.id,
            r.kind == template.kind,
            r.file@ == (if values.len() > 0 {
                values@.last()@
            } else {
                Seq::<char>::empty()
            }),
    {
        let mut file = String::new();
        if values.len() > 0 {
            push_str(&mut file, values[values.len() - 1]);
        }
        GeneratedQuery {
            query: template.render(values),
            template_id: template.id,
            kind: template.kind,
            file,
        }
    }
}

/// A cursor over the templates, optionally of one kind.
pub struct TemplateIter {
    pub index: usize,
    pub kind: Option<TemplateKind>,
}

/// Every template gives an example value for each of its parameters.
pub open spec fn examples_fit(ts: Seq<TemplateView>) -> bool {
    forall|i: int| 0 <= i < ts.len() ==> (#[trigger] ts[i]).example.len() == ts[i].params.len()
}

/// No two templates share an id.
pub open spec fn distinct_ids(ts: Seq<TemplateView>) -> bool {
    forall|i: int, j: int| 0 <= i < j < ts.len() ==> (#[trigger] ts[i]).id != (#[trigger] ts[j]).id
}

/// The templates that a cursor from `from` yields, in order.
pub open spec fn matching_from(ts: Seq<TemplateView>, from: int, kind: Option<TemplateKind>) -> Seq<TemplateView>
    decreases ts.len() - from,
{
    if from < 0 || from >= ts.len() {
        Seq::empty()
    } else if kind is None || ts[from].kind == kind.unwrap() {
        seq![ts[from]] + matching_from(ts, from + 1, kind)
    } else {
        matching_from(ts, from + 1, kind)
    }
}

proof fn lemma_of_kind_concat(a: Seq<TemplateView>, b: Seq<TemplateView>, kind: TemplateKind)
    ensures
        of_kind(a + b, kind) == of_kind(a, kind) + of_kind(b, kind),
    decreases b.len(),
{
    if b.len() == 0 {
        assert(a + b =~= a);
        assert(of_kind(a, kind) + Seq::<TemplateView>::empty() =~= of_kind(a, kind));
    } else {
        lemma_of_kind_concat(a, b.drop_last(), kind);
        assert((a + b).drop_last() =~= a + b.drop_last());
        assert((a + b).last() == b.last());
        if b.last().kind == kind {
            assert(of_kind(a, kind) + of_kind(b.drop_last(), kind).push(b.last()) =~= (of_kind(a, kind) + of_kind(
                b.drop_last(),
                kind,
            )).push(b.last()));
        }
    }
}

proof fn lemma_matching_from_of_kind(ts: Seq<TemplateView>, from: int, kind: TemplateKind)
    requires
        0 <= from <= ts.len(),
    ensures
        matching_from(ts, from, Some(kind)) == of_kind(ts.subrange(from, ts.len() as int), kind),
    decreases ts.len() - from,
{
    if from == ts.len() {
        assert(ts.subrange(from, ts.len() as int) =~= Seq::<TemplateView>::empty());
    } else {
        lemma_matching_from_of_kind(ts, from + 1, kind);
        let rest = ts.subrange(from + 1, ts.len() as int);
        assert(ts.subrange(from, ts.len() as int) =~= seq![ts[from]] + rest);
        lemma_of_kind_concat(seq![ts[from]], rest, kind);
        assert(seq![ts[from]].drop_last() =~= Seq::<TemplateView>::empty());
        assert(seq![ts[from]].last() == ts[from]);
        assert(of_kind(Seq::<TemplateView>::empty(), kind) == Seq::<TemplateView>::empty());
        assert(of_kind(seq![ts[from]], kind) == if ts[from].kind == kind {
            of_kind(Seq::<TemplateView>::empty(), kind).push(ts[from])
        } else {
            of_kind(Seq::<TemplateView>::empty(), kind)
        });
        if ts[from].kind == kind {
            assert(of_kind(seq![ts[from]], kind) =~= seq![ts[from]]);
        } else {
            assert(of_kind(seq![ts[from]], kind) =~= Seq::<TemplateView>::empty());
            assert(Seq::<TemplateView>::empty() + of_kind(rest, kind) =~= of_kind(rest, kind));
        }
    }
}

/// A cursor's next step is the head of what it yields: from `from`, the
/// templates a cursor yields are the one at its next match followed by
/// those it yields from just after that match, or none when no template
/// matches any more. With `next`'s contract, the calls of `next` on
/// `iter_kind(k)` give exactly `matching_from(template_table(), 0, Some(k))`.
pub proof fn law_cursor_steps(ts: Seq<TemplateView>, from: int, kind: Option<TemplateKind>)
    requires
        0 <= from,
    ensures
        matching_from(ts, from, kind) == if next_match(ts, from, kind) < ts.len() {
            seq![ts[next_match(ts, from, kind)]] + matching_from(ts, next_match(ts, from, kind) + 1, kind)
        } else {
            Seq::<TemplateView>::empty()
        },
    decreases ts.len() - from,
{
    if from < ts.len() && !(kind is None || ts[from].kind == kind.unwrap()) {
        law_cursor_steps(ts, from + 1, kind);
    }
}

/// The template table is well formed: every template has one example value
/// per parameter, and iterating the templates of a kind from the start
/// yields exactly the templates that `by_kind` returns, in the same order.
#[verifier::rlimit(100)]
pub proof fn law_template_table(kind: TemplateKind)
    ensures
        examples_fit(template_table()),
        distinct_ids(template_table()),
        matching_from(template_table(), 0, Some(kind)) == of_kind(template_table(), kind),
{
    let ts = template_table();
    assert(examples_fit(ts));
    reveal_strlit("grep_find_occurrences");
    reveal_strlit("grep_find_regex");
    reveal_strlit("grep_count_occurrences");
    reveal_strlit("grep_find_functions");
    reveal_strlit("grep_find_structs");
    reveal_strlit("grep_find_enums");
    reveal_strlit("grep_find_traits");
    reveal_strlit("grep_find_impls");
    reveal_strlit("grep_find_imports");
    reveal_strlit("grep_find_tests");
    reveal_strlit("grep_find_error_handling");
    reveal_strlit("grep_find_macros");
    reveal_strlit("grep_find_comments");
    reveal_strlit("grep_find_todos");
    reveal_strlit("grep_find_string_literals");
    reveal_strlit("ast_list_functions");
    reveal_strlit("ast_list_structs");
    reveal_strlit("ast_list_enums");
    reveal_strlit("ast_list_impls");
    reveal_strlit("ast_function_signatures");
    reveal_strlit("ast_pub_functions");
    reveal_strlit("ast_async_functions");
    reveal_strlit("ast_struct_fields");
    reveal_strlit("ast_enum_variants");
    reveal_strlit("ast_trait_impls");
    reveal_strlit("ast_error_handling_count");
    reveal_strlit("ast_method_names");
    assert(ts[0].id.len() != ts[1].id.len());
    assert(ts[0].id.len() != ts[2].id.len());
    assert(ts[0].id.len() != ts[3].id.len());
    assert(ts[0].id.len() != ts[4].id.len());
    assert(ts[0].id.len() != ts[5].id.len());
    assert(ts[0].id.len() != ts[6].id.len());
    assert(ts[0].id.len() != ts[7].id.len());
    assert(ts[0].id.len() != ts[8].id.len());
    assert(ts[0].id.len() != ts[9].id.len());
    assert(ts[0].id.len() != ts[10].id.len());
    assert(ts[0].id.len() != ts[11].id.len());
    assert(ts[0].id.len() != ts[12].id.len());
    assert(ts[0].id.len() != ts[13].id.len());
    assert(ts[0].id.len() != ts[14].id.len());
    assert(ts[0].id.len() != ts[15].id.len());
    assert(ts[0].id.len() != ts[16].id.len());
    assert(ts[0].id.len() != ts[17].id.len());
    assert(ts[0].id.len() != ts[18].id.len());
    assert(ts[0].id.len() != ts[19].id.len());
    assert(ts[0].id.len() != ts[20].id.len());
    assert(ts[0].id.len() != ts[21].id.len());
    assert(ts[0].id.len() != ts[22].id.len());
    assert(ts[0].id.len() != ts[23].id.len());
    assert(ts[0].id.len() != ts[24].id.len());
    assert(ts[0].id.len() != ts[25].id.len());
    assert(ts[0].id.len() != ts[26].id.len());
    assert(ts[1].id.len() != ts[2].id.len());
    assert(ts[1].id.len() != ts[3].id.len());
    assert(ts[1].id.len() != ts[4].id.len());
    assert(ts[1].id[10] != ts[5].id[10]);
    assert(ts[1].id.len() != ts[6].id.len());
    assert(ts[1].id[10] != ts[7].id[10]);
    assert(ts[1].id.len() != ts[8].id.len());
    assert(ts[1].id[10] != ts[9].id[10]);
    assert(ts[1].id.len() != ts[10].id.len());
    assert(ts[1].id.len() != ts[11].id.len());
    assert(ts[1].id.len() != ts[12].id.len());
    assert(ts[1].id[10] != ts[13].id[10]);
    assert(ts[1].id.len() != ts[14].id.len());
    assert(ts[1].id.len() != ts[15].id.len());
    assert(ts[1].id.len() != ts[16].id.len());
    assert(ts[1].id.len() != ts[17].id.len());
    assert(ts[1].id.len() != ts[18].id.len());
    assert(ts[1].id.len() != ts[19].id.len());
    assert(ts[1].id.len() != ts[20].id.len());
    assert(ts[1].id.len() != ts[21].id.len());
    assert(ts[1].id.len() != ts[22].id.len());
    assert(ts[1].id.len() != ts[23].id.len());
    assert(ts[1].id[0] != ts[24].id[0]);
    assert(ts[1].id.len() != ts[25].id.len());
    assert(ts[1].id.len() != ts[26].id.len());
    assert(ts[2].id.len() != ts[3].id.len());
    assert(ts[2].id.len() != ts[4].id.len());
    assert(ts[2].id.len() != ts[5].id.len());
    assert(ts[2].id.len() != ts[6].id.len());
    assert(ts[2].id.len() != ts[7].id.len());
    assert(ts[2].id.len() != ts[8].id.len());
    assert(ts[2].id.len() != ts[9].id.len());
    assert(ts[2].id.len() != ts[10].id.len());
    assert(ts[2].id.len() != ts[11].id.len());
    assert(ts[2].id.len() != ts[12].id.len());
    assert(ts[2].id.len() != ts[13].id.len());
    assert(ts[2].id.len() != ts[14].id.len());
    assert(ts[2].id.len() != ts[15].id.len());
    assert(ts[2].id.len() != ts[16].id.len());
    assert(ts[2].id.len() != ts[17].id.len());
    assert(ts[2].id.len() != ts[18].id.len());
    assert(ts[2].id.len() != ts[19].id.len());
    assert(ts[2].id.len() != ts[20].id.len());
    assert(ts[2].id.len() != ts[21].id.len());
    assert(ts[2].id.len() != ts[22].id.len());
    assert(ts[2].id.len() != ts[23].id.len());
    assert(ts[2].id.len() != ts[24].id.len());
    assert(ts[2].id.len() != ts[25].id.len());
    assert(ts[2].id.len() != ts[26].id.len());
    assert(ts[3].id.len() != ts[4].id.len());
    assert(ts[3].id.len() != ts[5].id.len());
    assert(ts[3].id.len() != ts[6].id.len());
    assert(ts[3].id.len() != ts[7].id.len());
    assert(ts[3].id.len() != ts[8].id.len());
    assert(ts[3].id.len() != ts[9].id.len());
    assert(ts[3].id.len() != ts[10].id.len());
    assert(ts[3].id.len() != ts[11].id.len());
    assert(ts[3].id.len() != ts[12].id.len());
    assert(ts[3].id.len() != ts[13].id.len());
    assert(ts[3].id.len() != ts[14].id.len());
    assert(ts[3].id.len() != ts[15].id.len());
    assert(ts[3].id.len() != ts[16].id.len());
    assert(ts[3].id.len() != ts[17].id.len());
    assert(ts[3].id.len() != ts[18].id.len());
    assert(ts[3].id.len() != ts[19].id.len());
    assert(ts[3].id.len() != ts[20].id.len());
    assert(ts[3].id[0] != ts[21].id[0]);
    assert(ts[3].id.len() != ts[22].id.len());
    assert(ts[3].id.len() != ts[23].id.len());
    assert(ts[3].id.len() != ts[24].id.len());
    assert(ts[3].id.len() != ts[25].id.len());
    assert(ts[3].id.len() != ts[26].id.len());
    assert(ts[4].id.len() != ts[5].id.len());
    assert(ts[4].id.len() != ts[6].id.len());
    assert(ts[4].id.len() != ts[7].id.len());
    assert(ts[4].id[10] != ts[8].id[10]);
    assert(ts[4].id.len() != ts[9].id.len());
    assert(ts[4].id.len() != ts[10].id.len());
    assert(ts[4].id.len() != ts[11].id.len());
    assert(ts[4].id.len() != ts[12].id.len());
    assert(ts[4].id.len() != ts[13].id.len());
    assert(ts[4].id.len() != ts[14].id.len());
    assert(ts[4].id.len() != ts[15].id.len());
    assert(ts[4].id.len() != ts[16].id.len());
    assert(ts[4].id.len() != ts[17].id.len());
    assert(ts[4].id.len() != ts[18].id.len());
    assert(ts[4].id.len() != ts[19].id.len());
    assert(ts[4].id[0] != ts[20].id[0]);
    assert(ts[4].id.len() != ts[21].id.len());
    assert(ts[4].id[0] != ts[22].id[0]);
    assert(ts[4].id[0] != ts[23].id[0]);
    assert(ts[4].id.len() != ts[24].id.len());
    assert(ts[4].id.len() != ts[25].id.len());
    assert(ts[4].id.len() != ts[26].id.len());
    assert(ts[5].id.len() != ts[6].id.len());
    assert(ts[5].id[10] != ts[7].id[10]);
    assert(ts[5].id.len() != ts[8].id.len());
    assert(ts[5].id[10] != ts[9].id[10]);
    assert(ts[5].id.len() != ts[10].id.len());
    assert(ts[5].id.len() != ts[11].id.len());
    assert(ts[5].id.len() != ts[12].id.len());
    assert(ts[5].id[10] != ts[13].id[10]);
    assert(ts[5].id.len() != ts[14].id.len());
    assert(ts[5].id.len() != ts[15].id.len());
    assert(ts[5].id.len() != ts[16].id.len());
    assert(ts[5].id.len() != ts[17].id.len());
    assert(ts[5].id.len() != ts[18].id.len());
    assert(ts[5].id.len() != ts[19].id.len());
    assert(ts[5].id.len() != ts[20].id.len());
    assert(ts[5].id.len() != ts[21].id.len());
    assert(ts[5].id.len() != ts[22].id.len());
    assert(ts[5].id.len() != ts[23].id.len());
    assert(ts[5].id[0] != ts[24].id[0]);
    assert(ts[5].id.len() != ts[25].id.len());
    assert(ts[5].id.len() != ts[26].id.len());
    assert(ts[6].id.len() != ts[7].id.len());
    assert(ts[6].id.len() != ts[8].id.len());
    assert(ts[6].id.len() != ts[9].id.len());
    assert(ts[6].id.len() != ts[10].id.len());
    assert(ts[6].id[10] != ts[11].id[10]);
    assert(ts[6].id.len() != ts[12].id.len());
    assert(ts[6].id.len() != ts[13].id.len());
    assert(ts[6].id.len() != ts[14].id.len());
    assert(ts[6].id.len() != ts[15].id.len());
    assert(ts[6].id[0] != ts[16].id[0]);
    assert(ts[6].id.len() != ts[17].id.len());
    assert(ts[6].id.len() != ts[18].id.len());
    assert(ts[6].id.len() != ts[19].id.len());
    assert(ts[6].id.len() != ts[20].id.len());
    assert(ts[6].id.len() != ts[21].id.len());
    assert(ts[6].id.len() != ts[22].id.len());
    assert(ts[6].id.len() != ts[23].id.len());
    assert(ts[6].id.len() != ts[24].id.len());
    assert(ts[6].id.len() != ts[25].id.len());
    assert(ts[6].id[0] != ts[26].id[0]);
    assert(ts[7].id.len() != ts[8].id.len());
    assert(ts[7].id[10] != ts[9].id[10]);
    assert(ts[7].id.len() != ts[10].id.len());
    assert(ts[7].id.len() != ts[11].id.len());
    assert(ts[7].id.len() != ts[12].id.len());
    assert(ts[7].id[10] != ts[13].id[10]);
    assert(ts[7].id.len() != ts[14].id.len());
    assert(ts[7].id.len() != ts[15].id.len());
    assert(ts[7].id.len() != ts[16].id.len());
    assert(ts[7].id.len() != ts[17].id.len());
    assert(ts[7].id.len() != ts[18].id.len());
    assert(ts[7].id.len() != ts[19].id.len());
    assert(ts[7].id.len() != ts[20].id.len());
    assert(ts[7].id.len() != ts[21].id.len());
    assert(ts[7].id.len() != ts[22].id.len());
    assert(ts[7].id.len() != ts[23].id.len());
    assert(ts[7].id[0] != ts[24].id[0]);
    assert(ts[7].id.len() != ts[25].id.len());
    assert(ts[7].id.len() != ts[26].id.len());
    assert(ts[8].id.len() != ts[9].id.len());
    assert(ts[8].id.len() != ts[10].id.len());
    assert(ts[8].id.len() != ts[11].id.len());
    assert(ts[8].id.len() != ts[12].id.len());
    assert(ts[8].id.len() != ts[13].id.len());
    assert(ts[8].id.len() != ts[14].id.len());
    assert(ts[8].id.len() != ts[15].id.len());
    assert(ts[8].id.len() != ts[16].id.len());
    assert(ts[8].id.len() != ts[17].id.len());
    assert(ts[8].id.len() != ts[18].id.len());
    assert(ts[8].id.len() != ts[19].id.len());
    assert(ts[8].id[0] != ts[20].id[0]);
    assert(ts[8].id.len() != ts[21].id.len());
    assert(ts[8].id[0] != ts[22].id[0]);
    assert(ts[8].id[0] != ts[23].id[0]);
    assert(ts[8].id.len() != ts[24].id.len());
    assert(ts[8].id.len() != ts[25].id.len());
    assert(ts[8].id.len() != ts[26].id.len());
    assert(ts[9].id.len() != ts[10].id.len());
    assert(ts[9].id.len() != ts[11].id.len());
    assert(ts[9].id.len() != ts[12].id.len());
    assert(ts[9].id[11] != ts[13].id[11]);
    assert(ts[9].id.len() != ts[14].id.len());
    assert(ts[9].id.len() != ts[15].id.len());
    assert(ts[9].id.len() != ts[16].id.len());
    assert(ts[9].id.len() != ts[17].id.len());
    assert(ts[9].id.len() != ts[18].id.len());
    assert(ts[9].id.len() != ts[19].id.len());
    assert(ts[9].id.len() != ts[20].id.len());
    assert(ts[9].id.len() != ts[21].id.len());
    assert(ts[9].id.len() != ts[22].id.len());
    assert(ts[9].id.len() != ts[23].id.len());
    assert(ts[9].id[0] != ts[24].id[0]);
    assert(ts[9].id.len() != ts[25].id.len());
    assert(ts[9].id.len() != ts[26].id.len());
    assert(ts[10].id.len() != ts[11].id.len());
    assert(ts[10].id.len() != ts[12].id.len());
    assert(ts[10].id.len() != ts[13].id.len());
    assert(ts[10].id.len() != ts[14].id.len());
    assert(ts[10].id.len() != ts[15].id.len());
    assert(ts[10].id.len() != ts[16].id.len());
    assert(ts[10].id.len() != ts[17].id.len());
    assert(ts[10].id.len() != ts[18].id.len());
    assert(ts[10].id.len() != ts[19].id.len());
    assert(ts[10].id.len() != ts[20].id.len());
    assert(ts[10].id.len() != ts[21].id.len());
    assert(ts[10].id.len() != ts[22].id.len());
    assert(ts[10].id.len() != ts[23].id.len());
    assert(ts[10].id.len() != ts[24].id.len());
    assert(ts[10].id[0] != ts[25].id[0]);
    assert(ts[10].id.len() != ts[26].id.len());
    assert(ts[11].id.len() != ts[12].id.len());
    assert(ts[11].id.len() != ts[13].id.len());
    assert(ts[11].id.len() != ts[14].id.len());
    assert(ts[11].id.len() != ts[15].id.len());
    assert(ts[11].id[0] != ts[16].id[0]);
    assert(ts[11].id.len() != ts[17].id.len());
    assert(ts[11].id.len() != ts[18].id.len());
    assert(ts[11].id.len() != ts[19].id.len());
    assert(ts[11].id.len() != ts[20].id.len());
    assert(ts[11].id.len() != ts[21].id.len());
    assert(ts[11].id.len() != ts[22].id.len());
    assert(ts[11].id.len() != ts[23].id.len());
    assert(ts[11].id.len() != ts[24].id.len());
    assert(ts[11].id.len() != ts[25].id.len());
    assert(ts[11].id[0] != ts[26].id[0]);
    assert(ts[12].id.len() != ts[13].id.len());
    assert(ts[12].id.len() != ts[14].id.len());
    assert(ts[12].id[0] != ts[15].id[0]);
    assert(ts[12].id.len() != ts[16].id.len());
    assert(ts[12].id.len() != ts[17].id.len());
    assert(ts[12].id.len() != ts[18].id.len());
    assert(ts[12].id.len() != ts[19].id.len());
    assert(ts[12].id.len() != ts[20].id.len());
    assert(ts[12].id.len() != ts[21].id.len());
    assert(ts[12].id.len() != ts[22].id.len());
    assert(ts[12].id.len() != ts[23].id.len());
    assert(ts[12].id.len() != ts[24].id.len());
    assert(ts[12].id.len() != ts[25].id.len());
    assert(ts[12].id.len() != ts[26].id.len());
    assert(ts[13].id.len() != ts[14].id.len());
    assert(ts[13].id.len() != ts[15].id.len());
    assert(ts[13].id.len() != ts[16].id.len());
    assert(ts[13].id.len() != ts[17].id.len());
    assert(ts[13].id.len() != ts[18].id.len());
    assert(ts[13].id.len() != ts[19].id.len());
    assert(ts[13].id.len() != ts[20].id.len());
    assert(ts[13].id.len() != ts[21].id.len());
    assert(ts[13].id.len() != ts[22].id.len());
    assert(ts[13].id.len() != ts[23].id.len());
    assert(ts[13].id[0] != ts[24].id[0]);
    assert(ts[13].id.len() != ts[25].id.len());
    assert(ts[13].id.len() != ts[26].id.len());
    assert(ts[14].id.len() != ts[15].id.len());
    assert(ts[14].id.len() != ts[16].id.len());
    assert(ts[14].id.len() != ts[17].id.len());
    assert(ts[14].id.len() != ts[18].id.len());
    assert(ts[14].id.len() != ts[19].id.len());
    assert(ts[14].id.len() != ts[20].id.len());
    assert(ts[14].id.len() != ts[21].id.len());
    assert(ts[14].id.len() != ts[22].id.len());
    assert(ts[14].id.len() != ts[23].id.len());
    assert(ts[14].id.len() != ts[24].id.len());
    assert(ts[14].id.len() != ts[25].id.len());
    assert(ts[14].id.len() != ts[26].id.len());
    assert(ts[15].id.len() != ts[16].id.len());
    assert(ts[15].id.len() != ts[17].id.len());
    assert(ts[15].id.len() != ts[18].id.len());
    assert(ts[15].id.len() != ts[19].id.len());
    assert(ts[15].id.len() != ts[20].id.len());
    assert(ts[15].id.len() != ts[21].id.len());
    assert(ts[15].id.len() != ts[22].id.len());
    assert(ts[15].id.len() != ts[23].id.len());
    assert(ts[15].id.len() != ts[24].id.len());
    assert(ts[15].id.len() != ts[25].id.len());
    assert(ts[15].id.len() != ts[26].id.len());
    assert(ts[16].id.len() != ts[17].id.len());
    assert(ts[16].id.len() != ts[18].id.len());
    assert(ts[16].id.len() != ts[19].id.len());
    assert(ts[16].id.len() != ts[20].id.len());
    assert(ts[16].id.len() != ts[21].id.len());
    assert(ts[16].id.len() != ts[22].id.len());
    assert(ts[16].id.len() != ts[23].id.len());
    assert(ts[16].id.len() != ts[24].id.len());
    assert(ts[16].id.len() != ts[25].id.len());
    assert(ts[16].id[4] != ts[26].id[4]);
    assert(ts[17].id[9] != ts[18].id[9]);
    assert(ts[17].id.len() != ts[19].id.len());
    assert(ts[17].id.len() != ts[20].id.len());
    assert(ts[17].id.len() != ts[21].id.len());
    assert(ts[17].id.len() != ts[22].id.len());
    assert(ts[17].id.len() != ts[23].id.len());
    assert(ts[17].id.len() != ts[24].id.len());
    assert(ts[17].id.len() != ts[25].id.len());
    assert(ts[17].id.len() != ts[26].id.len());
    assert(ts[18].id.len() != ts[19].id.len());
    assert(ts[18].id.len() != ts[20].id.len());
    assert(ts[18].id.len() != ts[21].id.len());
    assert(ts[18].id.len() != ts[22].id.len());
    assert(ts[18].id.len() != ts[23].id.len());
    assert(ts[18].id.len() != ts[24].id.len());
    assert(ts[18].id.len() != ts[25].id.len());
    assert(ts[18].id.len() != ts[26].id.len());
    assert(ts[19].id.len() != ts[20].id.len());
    assert(ts[19].id.len() != ts[21].id.len());
    assert(ts[19].id.len() != ts[22].id.len());
    assert(ts[19].id.len() != ts[23].id.len());
    assert(ts[19].id.len() != ts[24].id.len());
    assert(ts[19].id.len() != ts[25].id.len());
    assert(ts[19].id.len() != ts[26].id.len());
    assert(ts[20].id.len() != ts[21].id.len());
    assert(ts[20].id[4] != ts[22].id[4]);
    assert(ts[20].id[4] != ts[23].id[4]);
    assert(ts[20].id.len() != ts[24].id.len());
    assert(ts[20].id.len() != ts[25].id.len());
    assert(ts[20].id.len() != ts[26].id.len());
    assert(ts[21].id.len() != ts[22].id.len());
    assert(ts[21].id.len() != ts[23].id.len());
    assert(ts[21].id.len() != ts[24].id.len());
    assert(ts[21].id.len() != ts[25].id.len());
    assert(ts[21].id.len() != ts[26].id.len());
    assert(ts[22].id[4] != ts[23].id[4]);
    assert(ts[22].id.len() != ts[24].id.len());
    assert(ts[22].id.len() != ts[25].id.len());
    assert(ts[22].id.len() != ts[26].id.len());
    assert(ts[23].id.len() != ts[24].id.len());
    assert(ts[23].id.len() != ts[25].id.len());
    assert(ts[23].id.len() != ts[26].id.len());
    assert(ts[24].id.len() != ts[25].id.len());
    assert(ts[24].id.len() != ts[26].id.len());
    assert(ts[25].id.len() != ts[26].id.len());
    assert(distinct_ids(ts));
    lemma_matching_from_of_kind(ts, 0, kind);
    assert(ts.subrange(0, ts.len() as int) =~= ts);
}

/// Every parameter's placeholder occurs in the template.
pub open spec fn placeholders_present(t: TemplateView) -> bool {
    forall|j: int| 0 <= j < t.params.len() ==> #[trigger] contains(t.template, placeholder(t.params[j].0))
}

proof fn lemma_placeholders_0()
    ensures
        placeholders_present(template_entry_0()),
{
    let t = template_entry_0();
    reveal_strlit("Find all occurrences of {PATTERN} in {FILE}");
    reveal_strlit("PATTERN");
    assert(t.template.subrange(24, 33) =~= placeholder(t.params[0].0));
    reveal_strlit("FILE");
    assert(t.template.subrange(37, 43) =~= placeholder(t.params[1].0));
    assert forall|j: int| 0 <= j < t.params.len() implies #[trigger] contains(t.template, placeholder(t.params[j].0)) by {
        if j == 0 {
            assert(matches_at(t.template, placeholder(t.params[0].0), 24));
        }
        if j == 1 {
            assert(matches_at(t.template, placeholder(t.params[1].0), 37));
        }
    }
}

proof fn lemma_placeholders_1()
    ensures
        placeholders_present(template_entry_1()),
{
    let t = template_entry_1();
    reveal_strlit("Find all lines matching {REGEX} in {FILE}");
    reveal_strlit("REGEX");
    assert(t.template.subrange(24, 31) =~= placeholder(t.params[0].0));
    reveal_strlit("FILE");
    assert(t.template.subrange(35, 41) =~= placeholder(t.params[1].0));
    assert forall|j: int| 0 <= j < t.params.len() implies #[trigger] contains(t.template, placeholder(t.params[j].0)) by {
        if j == 0 {
            assert(matches_at(t.template, placeholder(t.params[0].0), 24));
        }
        if j == 1 {
            assert(matches_at(t.template, placeholder(t.params[1].0), 35));
        }
    }
}

proof fn lemma_placeholders_2()
    ensures
        placeholders_present(template_entry_2()),
{
    let t = template_entry_2();
    reveal_strlit("Count occurrences of {PATTERN} in {FILE}");
    reveal_strlit("PATTERN");
    assert(t.template.subrange(21, 30) =~= placeholder(t.params[0].0));
    reveal_strlit("FILE");
    assert(t.template.subrange(34, 40) =~= placeholder(t.params[1].0));
    assert forall|j: int| 0 <= j < t.params.len() implies #[trigger] contains(t.template, placeholder(t.params[j].0)) by {
        if j == 0 {
            assert(matches_at(t.template, placeholder(t.params[0].0), 21));
        }
        if j == 1 {
            assert(matches_at(t.template, placeholder(t.params[1].0), 34));
        }
    }
}

proof fn lemma_placeholders_3()
    ensures
        placeholders_present(template_entry_3()),
{
    let t = template_entry_3();
    reveal_strlit("Find all {VISIBILITY} functions matching {PATTERN} in {FILE}");
    reveal_strlit("VISIBILITY");
    assert(t.template.subrange(9, 21) =~= placeholder(t.params[0].0));
    reveal_strlit("PATTERN");
    assert(t.template.subrange(41, 50) =~= placeholder(t.params[1].0));
    reveal_strlit("FILE");
    assert(t.template.subrange(54, 60) =~= placeholder(t.params[2].0));
    assert forall|j: int| 0 <= j < t.params.len() implies #[trigger] contains(t.template, placeholder(t.params[j].0)) by {
        if j == 0 {
            assert(matches_at(t.template, placeholder(t.params[0].0), 9));
        }
        if j == 1 {
            assert(matches_at(t.template, placeholder(t.params[1].0), 41));
        }
        if j == 2 {
            assert(matches_at(t.template, placeholder(t.params[2].0), 54));
        }
    }
}

proof fn lemma_placeholders_4()
    ensures
        placeholders_present(template_entry_4()),
{
    let t = template_entry_4();
    reveal_strlit("Find all structs in {FILE}");
    reveal_strlit("FILE");
    assert(t.template.subrange(20, 26) =~= placeholder(t.params[0].0));
    assert forall|j: int| 0 <= j < t.params.len() implies #[trigger] contains(t.template, placeholder(t.params[j].0)) by {
        if j == 0 {
            assert(matches_at(t.template, placeholder(t.params[0].0), 20));
        }
    }
}

proof fn lemma_placeholders_5()
    ensures
        placeholders_present(template_entry_5()),
{
    let t = template_entry_5();
    reveal_strlit("Find all enums in {FILE}");
    reveal_strlit("FILE");
    assert(t.template.subrange(18, 24) =~= placeholder(t.params[0].0));
    assert forall|j: int| 0 <= j < t.params.len() implies #[trigger] contains(t.template, placeholder(t.params[j].0)) by {
        if j == 0 {
            assert(matches_at(t.template, placeholder(t.params[0].0), 18));
        }
    }
}

proof fn lemma_placeholders_6()
    ensures
        placeholders_present(template_entry_6()),
{
    let t = template_entry_6();
    reveal_strlit("Find all traits in {FILE}");
    reveal_strlit("FILE");
    assert(t.template.subrange(19, 25) =~= placeholder(t.params[0].0));
    assert forall|j: int| 0 <= j < t.params.len() implies #[trigger] contains(t.template, placeholder(t.params[j].0)) by {
        if j == 0 {
            assert(matches_at(t.template, placeholder(t.params[0].0), 19));
        }
    }
}

proof fn lemma_placeholders_7()
    ensures
        placeholders_present(template_entry_7()),
{
    let t = template_entry_7();
    reveal_strlit("Find all impl blocks in {FILE}");
    reveal_strlit("FILE");
    assert(t.template.subrange(24, 30) =~= placeholder(t.params[0].0));
    assert forall|j: int| 0 <= j < t.params.len() implies #[trigger] contains(t.template, placeholder(t.params[j].0)) by {
        if j == 0 {
            assert(matches_at(t.template, placeholder(t.params[0].0), 24));
        }
    }
}

proof fn lemma_placeholders_8()
    ensures
        placeholders_present(template_entry_8()),
{
    let t = template_entry_8();
    reveal_strlit("Find all imports in {FILE}");
    reveal_strlit("FILE");
    assert(t.template.subrange(20, 26) =~= placeholder(t.params[0].0));
    assert forall|j: int| 0 <= j < t.params.len() implies #[trigger] contains(t.template, placeholder(t.params[j].0)) by {
        if j == 0 {
            assert(matches_at(t.template, placeholder(t.params[0].0), 20));
        }
    }
}

proof fn lemma_placeholders_9()
    ensures
        placeholders_present(template_entry_9()),
{
    let t = template_entry_9();
    reveal_strlit("Find all test functions in {FILE}");
    reveal_strlit("FILE");
    assert(t.template.subrange(27, 33) =~= placeholder(t.params[0].0));
    assert forall|j: int| 0 <= j < t.params.len() implies #[trigger] contains(t.template, placeholder(t.params[j].0)) by {
        if j == 0 {
            assert(matches_at(t.template, placeholder(t.params[0].0), 27));
        }
    }
}

proof fn lemma_placeholders_10()
    ensures
        placeholders_present(template_entry_10()),
{
    let t = template_entry_10();
    reveal_strlit("Find all error handling patterns in {FILE}");
    reveal_strlit("FILE");
    assert(t.template.subrange(36, 42) =~= placeholder(t.params[0].0));
    assert forall|j: int| 0 <= j < t.params.len() implies #[trigger] contains(t.template, placeholder(t.params[j].0)) by {
        if j == 0 {
            assert(matches_at(t.template, placeholder(t.params[0].0), 36));
        }
    }
}

proof fn lemma_placeholders_11()
    ensures
        placeholders_present(template_entry_11()),
{
    let t = template_entry_11();
    reveal_strlit("Find all macro calls in {FILE}");
    reveal_strlit("FILE");
    assert(t.template.subrange(24, 30) =~= placeholder(t.params[0].0));
    assert forall|j: int| 0 <= j < t.params.len() implies #[trigger] contains(t.template, placeholder(t.params[j].0)) by {
        if j == 0 {
            assert(matches_at(t.template, placeholder(t.params[0].0), 24));
        }
    }
}

proof fn lemma_placeholders_12()
    ensures
        placeholders_present(template_entry_12()),
{
    let t = template_entry_12();
    reveal_strlit("Find all comments in {FILE}");
    reveal_strlit("FILE");
    assert(t.template.subrange(21, 27) =~= placeholder(t.params[0].0));
    assert forall|j: int| 0 <= j < t.params.len() implies #[trigger] contains(t.template, placeholder(t.params[j].0)) by {
        if j == 0 {
            assert(matches_at(t.template, placeholder(t.params[0].0), 21));
        }
    }
}

proof fn lemma_placeholders_13()
    ensures
        placeholders_present(template_entry_13()),
{
    let t = template_entry_13();
    reveal_strlit("Find all TODO comments in {FILE}");
    reveal_strlit("FILE");
    assert(t.template.subrange(26, 32) =~= placeholder(t.params[0].0));
    assert forall|j: int| 0 <= j < t.params.len() implies #[trigger] contains(t.template, placeholder(t.params[j].0)) by {
        if j == 0 {
            assert(matches_at(t.template, placeholder(t.params[0].0), 26));
        }
    }
}

proof fn lemma_placeholders_14()
    ensures
        placeholders_present(template_entry_14()),
{
    let t = template_entry_14();
    reveal_strlit("Find all string literals in {FILE}");
    reveal_strlit("FILE");
    assert(t.template.subrange(28, 34) =~= placeholder(t.params[0].0));
    assert forall|j: int| 0 <= j < t.params.len() implies #[trigger] contains(t.template, placeholder(t.params[j].0)) by {
        if j == 0 {
            assert(matches_at(t.template, placeholder(t.params[0].0), 28));
        }
    }
}

proof fn lemma_placeholders_15()
    ensures
        placeholders_present(template_entry_15()),
{
    let t = template_entry_15();
    reveal_strlit("List all function names in {FILE}");
    reveal_strlit("FILE");
    assert(t.template.subrange(27, 33) =~= placeholder(t.params[0].0));
    assert forall|j: int| 0 <= j < t.params.len() implies #[trigger] contains(t.template, placeholder(t.params[j].0)) by {
        if j == 0 {
            assert(matches_at(t.template, placeholder(t.params[0].0), 27));
        }
    }
}

proof fn lemma_placeholders_16()
    ensures
        placeholders_present(template_entry_16()),
{
    let t = template_entry_16();
    reveal_strlit("List all structs and fields in {FILE}");
    reveal_strlit("FILE");
    assert(t.template.subrange(31, 37) =~= placeholder(t.params[0].0));
    assert forall|j: int| 0 <= j < t.params.len() implies #[trigger] contains(t.template, placeholder(t.params[j].0)) by {
        if j == 0 {
            assert(matches_at(t.template, placeholder(t.params[0].0), 31));
        }
    }
}

proof fn lemma_placeholders_17()
    ensures
        placeholders_present(template_entry_17()),
{
    let t = template_entry_17();
    reveal_strlit("List all enums and variants in {FILE}");
    reveal_strlit("FILE");
    assert(t.template.subrange(31, 37) =~= placeholder(t.params[0].0));
    assert forall|j: int| 0 <= j < t.params.len() implies #[trigger] contains(t.template, placeholder(t.params[j].0)) by {
        if j == 0 {
            assert(matches_at(t.template, placeholder(t.params[0].0), 31));
        }
    }
}

proof fn lemma_placeholders_18()
    ensures
        placeholders_present(template_entry_18()),
{
    let t = template_entry_18();
    reveal_strlit("List all impl blocks for {TYPE} in {FILE}");
    reveal_strlit("TYPE");
    assert(t.template.subrange(25, 31) =~= placeholder(t.params[0].0));
    reveal_strlit("FILE");
    assert(t.template.subrange(35, 41) =~= placeholder(t.params[1].0));
    assert forall|j: int| 0 <= j < t.params.len() implies #[trigger] contains(t.template, placeholder(t.params[j].0)) by {
        if j == 0 {
            assert(matches_at(t.template, placeholder(t.params[0].0), 25));
        }
        if j == 1 {
            assert(matches_at(t.template, placeholder(t.params[1].0), 35));
        }
    }
}

proof fn lemma_placeholders_19()
    ensures
        placeholders_present(template_entry_19()),
{
    let t = template_entry_19();
    reveal_strlit("List all function signatures in {FILE}");
    reveal_strlit("FILE");
    assert(t.template.subrange(32, 38) =~= placeholder(t.params[0].0));
    assert forall|j: int| 0 <= j < t.params.len() implies #[trigger] contains(t.template, placeholder(t.params[j].0)) by {
        if j == 0 {
            assert(matches_at(t.template, placeholder(t.params[0].0), 32));
        }
    }
}

proof fn lemma_placeholders_20()
    ensures
        placeholders_present(template_entry_20()),
{
    let t = template_entry_20();
    reveal_strlit("List all public function signatures in {FILE}");
    reveal_strlit("FILE");
    assert(t.template.subrange(39, 45) =~= placeholder(t.params[0].0));
    assert forall|j: int| 0 <= j < t.params.len() implies #[trigger] contains(t.template, placeholder(t.params[j].0)) by {
        if j == 0 {
            assert(matches_at(t.template, placeholder(t.params[0].0), 39));
        }
    }
}

proof fn lemma_placeholders_21()
    ensures
        placeholders_present(template_entry_21()),
{
    let t = template_entry_21();
    reveal_strlit("List all async function signatures in {FILE}");
    reveal_strlit("FILE");
    assert(t.template.subrange(38, 44) =~= placeholder(t.params[0].0));
    assert forall|j: int| 0 <= j < t.params.len() implies #[trigger] contains(t.template, placeholder(t.params[j].0)) by {
        if j == 0 {
            assert(matches_at(t.template, placeholder(t.params[0].0), 38));
        }
    }
}

proof fn lemma_placeholders_22()
    ensures
        placeholders_present(template_entry_22()),
{
    let t = template_entry_22();
    reveal_strlit("What fields does {STRUCT} have in {FILE}?");
    reveal_strlit("STRUCT");
    assert(t.template.subrange(17, 25) =~= placeholder(t.params[0].0));
    reveal_strlit("FILE");
    assert(t.template.subrange(34, 40) =~= placeholder(t.params[1].0));
    assert forall|j: int| 0 <= j < t.params.len() implies #[trigger] contains(t.template, placeholder(t.params[j].0)) by {
        if j == 0 {
            assert(matches_at(t.template, placeholder(t.params[0].0), 17));
        }
        if j == 1 {
            assert(matches_at(t.template, placeholder(t.params[1].0), 34));
        }
    }
}

proof fn lemma_placeholders_23()
    ensures
        placeholders_present(template_entry_23()),
{
    let t = template_entry_23();
    reveal_strlit("What variants does {ENUM} have in {FILE}?");
    reveal_strlit("ENUM");
    assert(t.template.subrange(19, 25) =~= placeholder(t.params[0].0));
    reveal_strlit("FILE");
    assert(t.template.subrange(34, 40) =~= placeholder(t.params[1].0));
    assert forall|j: int| 0 <= j < t.params.len() implies #[trigger] contains(t.template, placeholder(t.params[j].0)) by {
        if j == 0 {
            assert(matches_at(t.template, placeholder(t.params[0].0), 19));
        }
        if j == 1 {
            assert(matches_at(t.template, placeholder(t.params[1].0), 34));
        }
    }
}

proof fn lemma_placeholders_24()
    ensures
        placeholders_present(template_entry_24()),
{
    let t = template_entry_24();
    reveal_strlit("What traits does {TYPE} implement in {FILE}?");
    reveal_strlit("TYPE");
    assert(t.template.subrange(17, 23) =~= placeholder(t.params[0].0));
    reveal_strlit("FILE");
    assert(t.template.subrange(37, 43) =~= placeholder(t.params[1].0));
    assert forall|j: int| 0 <= j < t.params.len() implies #[trigger] contains(t.template, placeholder(t.params[j].0)) by {
        if j == 0 {
            assert(matches_at(t.template, placeholder(t.params[0].0), 17));
        }
        if j == 1 {
            assert(matches_at(t.template, placeholder(t.params[1].0), 37));
        }
    }
}

proof fn lemma_placeholders_25()
    ensures
        placeholders_present(template_entry_25()),
{
    let t = template_entry_25();
    reveal_strlit("Count the error handling patterns (Result, ?, unwrap, expect) in {FILE}");
    reveal_strlit("FILE");
    assert(t.template.subrange(65, 71) =~= placeholder(t.params[0].0));
    assert forall|j: int| 0 <= j < t.params.len() implies #[trigger] contains(t.template, placeholder(t.params[j].0)) by {
        if j == 0 {
            assert(matches_at(t.template, placeholder(t.params[0].0), 65));
        }
    }
}

proof fn lemma_placeholders_26()
    ensures
        placeholders_present(template_entry_26()),
{
    let t = template_entry_26();
    reveal_strlit("List all methods defined in impl blocks in {FILE}");
    reveal_strlit("FILE");
    assert(t.template.subrange(43, 49) =~= placeholder(t.params[0].0));
    assert forall|j: int| 0 <= j < t.params.len() implies #[trigger] contains(t.template, placeholder(t.params[j].0)) by {
        if j == 0 {
            assert(matches_at(t.template, placeholder(t.params[0].0), 43));
        }
    }
}

/// Every template of the table has its placeholders in its text and at
/// least one example value; the table holds 27 templates: 15 grep, 12 AST
/// and no semantic ones.
pub proof fn law_template_contents()
    ensures
        forall|i: int| 0 <= i < template_table().len() ==> placeholders_present(#[trigger] template_table()[i])
            && template_table()[i].example.len() > 0,
        template_table().len() == 27,
        of_kind(template_table(), TemplateKind::Grep).len() == 15,
        of_kind(template_table(), TemplateKind::Ast).len() == 12,
        of_kind(template_table(), TemplateKind::Semantic).len() == 0,
{
    let ts = template_table();
    assert forall|i: int| 0 <= i < ts.len() implies placeholders_present(#[trigger] ts[i]) && ts[i].example.len()
        > 0 by {
        lemma_entry(i);
    }
    lemma_kind_counts();
}

proof fn lemma_entry(i: int)
    requires
        0 <= i < 27,
    ensures
        placeholders_present(template_table()[i]),
        template_table()[i].example.len() > 0,
{
    if i == 0 {
        lemma_placeholders_0();
        assert(template_table()[0] == template_entry_0());
    }
    if i == 1 {
        lemma_placeholders_1();
        assert(template_table()[1] == template_entry_1());
    }
    if i == 2 {
        lemma_placeholders_2();
        assert(template_table()[2] == template_entry_2());
    }
    if i == 3 {
        lemma_placeholders_3();
        assert(template_table()[3] == template_entry_3());
    }
    if i == 4 {
        lemma_placeholders_4();
        assert(template_table()[4] == template_entry_4());
    }
    if i == 5 {
        lemma_placeholders_5();
        assert(template_table()[5] == template_entry_5());
    }
    if i == 6 {
        lemma_placeholders_6();
        assert(template_table()[6] == template_entry_6());
    }
    if i == 7 {
        lemma_placeholders_7();
        assert(template_table()[7] == template_entry_7());
    }
    if i == 8 {
        lemma_placeholders_8();
        assert(template_table()[8] == template_entry_8());
    }
    if i == 9 {
        lemma_placeholders_9();
        assert(template_table()[9] == template_entry_9());
    }
    if i == 10 {
        lemma_placeholders_10();
        assert(template_table()[10] == template_entry_10());
    }
    if i == 11 {
        lemma_placeholders_11();
        assert(template_table()[11] == template_entry_11());
    }
    if i == 12 {
        lemma_placeholders_12();
        assert(template_table()[12] == template_entry_12());
    }
    if i == 13 {
        lemma_placeholders_13();
        assert(template_table()[13] == template_entry_13());
    }
    if i == 14 {
        lemma_placeholders_14();
        assert(template_table()[14] == template_entry_14());
    }
    if i == 15 {
        lemma_placeholders_15();
        assert(template_table()[15] == template_entry_15());
    }
    if i == 16 {
        lemma_placeholders_16();
        assert(template_table()[16] == template_entry_16());
    }
    if i == 17 {
        lemma_placeholders_17();
        assert(template_table()[17] == template_entry_17());
    }
    if i == 18 {
        lemma_placeholders_18();
        assert(template_table()[18] == template_entry_18());
    }
    if i == 19 {
        lemma_placeholders_19();
        assert(template_table()[19] == template_entry_19());
    }
    if i == 20 {
        lemma_placeholders_20();
        assert(template_table()[20] == template_entry_20());
    }
    if i == 21 {
        lemma_placeholders_21();
        assert(template_table()[21] == template_entry_21());
    }
    if i == 22 {
        lemma_placeholders_22();
        assert(template_table()[22] == template_entry_22());
    }
    if i == 23 {
        lemma_placeholders_23();
        assert(template_table()[23] == template_entry_23());
    }
    if i == 24 {
        lemma_placeholders_24();
        assert(template_table()[24] == template_entry_24());
    }
    if i == 25 {
        lemma_placeholders_25();
        assert(template_table()[25] == template_entry_25());
    }
    if i == 26 {
        lemma_placeholders_26();
        assert(template_table()[26] == template_entry_26());
    }
}

proof fn lemma_of_kind_uniform(s: Seq<TemplateView>, k: TemplateKind, other: TemplateKind)
    requires
        forall|i: int| 0 <= i < s.len() ==> (#[trigger] s[i]).kind == k,
        other != k,
    ensures
        of_kind(s, k) == s,
        of_kind(s, other).len() == 0,
    decreases s.len(),
{
    if s.len() > 0 {
        lemma_of_kind_uniform(s.drop_last(), k, other);
        assert(s.drop_last().push(s.last()) =~= s);
    }
}

proof fn lemma_kind_counts()
    ensures
        of_kind(template_table(), TemplateKind::Grep).len() == 15,
        of_kind(template_table(), TemplateKind::Ast).len() == 12,
        of_kind(template_table(), TemplateKind::Semantic).len() == 0,
{
    let ts = template_table();
    let g = ts.take(15);
    let a = ts.skip(15);
    assert(ts =~= g + a);
    assert forall|i: int| 0 <= i < g.len() implies (#[trigger] g[i]).kind == TemplateKind::Grep by {
        if i == 0 {
            assert(g[0] == template_entry_0());
        }
        if i == 1 {
            assert(g[1] == template_entry_1());
        }
        if i == 2 {
            assert(g[2] == template_entry_2());
        }
        if i == 3 {
            assert(g[3] == template_entry_3());
        }
        if i == 4 {
            assert(g[4] == template_entry_4());
        }
        if i == 5 {
            assert(g[5] == template_entry_5());
        }
        if i == 6 {
            assert(g[6] == template_entry_6());
        }
        if i == 7 {
            assert(g[7] == template_entry_7());
        }
        if i == 8 {
            assert(g[8] == template_entry_8());
        }
        if i == 9 {
            assert(g[9] == template_entry_9());
        }
        if i == 10 {
            assert(g[10] == template_entry_10());
        }
        if i == 11 {
            assert(g[11] == template_entry_11());
        }
        if i == 12 {
            assert(g[12] == template_entry_12());
        }
        if i == 13 {
            assert(g[13] == template_entry_13());
        }
        if i == 14 {
            assert(g[14] == template_entry_14());
        }
    }
    assert forall|i: int| 0 <= i < a.len() implies (#[trigger] a[i]).kind == TemplateKind::Ast by {
        if i == 0 {
            assert(a[0] == template_entry_15());
        }
        if i == 1 {
            assert(a[1] == template_entry_16());
        }
        if i == 2 {
            assert(a[2] == template_entry_17());
        }
        if i == 3 {
            assert(a[3] == template_entry_18());
        }
        if i == 4 {
            assert(a[4] == template_entry_19());
        }
        if i == 5 {
            assert(a[5] == template_entry_20());
        }
        if i == 6 {
            assert(a[6] == template_entry_21());
        }
        if i == 7 {
            assert(a[7] == template_entry_22());
        }
        if i == 8 {
            assert(a[8] == template_entry_23());
        }
        if i == 9 {
            assert(a[9] == template_entry_24());
        }
        if i == 10 {
            assert(a[10] == template_entry_25());
        }
        if i == 11 {
            assert(a[11] == template_entry_26());
        }
    }
    lemma_of_kind_uniform(g, TemplateKind::Grep, TemplateKind::Ast);
    lemma_of_kind_uniform(g, TemplateKind::Grep, TemplateKind::Semantic);
    lemma_of_kind_uniform(a, TemplateKind::Ast, TemplateKind::Grep);
    lemma_of_kind_uniform(a, TemplateKind::Ast, TemplateKind::Semantic);
    lemma_of_kind_concat(g, a, TemplateKind::Grep);
    lemma_of_kind_concat(g, a, TemplateKind::Ast);
    lemma_of_kind_concat(g, a, TemplateKind::Semantic);
}

proof fn lemma_next_match_bounds(ts: Seq<TemplateView>, from: int, kind: Option<TemplateKind>)
    requires
        0 <= from,
    ensures
        from <= next_match(ts, from, kind) || from >= ts.len(),
        next_match(ts, from, kind) <= ts.len(),
        next_match(ts, from, kind) < ts.len() ==> (kind is None || ts[next_match(ts, from, kind)].kind
            == kind.unwrap()),
        forall|j: int| from <= j < next_match(ts, from, kind) ==> !(kind is None || (#[trigger] ts[j]).kind
            == kind.unwrap()),
    decreases ts.len() - from,
{
    if from < ts.len() && !(kind is None || ts[from].kind == kind.unwrap()) {
        lemma_next_match_bounds(ts, from + 1, kind);
    }
}

impl TemplateIter {
    /// The next matching template, advancing past it.
    pub fn next(&mut self) -> (r: Option<QueryTemplate>)
        ensures
            final(self).kind == old(self).kind,
            next_match(template_table(), old(self).index as int, old(self).kind) < template_table().len()
                ==> (r matches Some(t) && t@ == template_table()[next_match(
                template_table(),
                old(self).index as int,
                old(self).kind,
            )] && final(self).index == next_match(template_table(), old(self).index as int, old(self).kind)
                + 1),
            next_match(template_table(), old(self).index as int, old(self).kind) >= template_table().len()
                ==> r is None && final(self).index == (if old(self).index >= template_table().len() {
                old(self).index as int
            } else {
                template_table().len() as int
            }),
    {
        let all = QueryTemplate::all();
        let ghost table = template_table();
        proof {
            lemma_next_match_bounds(table, self.index as int, self.kind);
        }
        let mut rest = all;
        while self.index < rest.len()
            invariant
                table == template_table(),
                rest@.len() == table.len(),
                forall|k: int| 0 <= k < table.len() ==> (#[trigger] rest@[k])@ == table[k],
                self.kind == old(self).kind,
                old(self).index <= self.index || old(self).index >= table.len(),
                next_match(table, self.index as int, self.kind) == next_match(
                    table,
                    old(self).index as int,
                    old(self).kind,
                ),
                old(self).index >= table.len() ==> self.index == old(self).index,
                old(self).index < table.len() ==> self.index <= table.len(),
            decreases table.len() - self.index,
        {
            let i = self.index;
            assert(rest@[i as int]@ == table[i as int]);
            let matches = match self.kind {
                Some(k) => rest[i].kind == k,
                None => true,
            };
            if matches {
                assert(next_match(table, i as int, self.kind) == i);
                self.index = i + 1;
                let t = rest.swap_remove(i);
                return Some(t);
            }
            assert(next_match(table, i as int, self.kind) == next_match(table, i + 1, self.kind));
            self.index = i + 1;
        }
        assert(next_match(table, self.index as int, self.kind) == table.len());
        None
    }

    /// The number of matching templates left.
    pub fn count(self) -> (r: usize)
        ensures
            r == count_from(template_table(), self.index as int, self.kind),
    {
        let all = QueryTemplate::all();
        let ghost table = template_table();
        let mut i = self.index;
        let mut c: usize = 0;
        while i < all.len()
            invariant
                all@.len() == table.len(),
                forall|k: int| 0 <= k < table.len() ==> (#[trigger] all@[k])@ == table[k],
                self.index <= i,
                c + count_from(table, i as int, self.kind) == count_from(table, self.index as int, self.kind),
                c <= i,
            decreases table.len() - i,
        {
            let matches = match self.kind {
                Some(k) => all[i].kind == k,
                None => true,
            };
            assert(all@[i as int]@ == table[i as int]);
            if matches {
                c = c + 1;
            }
            i += 1;
        }
        c
    }
}

} // verus!
