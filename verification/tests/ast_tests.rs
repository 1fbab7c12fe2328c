use codetether_agent::ast::{ast_query_listing, TreeSitterOracle};

fn sample_rust_code() -> String {
    r#"
use anyhow::Result;

pub struct Config {
    pub debug: bool,
    pub timeout: u64,
}

impl Config {
    pub fn new() -> Self {
        Self { debug: false, timeout: 30 }
    }
    
    pub fn with_debug(mut self) -> Self {
        self.debug = true;
        self
    }
}

pub async fn process(input: &str) -> Result<String> {
    let data = parse(input)?;
    Ok(data.to_uppercase())
}

fn parse(input: &str) -> Result<String> {
    if input.is_empty() {
        return Err(anyhow!("empty input"));
    }
    Ok(input.to_string())
}

enum Status {
    Active,
    Inactive,
    Pending,
}
"#
    .to_string()
}

#[test]
fn get_functions_finds_all() {
    let mut oracle = TreeSitterOracle::new(sample_rust_code());
    let functions = oracle.get_functions().unwrap();
    assert!(functions.len() >= 3);
    let names: Vec<&str> = functions.iter().map(|f| f.name.as_str()).collect();
    assert!(names.contains(&"new"));
    assert!(names.contains(&"with_debug"));
    assert!(names.contains(&"process"));
    assert!(names.contains(&"parse"));
}

#[test]
fn get_structs_finds_all() {
    let mut oracle = TreeSitterOracle::new(sample_rust_code());
    let structs = oracle.get_structs().unwrap();
    assert!(structs.len() >= 1);
    let config_struct = structs.iter().find(|s| s.name == "Config").unwrap();
    assert!(config_struct.fields.contains(&"debug".to_string()));
    assert!(config_struct.fields.contains(&"timeout".to_string()));
}

#[test]
fn get_enums_finds_all() {
    let mut oracle = TreeSitterOracle::new(sample_rust_code());
    let enums = oracle.get_enums().unwrap();
    assert!(enums.len() >= 1);
    let status_enum = enums.iter().find(|e| e.name == "Status").unwrap();
    assert!(status_enum.variants.contains(&"Active".to_string()));
    assert!(status_enum.variants.contains(&"Inactive".to_string()));
}

#[test]
fn count_error_patterns() {
    let mut oracle = TreeSitterOracle::new(sample_rust_code());
    let counts = oracle.count_error_patterns().unwrap();
    assert!(counts.result_types >= 2);
    assert!(counts.try_operators >= 1);
}

#[test]
fn function_signatures_carry_lines_and_return_types() {
    let mut oracle = TreeSitterOracle::new(sample_rust_code());
    let functions = oracle.get_functions().unwrap();
    let process = functions.iter().find(|f| f.name == "process").unwrap();
    assert_eq!(process.line, 20);
    assert_eq!(process.params, "(input: &str)");
    assert_eq!(process.return_type.as_deref(), Some("Result<String>"));
}

#[test]
fn impls_query_names_a_field_the_grammar_lacks() {
    let mut oracle = TreeSitterOracle::new(sample_rust_code());
    let err = oracle.get_impls().unwrap_err();
    assert!(err.contains("Invalid field name"));
}

#[test]
fn bad_query_is_an_error() {
    let mut oracle = TreeSitterOracle::new(sample_rust_code());
    assert!(oracle.query("(not_a_node_kind").is_err());
}

#[test]
fn listing_names_captures() {
    let listing = ast_query_listing("fn a() {}\nfn b() {}\n".to_string(), "(function_item name: (identifier) @name)");
    assert!(listing.contains("a"));
    assert!(listing.contains("b"));
}
