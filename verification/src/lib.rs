//! Verified core of the recursive-language-model (RLM) toolkit: content
//! chunking, the analysis REPL, query templates, routing decisions, tool
//! dispatch and the deterministic answer oracles.

pub mod text;
pub mod chunker;
pub mod capability;
pub mod pattern;
pub mod oracle;
pub mod grep_oracle;
pub mod templates;
pub mod assoc;
pub mod ast;
pub mod repl;
pub mod json;
pub mod tools;
pub mod router;
pub mod payload;
pub mod validator;
pub mod validation;
pub mod executor;
pub mod analysis;
pub mod storage;
pub mod external;
