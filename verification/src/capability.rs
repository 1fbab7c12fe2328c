//! Per-tool output capability classification.
//!
//! Consulted before any routing decision: only bulk-summarizable tools
//! are ever destructively summarized; everything else is left intact.

use vstd::prelude::*;
use crate::text::{chars_of, eq_str, equals_any, equals_one_of};

verus! {

/// What may be done with a tool's output.
#[derive(Debug, Clone, Copy, PartialEq, Eq, Structural)]
pub enum OutputCapability {
    /// Bulk web/aggregate output where a prose summary is an acceptable
    /// lossy projection.
    BulkSummarizable,
    /// Content-carrying output whose exact bytes may be needed later.
    ExactContent,
    /// Unknown tool, treated as exact content.
    Unknown,
}

/// The tools eligible for destructive routing.
pub open spec fn eligible_tool_names() -> Seq<&'static str> {
    seq!["webfetch", "websearch", "batch"]
}

/// The tools whose output carries exact bytes the agent may need later.
pub open spec fn exact_content_tool_names() -> Seq<&'static str> {
    seq![
        "read",
        "grep",
        "bash",
        "glob",
        "ls",
        "edit",
        "write",
        "session_recall",
        "notebook_read",
        "notebook_edit",
    ]
}

/// The capability of the tool named `tool`.
pub open spec fn capability_of(tool: Seq<char>) -> OutputCapability {
    if tool == "session_context"@ || equals_any(tool, eligible_tool_names()) {
        OutputCapability::BulkSummarizable
    } else if equals_any(tool, exact_content_tool_names()) {
        OutputCapability::ExactContent
    } else {
        OutputCapability::Unknown
    }
}

/// Tools eligible for destructive routing.
pub fn rlm_eligible_tools() -> (r: Vec<&'static str>)
    ensures
        r@ == eligible_tool_names(),
{
    let r = vec!["webfetch", "websearch", "batch"];
    assert(r@ =~= eligible_tool_names());
    r
}

/// Tools whose output carries exact bytes the agent may need later.
pub fn rlm_exact_content_tools() -> (r: Vec<&'static str>)
    ensures
        r@ == exact_content_tool_names(),
{
    let r = vec![
        "read",
        "grep",
        "bash",
        "glob",
        "ls",
        "edit",
        "write",
        "session_recall",
        "notebook_read",
        "notebook_edit",
    ];
    assert(r@ =~= exact_content_tool_names());
    r
}

/// Classifies a tool by name. `session_context` is the pseudo-tool used by
/// the compression pass and is the only summary-producing caller.
pub fn output_capability(tool_id: &str) -> (r: OutputCapability)
    ensures
        r == capability_of(tool_id@),
{
    let t = chars_of(tool_id);
    let eligible = rlm_eligible_tools();
    if eq_str(t.as_slice(), "session_context") || equals_one_of(t.as_slice(), eligible.as_slice()) {
        OutputCapability::BulkSummarizable
    } else {
        let exact = rlm_exact_content_tools();
        if equals_one_of(t.as_slice(), exact.as_slice()) {
            OutputCapability::ExactContent
        } else {
            OutputCapability::Unknown
        }
    }
}

} // verus!
