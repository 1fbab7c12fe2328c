//! Routing of large tool outputs: when an output would strain the model's
//! context window it is routed through recursive analysis, truncated with
//! a hint, or summarized by a fallback.

use vstd::prelude::*;
use crate::capability::eligible_tool_names;
use crate::chunker::{tokens_of, RlmChunker};
use crate::json::{json_str_field, str_field};
use crate::text::{
    chars_of, contains, decimal, decimal_string, eq_str, equals_any, equals_one_of, join, owned,
    push_str, string_from, views,
};

verus! {

/// Settings of the router: the mode (`"off"`, `"always"` or automatic),
/// the routing threshold as a share of the context window in thousandths,
/// and the loop's iteration and sub-call budgets.
#[derive(Debug, Clone)]
pub struct RlmConfig {
    pub mode: String,
    pub threshold_permille: u64,
    pub max_iterations: usize,
    pub max_subcalls: usize,
}

impl RlmConfig {
    /// The default settings: automatic mode, a threshold of 200‰ of the
    /// context window, 15 iterations and 50 sub-calls.
    pub fn default_config() -> (c: RlmConfig)
        ensures
            c.mode@ == "auto"@,
            c.threshold_permille == 200,
            c.max_iterations == 15,
            c.max_subcalls == 50,
    {
        RlmConfig { mode: owned("auto"), threshold_permille: 200, max_iterations: 15, max_subcalls: 50 }
    }
}

impl Default for RlmConfig {
    fn default() -> (c: RlmConfig)
        ensures
            c.mode@ == "auto"@,
            c.threshold_permille == 200,
            c.max_iterations == 15,
            c.max_subcalls == 50,
    {
        RlmConfig::default_config()
    }
}

/// Context for routing decisions.
#[derive(Debug, Clone)]
pub struct RoutingContext {
    pub tool_id: String,
    pub session_id: String,
    pub call_id: Option<String>,
    pub model_context_limit: usize,
    pub current_context_tokens: Option<usize>,
}

/// Result of a routing decision.
#[derive(Debug, Clone)]
pub struct RoutingResult {
    pub should_route: bool,
    pub reason: String,
    pub estimated_tokens: usize,
}

/// Progress update during processing.
#[derive(Debug, Clone)]
pub struct ProcessProgress {
    pub iteration: usize,
    pub max_iterations: usize,
    pub status: String,
}

/// Router for large content.
pub struct RlmRouter;

/// `n * permille / 1000`, saturating at `usize::MAX`.
pub open spec fn share_of(n: usize, permille: u64) -> usize {
    let v = (n as int) * (permille as int) / 1000;
    if v > usize::MAX {
        usize::MAX
    } else {
        v as usize
    }
}

/// The routing decision and its reason.
pub open spec fn route_spec(
    output: Seq<char>,
    tool: Seq<char>,
    limit: usize,
    current: Option<usize>,
    mode: Seq<char>,
    permille: u64,
) -> (bool, Seq<char>) {
    let est = tokens_of(output);
    if mode == "off"@ {
        (false, "rlm_mode_off"@)
    } else if mode == "always"@ {
        if equals_any(tool, eligible_tool_names()) {
            (true, "rlm_mode_always"@)
        } else {
            (false, "tool_not_eligible"@)
        }
    } else {
        let eligible = equals_any(tool, eligible_tool_names()) || tool == "session_context"@;
        if est > share_of(limit, permille) {
            (true, if eligible { "exceeds_threshold"@ } else { "exceeds_threshold_ineligible_tool"@ })
        } else if current is Some && current.unwrap() + est > share_of(limit, 800) && est * 2
            >= current.unwrap() + est {
            (true, if eligible { "would_overflow"@ } else { "would_overflow_ineligible_tool"@ })
        } else if !eligible {
            (false, "tool_not_eligible"@)
        } else {
            (false, "within_threshold"@)
        }
    }
}

/// Routing is monotone in the size of the output: with the same tool,
/// limits, context and configuration, an output of at least as many
/// estimated tokens as a routed one is routed too.
pub proof fn law_routing_monotone(
    small: Seq<char>,
    large: Seq<char>,
    tool: Seq<char>,
    limit: usize,
    current: Option<usize>,
    mode: Seq<char>,
    permille: u64,
)
    requires
        tokens_of(small) <= tokens_of(large),
        route_spec(small, tool, limit, current, mode, permille).0,
    ensures
        route_spec(large, tool, limit, current, mode, permille).0,
{
}

/// The hint appended to a truncated output.
pub open spec fn hint_spec(tool: Seq<char>, args: Seq<char>, tokens: usize) -> Seq<char> {
    let base = "⚠️ OUTPUT TOO LARGE ("@ + decimal(tokens as nat) + " tokens). Use RLM for full analysis:"@;
    if tool == "read"@ {
        let path = match json_str_field(args, "filePath"@) {
            Some(p) => p,
            None => "..."@,
        };
        base + "\n```\nrlm({ query: \"Analyze this file\", content_paths: [\""@ + path + "\"] })\n```"@
    } else if tool == "bash"@ {
        base + "\n```\nrlm({ query: \"Analyze this command output\", content: \"<paste or use content_paths>\" })\n```"@
    } else if tool == "grep"@ {
        let pattern = match json_str_field(args, "pattern"@) {
            Some(p) => p,
            None => "..."@,
        };
        let glob = match json_str_field(args, "include"@) {
            Some(p) => p,
            None => "*"@,
        };
        base + "\n```\nrlm({ query: \"Summarize search results for "@ + pattern + "\", content_glob: \""@ + glob
            + "\" })\n```"@
    } else {
        base + "\n```\nrlm({ query: \"Summarize this output\", content: \"...\" })\n```"@
    }
}

/// The characters kept from the head and the tail of a truncated output.
pub open spec fn head_chars(max_tokens: usize) -> int {
    (max_tokens as int) * 4 * 3 / 5
}

/// The characters kept from the tail of a truncated output.
pub open spec fn tail_chars(max_tokens: usize) -> int {
    (max_tokens as int) * 4 * 3 / 10
}

/// The head kept of a truncated output.
pub open spec fn kept_head(output: Seq<char>, max_tokens: usize) -> Seq<char> {
    output.take(if head_chars(max_tokens) < output.len() { head_chars(max_tokens) } else { output.len() as int })
}

/// The tail kept of a truncated output.
pub open spec fn kept_tail(output: Seq<char>, max_tokens: usize) -> Seq<char> {
    output.skip(if tail_chars(max_tokens) < output.len() { output.len() - tail_chars(max_tokens) } else { 0 })
}

/// `smart_truncate`: the text, whether it was truncated, and the estimated
/// tokens of the output.
pub open spec fn truncate_spec(output: Seq<char>, tool: Seq<char>, args: Seq<char>, max_tokens: usize) -> (
    Seq<char>,
    bool,
    usize,
) {
    let est = tokens_of(output);
    if est <= max_tokens {
        (output, false, est as usize)
    } else {
        let head = kept_head(output, max_tokens);
        let tail = kept_tail(output, max_tokens);
        let omitted = if tokens_of(head) + tokens_of(tail) <= est {
            est - tokens_of(head) - tokens_of(tail)
        } else {
            0
        };
        (
            head + "\n\n[... "@ + decimal(omitted as nat) + " tokens truncated ...]\n\n"@ + hint_spec(
                tool,
                args,
                est as usize,
            ) + "\n\n"@ + tail,
            true,
            est as usize,
        )
    }
}

impl RlmRouter {
    /// Decides whether a tool output should be routed through analysis.
    pub fn should_route(output: &str, ctx: &RoutingContext, config: &RlmConfig) -> (r: RoutingResult)
        requires
            ctx.current_context_tokens matches Some(c) ==> c + tokens_of(output@) <= usize::MAX,
        ensures
            r.estimated_tokens == tokens_of(output@),
            (r.should_route, r.reason@) == route_spec(
                output@,
                ctx.tool_id@,
                ctx.model_context_limit,
                ctx.current_context_tokens,
                config.mode@,
                config.threshold_permille,
            ),
    {
        let estimated_tokens = RlmChunker::estimate_tokens(output);
        let mode = chars_of(config.mode.as_str());
        let tool = chars_of(ctx.tool_id.as_str());
        let eligible_list = crate::capability::rlm_eligible_tools();
        if eq_str(mode.as_slice(), "off") {
            return RoutingResult { should_route: false, reason: owned("rlm_mode_off"), estimated_tokens };
        }
        if eq_str(mode.as_slice(), "always") {
            if !equals_one_of(tool.as_slice(), eligible_list.as_slice()) {
                return RoutingResult { should_route: false, reason: owned("tool_not_eligible"), estimated_tokens };
            }
            return RoutingResult { should_route: true, reason: owned("rlm_mode_always"), estimated_tokens };
        }
        let eligible = equals_one_of(tool.as_slice(), eligible_list.as_slice()) || eq_str(
            tool.as_slice(),
            "session_context",
        );
        let threshold_tokens = share_exec(ctx.model_context_limit, config.threshold_permille);
        if estimated_tokens > threshold_tokens {
            let reason = if eligible {
                owned("exceeds_threshold")
            } else {
                owned("exceeds_threshold_ineligible_tool")
            };
            return RoutingResult { should_route: true, reason, estimated_tokens };
        }
        if let Some(current) = ctx.current_context_tokens {
            let projected_total = current + estimated_tokens;
            let overflow_limit = share_exec(ctx.model_context_limit, 800);
            assert(estimated_tokens * 2 <= usize::MAX) by {
                assert(estimated_tokens <= usize::MAX / 4 + 1);
            }
            let output_dominates = estimated_tokens * 2 >= projected_total;
            if projected_total > overflow_limit && output_dominates {
                let reason = if eligible {
                    owned("would_overflow")
                } else {
                    owned("would_overflow_ineligible_tool")
                };
                return RoutingResult { should_route: true, reason, estimated_tokens };
            }
        }
        if !eligible {
            return RoutingResult { should_route: false, reason: owned("tool_not_eligible"), estimated_tokens };
        }
        RoutingResult { should_route: false, reason: owned("within_threshold"), estimated_tokens }
    }
}

fn share_exec(n: usize, permille: u64) -> (r: usize)
    ensures
        r == share_of(n, permille),
{
    let a = n as u128;
    let b = permille as u128;
    assert(a * b <= u128::MAX) by (nonlinear_arith)
        requires
            a <= u64::MAX,
            b <= u64::MAX,
    ;
    let v: u128 = a * b / 1000;
    if v > usize::MAX as u128 {
        usize::MAX
    } else {
        v as usize
    }
}


/// The lines of `s` (as `str::lines`), the first `k` of them.
pub open spec fn first_lines(ls: Seq<Seq<char>>, k: int) -> Seq<Seq<char>> {
    ls.take(if k < ls.len() { k } else { ls.len() as int })
}

/// The last `k` lines.
pub open spec fn last_lines(ls: Seq<Seq<char>>, k: int) -> Seq<Seq<char>> {
    ls.skip(if k < ls.len() { ls.len() - k } else { 0 })
}

/// The summary of a content that routing explores: its size, its head and its tail.
pub open spec fn exploration_spec(content: Seq<char>, input_tokens: usize) -> Seq<char> {
    let ls = crate::text::lines_of(content);
    "=== CONTEXT EXPLORATION ===\nTotal: "@ + decimal(crate::text::byte_len(content) as nat) + " chars, "@
        + decimal(ls.len()) + " lines, ~"@ + decimal(input_tokens as nat) + " tokens\n\n=== FIRST 30 LINES ===\n"@
        + join(first_lines(ls, 30), "\n"@) + "\n\n=== LAST 50 LINES ===\n"@ + join(last_lines(ls, 50), "\n"@)
        + "\n=== END EXPLORATION ==="@
}

/// The system prompt of an analysis of a tool's output.
pub open spec fn system_prompt_spec(input_tokens: usize, tool: Seq<char>, query: Seq<char>) -> Seq<char> {
    let context_type = if tool == "session_context"@ { "conversation history"@ } else { "tool output"@ };
    "You are tasked with analyzing large content that cannot fit in a normal context window.\n\nThe content is a "@ + context_type + " with "@ + decimal(input_tokens as nat) + " total tokens.\n\nYOUR TASK: "@ + query + "\n\n## Analysis Strategy\n\n1. First, examine the exploration (head + tail of content) to understand structure\n2. Identify the most important information for answering the query\n3. Focus on: errors, key decisions, file paths, recent activity\n4. Provide a concise but complete answer\n\nWhen ready, call FINAL(\"your detailed answer\") with your findings.\n\nBe SPECIFIC - include actual file paths, function names, error messages. Generic summaries are not useful."@
}

/// A string argument, or `default`.
pub open spec fn arg_or(args: Seq<char>, key: Seq<char>, default: Seq<char>) -> Seq<char> {
    match json_str_field(args, key) {
        Some(v) => v,
        None => default,
    }
}

/// The analysis question asked of a tool's output, by the tool.
pub open spec fn tool_query_spec(tool: Seq<char>, args: Seq<char>) -> Seq<char> {
    if tool == "read"@ {
        "Summarize the key contents of file \""@ + arg_or(args, "filePath"@, "unknown"@)
            + "\". Focus on: structure, main functions/classes, important logic. Be concise."@
    } else if tool == "bash"@ {
        "Summarize the command output. Extract key information, results, errors, warnings. Be concise."@
    } else if tool == "grep"@ {
        "Summarize search results for \""@ + arg_or(args, "pattern"@, "pattern"@)
            + "\". Group by file, highlight most relevant matches. Be concise."@
    } else if tool == "glob"@ {
        "Summarize the file listing. Group by directory, highlight important files. Be concise."@
    } else if tool == "webfetch"@ {
        "Extract and summarize the main human-readable content from this fetched web page (URL: "@ + arg_or(
            args,
            "url"@,
            "unknown"@,
        )
            + "). Ignore scripts, styles, navigation, cookie banners, and boilerplate. Preserve headings, lists, code blocks, and important links. Be concise."@
    } else if tool == "websearch"@ {
        "Summarize these web search results for query: \""@ + arg_or(args, "query"@, "unknown"@)
            + "\". List the most relevant results with titles and URLs, and note why each is relevant. Be concise."@
    } else if tool == "batch"@ {
        "Summarize the batch tool output. Group by sub-call, highlight failures/errors first, then key results. Keep actionable details: URLs, file paths, command outputs, and next steps."@
    } else if tool == "session_context"@ {
        "You are a CONTEXT MEMORY SYSTEM. Create a BRIEFING for an AI assistant to continue this conversation.\n\nCRITICAL: The assistant will ONLY see your briefing - it has NO memory of the conversation.\n\n## What to Extract\n\n1. **PRIMARY GOAL**: What is the user ultimately trying to achieve?\n2. **CURRENT STATE**: What has been accomplished? Current status?\n3. **LAST ACTIONS**: What just happened? (last 3-5 tool calls, their results)\n4. **ACTIVE FILES**: Which files were modified?\n5. **PENDING TASKS**: What remains to be done?\n6. **CRITICAL DETAILS**: File paths, error messages, specific values, decisions made\n7. **NEXT STEPS**: What should happen next?\n\nBe SPECIFIC with file paths, function names, error messages."@
    } else {
        "Summarize this output concisely, extracting the most important information."@
    }
}

impl RlmRouter {
    fn build_rlm_hint(tool_id: &str, args: &str, tokens: usize) -> (r: String)
        ensures
            r@ == hint_spec(tool_id@, args@, tokens),
    {
        let mut base = owned("⚠️ OUTPUT TOO LARGE (");
        let d = decimal_string(tokens);
        push_str(&mut base, d.as_str());
        push_str(&mut base, " tokens). Use RLM for full analysis:");
        let t = chars_of(tool_id);
        if eq_str(t.as_slice(), "read") {
            let path = match str_field(args, "filePath") {
                Some(p) => p,
                None => owned("..."),
            };
            push_str(&mut base, "\n```\nrlm({ query: \"Analyze this file\", content_paths: [\"");
            push_str(&mut base, path.as_str());
            push_str(&mut base, "\"] })\n```");
        } else if eq_str(t.as_slice(), "bash") {
            push_str(&mut base, "\n```\nrlm({ query: \"Analyze this command output\", content: \"<paste or use content_paths>\" })\n```");
        } else if eq_str(t.as_slice(), "grep") {
            let pattern = match str_field(args, "pattern") {
                Some(p) => p,
                None => owned("..."),
            };
            let glob = match str_field(args, "include") {
                Some(p) => p,
                None => owned("*"),
            };
            push_str(&mut base, "\n```\nrlm({ query: \"Summarize search results for ");
            push_str(&mut base, pattern.as_str());
            push_str(&mut base, "\", content_glob: \"");
            push_str(&mut base, glob.as_str());
            push_str(&mut base, "\" })\n```");
        } else {
            push_str(&mut base, "\n```\nrlm({ query: \"Summarize this output\", content: \"...\" })\n```");
        }
        base
    }

    /// Truncates a large output to its head and tail with a hint; returns
    /// the text, whether it was truncated, and the output's estimated tokens.
    /// The count of omitted tokens is zero when head and tail overlap.
    pub fn smart_truncate(output: &str, tool_id: &str, tool_args: &str, max_tokens: usize) -> (r: (
        String,
        bool,
        usize,
    ))
        ensures
            (r.0@, r.1, r.2) == truncate_spec(output@, tool_id@, tool_args@, max_tokens),
    {
        let estimated_tokens = RlmChunker::estimate_tokens(output);
        if estimated_tokens <= max_tokens {
            return (owned(output), false, estimated_tokens);
        }
        let n = output.len();
        assert(n == crate::text::byte_len(output@));
        assert(max_tokens * 4 <= usize::MAX) by (nonlinear_arith)
            requires
                estimated_tokens == (n + 3) / 4,
                n <= usize::MAX,
                max_tokens < estimated_tokens,
        ;
        let max_chars = max_tokens * 4;
        let head_n = max_chars / 5 * 3 + max_chars % 5 * 3 / 5;
        assert(head_n == head_chars(max_tokens)) by (nonlinear_arith)
            requires
                max_chars == max_tokens * 4,
                head_n == max_chars / 5 * 3 + max_chars % 5 * 3 / 5,
        ;
        let tail_n = max_chars / 10 * 3 + max_chars % 10 * 3 / 10;
        assert(tail_n == tail_chars(max_tokens)) by (nonlinear_arith)
            requires
                max_chars == max_tokens * 4,
                tail_n == max_chars / 10 * 3 + max_chars % 10 * 3 / 10,
        ;
        let cs = chars_of(output);
        let head = crate::text::take_chars(cs.as_slice(), head_n);
        let tail = crate::text::last_chars(cs.as_slice(), tail_n);
        let head_s = string_from(head.as_slice());
        let tail_s = string_from(tail.as_slice());
        let th = RlmChunker::estimate_tokens(head_s.as_str());
        let tt = RlmChunker::estimate_tokens(tail_s.as_str());
        let omitted = if th <= estimated_tokens && tt <= estimated_tokens - th {
            estimated_tokens - th - tt
        } else {
            0
        };
        let hint = Self::build_rlm_hint(tool_id, tool_args, estimated_tokens);
        let mut text = head_s;
        push_str(&mut text, "\n\n[... ");
        let d = decimal_string(omitted);
        push_str(&mut text, d.as_str());
        push_str(&mut text, " tokens truncated ...]\n\n");
        push_str(&mut text, hint.as_str());
        push_str(&mut text, "\n\n");
        push_str(&mut text, tail_s.as_str());
        (text, true, estimated_tokens)
    }

    fn build_exploration_summary(content: &str, input_tokens: usize) -> (r: String)
        ensures
            r@ == exploration_spec(content@, input_tokens),
    {
        let cs = chars_of(content);
        let lines = crate::text::split_lines(cs.as_slice());
        let n = lines.len();
        let h = if n < 30 {
            n
        } else {
            30
        };
        let t = if n < 50 {
            0
        } else {
            n - 50
        };
        let head = crate::text::join_range(&lines, 0, h, "\n");
        let tail = crate::text::join_range(&lines, t, n, "\n");
        proof {
            assert(crate::text::views(lines@).subrange(0, h as int) =~= first_lines(crate::text::views(lines@), 30));
            assert(crate::text::views(lines@).subrange(t as int, n as int) =~= last_lines(crate::text::views(lines@), 50));
        }
        let mut r = owned("=== CONTEXT EXPLORATION ===\nTotal: ");
        let bytes = content.len();
        assert(bytes == crate::text::byte_len(content@));
        push_str(&mut r, decimal_string(bytes).as_str());
        push_str(&mut r, " chars, ");
        push_str(&mut r, decimal_string(n).as_str());
        push_str(&mut r, " lines, ~");
        push_str(&mut r, decimal_string(input_tokens).as_str());
        push_str(&mut r, " tokens\n\n=== FIRST 30 LINES ===\n");
        push_str(&mut r, head.as_str());
        push_str(&mut r, "\n\n=== LAST 50 LINES ===\n");
        push_str(&mut r, tail.as_str());
        push_str(&mut r, "\n=== END EXPLORATION ===");
        r
    }

    fn build_rlm_system_prompt(input_tokens: usize, tool_id: &str, query: &str) -> (r: String)
        ensures
            r@ == system_prompt_spec(input_tokens, tool_id@, query@),
    {
        let t = chars_of(tool_id);
        let context_type = if eq_str(t.as_slice(), "session_context") {
            "conversation history"
        } else {
            "tool output"
        };
        let mut r = owned("You are tasked with analyzing large content that cannot fit in a normal context window.\n\nThe content is a ");
        push_str(&mut r, context_type);
        push_str(&mut r, " with ");
        push_str(&mut r, decimal_string(input_tokens).as_str());
        push_str(&mut r, " total tokens.\n\nYOUR TASK: ");
        push_str(&mut r, query);
        push_str(&mut r, "\n\n## Analysis Strategy\n\n1. First, examine the exploration (head + tail of content) to understand structure\n2. Identify the most important information for answering the query\n3. Focus on: errors, key decisions, file paths, recent activity\n4. Provide a concise but complete answer\n\nWhen ready, call FINAL(\"your detailed answer\") with your findings.\n\nBe SPECIFIC - include actual file paths, function names, error messages. Generic summaries are not useful.");
        r
    }

    fn build_query_for_tool(tool_id: &str, args: &str) -> (r: String)
        ensures
            r@ == tool_query_spec(tool_id@, args@),
    {
        let t = chars_of(tool_id);
        if eq_str(t.as_slice(), "read") {
            let path = match str_field(args, "filePath") {
                Some(p) => p,
                None => owned("unknown"),
            };
            let mut r = owned("Summarize the key contents of file \"");
            push_str(&mut r, path.as_str());
            push_str(&mut r, "\". Focus on: structure, main functions/classes, important logic. Be concise.");
            r
        } else if eq_str(t.as_slice(), "bash") {
            owned("Summarize the command output. Extract key information, results, errors, warnings. Be concise.")
        } else if eq_str(t.as_slice(), "grep") {
            let pattern = match str_field(args, "pattern") {
                Some(p) => p,
                None => owned("pattern"),
            };
            let mut r = owned("Summarize search results for \"");
            push_str(&mut r, pattern.as_str());
            push_str(&mut r, "\". Group by file, highlight most relevant matches. Be concise.");
            r
        } else if eq_str(t.as_slice(), "glob") {
            owned("Summarize the file listing. Group by directory, highlight important files. Be concise.")
        } else if eq_str(t.as_slice(), "webfetch") {
            let url = match str_field(args, "url") {
                Some(p) => p,
                None => owned("unknown"),
            };
            let mut r = owned("Extract and summarize the main human-readable content from this fetched web page (URL: ");
            push_str(&mut r, url.as_str());
            push_str(&mut r, "). Ignore scripts, styles, navigation, cookie banners, and boilerplate. Preserve headings, lists, code blocks, and important links. Be concise.");
            r
        } else if eq_str(t.as_slice(), "websearch") {
            let q = match str_field(args, "query") {
                Some(p) => p,
                None => owned("unknown"),
            };
            let mut r = owned("Summarize these web search results for query: \"");
            push_str(&mut r, q.as_str());
            push_str(&mut r, "\". List the most relevant results with titles and URLs, and note why each is relevant. Be concise.");
            r
        } else if eq_str(t.as_slice(), "batch") {
            owned("Summarize the batch tool output. Group by sub-call, highlight failures/errors first, then key results. Keep actionable details: URLs, file paths, command outputs, and next steps.")
        } else if eq_str(t.as_slice(), "session_context") {
            owned("You are a CONTEXT MEMORY SYSTEM. Create a BRIEFING for an AI assistant to continue this conversation.\n\nCRITICAL: The assistant will ONLY see your briefing - it has NO memory of the conversation.\n\n## What to Extract\n\n1. **PRIMARY GOAL**: What is the user ultimately trying to achieve?\n2. **CURRENT STATE**: What has been accomplished? Current status?\n3. **LAST ACTIONS**: What just happened? (last 3-5 tool calls, their results)\n4. **ACTIVE FILES**: Which files were modified?\n5. **PENDING TASKS**: What remains to be done?\n6. **CRITICAL DETAILS**: File paths, error messages, specific values, decisions made\n7. **NEXT STEPS**: What should happen next?\n\nBe SPECIFIC with file paths, function names, error messages.")
        } else {
            owned("Summarize this output concisely, extracting the most important information.")
        }
    }
}


/// A quote that can open a `FINAL` answer.
pub open spec fn is_quote(c: char) -> bool {
    c == '"' || c == '\'' || c == '`'
}

/// The first position of `p` in `s` (meaningful when `s` contains `p`).
pub open spec fn first_match(s: Seq<char>, p: Seq<char>) -> int {
    choose|i: int| crate::text::matches_at(s, p, i) && forall|j: int| 0 <= j < i ==> !crate::text::matches_at(s, p, j)
}

/// The first quote in `s` (meaningful when there is one).
pub open spec fn first_quote(s: Seq<char>) -> int {
    choose|i: int| 0 <= i < s.len() && is_quote(s[i]) && forall|j: int| 0 <= j < i ==> !is_quote(s[j])
}

/// `extract_final`: after the first `FINAL`, the text between the first
/// quote and the next occurrence of the character found at that quote's
/// byte offset taken as a character index; `None` when any step fails or
/// the answer is empty.
pub open spec fn extract_final_spec(text: Seq<char>) -> Option<Seq<char>> {
    if !contains(text, "FINAL"@) {
        None
    } else {
        let after = text.skip(first_match(text, "FINAL"@));
        if !(exists|i: int| 0 <= i < after.len() && is_quote(after[i])) {
            None
        } else {
            let o = first_quote(after);
            let b = crate::text::utf8_len(after.take(o));
            if b >= after.len() {
                None
            } else {
                let q = after[b as int];
                let content = after.skip(o + 1);
                if !content.contains(q) {
                    None
                } else {
                    let answer = content.take(crate::text::first_of(content, q));
                    if answer.len() > 0 {
                        Some(answer)
                    } else {
                        None
                    }
                }
            }
        }
    }
}

impl RlmRouter {
    fn extract_final(text: &str) -> (r: Option<String>)
        ensures
            match r {
                Some(a) => extract_final_spec(text@) == Some(a@),
                None => extract_final_spec(text@) is None,
            },
    {
        let cs = chars_of(text);
        let fin = chars_of("FINAL");
        let start = match crate::text::find(cs.as_slice(), fin.as_slice()) {
            Some(i) => i,
            None => {
                return None;
            },
        };
        proof {
            let k = first_match(cs@, "FINAL"@);
            assert(crate::text::matches_at(cs@, fin@, start as int) && forall|j: int| 0 <= j < start ==> !crate::text::matches_at(cs@, fin@, j));
            assert(k == start) by {
                if k < start {
                } else if k > start {
                }
            }
        }
        let after = crate::text::slice_to_vec(cs.as_slice(), start, cs.len());
        assert(after@ =~= cs@.skip(start as int));
        let mut o: usize = 0;
        while o < after.len() && !(after[o] == '"' || after[o] == '\'' || after[o] == '`')
            invariant
                o <= after.len(),
                forall|j: int| 0 <= j < o ==> !is_quote(after@[j]),
            decreases after.len() - o,
        {
            o += 1;
        }
        if o == after.len() {
            return None;
        }
        proof {
            let k = first_quote(after@);
            assert(0 <= o < after@.len() && is_quote(after@[o as int]) && forall|j: int| 0 <= j < o ==> !is_quote(after@[j]));
            assert(k == o) by {
                if k < o {
                } else if k > o {
                }
            }
        }
        let prefix = crate::text::slice_to_vec(after.as_slice(), 0, o);
        assert(prefix@ =~= after@.take(o as int));
        let b = match crate::text::utf8_len_below(prefix.as_slice(), after.len()) {
            Some(b) => b,
            None => {
                return None;
            },
        };
        let q = after[b];
        let content = crate::text::slice_to_vec(after.as_slice(), o + 1, after.len());
        assert(content@ =~= after@.skip(o + 1));
        let close = match crate::text::find_char(content.as_slice(), q) {
            Some(c) => c,
            None => {
                return None;
            },
        };
        if close == 0 {
            return None;
        }
        let answer = crate::text::slice_to_vec(content.as_slice(), 0, close);
        assert(answer@ =~= content@.take(close as int));
        Some(string_from(answer.as_slice()))
    }
}


/// The line names a source or data file.
pub open spec fn mentions_file(l: Seq<char>) -> bool {
    contains(l, ".ts"@) || contains(l, ".rs"@) || contains(l, ".py"@) || contains(l, ".json"@)
}

/// The line records a tool call.
pub open spec fn is_tool_call_line(l: Seq<char>) -> bool {
    contains(l, "[Tool "@)
}

/// The line reports an error or a failure.
pub open spec fn is_error_line(l: Seq<char>) -> bool {
    contains(crate::text::lowercase(l), "error"@) || contains(crate::text::lowercase(l), "failed"@)
}

/// The first `k` lines that satisfy `p`.
pub open spec fn first_matching(ls: Seq<Seq<char>>, p: spec_fn(Seq<char>) -> bool, k: nat) -> Seq<Seq<char>>
    decreases ls.len(),
{
    if ls.len() == 0 || k == 0 {
        Seq::empty()
    } else if p(ls[0]) {
        seq![ls[0]] + first_matching(ls.drop_first(), p, (k - 1) as nat)
    } else {
        first_matching(ls.drop_first(), p, k)
    }
}

/// The error lines as bullets, each cut to its first 150 characters.
pub open spec fn error_bullet_lines(errors: Seq<Seq<char>>) -> Seq<Seq<char>> {
    errors.map_values(|e: Seq<char>| "- "@ + e.take(if e.len() < 150 { e.len() as int } else { 150 }))
}

/// The heading lines of the fallback summary of a session context.
pub open spec fn summary_head_lines(ls: Seq<Seq<char>>, input_tokens: usize) -> Seq<Seq<char>> {
    let files = first_matching(ls, |l: Seq<char>| mentions_file(l), 15);
    let calls = first_matching(ls, |l: Seq<char>| is_tool_call_line(l), 10);
    let errors = first_matching(ls, |l: Seq<char>| is_error_line(l), 5);
    let intro = seq![
        "## Context Summary (Fallback Mode)"@,
        "*Original: "@ + decimal(input_tokens as nat) + " tokens - RLM processing produced insufficient output*"@,
        Seq::<char>::empty(),
    ];
    let file_part = if files.len() > 0 { seq!["**Files Mentioned:** "@ + decimal(files.len())] } else { Seq::empty() };
    let call_part = if calls.len() > 0 { seq!["**Recent Tool Calls:** "@ + join(calls, ", "@)] } else { Seq::empty() };
    let error_part = if errors.len() > 0 {
        seq!["**Recent Errors:**"@] + error_bullet_lines(errors)
    } else {
        Seq::empty()
    };
    intro + file_part + call_part + error_part
}

/// The closing lines of the fallback summary: the first and the last lines of the context.
pub open spec fn summary_tail_lines(ls: Seq<Seq<char>>) -> Seq<Seq<char>> {
    seq![
        Seq::<char>::empty(),
        "### Initial Request"@,
        "```"@,
        join(first_lines(ls, 30), "\n"@),
        "```"@,
        Seq::<char>::empty(),
        "### Recent Activity"@,
        "```"@,
        join(last_lines(ls, 80), "\n"@),
        "```"@,
    ]
}

/// The fallback summary of a session context.
pub open spec fn context_summary_spec(output: Seq<char>, input_tokens: usize) -> Seq<char> {
    let ls = crate::text::lines_of(output);
    join(summary_head_lines(ls, input_tokens) + summary_tail_lines(ls), "\n"@)
}

/// The fallback text of a tool output that analysis could not summarise.
pub open spec fn enhanced_fallback_spec(output: Seq<char>, tool: Seq<char>, args: Seq<char>, input_tokens: usize) -> Seq<char> {
    if tool == "session_context"@ {
        context_summary_spec(output, input_tokens)
    } else {
        "## Fallback Summary\n*RLM processing failed - showing structured excerpt*\n\n"@ + truncate_spec(output, tool, args, 8000).0
    }
}

/// Statistics of an analysis run.
#[derive(Debug, Clone)]
pub struct RlmStats {
    pub input_tokens: usize,
    pub output_tokens: usize,
    pub iterations: usize,
    pub subcalls: usize,
    pub elapsed_ms: u64,
}

/// The result of an analysis run.
#[derive(Debug, Clone)]
pub struct RlmResult {
    pub processed: String,
    pub stats: RlmStats,
    pub success: bool,
    pub error: Option<String>,
    pub trace_id: Option<String>,
}

fn lines_matching(lines: &Vec<String>, which: u8, k: usize) -> (r: Vec<String>)
    requires
        which < 3,
    ensures
        views(r@) == first_matching(
            views(lines@),
            if which == 0 {
                |l: Seq<char>| mentions_file(l)
            } else if which == 1 {
                |l: Seq<char>| is_tool_call_line(l)
            } else {
                |l: Seq<char>| is_error_line(l)
            },
            k as nat,
        ),
{
    let ghost p = if which == 0 {
        |l: Seq<char>| mentions_file(l)
    } else if which == 1 {
        |l: Seq<char>| is_tool_call_line(l)
    } else {
        |l: Seq<char>| is_error_line(l)
    };
    let ghost ls = views(lines@);
    let mut r: Vec<String> = Vec::new();
    let mut i: usize = 0;
    assert(ls.skip(0) =~= ls);
    assert(views(r@) + first_matching(ls, p, k as nat) =~= first_matching(ls, p, k as nat));
    while i < lines.len() && r.len() < k
        invariant
            i <= lines.len(),
            r.len() <= k,
            ls == views(lines@),
            p == (if which == 0 {
                |l: Seq<char>| mentions_file(l)
            } else if which == 1 {
                |l: Seq<char>| is_tool_call_line(l)
            } else {
                |l: Seq<char>| is_error_line(l)
            }),
            views(r@) + first_matching(ls.skip(i as int), p, (k - r.len()) as nat) == first_matching(ls, p, k as nat),
        decreases lines.len() - i,
    {
        let ghost rest = ls.skip(i as int);
        assert(rest[0] == lines@[i as int]@);
        assert(rest.drop_first() =~= ls.skip(i + 1));
        let lc = chars_of(lines[i].as_str());
        let hit = if which == 0 {
            crate::text::contains_str(lc.as_slice(), ".ts") || crate::text::contains_str(lc.as_slice(), ".rs")
                || crate::text::contains_str(lc.as_slice(), ".py") || crate::text::contains_str(lc.as_slice(), ".json")
        } else if which == 1 {
            crate::text::contains_str(lc.as_slice(), "[Tool ")
        } else {
            let low = crate::text::lowercase_chars(lc.as_slice());
            crate::text::contains_str(low.as_slice(), "error") || crate::text::contains_str(low.as_slice(), "failed")
        };
        assert(hit == p(rest[0]));
        if hit {
            let ghost before = views(r@);
            r.push(lines[i].clone());
            assert(views(r@) =~= before.push(rest[0]));
            assert(before.push(rest[0]) + first_matching(ls.skip(i + 1), p, (k - r.len()) as nat) =~= before + (seq![rest[0]]
                + first_matching(ls.skip(i + 1), p, (k - r.len()) as nat)));
        }
        i += 1;
    }
    proof {
        if r.len() == k {
            assert(first_matching(ls.skip(i as int), p, 0) =~= Seq::<Seq<char>>::empty());
        } else {
            assert(ls.skip(i as int) =~= Seq::<Seq<char>>::empty());
        }
        assert(views(r@) + Seq::<Seq<char>>::empty() =~= views(r@));
    }
    r
}

/// Each error line as a bullet, cut to its first 150 characters.
fn error_bullets(errors: &Vec<String>) -> (r: Vec<String>)
    ensures
        views(r@) == error_bullet_lines(views(errors@)),
{
    let ghost m = error_bullet_lines(views(errors@));
    let mut parts: Vec<String> = Vec::new();
    let mut i: usize = 0;
    while i < errors.len()
        invariant
            i <= errors.len(),
            m == error_bullet_lines(views(errors@)),
            views(parts@) == m.take(i as int),
        decreases errors.len() - i,
    {
        let ec = chars_of(errors[i].as_str());
        let first = crate::text::take_chars(ec.as_slice(), 150);
        let mut line = owned("- ");
        push_str(&mut line, string_from(first.as_slice()).as_str());
        let ghost lv = line@;
        assert(lv == m[i as int]);
        let ghost before = views(parts@);
        parts.push(line);
        assert(views(parts@) =~= before.push(lv));
        assert(m.take(i + 1) =~= m.take(i as int).push(lv));
        i += 1;
    }
    assert(m.take(errors.len() as int) =~= m);
    parts
}

fn summary_head(lines: &Vec<String>, input_tokens: usize) -> (parts: Vec<String>)
    ensures
        views(parts@) == summary_head_lines(views(lines@), input_tokens),
{
    let ghost ls = views(lines@);
    let files = lines_matching(lines, 0, 15);
    let calls = lines_matching(lines, 1, 10);
    let errors = lines_matching(lines, 2, 5);
    let mut parts: Vec<String> = Vec::new();
    parts.push(owned("## Context Summary (Fallback Mode)"));
    let mut orig = owned("*Original: ");
    push_str(&mut orig, decimal_string(input_tokens).as_str());
    push_str(&mut orig, " tokens - RLM processing produced insufficient output*");
    parts.push(orig);
    parts.push(String::new());
    let ghost p0 = views(parts@);
    if files.len() > 0 {
        let mut f = owned("**Files Mentioned:** ");
        push_str(&mut f, decimal_string(files.len()).as_str());
        parts.push(f);
    }
    let ghost p1 = views(parts@);
    if calls.len() > 0 {
        let mut c = owned("**Recent Tool Calls:** ");
        let joined = crate::text::join_strings(&calls, ", ");
        push_str(&mut c, joined.as_str());
        parts.push(c);
    }
    let ghost p2 = views(parts@);
    if errors.len() > 0 {
        parts.push(owned("**Recent Errors:**"));
        let ghost p2b = views(parts@);
        let mut bullets = error_bullets(&errors);
        let ghost bv = views(bullets@);
        parts.append(&mut bullets);
        assert(views(parts@) =~= p2b + bv);
    }
    proof {
        let intro = seq![
            "## Context Summary (Fallback Mode)"@,
            "*Original: "@ + decimal(input_tokens as nat) + " tokens - RLM processing produced insufficient output*"@,
            Seq::<char>::empty(),
        ];
        assert(p0 =~= intro);
        let fp = if views(files@).len() > 0 { seq!["**Files Mentioned:** "@ + decimal(views(files@).len())] } else { Seq::empty() };
        assert(p1 =~= p0 + fp);
        let cp = if views(calls@).len() > 0 { seq!["**Recent Tool Calls:** "@ + join(views(calls@), ", "@)] } else { Seq::empty() };
        assert(p2 =~= p1 + cp);
        let ep = if views(errors@).len() > 0 {
            seq!["**Recent Errors:**"@] + error_bullet_lines(views(errors@))
        } else {
            Seq::empty()
        };
        assert(views(parts@) =~= p2 + ep);
        assert(views(files@) == first_matching(ls, |l: Seq<char>| mentions_file(l), 15));
        assert(views(calls@) == first_matching(ls, |l: Seq<char>| is_tool_call_line(l), 10));
        assert(views(errors@) == first_matching(ls, |l: Seq<char>| is_error_line(l), 5));
    }
    parts
}

fn summary_tail(lines: &Vec<String>) -> (parts: Vec<String>)
    ensures
        views(parts@) == summary_tail_lines(views(lines@)),
{
    let ghost ls = views(lines@);
    let n = lines.len();
    let head = crate::text::join_range(lines, 0, if n < 30 { n } else { 30 }, "\n");
    let tail = crate::text::join_range(lines, if n < 80 { 0 } else { n - 80 }, n, "\n");
    assert(ls.subrange(0, if n < 30 { n as int } else { 30 }) =~= first_lines(ls, 30));
    assert(ls.subrange(if n < 80 { 0 } else { n - 80 }, n as int) =~= last_lines(ls, 80));
    let mut parts: Vec<String> = Vec::new();
    parts.push(String::new());
    parts.push(owned("### Initial Request"));
    parts.push(owned("```"));
    parts.push(head);
    parts.push(owned("```"));
    parts.push(String::new());
    parts.push(owned("### Recent Activity"));
    parts.push(owned("```"));
    parts.push(tail);
    parts.push(owned("```"));
    assert(views(parts@) =~= summary_tail_lines(ls));
    parts
}

fn context_summary(output: &str, input_tokens: usize) -> (r: String)
    ensures
        r@ == context_summary_spec(output@, input_tokens),
{
    let cs = chars_of(output);
    let lines = crate::text::split_lines(cs.as_slice());
    let mut parts = summary_head(&lines, input_tokens);
    let ghost hv = views(parts@);
    let mut tail = summary_tail(&lines);
    let ghost tv = views(tail@);
    parts.append(&mut tail);
    assert(views(parts@) =~= hv + tv);
    crate::text::join_strings(&parts, "\n")
}

impl RlmRouter {
    fn build_enhanced_fallback(output: &str, tool_id: &str, tool_args: &str, input_tokens: usize) -> (r: String)
        ensures
            r@ == enhanced_fallback_spec(output@, tool_id@, tool_args@, input_tokens),
    {
        let t = chars_of(tool_id);
        if eq_str(t.as_slice(), "session_context") {
            context_summary(output, input_tokens)
        } else {
            let (truncated, _, _) = Self::smart_truncate(output, tool_id, tool_args, 8000);
            let mut r = owned("## Fallback Summary\n*RLM processing failed - showing structured excerpt*\n\n");
            push_str(&mut r, truncated.as_str());
            r
        }
    }

    /// The result when the first model call fails: the truncated output.
    pub fn fallback_result(output: &str, tool_id: &str, tool_args: &str, input_tokens: usize) -> (r: RlmResult)
        ensures
            r.processed@ == "[RLM processing failed, showing truncated output]\n\n"@ + truncate_spec(
                output@,
                tool_id@,
                tool_args@,
                8000,
            ).0,
            r.stats.input_tokens == input_tokens,
            r.stats.output_tokens == tokens_of(truncate_spec(output@, tool_id@, tool_args@, 8000).0),
            r.stats.iterations == 0,
            r.stats.subcalls == 0,
            r.stats.elapsed_ms == 0,
            !r.success,
            r.error matches Some(e) && e@ == "Model call failed"@,
            r.trace_id is None,
    {
        let (truncated, _, _) = Self::smart_truncate(output, tool_id, tool_args, 8000);
        let output_tokens = RlmChunker::estimate_tokens(truncated.as_str());
        let mut processed = owned("[RLM processing failed, showing truncated output]\n\n");
        push_str(&mut processed, truncated.as_str());
        RlmResult {
            processed,
            stats: RlmStats { input_tokens, output_tokens, iterations: 0, subcalls: 0, elapsed_ms: 0 },
            success: false,
            error: Some(owned("Model call failed")),
            trace_id: None,
        }
    }
}


/// How an analysis run ended.
#[derive(Debug, Clone, Copy, PartialEq, Eq, Structural)]
pub enum RlmOutcome {
    /// A final answer was produced.
    Converged,
    /// The abort signal stopped the run.
    Aborted,
    /// The budget ran out without a final answer.
    Exhausted,
    /// The first model call failed.
    Failed,
}

impl RlmOutcome {
    /// Only a converged run succeeded.
    pub fn is_success(&self) -> (b: bool)
        ensures
            b == (*self == RlmOutcome::Converged),
    {
        match self {
            RlmOutcome::Converged => true,
            _ => false,
        }
    }
}

/// What an analysis run starts from: the output's tokens, the text analysed
/// (compressed when large), the query, the system prompt and the first
/// message.
pub struct AutoPlan {
    pub input_tokens: usize,
    pub processed_output: String,
    pub query: String,
    pub system_prompt: String,
    pub initial_prompt: String,
}

/// The text analysed: outputs above 50000 tokens are compressed to 40000.
pub open spec fn processed_spec(output: Seq<char>) -> Seq<char> {
    if tokens_of(output) > 50000 {
        crate::chunker::reassemble_spec(
            crate::chunker::select_spec(
                crate::chunker::chunk_spec(output, crate::chunker::ChunkOptions { max_chunk_tokens: 4000, preserve_recent: 100 }),
                40000,
            ),
        )
    } else {
        output
    }
}

/// The query of a run: the tool's query and the content hints.
pub open spec fn run_query_spec(output: Seq<char>, tool: Seq<char>, args: Seq<char>) -> Seq<char> {
    tool_query_spec(tool, args) + "\n\n## Content Analysis Hints\n"@ + crate::chunker::processing_hint(
        crate::chunker::detect_content_type_spec(output),
    )
}

/// The first message of a run.
pub open spec fn initial_prompt_spec(system: Seq<char>, processed: Seq<char>, input_tokens: usize) -> Seq<char> {
    system + "\n\nHere is the context exploration:\n```\n"@ + exploration_spec(processed, input_tokens)
        + "\n```\n\nNow analyze and answer the query."@
}

/// The state of an analysis loop.
pub struct AutoLoop {
    pub max_iterations: usize,
    pub max_subcalls: usize,
    pub iterations: usize,
    pub subcalls: usize,
    pub final_answer: Option<String>,
    pub aborted: bool,
    pub stopped: bool,
}

/// What to do after a failed model call.
#[derive(Debug, Clone, Copy, PartialEq, Eq, Structural)]
pub enum ModelFailureAction {
    /// Stop and answer with what was gathered.
    Stop,
    /// Give up: the result is the truncated output.
    Fail,
}

/// The text of a finished run's result.
pub open spec fn run_text(input_tokens: usize, output_tokens: usize, iterations: usize, subcalls: usize, answer: Seq<char>) -> Seq<char> {
    "[RLM: "@ + decimal(input_tokens as nat) + " → "@ + decimal(output_tokens as nat) + " tokens | "@ + decimal(
        iterations as nat,
    ) + " iterations | "@ + decimal(subcalls as nat) + " sub-calls]\n\n"@ + answer
}

impl AutoLoop {
    /// The loop's counters are within their budgets.
    pub open spec fn wf(&self) -> bool {
        &&& self.iterations <= self.max_iterations
        &&& self.subcalls <= self.iterations
    }

    /// A loop that has not started.
    pub fn start(config: &RlmConfig) -> (r: AutoLoop)
        ensures
            r.wf(),
            r.max_iterations == config.max_iterations,
            r.max_subcalls == config.max_subcalls,
            r.iterations == 0,
            r.subcalls == 0,
            r.final_answer is None,
            !r.aborted,
            !r.stopped,
    {
        AutoLoop {
            max_iterations: config.max_iterations,
            max_subcalls: config.max_subcalls,
            iterations: 0,
            subcalls: 0,
            final_answer: None,
            aborted: false,
            stopped: false,
        }
    }

    /// Starts the next iteration, when the loop goes on.
    pub fn next_iteration(&mut self) -> (go: bool)
        requires
            old(self).wf(),
        ensures
            final(self).wf(),
            go == (!old(self).stopped && old(self).iterations < old(self).max_iterations),
            go ==> final(self).iterations == old(self).iterations + 1,
            !go ==> *final(self) == *old(self),
            final(self).subcalls == old(self).subcalls,
            final(self).final_answer == old(self).final_answer,
            final(self).stopped == old(self).stopped,
            final(self).aborted == old(self).aborted,
            final(self).max_iterations == old(self).max_iterations,
            final(self).max_subcalls == old(self).max_subcalls,
    {
        if self.stopped || self.iterations >= self.max_iterations {
            return false;
        }
        self.iterations = self.iterations + 1;
        true
    }

    /// Whether this iteration's model call goes to the sub-call provider:
    /// the first iteration uses the root provider, later ones the sub-call
    /// provider when one is configured.
    pub fn uses_subcall_provider(&self, configured: bool) -> (b: bool)
        ensures
            b == (configured && self.iterations > 1),
    {
        configured && self.iterations > 1
    }

    /// The abort signal was seen.
    pub fn on_abort(&mut self)
        ensures
            *final(self) == (AutoLoop { aborted: true, stopped: true, ..*old(self) }),
    {
        self.aborted = true;
        self.stopped = true;
    }

    /// The model call failed: after the first iteration the loop stops with
    /// what it has; on the first it fails.
    pub fn on_model_failure(&mut self) -> (a: ModelFailureAction)
        ensures
            *final(self) == (AutoLoop { stopped: true, ..*old(self) }),
            a == (if old(self).iterations > 1 { ModelFailureAction::Stop } else { ModelFailureAction::Fail }),
    {
        self.stopped = true;
        if self.iterations > 1 {
            ModelFailureAction::Stop
        } else {
            ModelFailureAction::Fail
        }
    }
}


/// The results of a round of tool calls (call id and content) and the
/// final answer, if a call gave one; calls after a final answer are not
/// made.
pub open spec fn tool_round_spec(
    calls: Seq<(Seq<char>, Seq<char>, Seq<char>)>,
    v: crate::repl::ReplView,
) -> (Seq<(Seq<char>, Seq<char>)>, Option<Seq<char>>)
    decreases calls.len(),
{
    if calls.len() == 0 {
        (Seq::empty(), None)
    } else {
        let (id, name, args) = calls[0];
        match crate::tools::dispatch_spec(name, args, v) {
            Some(crate::tools::ToolResultView::Final(a)) => (seq![(id, "FINAL received"@)], Some(a)),
            Some(crate::tools::ToolResultView::Output(o)) => {
                let (rest, f) = tool_round_spec(calls.drop_first(), v);
                (seq![(id, o)] + rest, f)
            },
            None => {
                let (rest, f) = tool_round_spec(calls.drop_first(), v);
                (seq![(id, "Unknown tool: "@ + name)] + rest, f)
            },
        }
    }
}

/// The views of tool calls: id, name and arguments.
pub open spec fn calls_view(calls: Seq<(String, String, String)>) -> Seq<(Seq<char>, Seq<char>, Seq<char>)> {
    calls.map_values(|c: (String, String, String)| (c.0@, c.1@, c.2@))
}

/// The views of call results: id and content.
pub open spec fn results_view(rs: Seq<(String, String)>) -> Seq<(Seq<char>, Seq<char>)> {
    rs.map_values(|r: (String, String)| (r.0@, r.1@))
}

/// The view of an optional answer.
pub open spec fn answer_view(a: Option<String>) -> Option<Seq<char>> {
    match a {
        Some(s) => Some(s@),
        None => None,
    }
}

/// The answer a text reply gives directly, if any: a `FINAL(..)`, or, from
/// the third iteration on, a reply over 500 bytes without code fences.
pub open spec fn text_answer(text: Seq<char>, iterations: usize) -> Option<Seq<char>> {
    match extract_final_spec(text) {
        Some(a) => Some(a),
        None => if iterations >= 3 && crate::text::byte_len(text) > 500 && !contains(text, "```"@) {
            Some(text)
        } else {
            None
        },
    }
}

/// The reason recorded for a run's outcome.
pub open spec fn outcome_reason(outcome: RlmOutcome, iterations: usize, subcalls: usize) -> Option<Seq<char>> {
    match outcome {
        RlmOutcome::Converged => None,
        RlmOutcome::Aborted => Some("abort signal"@),
        RlmOutcome::Exhausted => Some(
            "no FINAL after "@ + decimal(iterations as nat) + " iterations / "@ + decimal(subcalls as nat) + " subcalls"@,
        ),
        RlmOutcome::Failed => None,
    }
}

impl RlmRouter {
    /// Prepares an analysis run over a tool output.
    pub fn plan_auto_process(output: &str, tool_id: &str, tool_args: &str) -> (p: AutoPlan)
        ensures
            p.input_tokens == tokens_of(output@),
            p.processed_output@ == processed_spec(output@),
            p.query@ == run_query_spec(output@, tool_id@, tool_args@),
            p.system_prompt@ == system_prompt_spec(p.input_tokens, tool_id@, p.query@),
            p.initial_prompt@ == initial_prompt_spec(p.system_prompt@, p.processed_output@, p.input_tokens),
    {
        let input_tokens = RlmChunker::estimate_tokens(output);
        let content_type = RlmChunker::detect_content_type(output);
        let hints = RlmChunker::get_processing_hints(content_type);
        let processed_output = if input_tokens > 50000 {
            RlmChunker::compress(output, 40000, None)
        } else {
            owned(output)
        };
        let mut query = Self::build_query_for_tool(tool_id, tool_args);
        push_str(&mut query, "\n\n## Content Analysis Hints\n");
        push_str(&mut query, hints);
        let system_prompt = Self::build_rlm_system_prompt(input_tokens, tool_id, query.as_str());
        let exploration = Self::build_exploration_summary(processed_output.as_str(), input_tokens);
        let mut initial_prompt = owned(system_prompt.as_str());
        push_str(&mut initial_prompt, "\n\nHere is the context exploration:\n```\n");
        push_str(&mut initial_prompt, exploration.as_str());
        push_str(&mut initial_prompt, "\n```\n\nNow analyze and answer the query.");
        AutoPlan { input_tokens, processed_output, query, system_prompt, initial_prompt }
    }

    /// The message that asks the model to go on.
    pub fn continuation_prompt() -> (r: String)
        ensures
            r@ == "Continue analysis. Call FINAL(\"your answer\") when ready."@,
    {
        owned("Continue analysis. Call FINAL(\"your answer\") when ready.")
    }
}

impl AutoLoop {
    /// Dispatches a round of structured tool calls against the REPL; returns
    /// the results to send back. The round counts as one sub-call.
    pub fn on_tool_calls(&mut self, calls: &Vec<(String, String, String)>, repl: &mut crate::repl::RlmRepl) -> (r: Vec<(String, String)>)
        requires
            old(self).wf(),
            old(self).subcalls < old(self).iterations,
        ensures
            final(self).wf(),
            *final(repl) == *old(repl),
            results_view(r@) == tool_round_spec(calls_view(calls@), old(repl)@).0,
            answer_view(final(self).final_answer) == (match tool_round_spec(calls_view(calls@), old(repl)@).1 {
                Some(a) => Some(a),
                None => answer_view(old(self).final_answer),
            }),
            final(self).subcalls == old(self).subcalls + 1,
            final(self).stopped == (old(self).stopped || final(self).final_answer is Some || final(self).subcalls
                >= final(self).max_subcalls),
            final(self).iterations == old(self).iterations,
            final(self).aborted == old(self).aborted,
            final(self).max_iterations == old(self).max_iterations,
            final(self).max_subcalls == old(self).max_subcalls,
    {
        let ghost cv = calls_view(calls@);
        let ghost v = repl@;
        let mut results: Vec<(String, String)> = Vec::new();
        let mut i: usize = 0;
        let mut got: Option<String> = None;
        assert(cv.skip(0) =~= cv);
        assert(results_view(results@) + tool_round_spec(cv, v).0 =~= tool_round_spec(cv, v).0);
        while i < calls.len() && got.is_none()
            invariant
                i <= calls.len(),
                cv == calls_view(calls@),
                *repl == *old(repl),
                v == repl@,
                got is None ==> results_view(results@) + tool_round_spec(cv.skip(i as int), v).0 == tool_round_spec(cv, v).0
                    && tool_round_spec(cv.skip(i as int), v).1 == tool_round_spec(cv, v).1,
                got is Some ==> results_view(results@) == tool_round_spec(cv, v).0 && answer_view(got)
                    == tool_round_spec(cv, v).1,
            decreases calls.len() - i,
        {
            let ghost rest = cv.skip(i as int);
            assert(rest[0] == (calls@[i as int].0@, calls@[i as int].1@, calls@[i as int].2@));
            assert(rest.drop_first() =~= cv.skip(i + 1));
            let id = calls[i].0.clone();
            let name = calls[i].1.as_str();
            let args = calls[i].2.as_str();
            let ghost before = results_view(results@);
            match crate::tools::dispatch_tool_call(name, args, repl) {
                Some(crate::tools::RlmToolResult::Final(answer)) => {
                    results.push((id, owned("FINAL received")));
                    assert(results_view(results@) =~= before.push((calls@[i as int].0@, "FINAL received"@)));
                    assert(before + seq![(calls@[i as int].0@, "FINAL received"@)] =~= before.push((calls@[i as int].0@, "FINAL received"@)));
                    got = Some(answer);
                },
                Some(crate::tools::RlmToolResult::Output(out)) => {
                    let ghost ov = out@;
                    results.push((id, out));
                    assert(results_view(results@) =~= before.push((calls@[i as int].0@, ov)));
                    assert(before.push((calls@[i as int].0@, ov)) + tool_round_spec(cv.skip(i + 1), v).0 =~= before + (
                    seq![(calls@[i as int].0@, ov)] + tool_round_spec(cv.skip(i + 1), v).0));
                },
                None => {
                    let mut msg = owned("Unknown tool: ");
                    push_str(&mut msg, name);
                    let ghost mv = msg@;
                    results.push((id, msg));
                    assert(results_view(results@) =~= before.push((calls@[i as int].0@, mv)));
                    assert(before.push((calls@[i as int].0@, mv)) + tool_round_spec(cv.skip(i + 1), v).0 =~= before + (
                    seq![(calls@[i as int].0@, mv)] + tool_round_spec(cv.skip(i + 1), v).0));
                },
            }
            i += 1;
        }
        proof {
            if got is None {
                assert(cv.skip(i as int) =~= Seq::<(Seq<char>, Seq<char>, Seq<char>)>::empty());
                assert(results_view(results@) + Seq::<(Seq<char>, Seq<char>)>::empty() =~= results_view(results@));
            }
        }
        if got.is_some() {
            self.final_answer = got;
        }
        self.subcalls = self.subcalls + 1;
        if self.final_answer.is_some() || self.subcalls >= self.max_subcalls {
            self.stopped = true;
        }
        results
    }

    /// Takes a text reply. Returns whether the loop goes on (the reply and
    /// the continuation prompt then join the conversation).
    pub fn on_text(&mut self, text: &str) -> (go_on: bool)
        requires
            old(self).wf(),
            old(self).subcalls < old(self).iterations,
        ensures
            final(self).wf(),
            final(self).iterations == old(self).iterations,
            final(self).aborted == old(self).aborted,
            final(self).max_iterations == old(self).max_iterations,
            final(self).max_subcalls == old(self).max_subcalls,
            text_answer(text@, old(self).iterations) is Some ==> !go_on && final(self).stopped
                && answer_view(final(self).final_answer) == text_answer(text@, old(self).iterations)
                && final(self).subcalls == old(self).subcalls,
            text_answer(text@, old(self).iterations) is None ==> go_on && final(self).subcalls == old(self).subcalls + 1
                && final(self).final_answer == old(self).final_answer
                && final(self).stopped == (old(self).stopped || final(self).subcalls >= final(self).max_subcalls),
    {
        if let Some(answer) = RlmRouter::extract_final(text) {
            self.final_answer = Some(answer);
            self.stopped = true;
            return false;
        }
        let tc = chars_of(text);
        let fence = crate::text::contains_str(tc.as_slice(), "```");
        assert(text.len() == crate::text::byte_len(text@));
        if self.iterations >= 3 && text.len() > 500 && !fence {
            self.final_answer = Some(owned(text));
            self.stopped = true;
            return false;
        }
        self.subcalls = self.subcalls + 1;
        if self.subcalls >= self.max_subcalls {
            self.stopped = true;
        }
        true
    }

    /// The outcome of a finished run.
    pub fn outcome(&self) -> (o: RlmOutcome)
        ensures
            o == (if self.aborted {
                RlmOutcome::Aborted
            } else if self.final_answer is Some {
                RlmOutcome::Converged
            } else {
                RlmOutcome::Exhausted
            }),
    {
        if self.aborted {
            RlmOutcome::Aborted
        } else if self.final_answer.is_some() {
            RlmOutcome::Converged
        } else {
            RlmOutcome::Exhausted
        }
    }

    /// The result of a finished run: the final answer, or the fallback
    /// summary of the output when there is none; with the outcome and its
    /// reason.
    pub fn finish(
        &self,
        output: &str,
        tool_id: &str,
        tool_args: &str,
        input_tokens: usize,
        elapsed_ms: u64,
        trace_id: Option<String>,
    ) -> (r: (RlmResult, RlmOutcome, Option<String>))
        ensures
            ({
                let answer = match self.final_answer {
                    Some(a) => a@,
                    None => enhanced_fallback_spec(output@, tool_id@, tool_args@, input_tokens),
                };
                &&& r.0.processed@ == run_text(input_tokens, tokens_of(answer) as usize, self.iterations, self.subcalls, answer)
                &&& r.0.stats.output_tokens == tokens_of(answer)
            }),
            r.0.stats.input_tokens == input_tokens,
            r.0.stats.iterations == self.iterations,
            r.0.stats.subcalls == self.subcalls,
            r.0.stats.elapsed_ms == elapsed_ms,
            r.1 == (if self.aborted {
                RlmOutcome::Aborted
            } else if self.final_answer is Some {
                RlmOutcome::Converged
            } else {
                RlmOutcome::Exhausted
            }),
            answer_view(r.2) == outcome_reason(r.1, self.iterations, self.subcalls),
            r.0.success == (r.1 == RlmOutcome::Converged),
            r.0.error is None,
            r.0.trace_id == trace_id,
    {
        let answer = match &self.final_answer {
            Some(a) => a.clone(),
            None => RlmRouter::build_enhanced_fallback(output, tool_id, tool_args, input_tokens),
        };
        let output_tokens = RlmChunker::estimate_tokens(answer.as_str());
        let mut processed = owned("[RLM: ");
        push_str(&mut processed, decimal_string(input_tokens).as_str());
        push_str(&mut processed, " → ");
        push_str(&mut processed, decimal_string(output_tokens).as_str());
        push_str(&mut processed, " tokens | ");
        push_str(&mut processed, decimal_string(self.iterations).as_str());
        push_str(&mut processed, " iterations | ");
        push_str(&mut processed, decimal_string(self.subcalls).as_str());
        push_str(&mut processed, " sub-calls]\n\n");
        push_str(&mut processed, answer.as_str());
        let outcome = self.outcome();
        let reason = match outcome {
            RlmOutcome::Converged => None,
            RlmOutcome::Aborted => Some(owned("abort signal")),
            RlmOutcome::Exhausted => {
                let mut m = owned("no FINAL after ");
                push_str(&mut m, decimal_string(self.iterations).as_str());
                push_str(&mut m, " iterations / ");
                push_str(&mut m, decimal_string(self.subcalls).as_str());
                push_str(&mut m, " subcalls");
                Some(m)
            },
            RlmOutcome::Failed => None,
        };
        let success = outcome.is_success();
        (
            RlmResult {
                processed,
                stats: RlmStats { input_tokens, output_tokens, iterations: self.iterations, subcalls: self.subcalls, elapsed_ms },
                success,
                error: None,
                trace_id,
            },
            outcome,
            reason,
        )
    }
}

} // verus!
