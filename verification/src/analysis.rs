//! An analysis session: the decisions of the model-driven analysis loop
//! over a REPL. The caller talks to the model and hands each reply in; the
//! session runs tool calls and code against the REPL, records the trace,
//! asks for sub-model queries, decides when a final answer is accepted,
//! and assembles the result.

use vstd::prelude::*;
use crate::executor::{
    call_well_formed, context_of_value, extract_code, extract_code_spec, has_evidence_spec,
    has_pattern_evidence, line_numbered_spec, llm_context_expr, llm_question, parse_llm_query,
    parse_line_numbered_output, stored_output_spec, structured_final_spec, trace_output_for_storage,
    truncate_with_ellipsis, truncated_spec, StepView,
};
use crate::grep_oracle::{classify_spec, GrepOracle};
use crate::json::{bool_field, json_bool_field, json_str_field, str_field};
use crate::oracle::QueryType;
use crate::payload::{text_opt, FinalPayload};
use crate::repl::{
    dsl_line_spec, eval_spec, head_spec,
    DslResult, DslView, ReplRuntime, ReplView, RlmRepl,
};
use crate::router::RlmStats;
use crate::text::{chars_of, contains, first_of, decimal, decimal_string, join, lines_of, owned, push_str, starts_with, string_from, trim};
use crate::tools::{dispatch_spec, dispatch_tool_call, RlmToolResult, ToolResultView};
use crate::validator::{step_views, RlmAnalysisResult, SubQuery, TraceStep};

verus! {

/// What a structured tool call comes to.
pub enum ToolStep {
    /// A final answer was accepted; the text goes back to the model and
    /// the round ends.
    Final(String),
    /// A final answer was rejected for want of grep evidence; the text goes
    /// back to the model.
    Rejected(String),
    /// Output of the REPL, to go back to the model.
    Output(String),
    /// A sub-model query to run: question and context slice.
    Query(String, Option<String>),
    /// The tool is unknown; the text goes back to the model.
    Unknown(String),
}

/// The content of a [`ToolStep`].
pub enum ToolStepView {
    Final(Seq<char>),
    Rejected(Seq<char>),
    Output(Seq<char>),
    Query(Seq<char>, Option<Seq<char>>),
    Unknown(Seq<char>),
}

impl View for ToolStep {
    type V = ToolStepView;

    open spec fn view(&self) -> ToolStepView {
        match self {
            ToolStep::Final(s) => ToolStepView::Final(s@),
            ToolStep::Rejected(s) => ToolStepView::Rejected(s@),
            ToolStep::Output(s) => ToolStepView::Output(s@),
            ToolStep::Query(q, c) => ToolStepView::Query(q@, text_opt(*c)),
            ToolStep::Unknown(s) => ToolStepView::Unknown(s@),
        }
    }
}

/// What a line of code comes to.
pub enum LineStep {
    /// Nothing to show.
    Skip,
    /// A sub-model query to run: question and context slice.
    Query(String, Option<String>),
    /// Output to show.
    Output(String),
    /// The final answer.
    Final(String),
}

/// The content of a [`LineStep`].
pub enum LineStepView {
    Skip,
    Query(Seq<char>, Option<Seq<char>>),
    Output(Seq<char>),
    Final(Seq<char>),
}

impl View for LineStep {
    type V = LineStepView;

    open spec fn view(&self) -> LineStepView {
        match self {
            LineStep::Skip => LineStepView::Skip,
            LineStep::Query(q, c) => LineStepView::Query(q@, text_opt(*c)),
            LineStep::Output(s) => LineStepView::Output(s@),
            LineStep::Final(s) => LineStepView::Final(s@),
        }
    }
}

/// The text that rejects a tool-call final answer without grep evidence.
pub open spec fn tool_rejection() -> Seq<char> {
    "FINAL rejected: pattern query requires grep evidence. Call rlm_grep first, then FINAL with exact line-numbered matches."@
}

/// The text that rejects a code final answer without grep evidence.
pub open spec fn code_rejection() -> Seq<char> {
    "FINAL rejected: pattern query requires grep evidence. Run grep/head/tail before FINAL and include exact lines."@
}

/// The action recorded for a tool call: its name and arguments (cut to
/// 120 characters).
pub open spec fn call_action(name: Seq<char>, args: Seq<char>) -> Seq<char> {
    name + "("@ + truncated_spec(args, 120) + ")"@
}

/// The output of a REPL tool is a sub-model query request.
pub open spec fn is_query_request(output: Seq<char>) -> bool {
    json_bool_field(output, "__rlm_llm_query"@) == Some(true)
}

/// What a tool call comes to, the step it records and the final answer it
/// gives, for a call `name(args)` against the REPL state `v`, in iteration
/// `it`; `needs` tells whether the query needs grep evidence and
/// `evidence` whether the trace has some.
pub open spec fn tool_step_spec(
    name: Seq<char>,
    args: Seq<char>,
    v: ReplView,
    needs: bool,
    evidence: bool,
    it: usize,
) -> (ToolStepView, Option<StepView>, Option<Seq<char>>) {
    match dispatch_spec(name, args, v) {
        Some(ToolResultView::Final(a)) => if needs && !evidence {
            (
                ToolStepView::Rejected(tool_rejection()),
                Some((it, "reject_final(no_grep_evidence)"@, tool_rejection())),
                None,
            )
        } else {
            (
                ToolStepView::Final("FINAL: "@ + a),
                Some((it, call_action(name, args), "FINAL: "@ + truncated_spec(a, 240))),
                Some(a),
            )
        },
        Some(ToolResultView::Output(o)) => if is_query_request(o) {
            (
                ToolStepView::Query(
                    match json_str_field(o, "query"@) {
                        Some(q) => q,
                        None => Seq::empty(),
                    },
                    json_str_field(o, "context_slice"@),
                ),
                None,
                None,
            )
        } else {
            (ToolStepView::Output(o), Some((it, call_action(name, args), stored_output_spec(o))), None)
        },
        None => (
            ToolStepView::Unknown("Unknown tool: "@ + name),
            Some((it, call_action(name, args), "Unknown tool: "@ + name)),
            None,
        ),
    }
}

/// `after` is `before` with the optional step appended.
pub open spec fn appended(before: Seq<StepView>, step: Option<StepView>, after: Seq<StepView>) -> bool {
    after == match step {
        Some(s) => before.push(s),
        None => before,
    }
}

/// The view of an optional string.
pub open spec fn opt_text(o: Option<String>) -> Option<Seq<char>> {
    text_opt(o)
}

/// The views of sub-queries: query, context slice, response, tokens.
pub open spec fn sub_query_views(v: Seq<SubQuery>) -> Seq<(Seq<char>, Option<Seq<char>>, Seq<char>, usize)> {
    v.map_values(|q: SubQuery| (q.query@, text_opt(q.context_slice), q.response@, q.tokens_used))
}

/// The text a sub-model query answers with.
pub open spec fn query_result_text(answer: Seq<char>) -> Seq<char> {
    "llm_query result: "@ + answer
}

/// The context a sub-model sees: the slice, or the whole context; above
/// 8000 characters it is cut to 7500 and its size noted.
pub open spec fn sub_context_spec(ctx: Seq<char>) -> Seq<char> {
    if ctx.len() > 8000 {
        truncated_spec(ctx, 7500) + "\n[truncated, "@ + decimal(ctx.len()) + " chars total]"@
    } else {
        ctx
    }
}

/// The user message of a sub-model query.
pub open spec fn sub_query_prompt_spec(ctx: Seq<char>, query: Seq<char>) -> Seq<char> {
    "Context:\n"@ + sub_context_spec(ctx) + "\n\nQuestion: "@ + query
}

/// A line of code asks a sub-model query.
pub open spec fn is_llm_line(t: Seq<char>) -> bool {
    starts_with(t, "llm_query("@) || contains(t, "= llm_query("@)
}

/// A line of code is skipped: blank, a `//` comment or a `#` line.
pub open spec fn is_skipped_line(t: Seq<char>) -> bool {
    t.len() == 0 || starts_with(t, "//"@) || starts_with(t, "#"@)
}

/// A line of code can run against the REPL state `v`: a query line needs
/// its parentheses in order.
pub open spec fn line_can_run(v: ReplView, line: Seq<char>) -> bool {
    let t = trim(line);
    !is_skipped_line(t) && is_llm_line(t) ==> call_well_formed(t)
}

/// What a line of code comes to against the REPL state `v`, with the
/// state after it.
pub open spec fn line_step_spec(v: ReplView, line: Seq<char>) -> (ReplView, LineStepView) {
    let t = trim(line);
    if is_skipped_line(t) {
        (v, LineStepView::Skip)
    } else if is_llm_line(t) {
        (
            v,
            LineStepView::Query(
                llm_question(t),
                match llm_context_expr(t) {
                    Some(e) => context_of_value(eval_spec(v, e)),
                    None => None,
                },
            ),
        )
    } else {
        let (v2, d) = dsl_line_spec(v, t);
        (
            v2,
            match d {
                Some(DslView::Output(s)) => LineStepView::Output(s),
                Some(DslView::Final(s)) => LineStepView::Final(s),
                Some(DslView::Error(s)) => LineStepView::Output("Error: "@ + s),
                None => LineStepView::Skip,
            },
        )
    }
}


/// Output of code counts as grep evidence: the code calls grep, or the
/// output says `(no matches)` or has numbered lines.
pub open spec fn code_evidence(code: Seq<char>, stdout: Seq<char>) -> bool {
    contains(code, "grep("@) || contains(stdout, "(no matches)"@) || line_numbered_spec(stdout).len() > 0
}

/// The state of an analysis loop.
pub struct AnalysisSession {
    /// The REPL over the analysed context.
    pub repl: RlmRepl,
    /// The question asked.
    pub query: String,
    /// The iteration budget.
    pub max_iterations: usize,
    /// Iterations started.
    pub iterations: usize,
    /// The query is a pattern match, so a final answer needs grep evidence.
    pub requires_pattern_evidence: bool,
    /// The trace so far.
    pub trace_steps: Vec<TraceStep>,
    /// Sub-model calls so far.
    pub sub_queries: Vec<SubQuery>,
    /// Prompt tokens used.
    pub input_tokens: usize,
    /// Completion tokens used.
    pub output_tokens: usize,
    /// The accepted final answer.
    pub final_answer: Option<String>,
}

impl AnalysisSession {
    /// The session's REPL is well formed.
    pub open spec fn wf(&self) -> bool {
        self.repl.wf()
    }

    /// The trace so far.
    pub open spec fn steps(&self) -> Seq<StepView> {
        step_views(self.trace_steps@)
    }

    /// A session for `query` over `context`, with `max_iterations`
    /// iterations.
    pub fn start(context: String, query: &str, max_iterations: usize) -> (s: Self)
        ensures
            s.wf(),
            s.repl@.context == context@,
            s.repl@.lines == lines_of(context@),
            s.repl@.runtime == ReplRuntime::Rust,
            s.query@ == query@,
            s.max_iterations == max_iterations,
            s.iterations == 0,
            s.requires_pattern_evidence == (classify_spec(query@) == QueryType::PatternMatch),
            s.trace_steps@.len() == 0,
            s.sub_queries@.len() == 0,
            s.input_tokens == 0,
            s.output_tokens == 0,
            s.final_answer is None,
    {
        let needs = match GrepOracle::classify_query(query) {
            QueryType::PatternMatch => true,
            _ => false,
        };
        AnalysisSession {
            repl: RlmRepl::new(context, ReplRuntime::Rust),
            query: owned(query),
            max_iterations,
            iterations: 0,
            requires_pattern_evidence: needs,
            trace_steps: Vec::new(),
            sub_queries: Vec::new(),
            input_tokens: 0,
            output_tokens: 0,
            final_answer: None,
        }
    }

    /// The system prompt: the output contract, the commands, the context's
    /// size and its first 25 lines.
    pub fn system_prompt(&self) -> (r: String)
        ensures
            r@ == crate::executor::analysis_prompt_spec(
                crate::text::byte_len(self.repl@.context) as nat,
                self.repl@.lines.len(),
                join(head_spec(self.repl@.lines, 25), "\n"@),
            ),
    {
        let bytes = self.repl.context().len();
        let lines = self.repl.lines().len();
        let head = self.repl.head(25);
        let preview = crate::tools::lines_text(&head);
        let mut r = owned("You are a code analysis assistant. Answer questions by examining the provided context.\n\nCRITICAL OUTPUT CONTRACT:\n- Your final response MUST be exactly one FINAL(<json>) call.\n- Never end with prose and never use FINAL(\"...\").\n- For pattern/grep queries, you MUST run grep/head/tail first. Never guess line numbers or matches.\n- The JSON inside FINAL(...) MUST match one of these shapes:\n1) {\"kind\":\"grep\",\"file\":\"<path>\",\"pattern\":\"<regex>\",\"matches\":[{\"line\":123,\"text\":\"...\"}]}\n2) {\"kind\":\"ast\",\"file\":\"<path>\",\"query\":\"<tree-sitter query>\",\"results\":[{\"name\":\"...\",\"args\":[],\"return_type\":null,\"span\":[1,2]}]}\n3) {\"kind\":\"semantic\",\"file\":\"<path>\",\"answer\":\"...\"} (only if deterministic payload is impossible)\n- For grep/list/find/count style queries, emit kind=grep with exact line-numbered matches.\n\nAvailable commands:\n- head(n), tail(n): See first/last n lines\n- grep(\"pattern\"): Search for patterns\n- ast_query(\"s-expr\"): Tree-sitter AST query (e.g., '(function_item name: (identifier) @name)')\n- llm_query(\"question\"): Ask a focused sub-question\n- FINAL({\"kind\":\"...\", ...}): Return your final structured payload (REQUIRED)\n\nThe context has ");
        push_str(&mut r, decimal_string(bytes).as_str());
        push_str(&mut r, " chars across ");
        push_str(&mut r, decimal_string(lines).as_str());
        push_str(&mut r, " lines. A preview follows:\n\n");
        push_str(&mut r, preview.as_str());
        push_str(&mut r, "\n\nExample final response:\nFINAL({\"kind\":\"grep\",\"file\":\"src/rlm/repl.rs\",\"pattern\":\"async fn\",\"matches\":[{\"line\":570,\"text\":\"pub async fn analyze(...)\"}]})\n\nNow analyze the context. Use 1-2 commands if needed, then call FINAL() with valid JSON payload.");
        r
    }

    /// The first user message.
    pub fn user_prompt(&self) -> (r: String)
        ensures
            r@ == "Analyze and answer: "@ + self.query@,
    {
        let mut r = owned("Analyze and answer: ");
        push_str(&mut r, self.query.as_str());
        r
    }

    /// Starts the next iteration, while no final answer is accepted and the
    /// budget lasts.
    pub fn next_iteration(&mut self) -> (go: bool)
        ensures
            go == (old(self).final_answer is None && old(self).iterations < old(self).max_iterations),
            final(self).iterations == if go {
                old(self).iterations + 1
            } else {
                old(self).iterations as int
            },
            final(self).repl == old(self).repl,
            final(self).trace_steps == old(self).trace_steps,
            final(self).sub_queries == old(self).sub_queries,
            final(self).final_answer == old(self).final_answer,
            final(self).max_iterations == old(self).max_iterations,
            final(self).requires_pattern_evidence == old(self).requires_pattern_evidence,
            final(self).input_tokens == old(self).input_tokens,
            final(self).output_tokens == old(self).output_tokens,
            final(self).query == old(self).query,
    {
        if self.final_answer.is_none() && self.iterations < self.max_iterations {
            self.iterations = self.iterations + 1;
            true
        } else {
            false
        }
    }

    /// Adds the token usage of a model reply.
    pub fn record_usage(&mut self, prompt_tokens: usize, completion_tokens: usize)
        requires
            old(self).input_tokens + prompt_tokens <= usize::MAX,
            old(self).output_tokens + completion_tokens <= usize::MAX,
        ensures
            final(self).input_tokens == old(self).input_tokens + prompt_tokens,
            final(self).output_tokens == old(self).output_tokens + completion_tokens,
            final(self).repl == old(self).repl,
            final(self).trace_steps == old(self).trace_steps,
            final(self).sub_queries == old(self).sub_queries,
            final(self).final_answer == old(self).final_answer,
            final(self).iterations == old(self).iterations,
            final(self).max_iterations == old(self).max_iterations,
            final(self).requires_pattern_evidence == old(self).requires_pattern_evidence,
            final(self).query == old(self).query,
    {
        self.input_tokens = self.input_tokens + prompt_tokens;
        self.output_tokens = self.output_tokens + completion_tokens;
    }
}

/// `a` has the budget, counters, question and REPL of `b`.
pub open spec fn same_frame(a: AnalysisSession, b: AnalysisSession) -> bool {
    &&& a.repl == b.repl
    &&& a.query == b.query
    &&& a.max_iterations == b.max_iterations
    &&& a.iterations == b.iterations
    &&& a.requires_pattern_evidence == b.requires_pattern_evidence
    &&& a.input_tokens == b.input_tokens
    &&& a.output_tokens == b.output_tokens
}

fn push_step(steps: &mut Vec<TraceStep>, iteration: usize, action: String, output: String)
    ensures
        step_views(final(steps)@) == step_views(old(steps)@).push((iteration, action@, output@)),
{
    let ghost before = step_views(steps@);
    steps.push(TraceStep { iteration, action, output });
    assert(step_views(steps@) =~= before.push((iteration, action@, output@)));
}

fn action_text(name: &str, args: &str) -> (r: String)
    ensures
        r@ == call_action(name@, args@),
{
    let mut a = owned(name);
    push_str(&mut a, "(");
    push_str(&mut a, truncate_with_ellipsis(args, 120).as_str());
    push_str(&mut a, ")");
    a
}

impl AnalysisSession {
    /// Runs a structured tool call against the REPL and records it. A call
    /// of `rlm_llm_query` becomes the sub-query it asks for, with its
    /// question and context slice.
    pub fn on_tool_call(&mut self, name: &str, arguments: &str) -> (r: ToolStep)
        requires
            old(self).wf(),
        ensures
            final(self).wf(),
            same_frame(*final(self), *old(self)),
            final(self).sub_queries == old(self).sub_queries,
            ({
                let (sv, step, fin) = tool_step_spec(
                    name@,
                    arguments@,
                    old(self).repl@,
                    old(self).requires_pattern_evidence,
                    has_evidence_spec(old(self).steps()),
                    old(self).iterations,
                );
                &&& r@ == sv
                &&& appended(old(self).steps(), step, final(self).steps())
                &&& opt_text(final(self).final_answer) == match fin {
                    Some(a) => Some(a),
                    None => opt_text(old(self).final_answer),
                }
            }),
            name@ == "rlm_llm_query"@ ==> r@ == ToolStepView::Query(
                crate::tools::text_arg(arguments@, "query"@),
                json_str_field(arguments@, "context_slice"@),
            ),
    {
        let it = self.iterations;
        match dispatch_tool_call(name, arguments, &mut self.repl) {
            Some(RlmToolResult::Final(answer)) => {
                if self.requires_pattern_evidence && !has_pattern_evidence(&self.trace_steps) {
                    let text = owned(
                        "FINAL rejected: pattern query requires grep evidence. Call rlm_grep first, then FINAL with exact line-numbered matches.",
                    );
                    push_step(&mut self.trace_steps, it, owned("reject_final(no_grep_evidence)"), text.clone());
                    return ToolStep::Rejected(text);
                }
                let mut out = owned("FINAL: ");
                push_str(&mut out, truncate_with_ellipsis(answer.as_str(), 240).as_str());
                push_step(&mut self.trace_steps, it, action_text(name, arguments), out);
                let mut reply = owned("FINAL: ");
                push_str(&mut reply, answer.as_str());
                self.final_answer = Some(answer);
                ToolStep::Final(reply)
            },
            Some(RlmToolResult::Output(output)) => {
                if bool_field(output.as_str(), "__rlm_llm_query") == Some(true) {
                    let q = match str_field(output.as_str(), "query") {
                        Some(q) => q,
                        None => String::new(),
                    };
                    let ctx = str_field(output.as_str(), "context_slice");
                    return ToolStep::Query(q, ctx);
                }
                let stored = trace_output_for_storage(output.as_str());
                push_step(&mut self.trace_steps, it, action_text(name, arguments), stored);
                ToolStep::Output(output)
            },
            None => {
                let mut msg = owned("Unknown tool: ");
                push_str(&mut msg, name);
                push_step(&mut self.trace_steps, it, action_text(name, arguments), msg.clone());
                ToolStep::Unknown(msg)
            },
        }
    }

    /// The user message of a sub-model query: the context (the slice, or
    /// the whole context, cut when long) and the question.
    pub fn sub_query_prompt(&self, query: &str, context_slice: &Option<String>) -> (r: String)
        ensures
            r@ == sub_query_prompt_spec(
                match context_slice {
                    Some(c) => c@,
                    None => self.repl@.context,
                },
                query@,
            ),
    {
        let ctx: String = match context_slice {
            Some(c) => c.clone(),
            None => owned(self.repl.context()),
        };
        let n = chars_of(ctx.as_str()).len();
        let shown = if n > 8000 {
            let mut t = truncate_with_ellipsis(ctx.as_str(), 7500);
            push_str(&mut t, "\n[truncated, ");
            push_str(&mut t, decimal_string(n).as_str());
            push_str(&mut t, " chars total]");
            t
        } else {
            ctx
        };
        let mut r = owned("Context:\n");
        push_str(&mut r, shown.as_str());
        push_str(&mut r, "\n\nQuestion: ");
        push_str(&mut r, query);
        r
    }

    /// The system message of a sub-model query.
    pub fn sub_query_system_prompt() -> (r: String)
        ensures
            r@ == "You are a focused analysis assistant. Answer the question based on the provided context. Be concise."@,
    {
        owned(
            "You are a focused analysis assistant. Answer the question based on the provided context. Be concise.",
        )
    }

    fn record_sub_query(&mut self, query: &str, context_slice: Option<String>, answer: &str, tokens_used: usize)
        ensures
            sub_query_views(final(self).sub_queries@) == sub_query_views(old(self).sub_queries@).push(
                (query@, text_opt(context_slice), answer@, tokens_used),
            ),
            final(self).trace_steps == old(self).trace_steps,
            final(self).final_answer == old(self).final_answer,
            same_frame(*final(self), *old(self)),
    {
        let ghost before = sub_query_views(self.sub_queries@);
        let ghost cv = text_opt(context_slice);
        self.sub_queries.push(
            SubQuery { query: owned(query), context_slice, response: owned(answer), tokens_used },
        );
        assert(sub_query_views(self.sub_queries@) =~= before.push((query@, cv, answer@, tokens_used)));
    }

    /// Records the answer of a sub-model query asked by a tool call, and
    /// returns the text for the model.
    pub fn on_tool_query(&mut self, query: &str, context_slice: Option<String>, answer: &str, tokens_used: usize) -> (r:
        String)
        ensures
            r@ == query_result_text(answer@),
            sub_query_views(final(self).sub_queries@) == sub_query_views(old(self).sub_queries@).push(
                (query@, text_opt(context_slice), answer@, tokens_used),
            ),
            final(self).steps() == old(self).steps().push(
                (
                    old(self).iterations,
                    "llm_query("@ + truncated_spec(query@, 120) + ")"@,
                    truncated_spec(query_result_text(answer@), 240),
                ),
            ),
            final(self).final_answer == old(self).final_answer,
            same_frame(*final(self), *old(self)),
    {
        self.record_sub_query(query, context_slice, answer, tokens_used);
        let mut result = owned("llm_query result: ");
        push_str(&mut result, answer);
        let mut action = owned("llm_query(");
        push_str(&mut action, truncate_with_ellipsis(query, 120).as_str());
        push_str(&mut action, ")");
        let it = self.iterations;
        push_step(&mut self.trace_steps, it, action, truncate_with_ellipsis(result.as_str(), 240));
        result
    }

    /// Takes a text reply: its code is to be run; records the step.
    pub fn begin_code(&mut self, reply: &str) -> (code: String)
        ensures
            code@ == extract_code_spec(reply@),
            final(self).steps() == old(self).steps().push(
                (old(self).iterations, "execute_code("@ + truncated_spec(code@, 160) + ")"@, Seq::empty()),
            ),
            final(self).sub_queries == old(self).sub_queries,
            final(self).final_answer == old(self).final_answer,
            same_frame(*final(self), *old(self)),
    {
        let code = extract_code(reply);
        let mut action = owned("execute_code(");
        push_str(&mut action, truncate_with_ellipsis(code.as_str(), 160).as_str());
        push_str(&mut action, ")");
        let it = self.iterations;
        push_step(&mut self.trace_steps, it, action, String::new());
        code
    }
}

/// The steps with the output of the current iteration's code step filled
/// in, when the last step is that step and has no output yet.
pub open spec fn with_code_output(steps: Seq<StepView>, it: usize, out: Seq<char>) -> Seq<StepView> {
    if steps.len() > 0 && steps.last().0 == it && steps.last().2.len() == 0 {
        steps.update(steps.len() - 1, (it, steps.last().1, out))
    } else {
        steps
    }
}

/// The next user message after code ran without a final answer.
pub open spec fn code_reply_spec(stdout: Seq<char>) -> Seq<char> {
    if stdout.len() == 0 {
        "[No output]"@
    } else {
        "Execution result:\n"@ + stdout
    }
}

/// The raw final text of a session: its final answer, or `Analysis
/// incomplete`.
pub open spec fn raw_final_spec(final_answer: Option<String>) -> Seq<char> {
    match final_answer {
        Some(a) => a@,
        None => "Analysis incomplete"@,
    }
}

fn copy_sub_queries(v: &Vec<SubQuery>) -> (r: Vec<SubQuery>)
    ensures
        sub_query_views(r@) == sub_query_views(v@),
{
    let mut r: Vec<SubQuery> = Vec::new();
    let mut i: usize = 0;
    while i < v.len()
        invariant
            i <= v.len(),
            sub_query_views(r@) == sub_query_views(v@).take(i as int),
        decreases v.len() - i,
    {
        let q = &v[i];
        let c = match &q.context_slice {
            Some(x) => Some(x.clone()),
            None => None,
        };
        let ghost before = sub_query_views(r@);
        r.push(SubQuery { query: q.query.clone(), context_slice: c, response: q.response.clone(), tokens_used: q.tokens_used });
        assert(sub_query_views(r@) =~= before.push(sub_query_views(v@)[i as int]));
        assert(sub_query_views(v@).take(i + 1) =~= sub_query_views(v@).take(i as int).push(
            sub_query_views(v@)[i as int],
        ));
        i += 1;
    }
    assert(sub_query_views(v@).take(v.len() as int) =~= sub_query_views(v@));
    r
}

impl AnalysisSession {
    /// Runs one line of code: a sub-model query line asks for the query;
    /// other lines run in the REPL.
    pub fn code_line(&mut self, line: &str) -> (r: LineStep)
        requires
            old(self).wf(),
            line_can_run(old(self).repl@, line@),
        ensures
            final(self).wf(),
            (final(self).repl@, r@) == line_step_spec(old(self).repl@, line@),
            final(self).repl@.context == old(self).repl@.context,
            final(self).repl@.lines == old(self).repl@.lines,
            final(self).repl@.runtime == old(self).repl@.runtime,
            final(self).trace_steps == old(self).trace_steps,
            final(self).sub_queries == old(self).sub_queries,
            final(self).final_answer == old(self).final_answer,
            final(self).iterations == old(self).iterations,
            final(self).max_iterations == old(self).max_iterations,
            final(self).requires_pattern_evidence == old(self).requires_pattern_evidence,
            final(self).input_tokens == old(self).input_tokens,
            final(self).output_tokens == old(self).output_tokens,
            final(self).query == old(self).query,
    {
        let cs = chars_of(line);
        let tc = crate::text::trimmed(cs.as_slice());
        let t = crate::text::string_from(tc.as_slice());
        proof {
            reveal_strlit("//");
            reveal_strlit("#");
            reveal_strlit("llm_query(");
            reveal_strlit("= llm_query(");
        }
        if tc.len() == 0 || crate::text::starts_with_str(tc.as_slice(), "//") || crate::text::starts_with_str(
            tc.as_slice(),
            "#",
        ) {
            return LineStep::Skip;
        }
        if crate::text::starts_with_str(tc.as_slice(), "llm_query(") || crate::text::contains_str(
            tc.as_slice(),
            "= llm_query(",
        ) {
            let (q, ctx) = parse_llm_query(t.as_str(), &mut self.repl);
            return LineStep::Query(q, ctx);
        }
        match self.repl.execute_dsl_line(t.as_str()) {
            Some(DslResult::Output(s)) => LineStep::Output(s),
            Some(DslResult::Final(s)) => LineStep::Final(s),
            Some(DslResult::Error(s)) => {
                let mut m = owned("Error: ");
                push_str(&mut m, s.as_str());
                LineStep::Output(m)
            },
            None => LineStep::Skip,
        }
    }

    /// Records the answer of a sub-model query asked by a line of code, and
    /// returns the text the line outputs. The step is numbered by the count
    /// of sub-model calls.
    pub fn on_line_query(&mut self, query: &str, context_slice: Option<String>, answer: &str, tokens_used: usize) -> (r:
        String)
        requires
            old(self).sub_queries@.len() < usize::MAX,
        ensures
            r@ == query_result_text(answer@),
            sub_query_views(final(self).sub_queries@) == sub_query_views(old(self).sub_queries@).push(
                (query@, text_opt(context_slice), answer@, tokens_used),
            ),
            final(self).steps() == old(self).steps().push(
                (
                    (old(self).sub_queries@.len() + 1) as usize,
                    "llm_query("@ + truncated_spec(query@, 120) + ")"@,
                    truncated_spec(answer@, 240),
                ),
            ),
            final(self).final_answer == old(self).final_answer,
            same_frame(*final(self), *old(self)),
    {
        self.record_sub_query(query, context_slice, answer, tokens_used);
        let mut action = owned("llm_query(");
        push_str(&mut action, truncate_with_ellipsis(query, 120).as_str());
        push_str(&mut action, ")");
        let n = self.sub_queries.len();
        assert(sub_query_views(self.sub_queries@).len() == self.sub_queries@.len());
        push_step(&mut self.trace_steps, n, action, truncate_with_ellipsis(answer, 240));
        let mut result = owned("llm_query result: ");
        push_str(&mut result, answer);
        result
    }

    /// Takes the outcome of running code: the lines it output and its
    /// final answer, if any. A final answer to a pattern query with no grep
    /// evidence in the trace or in this run is rejected; an accepted one
    /// ends the loop (`None`). Otherwise the output is recorded and the
    /// next message for the model returned.
    pub fn finish_code(&mut self, code: &str, outputs: &Vec<String>, final_answer: Option<String>) -> (r: Option<String>)
        ensures
            final(self).sub_queries == old(self).sub_queries,
            same_frame(*final(self), *old(self)),
            ({
                let stdout = join(crate::text::views(outputs@), "\n"@);
                match final_answer {
                    Some(a) => if old(self).requires_pattern_evidence && !has_evidence_spec(old(self).steps())
                        && !code_evidence(code@, stdout) {
                        &&& opt_text(r) == Some(code_rejection())
                        &&& final(self).steps() == old(self).steps().push(
                            (old(self).iterations, "reject_final(no_grep_evidence)"@, code_rejection()),
                        )
                        &&& final(self).final_answer == old(self).final_answer
                    } else {
                        &&& r is None
                        &&& opt_text(final(self).final_answer) == Some(a@)
                        &&& final(self).trace_steps == old(self).trace_steps
                    },
                    None => {
                        &&& opt_text(r) == Some(code_reply_spec(stdout))
                        &&& final(self).steps() == with_code_output(
                            old(self).steps(),
                            old(self).iterations,
                            stored_output_spec(stdout),
                        )
                        &&& final(self).final_answer == old(self).final_answer
                    },
                }
            }),
    {
        let stdout = crate::text::join_strings(outputs, "\n");
        let it = self.iterations;
        match final_answer {
            Some(a) => {
                let cc = chars_of(code);
                let oc = chars_of(stdout.as_str());
                let evidence = crate::text::contains_str(cc.as_slice(), "grep(") || crate::text::contains_str(
                    oc.as_slice(),
                    "(no matches)",
                ) || parse_line_numbered_output(stdout.as_str()).len() > 0;
                if self.requires_pattern_evidence && !has_pattern_evidence(&self.trace_steps) && !evidence {
                    let text = owned(
                        "FINAL rejected: pattern query requires grep evidence. Run grep/head/tail before FINAL and include exact lines.",
                    );
                    push_step(&mut self.trace_steps, it, owned("reject_final(no_grep_evidence)"), text.clone());
                    return Some(text);
                }
                self.final_answer = Some(a);
                None
            },
            None => {
                let n = self.trace_steps.len();
                if n > 0 && self.trace_steps[n - 1].iteration == it && self.trace_steps[n - 1].output.as_str().is_empty() {
                    let action = self.trace_steps[n - 1].action.clone();
                    let stored = trace_output_for_storage(stdout.as_str());
                    let ghost before = step_views(self.trace_steps@);
                    let ghost sv = stored@;
                    proof {
                        assert(before.last() == (it, self.trace_steps@[n - 1].action@, self.trace_steps@[n - 1].output@));
                    }
                    self.trace_steps.set(n - 1, TraceStep { iteration: it, action, output: stored });
                    assert(step_views(self.trace_steps@) =~= before.update(n - 1, (it, before.last().1, sv)));
                } else {
                    proof {
                        if n > 0 {
                            assert(step_views(self.trace_steps@).last() == (
                                self.trace_steps@[n - 1].iteration,
                                self.trace_steps@[n - 1].action@,
                                self.trace_steps@[n - 1].output@,
                            ));
                        }
                    }
                }
                if stdout.as_str().is_empty() {
                    Some(owned("[No output]"))
                } else {
                    let mut m = owned("Execution result:\n");
                    push_str(&mut m, stdout.as_str());
                    Some(m)
                }
            },
        }
    }

    /// The raw final text: the accepted answer, or `Analysis incomplete`.
    pub fn raw_final_text(&self) -> (r: String)
        ensures
            r@ == raw_final_spec(self.final_answer),
    {
        match &self.final_answer {
            Some(a) => a.clone(),
            None => owned("Analysis incomplete"),
        }
    }

    /// Ends the session: makes sure the answer is a structured payload
    /// (`parsed` is the raw final text parsed as one), records a
    /// replacement, and assembles the result.
    pub fn finish(&mut self, parsed: &FinalPayload, elapsed_ms: u64) -> (r: RlmAnalysisResult)
        ensures
            ({
                let s = structured_final_spec(
                    old(self).query@,
                    raw_final_spec(old(self).final_answer),
                    parsed@,
                    old(self).steps(),
                );
                &&& r.answer@ == s.0
                &&& appended(old(self).steps(), s.1, final(self).steps())
            }),
            r.iterations == old(self).iterations,
            sub_query_views(r.sub_queries@) == sub_query_views(old(self).sub_queries@),
            r.stats.input_tokens == old(self).input_tokens,
            r.stats.output_tokens == old(self).output_tokens,
            r.stats.iterations == old(self).iterations,
            r.stats.subcalls == old(self).sub_queries@.len(),
            r.stats.elapsed_ms == elapsed_ms,
            final(self).sub_queries == old(self).sub_queries,
            final(self).final_answer == old(self).final_answer,
            same_frame(*final(self), *old(self)),
    {
        let raw = self.raw_final_text();
        let (text, step) = crate::executor::ensure_structured_final_payload(
            self.query.as_str(),
            raw,
            parsed,
            &self.trace_steps,
        );
        match step {
            Some(st) => {
                let ghost before = step_views(self.trace_steps@);
                let ghost sv = (st.iteration, st.action@, st.output@);
                self.trace_steps.push(st);
                assert(step_views(self.trace_steps@) =~= before.push(sv));
            },
            None => {},
        }
        RlmAnalysisResult {
            answer: text,
            iterations: self.iterations,
            sub_queries: copy_sub_queries(&self.sub_queries),
            stats: RlmStats {
                input_tokens: self.input_tokens,
                output_tokens: self.output_tokens,
                iterations: self.iterations,
                subcalls: self.sub_queries.len(),
                elapsed_ms,
            },
        }
    }
}

fn call_ok(tc: &[char]) -> (b: bool)
    ensures
        b == call_well_formed(tc@),
{
    let open = match crate::text::find_char(tc, '(') {
        Some(i) => i,
        None => {
            return false;
        },
    };
    match crate::text::rfind_char(tc, ')') {
        Some(j) => j >= open + 1,
        None => true,
    }
}

impl AnalysisSession {
    /// Whether a line of code can run against the REPL.
    pub fn can_run_line(&self, line: &str) -> (b: bool)
        requires
            self.wf(),
        ensures
            b == line_can_run(self.repl@, line@),
    {
        let cs = chars_of(line);
        let tc = crate::text::trimmed(cs.as_slice());
        proof {
            reveal_strlit("//");
            reveal_strlit("#");
            reveal_strlit("llm_query(");
            reveal_strlit("= llm_query(");
        }
        if tc.len() == 0 || crate::text::starts_with_str(tc.as_slice(), "//") || crate::text::starts_with_str(
            tc.as_slice(),
            "#",
        ) {
            return true;
        }
        if crate::text::starts_with_str(tc.as_slice(), "llm_query(") || crate::text::contains_str(
            tc.as_slice(),
            "= llm_query(",
        ) {
            return call_ok(tc.as_slice());
        }
        true
    }
}

/// A pattern query's final answer is never accepted from a tool call while
/// the trace holds no grep evidence: it is rejected, and the rejection is
/// recorded.
pub proof fn law_no_final_without_evidence(name: Seq<char>, args: Seq<char>, v: ReplView, it: usize)
    ensures
        tool_step_spec(name, args, v, true, false, it).2 is None,
        dispatch_spec(name, args, v) matches Some(ToolResultView::Final(_)) ==> tool_step_spec(
            name,
            args,
            v,
            true,
            false,
            it,
        ).0 == ToolStepView::Rejected(tool_rejection()),
{
}

} // verus!
