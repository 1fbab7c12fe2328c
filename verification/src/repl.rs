//! The analysis REPL: context is loaded as a variable and a small DSL
//! (`head`, `tail`, `grep`, `count`, `slice`, `chunks`, `ast_query`,
//! assignments, `print` and `FINAL`) is interpreted over it.

use vstd::prelude::*;
use vstd::string::StrSliceExecFns;
use crate::assoc::{assign, assoc_get, assoc_set, assoc_view, distinct_names, lookup};
use crate::grep_oracle::grep_lines;
use crate::pattern::{compile, is_match, match_count, regex_compile_error, regex_is_match, regex_match_count};
use crate::text::{
    byte_len, ends_with, first_of, strip_prefixes, last_of, replace_all, split_char, starts_with, trim, trim_by, trim_end_by,
    trim_start_by, parse_usize_spec,
    chars_of, contains, count_occurrences, decimal, decimal_chars, decimal_string, has, join, join_strings,
    lines_of, occurrences, push_str, split_lines, string_from, views,
};

verus! {

/// REPL runtime options.
#[derive(Debug, Clone, Copy, PartialEq, Eq, Structural)]
pub enum ReplRuntime {
    /// Native interpreter (the default).
    Rust,
    /// Bun/Node.js JavaScript.
    Bun,
    /// Python.
    Python,
}

impl Default for ReplRuntime {
    fn default() -> (r: Self)
        ensures
            r == ReplRuntime::Rust,
    {
        ReplRuntime::Rust
    }
}

/// Result of REPL execution.
#[derive(Debug, Clone)]
pub struct ReplResult {
    pub stdout: String,
    pub stderr: String,
    pub final_answer: Option<String>,
}

/// Result of one DSL line.
pub enum DslResult {
    Output(String),
    Final(String),
    Error(String),
}

/// The mathematical content of a [`DslResult`].
pub enum DslView {
    Output(Seq<char>),
    Final(Seq<char>),
    Error(Seq<char>),
}

impl View for DslResult {
    type V = DslView;

    open spec fn view(&self) -> DslView {
        match self {
            DslResult::Output(s) => DslView::Output(s@),
            DslResult::Final(s) => DslView::Final(s@),
            DslResult::Error(s) => DslView::Error(s@),
        }
    }
}

/// The state of a REPL: runtime, context, its lines and the variables in
/// order of first assignment.
pub struct ReplView {
    pub runtime: ReplRuntime,
    pub context: Seq<char>,
    pub lines: Seq<Seq<char>>,
    pub vars: Seq<(Seq<char>, Seq<char>)>,
}

/// REPL instance for analysis.
pub struct RlmRepl {
    runtime: ReplRuntime,
    context: String,
    context_lines: Vec<String>,
    variables: Vec<(String, String)>,
}

impl View for RlmRepl {
    type V = ReplView;

    closed spec fn view(&self) -> ReplView {
        ReplView {
            runtime: self.runtime,
            context: self.context@,
            lines: views(self.context_lines@),
            vars: assoc_view(self.variables@),
        }
    }
}

/// The first `n` lines.
pub open spec fn head_spec(lines: Seq<Seq<char>>, n: usize) -> Seq<Seq<char>> {
    lines.take(if n < lines.len() { n as int } else { lines.len() as int })
}

/// The last `n` lines.
pub open spec fn tail_spec(lines: Seq<Seq<char>>, n: usize) -> Seq<Seq<char>> {
    lines.skip(if n < lines.len() { lines.len() - n } else { 0 })
}

/// The lines (numbered from 1) that contain `p`.
pub open spec fn contains_lines(p: Seq<char>, lines: Seq<Seq<char>>) -> Seq<(usize, Seq<char>)>
    decreases lines.len(),
{
    if lines.len() == 0 {
        Seq::empty()
    } else {
        let prev = contains_lines(p, lines.drop_last());
        if contains(lines.last(), p) {
            prev.push((lines.len() as usize, lines.last()))
        } else {
            prev
        }
    }
}

/// `grep`: the lines the regex matches, or, when the pattern does not
/// compile, the lines that contain it literally.
pub open spec fn repl_grep(p: Seq<char>, lines: Seq<Seq<char>>) -> Seq<(usize, Seq<char>)> {
    if regex_compile_error(p) is None {
        grep_lines(p, lines)
    } else {
        contains_lines(p, lines)
    }
}

/// `count`: the regex's matches in the context, or, when the pattern does
/// not compile, its literal occurrences (saturating at `usize::MAX`).
pub open spec fn repl_count(p: Seq<char>, context: Seq<char>) -> usize {
    if regex_compile_error(p) is None {
        regex_match_count(p, context)
    } else if occurrences(context, p) > usize::MAX {
        usize::MAX
    } else {
        occurrences(context, p) as usize
    }
}

/// `slice`: the characters from `start` to `end`, both clamped.
pub open spec fn slice_spec(context: Seq<char>, start: usize, end: usize) -> Seq<char> {
    let e = if end < context.len() { end as int } else { context.len() as int };
    let s = if start < e { start as int } else { e };
    context.subrange(s, e)
}

/// The lines in groups of `size`, each group joined by newlines.
pub open spec fn group_lines(lines: Seq<Seq<char>>, size: int) -> Seq<Seq<char>>
    decreases lines.len(),
{
    if lines.len() == 0 || size <= 0 {
        Seq::empty()
    } else if lines.len() <= size {
        seq![join(lines, "\n"@)]
    } else {
        seq![join(lines.take(size), "\n"@)] + group_lines(lines.skip(size), size)
    }
}

/// `n` rounded-up shares of `len`.
pub open spec fn share(len: int, n: int) -> int {
    if len % n == 0 {
        len / n
    } else {
        len / n + 1
    }
}

/// `chunks(n)`: the whole context for `n == 0`, else the lines in groups
/// of `ceil(len / n)`.
pub open spec fn chunks_spec(v: ReplView, n: usize) -> Seq<Seq<char>> {
    if n == 0 {
        seq![v.context]
    } else {
        group_lines(v.lines, share(v.lines.len() as int, n as int))
    }
}

impl RlmRepl {
    /// The lines are those of the context and no variable is bound twice.
    pub closed spec fn wf(&self) -> bool {
        &&& views(self.context_lines@) == lines_of(self.context@)
        &&& distinct_names(assoc_view(self.variables@))
    }

    /// Creates a REPL over the given context.
    pub fn new(context: String, runtime: ReplRuntime) -> (r: Self)
        ensures
            r.wf(),
            r@.runtime == runtime,
            r@.context == context@,
            r@.lines == lines_of(context@),
            r@.vars == Seq::<(Seq<char>, Seq<char>)>::empty(),
    {
        let cs = chars_of(context.as_str());
        let context_lines = split_lines(cs.as_slice());
        let r = RlmRepl { runtime, context, context_lines, variables: Vec::new() };
        assert(assoc_view(r.variables@) =~= Seq::<(Seq<char>, Seq<char>)>::empty());
        r
    }

    /// The context.
    pub fn context(&self) -> (r: &str)
        ensures
            r@ == self@.context,
    {
        self.context.as_str()
    }

    /// The context as lines.
    pub fn lines(&self) -> (r: &[String])
        ensures
            views(r@) == self@.lines,
    {
        self.context_lines.as_slice()
    }

    /// The first `n` lines.
    pub fn head(&self, n: usize) -> (r: Vec<&str>)
        ensures
            r@.map_values(|s: &str| s@) == head_spec(self@.lines, n),
    {
        let k = if n < self.context_lines.len() {
            n
        } else {
            self.context_lines.len()
        };
        let mut r: Vec<&str> = Vec::new();
        let mut i: usize = 0;
        while i < k
            invariant
                i <= k <= self.context_lines.len(),
                k == (if n < self.context_lines.len() { n } else { self.context_lines.len() }),
                r@.map_values(|s: &str| s@) == views(self.context_lines@).take(i as int),
            decreases k - i,
        {
            let line = self.context_lines[i].as_str();
            let ghost before = r@;
            r.push(line);
            assert(r@.map_values(|s: &str| s@) =~= before.map_values(|s: &str| s@).push(line@));
            assert(views(self.context_lines@).take(i + 1) =~= views(self.context_lines@).take(i as int).push(line@));
            i += 1;
        }
        r
    }

    /// The last `n` lines.
    pub fn tail(&self, n: usize) -> (r: Vec<&str>)
        ensures
            r@.map_values(|s: &str| s@) == tail_spec(self@.lines, n),
    {
        let len = self.context_lines.len();
        let start = if n < len {
            len - n
        } else {
            0
        };
        let mut r: Vec<&str> = Vec::new();
        let mut i: usize = start;
        while i < len
            invariant
                start <= i <= len,
                len == self.context_lines.len(),
                start == (if n < len { len - n } else { 0 }),
                r@.map_values(|s: &str| s@) == views(self.context_lines@).subrange(start as int, i as int),
            decreases len - i,
        {
            let line = self.context_lines[i].as_str();
            let ghost before = r@;
            r.push(line);
            assert(r@.map_values(|s: &str| s@) =~= before.map_values(|s: &str| s@).push(line@));
            assert(views(self.context_lines@).subrange(start as int, i + 1) =~= views(
                self.context_lines@,
            ).subrange(start as int, i as int).push(line@));
            i += 1;
        }
        assert(views(self.context_lines@).subrange(start as int, len as int) =~= views(
            self.context_lines@,
        ).skip(start as int));
        r
    }

    /// The lines matching `pattern`, numbered from 1; a pattern that does not
    /// compile is searched for literally.
    pub fn grep(&self, pattern: &str) -> (r: Vec<(usize, &str)>)
        ensures
            r@.map_values(|m: (usize, &str)| (m.0, m.1@)) == repl_grep(pattern@, self@.lines),
    {
        let re = compile(pattern);
        let pc = chars_of(pattern);
        let mut out: Vec<(usize, &str)> = Vec::new();
        let mut i: usize = 0;
        let ghost ls = views(self.context_lines@);
        assert(ls.take(0) =~= Seq::<Seq<char>>::empty());
        while i < self.context_lines.len()
            invariant
                i <= self.context_lines.len(),
                ls == views(self.context_lines@),
                pc@ == pattern@,
                re matches Ok(p) ==> p.source() == pattern@,
                (re is Ok) == (regex_compile_error(pattern@) is None),
                out@.map_values(|m: (usize, &str)| (m.0, m.1@)) == repl_grep(pattern@, ls.take(i as int)),
            decreases self.context_lines.len() - i,
        {
            assert(ls.take(i + 1).drop_last() =~= ls.take(i as int));
            assert(ls.take(i + 1).last() == self.context_lines@[i as int]@);
            let line = self.context_lines[i].as_str();
            let hit = match &re {
                Ok(p) => is_match(p, line),
                Err(_) => {
                    let lc = chars_of(line);
                    has(lc.as_slice(), pc.as_slice())
                },
            };
            if hit {
                let ghost before = out@;
                out.push((i + 1, line));
                assert(out@.map_values(|m: (usize, &str)| (m.0, m.1@)) =~= before.map_values(
                    |m: (usize, &str)| (m.0, m.1@),
                ).push(((i + 1) as usize, line@)));
            }
            i += 1;
        }
        assert(ls.take(self.context_lines.len() as int) =~= ls);
        out
    }

    /// Counts the matches of `pattern` in the context; a pattern that does not
    /// compile is counted literally.
    pub fn count(&self, pattern: &str) -> (r: usize)
        ensures
            r == repl_count(pattern@, self@.context),
    {
        match compile(pattern) {
            Ok(p) => match_count(&p, self.context.as_str()),
            Err(_) => {
                let cc = chars_of(self.context.as_str());
                let pc = chars_of(pattern);
                if pc.len() == 0 {
                    if cc.len() < usize::MAX {
                        cc.len() + 1
                    } else {
                        usize::MAX
                    }
                } else {
                    count_occurrences(cc.as_slice(), pc.as_slice())
                }
            },
        }
    }

    /// The characters of the context from `start` to `end`, both clamped to
    /// the context.
    pub fn slice(&self, start: usize, end: usize) -> (r: &str)
        ensures
            r@ == slice_spec(self@.context, start, end),
    {
        let total = self.context.as_str().unicode_len();
        let end = if end < total {
            end
        } else {
            total
        };
        let start = if start < end {
            start
        } else {
            end
        };
        self.context.as_str().substring_char(start, end)
    }

    /// Splits the context into `n` chunks of lines (the whole context for
    /// `n == 0`; no chunks for a context without lines).
    pub fn chunks(&self, n: usize) -> (r: Vec<String>)
        requires
            self.wf(),
        ensures
            views(r@) == chunks_spec(self@, n),
    {
        if n == 0 {
            let r = vec![self.context.clone()];
            assert(views(r@) =~= seq![self.context@]);
            return r;
        }
        let len = self.context_lines.len();
        if len == 0 {
            let r: Vec<String> = Vec::new();
            assert(views(r@) =~= Seq::<Seq<char>>::empty());
            return r;
        }
        let q = len / n;
        let rem = len % n;
        let size = if rem == 0 {
            q
        } else {
            assert(q < usize::MAX) by (nonlinear_arith)
                requires
                    rem != 0,
                    rem == len % n,
                    q == len / n,
                    n > 0,
            ;
            q + 1
        };
        assert(size == share(len as int, n as int));
        assert(size > 0) by (nonlinear_arith)
            requires
                len > 0,
                n > 0,
                q == len / n,
                rem == len % n,
                size == (if rem == 0 { q as int } else { q + 1 }),
        ;
        let mut r: Vec<String> = Vec::new();
        let mut start: usize = 0;
        let ghost ls = views(self.context_lines@);
        assert(ls.skip(0) =~= ls);
        assert(views(r@) =~= Seq::<Seq<char>>::empty());
        while start < len
            invariant
                start <= len,
                len == self.context_lines.len(),
                ls == views(self.context_lines@),
                size > 0,
                views(r@) + group_lines(ls.skip(start as int), size as int) == group_lines(ls, size as int),
            decreases len - start,
        {
            let end = if len - start <= size {
                len
            } else {
                start + size
            };
            let piece = crate::text::join_range(&self.context_lines, start, end, "\n");
            let ghost rest = ls.skip(start as int);
            assert(ls.subrange(start as int, end as int) =~= rest.take(end - start));
            if len - start <= size {
                assert(rest.take(end - start) =~= rest);
            } else {
                assert(rest.skip(size as int) =~= ls.skip(end as int));
            }
            let ghost before = views(r@);
            r.push(piece);
            assert(views(r@) =~= before.push(piece@));
            assert(views(r@) + group_lines(ls.skip(end as int), size as int) =~= before + (seq![piece@]
                + group_lines(ls.skip(end as int), size as int)));
            start = end;
        }
        assert(ls.skip(len as int) =~= Seq::<Seq<char>>::empty());
        assert(views(r@) + Seq::<Seq<char>>::empty() =~= views(r@));
        r
    }

    /// Binds a variable.
    pub fn set_var(&mut self, name: &str, value: String)
        requires
            old(self).wf(),
        ensures
            final(self).wf(),
            final(self)@ == (ReplView { vars: assign(old(self)@.vars, name@, value@), ..old(self)@ }),
    {
        let mut n = String::new();
        push_str(&mut n, name);
        assoc_set(&mut self.variables, n, value);
    }

    /// The value of a variable.
    pub fn get_var(&self, name: &str) -> (r: Option<&str>)
        ensures
            match r {
                Some(v) => lookup(self@.vars, name@) == Some(v@),
                None => lookup(self@.vars, name@) is None,
            },
    {
        assoc_get(&self.variables, name)
    }
}


/// The call's parentheses are in order: no `)` comes before the first `(`.
pub open spec fn parens_ordered(e: Seq<char>) -> bool {
    e.contains('(') ==> forall|j: int| 0 <= j < e.len() && e[j] == ')' ==> j > first_of(e, '(')
}

/// `extract_number`: the trimmed text between the first `(` and the first
/// `)`, as a number.
pub open spec fn number_arg(e: Seq<char>) -> Option<usize> {
    if e.contains('(') && e.contains(')') {
        match parse_usize_spec(trim(e.subrange(first_of(e, '(') + 1, first_of(e, ')')))) {
            Some(n) => Some(n as usize),
            None => None,
        }
    } else {
        None
    }
}

/// The numbers among trimmed pieces.
pub open spec fn parsed_numbers(pieces: Seq<Seq<char>>) -> Seq<usize>
    decreases pieces.len(),
{
    if pieces.len() == 0 {
        Seq::empty()
    } else {
        match parse_usize_spec(trim(pieces.last())) {
            Some(n) => parsed_numbers(pieces.drop_last()).push(n as usize),
            None => parsed_numbers(pieces.drop_last()),
        }
    }
}

/// `extract_numbers`: the comma-separated numbers between the first `(`
/// (or the start) and the first `)` (or the end).
pub open spec fn numbers_arg(e: Seq<char>) -> Seq<usize> {
    let start = if e.contains('(') { first_of(e, '(') } else { 0 };
    let end = if e.contains(')') { first_of(e, ')') } else { e.len() as int };
    parsed_numbers(split_char(e.subrange(start + 1, end), ','))
}

/// Quote characters trimmed from string arguments.
pub open spec fn arg_quotes() -> Seq<char> {
    seq!['"', '\'', '`', '/']
}

/// `extract_string`: the trimmed text between the first `(` and the last
/// `)`, with quotes trimmed from both ends.
pub open spec fn string_arg(e: Seq<char>) -> Option<Seq<char>> {
    if e.contains('(') && e.contains(')') {
        Some(
            trim_end_by(
                trim_start_by(trim(e.subrange(first_of(e, '(') + 1, last_of(e, ')'))), false, arg_quotes()),
                false,
                arg_quotes(),
            ),
        )
    } else {
        None
    }
}

/// A string argument, or the empty string.
pub open spec fn string_arg_or_empty(e: Seq<char>) -> Seq<char> {
    match string_arg(e) {
        Some(s) => s,
        None => Seq::empty(),
    }
}

/// A number argument, or `default`.
pub open spec fn number_or(e: Seq<char>, default: usize) -> usize {
    match number_arg(e) {
        Some(n) => n,
        None => default,
    }
}

/// Numbered lines as `{n}:{line}`.
pub open spec fn numbered_text(ms: Seq<(usize, Seq<char>)>) -> Seq<Seq<char>> {
    ms.map_values(|m: (usize, Seq<char>)| decimal(m.0 as nat) + ":"@ + m.1)
}

/// The expression, trimmed and without trailing `;`.
pub open spec fn clean_expr(expr: Seq<char>) -> Seq<char> {
    trim_end_by(trim(expr), false, seq![';'])
}


/// A string that starts with `p` neither starts with nor equals a string
/// whose first character differs.
proof fn lemma_first_char_differs(e: Seq<char>, p: Seq<char>, q: Seq<char>)
    requires
        starts_with(e, p),
        p.len() > 0,
        q.len() > 0,
        p[0] != q[0],
    ensures
        !starts_with(e, q),
        e != q,
{
    assert(e.subrange(0, p.len() as int)[0] == p[0]);
    if starts_with(e, q) {
        assert(e.subrange(0, q.len() as int)[0] == q[0]);
    }
}


/// `evaluate_expression` on a REPL state.
#[verifier::opaque]
pub open spec fn eval_spec(v: ReplView, expr: Seq<char>) -> Seq<char> {
    let e = clean_expr(expr);
    if starts_with(e, "head("@) {
        join(head_spec(v.lines, number_or(e, 10)), "\n"@)
    } else if starts_with(e, "tail("@) {
        join(tail_spec(v.lines, number_or(e, 10)), "\n"@)
    } else if starts_with(e, "grep("@) {
        join(numbered_text(repl_grep(string_arg_or_empty(e), v.lines)), "\n"@)
    } else if starts_with(e, "count("@) {
        decimal(repl_count(string_arg_or_empty(e), v.context) as nat)
    } else if e == "lines()"@ || e == "lines"@ {
        "Lines: "@ + decimal(v.lines.len())
    } else if starts_with(e, "slice("@) && numbers_arg(e).len() >= 2 {
        slice_spec(v.context, numbers_arg(e)[0], numbers_arg(e)[1])
    } else if starts_with(e, "chunks("@) || starts_with(e, "chunk("@) {
        let cs = chunks_spec(v, number_or(e, 5));
        "["@ + decimal(cs.len()) + " chunks of "@ + decimal(
            if cs.len() > 0 {
                lines_of(cs[0]).len()
            } else {
                0
            },
        ) + " lines each]"@
    } else if e == "context"@ || starts_with(e, "context.slice"@) || starts_with(e, "context["@) {
        "[Context: "@ + decimal(byte_len(v.context) as nat) + " chars, "@ + decimal(v.lines.len())
            + " lines]"@
    } else if starts_with(e, "ast_query("@) {
        crate::ast::listing_spec(v.context, string_arg_or_empty(e))
    } else if lookup(v.vars, e) is Some {
        lookup(v.vars, e).unwrap()
    } else if (starts_with(e, "\""@) && ends_with(e, "\""@)) || (starts_with(e, "'"@) && ends_with(
        e,
        "'"@,
    )) {
        if e.len() >= 2 {
            e.subrange(1, e.len() - 1)
        } else {
            Seq::empty()
        }
    } else {
        e
    }
}

/// Variable references replaced, in order of the variables: `${name}`,
/// then `$name`, then `{name}`.
pub open spec fn expand_vars(s: Seq<char>, vars: Seq<(Seq<char>, Seq<char>)>) -> Seq<char>
    decreases vars.len(),
{
    if vars.len() == 0 {
        s
    } else {
        let name = vars[0].0;
        let value = vars[0].1;
        let s1 = replace_all(s, "${"@ + name + "}"@, value);
        let s2 = replace_all(s1, "$"@ + name, value);
        let s3 = replace_all(s2, "{"@ + name + "}"@, value);
        expand_vars(s3, vars.drop_first())
    }
}

/// `expand_expression`: variables expanded, then the context and line
/// counts filled in.
#[verifier::opaque]
pub open spec fn expand_spec(v: ReplView, expr: Seq<char>) -> Seq<char> {
    let r = expand_vars(expr, v.vars);
    let clen = decimal(byte_len(v.context) as nat);
    let r2 = if contains(r, "context.len()"@) || contains(r, "context.length"@) {
        replace_all(replace_all(r, "context.len()"@, clen), "context.length"@, clen)
    } else {
        r
    };
    let llen = decimal(v.lines.len());
    if contains(r2, "lines().len()"@) || contains(r2, "lines().length"@) {
        replace_all(replace_all(r2, "lines().len()"@, llen), "lines().length"@, llen)
    } else {
        r2
    }
}

/// `e` starts with a call prefix `p`: a name without parentheses, then `(`.
proof fn lemma_call_parens(e: Seq<char>, p: Seq<char>)
    requires
        starts_with(e, p),
        p.len() > 0,
        p.last() == '(',
        forall|j: int| 0 <= j < p.len() - 1 ==> p[j] != '(' && p[j] != ')',
    ensures
        e.contains('('),
        first_of(e, '(') == p.len() - 1,
        parens_ordered(e),
        e.contains(')') ==> first_of(e, ')') >= p.len() && last_of(e, ')') >= p.len(),
{
    let i = p.len() - 1;
    assert(e.subrange(0, p.len() as int) == p);
    assert(e[i] == p[i]);
    assert(e.contains('('));
    let k = first_of(e, '(');
    assert(0 <= i < e.len() && e[i] == '(' && forall|j: int| 0 <= j < i ==> e[j] != '(') by {
        assert forall|j: int| 0 <= j < i implies e[j] != '(' by {
            assert(e[j] == p[j]);
        }
    }
    assert(k == i) by {
        if k < i {
            assert(e[k] == p[k]);
        } else if k > i {
        }
    }
    assert forall|j: int| 0 <= j < e.len() && e[j] == ')' implies j >= p.len() by {
        if j < p.len() {
            assert(e[j] == p[j]);
        }
    }
    if e.contains(')') {
        let f = first_of(e, ')');
        let l = last_of(e, ')');
        let w = choose|w: int| 0 <= w < e.len() && e[w] == ')';
        assert(exists|i: int| 0 <= i < e.len() && e[i] == ')' && forall|j: int| 0 <= j < i ==> e[j] != ')') by {
            lemma_first_exists(e, ')', w);
        }
        assert(exists|i: int| 0 <= i < e.len() && e[i] == ')' && forall|j: int| i < j < e.len() ==> e[j] != ')') by {
            lemma_last_exists(e, ')', w);
        }
    }
}

pub proof fn lemma_first_exists(s: Seq<char>, c: char, w: int)
    requires
        0 <= w < s.len(),
        s[w] == c,
    ensures
        exists|i: int| 0 <= i < s.len() && s[i] == c && forall|j: int| 0 <= j < i ==> s[j] != c,
    decreases w,
{
    if exists|j: int| 0 <= j < w && s[j] == c {
        let j = choose|j: int| 0 <= j < w && s[j] == c;
        lemma_first_exists(s, c, j);
    } else {
        assert(0 <= w < s.len() && s[w] == c && forall|j: int| 0 <= j < w ==> s[j] != c);
    }
}

proof fn lemma_last_exists(s: Seq<char>, c: char, w: int)
    requires
        0 <= w < s.len(),
        s[w] == c,
    ensures
        exists|i: int| 0 <= i < s.len() && s[i] == c && forall|j: int| i < j < s.len() ==> s[j] != c,
    decreases s.len() - w,
{
    if exists|j: int| w < j < s.len() && s[j] == c {
        let j = choose|j: int| w < j < s.len() && s[j] == c;
        lemma_last_exists(s, c, j);
    } else {
        assert(0 <= w < s.len() && s[w] == c && forall|j: int| w < j < s.len() ==> s[j] != c);
    }
}


/// `prefix`, then `middle`, then `suffix`, as characters.
fn framed(prefix: &str, middle: &str, suffix: &str) -> (r: Vec<char>)
    ensures
        r@ == prefix@ + middle@ + suffix@,
{
    let mut s = String::new();
    push_str(&mut s, prefix);
    push_str(&mut s, middle);
    push_str(&mut s, suffix);
    chars_of(s.as_str())
}

impl RlmRepl {
    fn expand_expression(&self, expr: &str) -> (r: String)
        ensures
            r@ == expand_spec(self@, expr@),
    {
        reveal(expand_spec);
        let mut result: Vec<char> = chars_of(expr);
        let mut i: usize = 0;
        let ghost vars = self@.vars;
        assert(vars.skip(0) =~= vars);
        while i < self.variables.len()
            invariant
                i <= self.variables.len(),
                vars == assoc_view(self.variables@),
                expand_vars(result@, vars.skip(i as int)) == expand_vars(expr@, vars),
            decreases self.variables.len() - i,
        {
            let name = self.variables[i].0.as_str();
            let value = chars_of(self.variables[i].1.as_str());
            assert(vars.skip(i as int)[0] == (name@, value@));
            assert(vars.skip(i as int).drop_first() =~= vars.skip(i + 1));
            let p1 = framed("${", name, "}");
            proof {
                reveal_strlit("${");
                reveal_strlit("}");
            }
            assert(p1@.len() > 0);
            result = crate::text::replace(result.as_slice(), p1.as_slice(), value.as_slice());
            let p2 = framed("$", name, "");
            proof {
                reveal_strlit("$");
                reveal_strlit("");
            }
            assert(p2@ =~= "$"@ + name@);
            result = crate::text::replace(result.as_slice(), p2.as_slice(), value.as_slice());
            let p3 = framed("{", name, "}");
            proof {
                reveal_strlit("{");
            }
            assert(p3@.len() > 0);
            result = crate::text::replace(result.as_slice(), p3.as_slice(), value.as_slice());
            i += 1;
        }
        assert(vars.skip(self.variables.len() as int) =~= Seq::<(Seq<char>, Seq<char>)>::empty());
        let ghost r1 = result@;
        let n = self.context.as_str().len();
        assert(n == byte_len(self.context@));
        let clen = decimal_chars(n);
        let lit1 = chars_of("context.len()");
        let lit2 = chars_of("context.length");
        proof {
            reveal_strlit("context.len()");
            reveal_strlit("context.length");
        }
        if has(result.as_slice(), lit1.as_slice()) || has(result.as_slice(), lit2.as_slice()) {
            result = crate::text::replace(result.as_slice(), lit1.as_slice(), clen.as_slice());
            result = crate::text::replace(result.as_slice(), lit2.as_slice(), clen.as_slice());
        }
        let llen = decimal_chars(self.context_lines.len());
        let lit3 = chars_of("lines().len()");
        let lit4 = chars_of("lines().length");
        proof {
            reveal_strlit("lines().len()");
            reveal_strlit("lines().length");
        }
        if has(result.as_slice(), lit3.as_slice()) || has(result.as_slice(), lit4.as_slice()) {
            result = crate::text::replace(result.as_slice(), lit3.as_slice(), llen.as_slice());
            result = crate::text::replace(result.as_slice(), lit4.as_slice(), llen.as_slice());
        }
        string_from(result.as_slice())
    }
}


/// The bounds `extract_numbers` slices by are in order.
pub open spec fn numbers_bounds_ok(e: Seq<char>) -> bool {
    let start = if e.contains('(') { first_of(e, '(') } else { 0 };
    let end = if e.contains(')') { first_of(e, ')') } else { e.len() as int };
    start + 1 <= end
}

/// The bounds `extract_string` slices by are in order.
pub open spec fn string_bounds_ok(e: Seq<char>) -> bool {
    e.contains('(') && e.contains(')') ==> last_of(e, ')') > first_of(e, '(')
}

/// The bounds `extract_number` slices by are in order.
pub open spec fn number_bounds_ok(e: Seq<char>) -> bool {
    e.contains('(') && e.contains(')') ==> first_of(e, ')') > first_of(e, '(')
}

fn string_of(s: &str) -> (r: String)
    ensures
        r@ == s@,
{
    let mut r = String::new();
    push_str(&mut r, s);
    r
}

/// The number between the first `(` and the first `)` of an expression.
fn number_in(expr: &str) -> (r: Option<usize>)
    requires
        number_bounds_ok(expr@),
    ensures
        r == number_arg(expr@),
{
    let cs = chars_of(expr);
    let start = match crate::text::find_char(cs.as_slice(), '(') {
        Some(i) => i,
        None => {
            return None;
        },
    };
    let end = match crate::text::find_char(cs.as_slice(), ')') {
        Some(i) => i,
        None => {
            return None;
        },
    };
    let inner = crate::text::slice_to_vec(cs.as_slice(), start + 1, end);
    let t = crate::text::trimmed(inner.as_slice());
    match crate::text::parse_usize(t.as_slice()) {
        Some(n) => Some(n),
        None => None,
    }
}

impl RlmRepl {
    fn extract_number(&self, expr: &str) -> (r: Option<usize>)
        requires
            number_bounds_ok(expr@),
        ensures
            r == number_arg(expr@),
    {
        number_in(expr)
    }

    fn extract_numbers(&self, expr: &str) -> (r: Vec<usize>)
        requires
            numbers_bounds_ok(expr@),
        ensures
            r@ == numbers_arg(expr@),
    {
        let cs = chars_of(expr);
        let start = match crate::text::find_char(cs.as_slice(), '(') {
            Some(i) => i,
            None => 0,
        };
        let end = match crate::text::find_char(cs.as_slice(), ')') {
            Some(i) => i,
            None => cs.len(),
        };
        let inner = crate::text::slice_to_vec(cs.as_slice(), start + 1, end);
        let pieces = crate::text::split_on(inner.as_slice(), ',');
        let ghost ps = split_char(inner@, ',');
        let mut out: Vec<usize> = Vec::new();
        let mut i: usize = 0;
        assert(ps.take(0) =~= Seq::<Seq<char>>::empty());
        while i < pieces.len()
            invariant
                i <= pieces.len(),
                pieces@.len() == ps.len(),
                forall|k: int| 0 <= k < pieces@.len() ==> (#[trigger] pieces@[k])@ == ps[k],
                out@ == parsed_numbers(ps.take(i as int)),
            decreases pieces.len() - i,
        {
            assert(ps.take(i + 1).drop_last() =~= ps.take(i as int));
            assert(ps.take(i + 1).last() == pieces@[i as int]@);
            let t = crate::text::trimmed(pieces[i].as_slice());
            if let Some(n) = crate::text::parse_usize(t.as_slice()) {
                out.push(n);
            }
            i += 1;
        }
        assert(ps.take(pieces.len() as int) =~= ps);
        out
    }

    fn extract_string(&self, expr: &str) -> (r: Option<String>)
        requires
            string_bounds_ok(expr@),
        ensures
            match r {
                Some(s) => string_arg(expr@) == Some(s@),
                None => string_arg(expr@) is None,
            },
    {
        let cs = chars_of(expr);
        let start = match crate::text::find_char(cs.as_slice(), '(') {
            Some(i) => i,
            None => {
                return None;
            },
        };
        let end = match crate::text::rfind_char(cs.as_slice(), ')') {
            Some(i) => i,
            None => {
                return None;
            },
        };
        let inner = crate::text::slice_to_vec(cs.as_slice(), start + 1, end);
        let t = crate::text::trimmed(inner.as_slice());
        let quotes: Vec<char> = vec!['"', '\'', '`', '/'];
        assert(quotes@ =~= arg_quotes());
        let a = crate::text::trimmed_start_by(t.as_slice(), quotes.as_slice());
        let b = crate::text::trimmed_end_by(a.as_slice(), quotes.as_slice());
        Some(string_from(b.as_slice()))
    }

    /// Runs a tree-sitter AST query over the context and lists the matches.
    fn execute_ast_query(&self, query: &str) -> (r: String)
        ensures
            r@ == crate::ast::listing_spec(self@.context, query@),
    {
        crate::ast::ast_query_listing(self.context.clone(), query)
    }
}



/// The text of a `head`/`tail` result: the lines joined by newlines.
fn join_strs(h: &Vec<&str>) -> (r: String)
    ensures
        r@ == join(h@.map_values(|s: &str| s@), "\n"@),
{
    let mut parts: Vec<String> = Vec::new();
    let mut i: usize = 0;
    while i < h.len()
        invariant
            i <= h.len(),
            views(parts@) == h@.map_values(|s: &str| s@).take(i as int),
        decreases h.len() - i,
    {
        let ghost before = views(parts@);
        parts.push(string_of(h[i]));
        assert(views(parts@) =~= before.push(h@[i as int]@));
        assert(h@.map_values(|s: &str| s@).take(i + 1) =~= h@.map_values(|s: &str| s@).take(i as int).push(
            h@[i as int]@,
        ));
        i += 1;
    }
    assert(h@.map_values(|s: &str| s@).take(h.len() as int) =~= h@.map_values(|s: &str| s@));
    join_strings(&parts, "\n")
}

fn numbered_parts(ms: &Vec<(usize, &str)>) -> (parts: Vec<String>)
    ensures
        views(parts@) == numbered_text(ms@.map_values(|m: (usize, &str)| (m.0, m.1@))),
{
    let ghost mv = ms@.map_values(|m: (usize, &str)| (m.0, m.1@));
    let mut parts: Vec<String> = Vec::new();
    let mut i: usize = 0;
    while i < ms.len()
        invariant
            i <= ms.len(),
            mv == ms@.map_values(|m: (usize, &str)| (m.0, m.1@)),
            views(parts@) == numbered_text(mv).take(i as int),
        decreases ms.len() - i,
    {
        let mut line = decimal_string(ms[i].0);
        push_str(&mut line, ":");
        push_str(&mut line, ms[i].1);
        let ghost lv = line@;
        assert(mv[i as int] == (ms@[i as int].0, ms@[i as int].1@));
        assert(lv == numbered_text(mv)[i as int]);
        let ghost before = views(parts@);
        parts.push(line);
        assert(views(parts@) =~= before.push(lv));
        assert(numbered_text(mv).take(i + 1) =~= numbered_text(mv).take(i as int).push(lv));
        i += 1;
    }
    assert(numbered_text(mv).take(ms.len() as int) =~= numbered_text(mv));
    parts
}

/// The chunk summary text.
pub open spec fn chunks_text(cs: Seq<Seq<char>>) -> Seq<char> {
    "["@ + decimal(cs.len()) + " chunks of "@ + decimal(
        if cs.len() > 0 {
            lines_of(cs[0]).len()
        } else {
            0
        },
    ) + " lines each]"@
}

/// The context summary text.
pub open spec fn context_text(v: ReplView) -> Seq<char> {
    "[Context: "@ + decimal(byte_len(v.context) as nat) + " chars, "@ + decimal(v.lines.len()) + " lines]"@
}

impl RlmRepl {
    fn eval_head_tail(&self, e: &str, head: bool) -> (r: String)
        requires
            head ==> starts_with(e@, "head("@),
            !head ==> starts_with(e@, "tail("@),
        ensures
            head ==> r@ == join(head_spec(self@.lines, number_or(e@, 10)), "\n"@),
            !head ==> r@ == join(tail_spec(self@.lines, number_or(e@, 10)), "\n"@),
    {
        proof {
            reveal_strlit("head(");
            reveal_strlit("tail(");
            if head {
                lemma_call_parens(e@, "head("@);
            } else {
                lemma_call_parens(e@, "tail("@);
            }
        }
        let n = match self.extract_number(e) {
            Some(n) => n,
            None => 10,
        };
        let h = if head {
            self.head(n)
        } else {
            self.tail(n)
        };
        join_strs(&h)
    }

    fn eval_grep(&self, e: &str) -> (r: String)
        requires
            starts_with(e@, "grep("@),
        ensures
            r@ == join(numbered_text(repl_grep(string_arg_or_empty(e@), self@.lines)), "\n"@),
    {
        proof {
            reveal_strlit("grep(");
            lemma_call_parens(e@, "grep("@);
        }
        let pattern = match self.extract_string(e) {
            Some(p) => p,
            None => String::new(),
        };
        let ms = self.grep(pattern.as_str());
        let parts = numbered_parts(&ms);
        join_strings(&parts, "\n")
    }

    fn eval_count(&self, e: &str) -> (r: String)
        requires
            starts_with(e@, "count("@),
        ensures
            r@ == decimal(repl_count(string_arg_or_empty(e@), self@.context) as nat),
    {
        proof {
            reveal_strlit("count(");
            lemma_call_parens(e@, "count("@);
        }
        let pattern = match self.extract_string(e) {
            Some(p) => p,
            None => String::new(),
        };
        let c = self.count(pattern.as_str());
        decimal_string(c)
    }

    fn eval_slice(&self, e: &str) -> (r: Option<String>)
        requires
            starts_with(e@, "slice("@),
        ensures
            match r {
                Some(t) => numbers_arg(e@).len() >= 2 && t@ == slice_spec(
                    self@.context,
                    numbers_arg(e@)[0],
                    numbers_arg(e@)[1],
                ),
                None => numbers_arg(e@).len() < 2,
            },
    {
        proof {
            reveal_strlit("slice(");
            lemma_call_parens(e@, "slice("@);
        }
        let nums = self.extract_numbers(e);
        if nums.len() >= 2 {
            Some(string_of(self.slice(nums[0], nums[1])))
        } else {
            None
        }
    }

    fn eval_chunks(&self, e: &str) -> (r: String)
        requires
            self.wf(),
            starts_with(e@, "chunks("@) || starts_with(e@, "chunk("@),
        ensures
            r@ == chunks_text(chunks_spec(self@, number_or(e@, 5))),
    {
        proof {
            reveal_strlit("chunks(");
            reveal_strlit("chunk(");
            if starts_with(e@, "chunks("@) {
                lemma_call_parens(e@, "chunks("@);
            } else {
                lemma_call_parens(e@, "chunk("@);
            }
        }
        let n = match self.extract_number(e) {
            Some(n) => n,
            None => 5,
        };
        let cs = self.chunks(n);
        let first_lines: usize = if cs.len() > 0 {
            let fc = chars_of(cs[0].as_str());
            split_lines(fc.as_slice()).len()
        } else {
            0
        };
        let mut r = string_of("[");
        let d1 = decimal_string(cs.len());
        push_str(&mut r, d1.as_str());
        push_str(&mut r, " chunks of ");
        let d2 = decimal_string(first_lines);
        push_str(&mut r, d2.as_str());
        push_str(&mut r, " lines each]");
        r
    }

    fn eval_context(&self) -> (r: String)
        ensures
            r@ == context_text(self@),
    {
        let mut r = string_of("[Context: ");
        let n = self.context.as_str().len();
        assert(n == byte_len(self.context@));
        let d1 = decimal_string(n);
        push_str(&mut r, d1.as_str());
        push_str(&mut r, " chars, ");
        let d2 = decimal_string(self.context_lines.len());
        push_str(&mut r, d2.as_str());
        push_str(&mut r, " lines]");
        r
    }

    fn eval_ast(&self, e: &str) -> (r: String)
        requires
            starts_with(e@, "ast_query("@),
        ensures
            r@ == crate::ast::listing_spec(self@.context, string_arg_or_empty(e@)),
    {
        proof {
            reveal_strlit("ast_query(");
            lemma_call_parens(e@, "ast_query("@);
        }
        let query = match self.extract_string(e) {
            Some(q) => q,
            None => String::new(),
        };
        self.execute_ast_query(query.as_str())
    }

    fn eval_literal(e: &[char]) -> (r: String)
        requires
            (starts_with(e@, "\""@) && ends_with(e@, "\""@)) || (starts_with(e@, "'"@) && ends_with(e@, "'"@)),
        ensures
            r@ == (if e@.len() >= 2 { e@.subrange(1, e@.len() - 1) } else { Seq::empty() }),
    {
        if e.len() >= 2 {
            let inner = crate::text::slice_to_vec(e, 1, e.len() - 1);
            string_from(inner.as_slice())
        } else {
            String::new()
        }
    }

    /// Evaluates one DSL expression over the context and the variables.
    #[verifier::rlimit(40)]
    pub fn evaluate_expression(&mut self, expr: &str) -> (r: String)
        requires
            old(self).wf(),
        ensures
            *final(self) == *old(self),
            r@ == eval_spec(old(self)@, expr@),
    {
        reveal(eval_spec);
        let raw = chars_of(expr);
        let t = crate::text::trimmed(raw.as_slice());
        let semi: Vec<char> = vec![';'];
        assert(semi@ =~= seq![';']);
        let ec = crate::text::trimmed_end_by(t.as_slice(), semi.as_slice());
        let es = string_from(ec.as_slice());
        let e = es.as_str();
        assert(e@ == clean_expr(expr@));
        if crate::text::starts_with_str(ec.as_slice(), "head(") {
            return self.eval_head_tail(e, true);
        }
        if crate::text::starts_with_str(ec.as_slice(), "tail(") {
            return self.eval_head_tail(e, false);
        }
        if crate::text::starts_with_str(ec.as_slice(), "grep(") {
            return self.eval_grep(e);
        }
        if crate::text::starts_with_str(ec.as_slice(), "count(") {
            return self.eval_count(e);
        }
        if crate::text::eq_str(ec.as_slice(), "lines()") || crate::text::eq_str(ec.as_slice(), "lines") {
            let mut r = string_of("Lines: ");
            let d = decimal_string(self.context_lines.len());
            push_str(&mut r, d.as_str());
            return r;
        }
        if crate::text::starts_with_str(ec.as_slice(), "slice(") {
            if let Some(t) = self.eval_slice(e) {
                return t;
            }
        }
        if crate::text::starts_with_str(ec.as_slice(), "chunks(") || crate::text::starts_with_str(
            ec.as_slice(),
            "chunk(",
        ) {
            return self.eval_chunks(e);
        }
        if crate::text::eq_str(ec.as_slice(), "context") || crate::text::starts_with_str(
            ec.as_slice(),
            "context.slice",
        ) || crate::text::starts_with_str(ec.as_slice(), "context[") {
            return self.eval_context();
        }
        if crate::text::starts_with_str(ec.as_slice(), "ast_query(") {
            proof {
                reveal_strlit("ast_query(");
                reveal_strlit("head(");
                reveal_strlit("tail(");
                reveal_strlit("grep(");
                reveal_strlit("count(");
                reveal_strlit("lines()");
                reveal_strlit("lines");
                reveal_strlit("slice(");
                reveal_strlit("chunks(");
                reveal_strlit("chunk(");
                reveal_strlit("context");
                reveal_strlit("context.slice");
                reveal_strlit("context[");
                let a = "ast_query("@;
                lemma_first_char_differs(e@, a, "head("@);
                lemma_first_char_differs(e@, a, "tail("@);
                lemma_first_char_differs(e@, a, "grep("@);
                lemma_first_char_differs(e@, a, "count("@);
                lemma_first_char_differs(e@, a, "lines()"@);
                lemma_first_char_differs(e@, a, "lines"@);
                lemma_first_char_differs(e@, a, "slice("@);
                lemma_first_char_differs(e@, a, "chunks("@);
                lemma_first_char_differs(e@, a, "chunk("@);
                lemma_first_char_differs(e@, a, "context"@);
                lemma_first_char_differs(e@, a, "context.slice"@);
                lemma_first_char_differs(e@, a, "context["@);
            }
            return self.eval_ast(e);
        }
        if let Some(val) = self.get_var(e) {
            return string_of(val);
        }
        if (crate::text::starts_with_str(ec.as_slice(), "\"") && crate::text::ends_with_str(
            ec.as_slice(),
            "\"",
        )) || (crate::text::starts_with_str(ec.as_slice(), "'") && crate::text::ends_with_str(
            ec.as_slice(),
            "'",
        )) {
            return Self::eval_literal(ec.as_slice());
        }
        es
    }
}


/// The quote characters trimmed from `FINAL(..)` and `print(..)` arguments.
pub open spec fn final_quotes() -> Seq<char> {
    seq!['"', '\'', '`']
}

/// The trimmed, unquoted text between the first `(` and the last `)` (or the
/// end).
pub open spec fn call_text(line: Seq<char>) -> Seq<char> {
    let start = first_of(line, '(') + 1;
    let end = if line.contains(')') { last_of(line, ')') } else { line.len() as int };
    trim_by(trim(line.subrange(start, end)), false, final_quotes())
}

/// `FINAL(..)` or `FINAL!(..)`.
pub open spec fn is_final_line(line: Seq<char>) -> bool {
    starts_with(line, "FINAL("@) || starts_with(line, "FINAL!("@)
}

/// `print(..)`, `println!(..)` or `console.log(..)`.
pub open spec fn is_print_line(line: Seq<char>) -> bool {
    starts_with(line, "print("@) || starts_with(line, "println!("@) || starts_with(line, "console.log("@)
}

/// An assignment: a `=` that is not part of `==`, outside an `if`.
pub open spec fn is_assignment(line: Seq<char>) -> bool {
    line.contains('=') && !contains(line, "=="@) && !starts_with(line, "if "@)
}

/// The prefixes of the commands whose result is output.
pub open spec fn output_commands() -> Seq<&'static str> {
    seq!["head(", "tail(", "grep(", "count(", "lines()", "slice(", "chunks(", "ast_query(", "context"]
}

/// The variable an assignment binds.
pub open spec fn assigned_name(line: Seq<char>) -> Seq<char> {
    trim(
        strip_prefixes(
            strip_prefixes(strip_prefixes(trim(line.take(first_of(line, '='))), "let "@), "const "@),
            "var "@,
        ),
    )
}

/// The expression an assignment evaluates.
pub open spec fn assigned_expr(line: Seq<char>) -> Seq<char> {
    trim_end_by(trim(line.skip(first_of(line, '=') + 1)), false, seq![';'])
}

/// `execute_dsl_line`: the next state and the line's result.
pub open spec fn dsl_line_spec(v: ReplView, line: Seq<char>) -> (ReplView, Option<DslView>) {
    if is_final_line(line) {
        (v, Some(DslView::Final(call_text(line))))
    } else if is_print_line(line) {
        (v, Some(DslView::Output(expand_spec(v, call_text(line)))))
    } else if crate::text::starts_with_any(line, output_commands()) {
        (v, Some(DslView::Output(eval_spec(v, line))))
    } else if is_assignment(line) {
        (
            ReplView { vars: assign(v.vars, assigned_name(line), eval_spec(v, assigned_expr(line))), ..v },
            None,
        )
    } else {
        (v, None)
    }
}

/// The expression a line evaluates, if any.
pub open spec fn evaluated(line: Seq<char>) -> Option<Seq<char>> {
    if is_final_line(line) || is_print_line(line) {
        None
    } else if crate::text::starts_with_any(line, output_commands()) {
        Some(line)
    } else if is_assignment(line) {
        Some(assigned_expr(line))
    } else {
        None
    }
}



/// Lines the DSL skips: blank, `//` comments and `#` lines.
pub open spec fn skipped(l: Seq<char>) -> bool {
    l.len() == 0 || starts_with(l, "//"@) || starts_with(l, "#"@)
}

/// Some line run before the first `FINAL` satisfies `p`.
pub open spec fn some_run_line(ls: Seq<Seq<char>>, p: spec_fn(Seq<char>) -> bool) -> bool
    decreases ls.len(),
{
    if ls.len() == 0 {
        false
    } else {
        let l = trim(ls[0]);
        if skipped(l) {
            some_run_line(ls.drop_first(), p)
        } else if is_final_line(l) {
            false
        } else {
            p(l) || some_run_line(ls.drop_first(), p)
        }
    }
}

/// Running the lines of a program: the final state, the output lines and
/// the final answer.
pub open spec fn run_spec(v: ReplView, ls: Seq<Seq<char>>) -> (ReplView, Seq<Seq<char>>, Option<Seq<char>>)
    decreases ls.len(),
{
    if ls.len() == 0 {
        (v, Seq::empty(), None)
    } else {
        let l = trim(ls[0]);
        if skipped(l) {
            run_spec(v, ls.drop_first())
        } else {
            let (v2, r) = dsl_line_spec(v, l);
            match r {
                Some(DslView::Final(a)) => (v2, Seq::empty(), Some(a)),
                Some(DslView::Output(o)) => {
                    let (v3, outs, f) = run_spec(v2, ls.drop_first());
                    (v3, seq![o] + outs, f)
                },
                Some(DslView::Error(m)) => {
                    let (v3, outs, f) = run_spec(v2, ls.drop_first());
                    (v3, seq!["Error: "@ + m] + outs, f)
                },
                None => run_spec(v2, ls.drop_first()),
            }
        }
    }
}


/// The view of an optional DSL result.
pub open spec fn dsl_opt_view(r: Option<DslResult>) -> Option<DslView> {
    match r {
        Some(d) => Some(d@),
        None => None,
    }
}

fn call_text_exec(cs: &[char]) -> (r: String)
    requires
        cs@.contains('('),
        cs@.contains(')') ==> last_of(cs@, ')') >= first_of(cs@, '(') + 1,
    ensures
        r@ == call_text(cs@),
{
    let start = match crate::text::find_char(cs, '(') {
        Some(i) => i + 1,
        None => 0,
    };
    let end = match crate::text::rfind_char(cs, ')') {
        Some(i) => i,
        None => cs.len(),
    };
    let inner = crate::text::slice_to_vec(cs, start, end);
    let t = crate::text::trimmed(inner.as_slice());
    let quotes: Vec<char> = vec!['"', '\'', '`'];
    assert(quotes@ =~= final_quotes());
    let u = crate::text::trimmed_by(t.as_slice(), quotes.as_slice());
    string_from(u.as_slice())
}

impl RlmRepl {
    fn execute_assignment(&mut self, cs: &[char], eq: usize)
        requires
            old(self).wf(),
            eq < cs.len(),
            eq == first_of(cs@, '='),
        ensures
            final(self).wf(),
            final(self)@ == (ReplView {
                vars: assign(old(self)@.vars, assigned_name(cs@), eval_spec(old(self)@, assigned_expr(cs@))),
                ..old(self)@
            }),
            final(self)@.context == old(self)@.context,
            final(self)@.lines == old(self)@.lines,
            final(self)@.runtime == old(self)@.runtime,
    {
        let head = crate::text::slice_to_vec(cs, 0, eq);
        assert(head@ =~= cs@.take(eq as int));
        let h1 = crate::text::trimmed(head.as_slice());
        proof {
            reveal_strlit("let ");
            reveal_strlit("const ");
            reveal_strlit("var ");
        }
        let h2 = crate::text::strip_prefixes_of(h1.as_slice(), "let ");
        let h3 = crate::text::strip_prefixes_of(h2.as_slice(), "const ");
        let h4 = crate::text::strip_prefixes_of(h3.as_slice(), "var ");
        let name = crate::text::trimmed(h4.as_slice());
        let tail = crate::text::slice_to_vec(cs, eq + 1, cs.len());
        assert(tail@ =~= cs@.skip(eq + 1));
        let t1 = crate::text::trimmed(tail.as_slice());
        let semi: Vec<char> = vec![';'];
        assert(semi@ =~= seq![';']);
        let expr = crate::text::trimmed_end_by(t1.as_slice(), semi.as_slice());
        let expr_s = string_from(expr.as_slice());
        let name_s = string_from(name.as_slice());
        let value = self.evaluate_expression(expr_s.as_str());
        self.set_var(name_s.as_str(), value);
    }

    /// Executes one DSL line: `FINAL(..)`, `print(..)`, an assignment, or a
    /// command whose result is output.
    pub fn execute_dsl_line(&mut self, line: &str) -> (r: Option<DslResult>)
        requires
            old(self).wf(),
        ensures
            final(self).wf(),
            (final(self)@, dsl_opt_view(r)) == dsl_line_spec(old(self)@, line@),
            final(self)@.context == old(self)@.context,
            final(self)@.lines == old(self)@.lines,
            final(self)@.runtime == old(self)@.runtime,
    {
        let cs = chars_of(line);
        proof {
            reveal_strlit("FINAL(");
            reveal_strlit("FINAL!(");
            reveal_strlit("print(");
            reveal_strlit("println!(");
            reveal_strlit("console.log(");
        }
        if crate::text::starts_with_str(cs.as_slice(), "FINAL(") || crate::text::starts_with_str(
            cs.as_slice(),
            "FINAL!(",
        ) {
            proof {
                if starts_with(line@, "FINAL("@) {
                    lemma_call_parens(line@, "FINAL("@);
                } else {
                    lemma_call_parens(line@, "FINAL!("@);
                }
            }
            let t = call_text_exec(cs.as_slice());
            return Some(DslResult::Final(t));
        }
        if crate::text::starts_with_str(cs.as_slice(), "print(") || crate::text::starts_with_str(
            cs.as_slice(),
            "println!(",
        ) || crate::text::starts_with_str(cs.as_slice(), "console.log(") {
            proof {
                if starts_with(line@, "print("@) {
                    lemma_call_parens(line@, "print("@);
                } else if starts_with(line@, "println!("@) {
                    lemma_call_parens(line@, "println!("@);
                } else {
                    lemma_call_parens(line@, "console.log("@);
                }
            }
            let t = call_text_exec(cs.as_slice());
            let expanded = self.expand_expression(t.as_str());
            return Some(DslResult::Output(expanded));
        }
        let cmds = vec!["head(", "tail(", "grep(", "count(", "lines()", "slice(", "chunks(", "ast_query(", "context"];
        assert(cmds@ =~= output_commands());
        if crate::text::starts_any(cs.as_slice(), cmds.as_slice()) {
            let result = self.evaluate_expression(line);
            return Some(DslResult::Output(result));
        }
        if let Some(eq) = crate::text::find_char(cs.as_slice(), '=') {
            if !crate::text::contains_str(cs.as_slice(), "==") && !crate::text::starts_with_str(
                cs.as_slice(),
                "if ",
            ) {
                self.execute_assignment(cs.as_slice(), eq);
                return None;
            }
        }
        None
    }
}


/// A character of a variable name: a letter, a digit or `_`.
pub open spec fn is_name_char(c: char) -> bool {
    ('a' <= c && c <= 'z') || ('A' <= c && c <= 'Z') || ('0' <= c && c <= '9') || c == '_'
}

/// A variable name: one or more name characters.
pub open spec fn is_var_name(name: Seq<char>) -> bool {
    name.len() > 0 && forall|i: int| 0 <= i < name.len() ==> is_name_char(#[trigger] name[i])
}

proof fn lemma_absent_char(s: Seq<char>, p: Seq<char>, k: int)
    requires
        0 <= k < p.len(),
        forall|i: int| 0 <= i < s.len() ==> s[i] != p[k],
    ensures
        !contains(s, p),
{
    if contains(s, p) {
        let i = choose|i: int| crate::text::matches_at(s, p, i);
        assert(s.subrange(i, i + p.len())[k] == p[k]);
        assert(s[i + k] == p[k]);
    }
}

proof fn lemma_replace_absent(s: Seq<char>, p: Seq<char>, v: Seq<char>)
    requires
        p.len() > 0,
        !contains(s, p),
    ensures
        replace_all(s, p, v) == s,
    decreases s.len(),
{
    if s.len() > 0 {
        assert(!crate::text::matches_at(s, p, 0));
        let t = s.drop_first();
        if contains(t, p) {
            let i = choose|i: int| crate::text::matches_at(t, p, i);
            assert(t.subrange(i, i + p.len()) =~= s.subrange(i + 1, i + 1 + p.len()));
            assert(crate::text::matches_at(s, p, i + 1));
        }
        lemma_replace_absent(t, p, v);
        assert(seq![s[0]] + t =~= s);
    }
}

proof fn lemma_replace_whole(p: Seq<char>, v: Seq<char>)
    requires
        p.len() > 0,
    ensures
        replace_all(p, p, v) == v,
{
    assert(p.subrange(0, p.len() as int) =~= p);
    assert(starts_with(p, p));
    assert(p.skip(p.len() as int) =~= Seq::<char>::empty());
    assert(replace_all(Seq::<char>::empty(), p, v) == Seq::<char>::empty());
    assert(v + Seq::<char>::empty() =~= v);
}

/// `print` shows variables: after a variable `name` is bound to `value` in
/// a REPL without other variables, the line `print("$name")` outputs
/// `value` and leaves the REPL unchanged (for a value free of `{` and `.`,
/// which the expansion would read again).
pub proof fn law_print_expands_variable(v: ReplView, name: Seq<char>, value: Seq<char>)
    requires
        is_var_name(name),
        v.vars == assign(Seq::empty(), name, value),
        forall|i: int| 0 <= i < value.len() ==> value[i] != '{' && value[i] != '.',
    ensures
        dsl_line_spec(v, "print(\"$"@ + name + "\")"@) == (v, Some(DslView::Output(value))),
{
    reveal_strlit("print(\"$");
    reveal_strlit("\")");
    reveal_strlit("FINAL(");
    reveal_strlit("FINAL!(");
    reveal_strlit("print(");
    reveal_strlit("$");
    reveal_strlit("${");
    reveal_strlit("}");
    reveal_strlit("{");
    reveal_strlit("context.len()");
    reveal_strlit("context.length");
    reveal_strlit("lines().len()");
    reveal_strlit("lines().length");
    let line = "print(\"$"@ + name + "\")"@;
    let n = line.len();
    assert(n == name.len() + 10);
    assert forall|i: int| 0 <= i < name.len() implies name[i] != '(' && name[i] != ')' && name[i] != '"'
        && name[i] != '\'' && name[i] != '`' && name[i] != '$' && name[i] != '{' && name[i] != '.'
        && !crate::text::is_ws(name[i]) by {
        assert(is_name_char(name[i]));
    }
    assert(!is_final_line(line)) by {
        assert(line[0] == 'p');
        assert(line.subrange(0, 6)[0] != "FINAL("@[0]);
        assert(line.subrange(0, 7)[0] != "FINAL!("@[0]);
    }
    assert(starts_with(line, "print("@)) by {
        assert(line.subrange(0, 6) =~= "print("@);
    }
    assert(is_print_line(line));
    // the call's text is `$name`
    assert(line[5] == '(');
    assert forall|j: int| 0 <= j < 5 implies line[j] != '(' by {}
    lemma_first_exists(line, '(', 5);
    assert(first_of(line, '(') == 5);
    assert(line[n - 1] == ')');
    assert forall|j: int| 5 < j < n - 1 implies line[j] != ')' by {
        if 8 <= j < n - 2 {
            assert(line[j] == name[j - 8]);
        }
    }
    lemma_last_exists(line, ')', n - 1);
    assert(line.contains(')')) by {
        assert(line[n - 1] == ')');
    }
    assert(last_of(line, ')') == n - 1);
    let q = line.subrange(6, n - 1);
    assert(q =~= seq!['"', '$'] + name + seq!['"']);
    assert(!crate::text::is_ws('"'));
    assert(trim_start_by(q, true, Seq::empty()) == q);
    assert(trim_end_by(q, true, Seq::empty()) == q);
    let q1 = q.drop_first();
    assert(final_quotes().contains('"')) by {
        assert(final_quotes()[0] == '"');
    }
    assert(!final_quotes().contains('$'));
    assert(trim_start_by(q1, false, final_quotes()) == q1);
    assert(trim_start_by(q, false, final_quotes()) == q1);
    let q2 = q1.drop_last();
    assert(q2 =~= seq!['$'] + name);
    assert(q2.last() == name.last());
    assert(!final_quotes().contains(name.last()));
    assert(trim_end_by(q2, false, final_quotes()) == q2);
    assert(trim_end_by(q1, false, final_quotes()) == q2);
    assert(call_text(line) == q2);
    // expansion: `${name}` is absent, `$name` is the whole text, `{name}` and
    // the counts are absent from the value
    let s = q2;
    let p1 = "${"@ + name + "}"@;
    assert(p1[1] == '{');
    assert forall|i: int| 0 <= i < s.len() implies s[i] != p1[1] by {
        if i > 0 {
            assert(s[i] == name[i - 1]);
        }
    }
    lemma_absent_char(s, p1, 1);
    lemma_replace_absent(s, p1, value);
    let p2 = "$"@ + name;
    assert(p2 =~= s);
    lemma_replace_whole(p2, value);
    let p3 = "{"@ + name + "}"@;
    assert(p3[0] == '{');
    lemma_absent_char(value, p3, 0);
    lemma_replace_absent(value, p3, value);
    assert(v.vars == seq![(name, value)]);
    assert(v.vars.drop_first() =~= Seq::<(Seq<char>, Seq<char>)>::empty());
    assert(v.vars[0].0 == name && v.vars[0].1 == value);
    assert(replace_all(s, p1, value) == s);
    assert(replace_all(s, p2, value) == value);
    assert(replace_all(value, p3, value) == value);
    assert(expand_vars(value, v.vars.drop_first()) == value);
    assert(expand_vars(s, v.vars) == value);
    assert("context.len()"@[7] == '.');
    lemma_absent_char(value, "context.len()"@, 7);
    assert("context.length"@[7] == '.');
    lemma_absent_char(value, "context.length"@, 7);
    assert("lines().len()"@[7] == '.');
    lemma_absent_char(value, "lines().len()"@, 7);
    assert("lines().length"@[7] == '.');
    lemma_absent_char(value, "lines().length"@, 7);
    reveal(expand_spec);
    assert(expand_spec(v, s) == value);
}

/// The view of an optional string.
pub open spec fn opt_str_view(o: Option<String>) -> Option<Seq<char>> {
    match o {
        Some(s) => Some(s@),
        None => None,
    }
}


impl RlmRepl {
    fn execute_rust_dsl(&mut self, code: &str) -> (r: ReplResult)
        requires
            old(self).wf(),
        ensures
            final(self).wf(),
            final(self)@.context == old(self)@.context,
            final(self)@.lines == old(self)@.lines,
            final(self)@.runtime == old(self)@.runtime,
            r.stderr@ == Seq::<char>::empty(),
            final(self)@ == run_spec(old(self)@, lines_of(code@)).0
                && r.stdout@ == join(run_spec(old(self)@, lines_of(code@)).1, "\n"@)
                && opt_str_view(r.final_answer) == run_spec(old(self)@, lines_of(code@)).2,
    {
        let cc = chars_of(code);
        let lines = split_lines(cc.as_slice());
        let ghost ls = views(lines@);
        let ghost total = run_spec(self@, ls);
        let ghost exact = true;
        let mut stdout: Vec<String> = Vec::new();
        let mut final_answer: Option<String> = None;
        let mut done = false;
        let mut i: usize = 0;
        assert(ls.skip(0) =~= ls);
        assert(views(stdout@) + total.1 =~= total.1);
        while i < lines.len() && !done
            invariant
                i <= lines.len(),
                ls == views(lines@),
                ls == lines_of(code@),
                self.wf(),
                self@.context == old(self)@.context,
                self@.lines == old(self)@.lines,
                self@.runtime == old(self)@.runtime,
                total == run_spec(old(self)@, ls),
                exact,
                !done && exact ==> run_spec(self@, ls.skip(i as int)).0 == total.0
                    && views(stdout@) + run_spec(self@, ls.skip(i as int)).1 == total.1
                    && run_spec(self@, ls.skip(i as int)).2 == total.2 && final_answer is None,
                done && exact ==> self@ == total.0 && views(stdout@) == total.1
                    && opt_str_view(final_answer) == total.2,
            decreases lines.len() - i,
        {
            let ghost rest = ls.skip(i as int);
            assert(rest[0] == lines@[i as int]@);
            assert(rest.drop_first() =~= ls.skip(i + 1));
            let lc = chars_of(lines[i].as_str());
            let l = crate::text::trimmed(lc.as_slice());
            let ls_str = string_from(l.as_slice());
            proof {
                reveal_strlit("//");
                reveal_strlit("#");
            }
            let skip = l.len() == 0 || crate::text::starts_with_str(l.as_slice(), "//")
                || crate::text::starts_with_str(l.as_slice(), "#");
            if !skip {
                let ghost before_state = self@;
                let ghost before_out = views(stdout@);
                let res = self.execute_dsl_line(ls_str.as_str());
                match res {
                    Some(DslResult::Output(o)) => {
                        stdout.push(o);
                        proof {
                            if exact {
                                assert(views(stdout@) =~= before_out.push(o@));
                                assert(before_out.push(o@) + run_spec(self@, ls.skip(i + 1)).1 =~= before_out + (
                                seq![o@] + run_spec(self@, ls.skip(i + 1)).1));
                            }
                        }
                    },
                    Some(DslResult::Final(f)) => {
                        final_answer = Some(f);
                        done = true;
                        proof {
                            if exact {
                                assert(before_out + Seq::<Seq<char>>::empty() =~= before_out);
                            }
                        }
                    },
                    Some(DslResult::Error(m)) => {
                        let mut e = string_of("Error: ");
                        push_str(&mut e, m.as_str());
                        stdout.push(e);
                        proof {
                            if exact {
                                assert(views(stdout@) =~= before_out.push("Error: "@ + m@));
                                assert(before_out.push("Error: "@ + m@) + run_spec(self@, ls.skip(i + 1)).1
                                    =~= before_out + (seq!["Error: "@ + m@] + run_spec(self@, ls.skip(i + 1)).1));
                            }
                        }
                    },
                    None => {},
                }
            }
            i += 1;
        }
        proof {
            if exact && !done {
                assert(ls.skip(i as int) =~= Seq::<Seq<char>>::empty());
                assert(views(stdout@) + Seq::<Seq<char>>::empty() =~= views(stdout@));
            }
        }
        ReplResult { stdout: join_strings(&stdout, "\n"), stderr: String::new(), final_answer }
    }

    /// Executes analysis code with the DSL (every runtime is interpreted
    /// by the DSL).
    pub fn execute(&mut self, code: &str) -> (r: ReplResult)
        requires
            old(self).wf(),
        ensures
            final(self).wf(),
            final(self)@.context == old(self)@.context,
            final(self)@.lines == old(self)@.lines,
            final(self)@.runtime == old(self)@.runtime,
            r.stderr@ == Seq::<char>::empty(),
            final(self)@ == run_spec(old(self)@, lines_of(code@)).0
                && r.stdout@ == join(run_spec(old(self)@, lines_of(code@)).1, "\n"@)
                && opt_str_view(r.final_answer) == run_spec(old(self)@, lines_of(code@)).2,
    {
        match self.runtime {
            ReplRuntime::Rust => self.execute_rust_dsl(code),
            ReplRuntime::Bun | ReplRuntime::Python => self.execute_rust_dsl(code),
        }
    }
}

} // verus!
