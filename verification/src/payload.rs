//! FINAL() payloads: the typed answers an analysis run ends with, their
//! mathematical views, and the canonical text forms that the validator
//! compares.

use vstd::prelude::*;
use crate::text::{
    chars_of, decimal, decimal_string, join, join_strings, push_str, replace_all, split_char, split_words,
    starts_with, string_from, strip_ws, trim, trim_end_by, trim_start_by, views, words,
};

verus! {

/// One claimed grep match.
#[derive(Debug, Clone, PartialEq)]
pub struct GrepMatch {
    pub line: usize,
    pub text: String,
}

/// A FINAL() payload of kind `grep`.
#[derive(Debug, Clone, PartialEq)]
pub struct GrepPayload {
    pub file: String,
    pub pattern: String,
    pub matches: Vec<GrepMatch>,
}

/// One structural item of an AST payload.
#[derive(Debug, Clone, PartialEq)]
pub struct AstResult {
    pub name: String,
    pub args: Vec<String>,
    pub return_type: Option<String>,
    pub span: Option<(usize, usize)>,
}

/// A FINAL() payload of kind `ast`.
#[derive(Debug, Clone, PartialEq)]
pub struct AstPayload {
    pub file: String,
    pub query: String,
    pub results: Vec<AstResult>,
}

/// A FINAL() payload of kind `semantic`.
#[derive(Debug, Clone, PartialEq)]
pub struct SemanticPayload {
    pub file: String,
    pub answer: String,
}

/// A parsed FINAL() payload.
#[derive(Debug, Clone, PartialEq)]
pub enum FinalPayload {
    Grep(GrepPayload),
    Ast(AstPayload),
    Semantic(SemanticPayload),
    /// The answer did not parse as a payload: the parse error and the text.
    Malformed { error: String, raw: String },
}


/// The mathematical content of an AST result: name, arguments, return type
/// and span.
pub type AstResultView = (Seq<char>, Seq<Seq<char>>, Option<Seq<char>>, Option<(usize, usize)>);

/// The view of an optional string.
pub open spec fn text_opt(o: Option<String>) -> Option<Seq<char>> {
    match o {
        Some(s) => Some(s@),
        None => None,
    }
}

/// The view of an AST result.
pub open spec fn ast_result_view(r: AstResult) -> AstResultView {
    (r.name@, views(r.args@), text_opt(r.return_type), r.span)
}

/// The views of AST results.
pub open spec fn ast_result_views(rs: Seq<AstResult>) -> Seq<AstResultView> {
    rs.map_values(|r: AstResult| ast_result_view(r))
}

/// The views of grep matches: line number and text.
pub open spec fn grep_match_views(ms: Seq<GrepMatch>) -> Seq<(usize, Seq<char>)> {
    ms.map_values(|m: GrepMatch| (m.line, m.text@))
}

/// The mathematical content of a [`FinalPayload`].
pub enum FinalPayloadView {
    /// File, pattern and claimed matches.
    Grep(Seq<char>, Seq<char>, Seq<(usize, Seq<char>)>),
    /// File, query kind and claimed results.
    Ast(Seq<char>, Seq<char>, Seq<AstResultView>),
    /// File and answer.
    Semantic(Seq<char>, Seq<char>),
    /// Parse error and raw text.
    Malformed(Seq<char>, Seq<char>),
}

impl View for FinalPayload {
    type V = FinalPayloadView;

    open spec fn view(&self) -> FinalPayloadView {
        match self {
            FinalPayload::Grep(p) => FinalPayloadView::Grep(p.file@, p.pattern@, grep_match_views(p.matches@)),
            FinalPayload::Ast(p) => FinalPayloadView::Ast(p.file@, p.query@, ast_result_views(p.results@)),
            FinalPayload::Semantic(p) => FinalPayloadView::Semantic(p.file@, p.answer@),
            FinalPayload::Malformed { error, raw } => FinalPayloadView::Malformed(error@, raw@),
        }
    }
}

fn copy_strings(v: &Vec<String>) -> (r: Vec<String>)
    ensures
        views(r@) == views(v@),
{
    let mut r: Vec<String> = Vec::new();
    let mut i: usize = 0;
    while i < v.len()
        invariant
            i <= v.len(),
            views(r@) == views(v@).take(i as int),
        decreases v.len() - i,
    {
        let ghost before = views(r@);
        r.push(v[i].clone());
        assert(views(r@) =~= before.push(v@[i as int]@));
        assert(views(v@).take(i + 1) =~= views(v@).take(i as int).push(v@[i as int]@));
        i += 1;
    }
    assert(views(v@).take(v.len() as int) =~= views(v@));
    r
}

fn copy_text_opt(o: &Option<String>) -> (r: Option<String>)
    ensures
        text_opt(r) == text_opt(*o),
{
    match o {
        Some(s) => Some(s.clone()),
        None => None,
    }
}

fn copy_ast_result(a: &AstResult) -> (r: AstResult)
    ensures
        ast_result_view(r) == ast_result_view(*a),
{
    AstResult {
        name: a.name.clone(),
        args: copy_strings(&a.args),
        return_type: copy_text_opt(&a.return_type),
        span: a.span,
    }
}

impl FinalPayload {
    /// A copy of the payload with the same content.
    pub fn copy(&self) -> (r: FinalPayload)
        ensures
            r@ == self@,
    {
        match self {
            FinalPayload::Grep(p) => {
                let mut ms: Vec<GrepMatch> = Vec::new();
                let mut i: usize = 0;
                while i < p.matches.len()
                    invariant
                        i <= p.matches.len(),
                        grep_match_views(ms@) == grep_match_views(p.matches@).take(i as int),
                    decreases p.matches.len() - i,
                {
                    let m = &p.matches[i];
                    let ghost before = grep_match_views(ms@);
                    ms.push(GrepMatch { line: m.line, text: m.text.clone() });
                    assert(grep_match_views(ms@) =~= before.push((m.line, m.text@)));
                    assert(grep_match_views(p.matches@).take(i + 1) =~= grep_match_views(p.matches@).take(
                        i as int,
                    ).push((m.line, m.text@)));
                    i += 1;
                }
                assert(grep_match_views(p.matches@).take(p.matches.len() as int) =~= grep_match_views(
                    p.matches@,
                ));
                FinalPayload::Grep(
                    GrepPayload { file: p.file.clone(), pattern: p.pattern.clone(), matches: ms },
                )
            },
            FinalPayload::Ast(p) => {
                let mut rs: Vec<AstResult> = Vec::new();
                let mut i: usize = 0;
                while i < p.results.len()
                    invariant
                        i <= p.results.len(),
                        ast_result_views(rs@) == ast_result_views(p.results@).take(i as int),
                    decreases p.results.len() - i,
                {
                    let ghost before = ast_result_views(rs@);
                    let c = copy_ast_result(&p.results[i]);
                    rs.push(c);
                    assert(ast_result_views(rs@) =~= before.push(ast_result_view(p.results@[i as int])));
                    assert(ast_result_views(p.results@).take(i + 1) =~= ast_result_views(p.results@).take(
                        i as int,
                    ).push(ast_result_view(p.results@[i as int])));
                    i += 1;
                }
                assert(ast_result_views(p.results@).take(p.results.len() as int) =~= ast_result_views(
                    p.results@,
                ));
                FinalPayload::Ast(AstPayload { file: p.file.clone(), query: p.query.clone(), results: rs })
            },
            FinalPayload::Semantic(p) => FinalPayload::Semantic(
                SemanticPayload { file: p.file.clone(), answer: p.answer.clone() },
            ),
            FinalPayload::Malformed { error, raw } => FinalPayload::Malformed {
                error: error.clone(),
                raw: raw.clone(),
            },
        }
    }
}

/// `s` without whitespace (`normalize_type_text`).
pub open spec fn normalize_type_spec(s: Seq<char>) -> Seq<char> {
    strip_ws(s)
}

pub(crate) fn normalize_type_text(s: &str) -> (r: String)
    ensures
        r@ == normalize_type_spec(s@),
{
    let cs = chars_of(s);
    let r = crate::text::without_whitespace(cs.as_slice());
    string_from(r.as_slice())
}

/// The non-empty trimmed pieces of a comma-separated list.
pub open spec fn nonempty_trimmed(pieces: Seq<Seq<char>>) -> Seq<Seq<char>>
    decreases pieces.len(),
{
    if pieces.len() == 0 {
        Seq::empty()
    } else if trim(pieces.last()).len() == 0 {
        nonempty_trimmed(pieces.drop_last())
    } else {
        nonempty_trimmed(pieces.drop_last()).push(trim(pieces.last()))
    }
}

/// `parse_params`: a parameter list without its parentheses, split at
/// commas, each piece trimmed, empty pieces dropped.
pub open spec fn params_spec(params: Seq<char>) -> Seq<Seq<char>> {
    let t = trim_end_by(trim_start_by(trim(params), false, seq!['(']), false, seq![')']);
    if t.len() == 0 {
        Seq::empty()
    } else {
        nonempty_trimmed(split_char(t, ','))
    }
}

pub(crate) fn parse_params(params: &str) -> (r: Vec<String>)
    ensures
        views(r@) == params_spec(params@),
{
    let cs = chars_of(params);
    let t0 = crate::text::trimmed(cs.as_slice());
    let open: Vec<char> = vec!['('];
    let close: Vec<char> = vec![')'];
    assert(open@ =~= seq!['(']);
    assert(close@ =~= seq![')']);
    let t1 = crate::text::trimmed_start_by(t0.as_slice(), open.as_slice());
    let t = crate::text::trimmed_end_by(t1.as_slice(), close.as_slice());
    let mut r: Vec<String> = Vec::new();
    if t.len() == 0 {
        assert(views(r@) =~= Seq::<Seq<char>>::empty());
        return r;
    }
    let pieces = crate::text::split_on(t.as_slice(), ',');
    let ghost ps = split_char(t@, ',');
    let mut i: usize = 0;
    assert(ps.take(0) =~= Seq::<Seq<char>>::empty());
    assert(views(r@) =~= Seq::<Seq<char>>::empty());
    while i < pieces.len()
        invariant
            i <= pieces.len(),
            pieces@.len() == ps.len(),
            forall|k: int| 0 <= k < pieces@.len() ==> (#[trigger] pieces@[k])@ == ps[k],
            views(r@) == nonempty_trimmed(ps.take(i as int)),
        decreases pieces.len() - i,
    {
        assert(ps.take(i + 1).drop_last() =~= ps.take(i as int));
        assert(ps.take(i + 1).last() == pieces@[i as int]@);
        let p = crate::text::trimmed(pieces[i].as_slice());
        if p.len() > 0 {
            let ghost before = views(r@);
            r.push(string_from(p.as_slice()));
            assert(views(r@) =~= before.push(p@));
        }
        i += 1;
    }
    assert(ps.take(pieces.len() as int) =~= ps);
    r
}

/// `canonicalize_semantic_answer`: the words joined by single spaces.
pub open spec fn canonical_spec(answer: Seq<char>) -> Seq<char> {
    join(words(answer), " "@)
}

pub(crate) fn canonicalize_semantic_answer(answer: &str) -> (r: String)
    ensures
        r@ == canonical_spec(answer@),
{
    let cs = chars_of(answer);
    let ws = split_words(cs.as_slice());
    let mut parts: Vec<String> = Vec::new();
    let mut i: usize = 0;
    while i < ws.len()
        invariant
            i <= ws.len(),
            ws@.len() == words(cs@).len(),
            forall|k: int| 0 <= k < ws@.len() ==> (#[trigger] ws@[k])@ == words(cs@)[k],
            views(parts@) == words(cs@).take(i as int),
        decreases ws.len() - i,
    {
        let ghost before = views(parts@);
        parts.push(string_from(ws[i].as_slice()));
        assert(views(parts@) =~= before.push(words(cs@)[i as int]));
        assert(words(cs@).take(i + 1) =~= words(cs@).take(i as int).push(words(cs@)[i as int]));
        i += 1;
    }
    assert(words(cs@).take(ws.len() as int) =~= words(cs@));
    join_strings(&parts, " ")
}

/// `normalize_ast_result`: `name|args|return type|span`, with the arguments
/// joined by commas and stripped of spaces, the return type stripped of
/// whitespace and the span as `start:end`.
pub open spec fn normalize_ast_spec(r: AstResultView) -> Seq<char> {
    let args = if r.1.len() == 0 { Seq::empty() } else { replace_all(join(r.1, ","@), " "@, Seq::empty()) };
    let rt = match r.2 {
        Some(t) => normalize_type_spec(t),
        None => Seq::empty(),
    };
    let span = match r.3 {
        Some((s, e)) => decimal(s as nat) + ":"@ + decimal(e as nat),
        None => Seq::empty(),
    };
    trim(r.0) + "|"@ + args + "|"@ + rt + "|"@ + span
}

/// The characters of `s` other than spaces, in order.
pub open spec fn without_spaces(s: Seq<char>) -> Seq<char>
    decreases s.len(),
{
    if s.len() == 0 {
        Seq::empty()
    } else if s[0] == ' ' {
        without_spaces(s.drop_first())
    } else {
        seq![s[0]] + without_spaces(s.drop_first())
    }
}

/// An argument list as compared: the arguments joined by commas, without
/// spaces.
pub open spec fn compared_args(args: Seq<Seq<char>>) -> Seq<char> {
    without_spaces(join(args, ","@))
}

proof fn lemma_strip_spaces(s: Seq<char>)
    ensures
        replace_all(s, " "@, Seq::empty()) == without_spaces(s),
    decreases s.len(),
{
    reveal_strlit(" ");
    if s.len() > 0 {
        lemma_strip_spaces(s.drop_first());
        assert(" "@ =~= seq![' ']);
        if s[0] == ' ' {
            assert(s.subrange(0, 1) =~= " "@);
            assert(starts_with(s, " "@));
            assert(s.skip(1) =~= s.drop_first());
            assert(Seq::<char>::empty() + without_spaces(s.drop_first()) =~= without_spaces(s.drop_first()));
        } else {
            assert(s.subrange(0, 1)[0] != " "@[0]);
            assert(!starts_with(s, " "@));
        }
    }
}

/// The arguments count in the comparison of AST results: two results with
/// the same name, return type and span but argument lists that differ once
/// spaces are removed normalize to different texts, so a claimed parameter
/// list that the source does not have never matches.
pub proof fn law_arguments_distinguish_results(r1: AstResultView, r2: AstResultView)
    requires
        r1.0 == r2.0,
        r1.2 == r2.2,
        r1.3 == r2.3,
        compared_args(r1.1) != compared_args(r2.1),
    ensures
        normalize_ast_spec(r1) != normalize_ast_spec(r2),
{
    lemma_strip_spaces(join(r1.1, ","@));
    lemma_strip_spaces(join(r2.1, ","@));
    let a1 = if r1.1.len() == 0 { Seq::<char>::empty() } else { replace_all(join(r1.1, ","@), " "@, Seq::empty()) };
    let a2 = if r2.1.len() == 0 { Seq::<char>::empty() } else { replace_all(join(r2.1, ","@), " "@, Seq::empty()) };
    assert(join(Seq::<Seq<char>>::empty(), ","@) == Seq::<char>::empty());
    assert(without_spaces(Seq::<char>::empty()) == Seq::<char>::empty());
    assert(a1 == compared_args(r1.1));
    assert(a2 == compared_args(r2.1));
    let p = trim(r1.0) + "|"@;
    let rt = match r1.2 {
        Some(t) => normalize_type_spec(t),
        None => Seq::empty(),
    };
    let span = match r1.3 {
        Some((st, e)) => decimal(st as nat) + ":"@ + decimal(e as nat),
        None => Seq::empty(),
    };
    let y = "|"@ + rt + "|"@ + span;
    let n1 = normalize_ast_spec(r1);
    let n2 = normalize_ast_spec(r2);
    assert(n1 =~= p + a1 + y);
    assert(n2 =~= p + a2 + y);
    if n1 == n2 {
        assert(a1.len() == a2.len());
        let k = p.len() as int;
        assert(a1 =~= n1.subrange(k, k + a1.len()));
        assert(a2 =~= n2.subrange(k, k + a2.len()));
    }
}

pub(crate) fn normalize_ast_result(result: &AstResult) -> (r: String)
    ensures
        r@ == normalize_ast_spec(ast_result_view(*result)),
{
    let args = if result.args.len() == 0 {
        String::new()
    } else {
        let joined = join_strings(&result.args, ",");
        let jc = chars_of(joined.as_str());
        let space: Vec<char> = vec![' '];
        let empty: Vec<char> = Vec::new();
        proof {
            reveal_strlit(" ");
        }
        assert(space@ =~= " "@);
        let stripped = crate::text::replace(jc.as_slice(), space.as_slice(), empty.as_slice());
        assert(empty@ =~= Seq::<char>::empty());
        string_from(stripped.as_slice())
    };
    let rt = match &result.return_type {
        Some(t) => normalize_type_text(t.as_str()),
        None => String::new(),
    };
    let span = match result.span {
        Some((s, e)) => {
            let mut x = decimal_string(s);
            push_str(&mut x, ":");
            push_str(&mut x, decimal_string(e).as_str());
            x
        },
        None => String::new(),
    };
    let nc = chars_of(result.name.as_str());
    let name = crate::text::trimmed(nc.as_slice());
    let mut r = string_from(name.as_slice());
    push_str(&mut r, "|");
    push_str(&mut r, args.as_str());
    push_str(&mut r, "|");
    push_str(&mut r, rt.as_str());
    push_str(&mut r, "|");
    push_str(&mut r, span.as_str());
    r
}

} // verus!
