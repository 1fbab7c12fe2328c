//! The decisions of an external JavaScript REPL: its start-up script and
//! how its output lines are read. Running the process is the caller's.

use vstd::prelude::*;
use crate::text::{chars_of, contains, matches_at, owned, push_str, replace_all, string_from, trim};

verus! {

/// The context as a JavaScript string body: backslashes, double quotes and
/// newlines escaped, in that order.
pub open spec fn js_escaped(context: Seq<char>) -> Seq<char> {
    replace_all(replace_all(replace_all(context, "\\"@, "\\\\"@), "\""@, "\\\""@), "\n"@, "\\n"@)
}

/// The start-up script of the JavaScript REPL for `context`.
pub open spec fn bun_init_spec(context: Seq<char>) -> Seq<char> {
    "\nconst readline = require('readline');\nconst rl = readline.createInterface({ input: process.stdin, output: process.stdout, terminal: false });\n\nconst context = \""@ + js_escaped(context) + "\";\n\nfunction lines() { return context.split(\"\\n\"); }\nfunction head(n = 10) { return lines().slice(0, n).join(\"\\n\"); }\nfunction tail(n = 10) { return lines().slice(-n).join(\"\\n\"); }\nfunction grep(pattern) {\n    const re = pattern instanceof RegExp ? pattern : new RegExp(pattern, 'gi');\n    return lines().filter(l => re.test(l));\n}\nfunction count(pattern) {\n    const re = pattern instanceof RegExp ? pattern : new RegExp(pattern, 'gi');\n    return (context.match(re) || []).length;\n}\nfunction FINAL(answer) {\n    console.log(\"__FINAL__\" + String(answer) + \"__FINAL_END__\");\n}\n\nconsole.log(\"READY\");\n\nrl.on('line', async (line) => {\n    try {\n        const result = eval(line);\n        if (result !== undefined) console.log(result);\n    } catch (e) {\n        console.error(\"Error:\", e.message);\n    }\n    console.log(\"__DONE__\");\n});\n"@
}

/// The start-up script of the JavaScript REPL: the context as a string
/// and the helper functions, reading lines to evaluate.
pub fn generate_bun_init(context: &str) -> (r: String)
    ensures
        r@ == bun_init_spec(context@),
{
    let cs = chars_of(context);
    let bs: Vec<char> = vec!['\\'];
    let bs2: Vec<char> = vec!['\\', '\\'];
    let q: Vec<char> = vec!['"'];
    let q2: Vec<char> = vec!['\\', '"'];
    let nl: Vec<char> = vec!['\n'];
    let nl2: Vec<char> = vec!['\\', 'n'];
    proof {
        reveal_strlit("\\");
        reveal_strlit("\\\\");
        reveal_strlit("\"");
        reveal_strlit("\\\"");
        reveal_strlit("\n");
        reveal_strlit("\\n");
        assert(bs@ =~= "\\"@);
        assert(bs2@ =~= "\\\\"@);
        assert(q@ =~= "\""@);
        assert(q2@ =~= "\\\""@);
        assert(nl@ =~= "\n"@);
        assert(nl2@ =~= "\\n"@);
    }
    let e1 = crate::text::replace(cs.as_slice(), bs.as_slice(), bs2.as_slice());
    let e2 = crate::text::replace(e1.as_slice(), q.as_slice(), q2.as_slice());
    let e3 = crate::text::replace(e2.as_slice(), nl.as_slice(), nl2.as_slice());
    let mut r = owned("\nconst readline = require('readline');\nconst rl = readline.createInterface({ input: process.stdin, output: process.stdout, terminal: false });\n\nconst context = \"");
    push_str(&mut r, string_from(e3.as_slice()).as_str());
    push_str(&mut r, "\";\n\nfunction lines() { return context.split(\"\\n\"); }\nfunction head(n = 10) { return lines().slice(0, n).join(\"\\n\"); }\nfunction tail(n = 10) { return lines().slice(-n).join(\"\\n\"); }\nfunction grep(pattern) {\n    const re = pattern instanceof RegExp ? pattern : new RegExp(pattern, 'gi');\n    return lines().filter(l => re.test(l));\n}\nfunction count(pattern) {\n    const re = pattern instanceof RegExp ? pattern : new RegExp(pattern, 'gi');\n    return (context.match(re) || []).length;\n}\nfunction FINAL(answer) {\n    console.log(\"__FINAL__\" + String(answer) + \"__FINAL_END__\");\n}\n\nconsole.log(\"READY\");\n\nrl.on('line', async (line) => {\n    try {\n        const result = eval(line);\n        if (result !== undefined) console.log(result);\n    } catch (e) {\n        console.error(\"Error:\", e.message);\n    }\n    console.log(\"__DONE__\");\n});\n");
    r
}

/// The index of the first occurrence of `p` in `s` (meaningful when there
/// is one).
pub open spec fn first_at(s: Seq<char>, p: Seq<char>) -> int {
    choose|i: int| matches_at(s, p, i) && forall|j: int| 0 <= j < i ==> !matches_at(s, p, j)
}

/// The markers of a final answer are in order: when both occur, the end
/// marker does not start before the answer.
pub open spec fn markers_ordered(line: Seq<char>) -> bool {
    contains(line, "__FINAL__"@) && contains(line, "__FINAL_END__"@) ==> first_at(line, "__FINAL_END__"@)
        >= first_at(line, "__FINAL__"@) + 9
}

/// The final answer a REPL output line carries: the text between the first
/// `__FINAL__` and the first `__FINAL_END__`.
pub open spec fn final_marker_spec(line: Seq<char>) -> Option<Seq<char>> {
    if contains(line, "__FINAL__"@) && contains(line, "__FINAL_END__"@) {
        Some(line.subrange(first_at(line, "__FINAL__"@) + 9, first_at(line, "__FINAL_END__"@)))
    } else {
        None
    }
}

proof fn lemma_first_at(s: Seq<char>, p: Seq<char>, i: int)
    requires
        matches_at(s, p, i),
        forall|j: int| 0 <= j < i ==> !matches_at(s, p, j),
    ensures
        first_at(s, p) == i,
{
    let c = first_at(s, p);
    assert(matches_at(s, p, c) && forall|j: int| 0 <= j < c ==> !matches_at(s, p, j));
}

/// The final answer a REPL output line carries, if any.
pub fn extract_final(line: &str) -> (r: Option<String>)
    requires
        markers_ordered(line@),
    ensures
        match r {
            Some(a) => final_marker_spec(line@) == Some(a@),
            None => final_marker_spec(line@) is None,
        },
{
    let cs = chars_of(line);
    let start_marker = chars_of("__FINAL__");
    let end_marker = chars_of("__FINAL_END__");
    let s = match crate::text::find(cs.as_slice(), start_marker.as_slice()) {
        Some(i) => i,
        None => {
            return None;
        },
    };
    let e = match crate::text::find(cs.as_slice(), end_marker.as_slice()) {
        Some(j) => j,
        None => {
            return None;
        },
    };
    proof {
        reveal_strlit("__FINAL__");
        lemma_first_at(cs@, "__FINAL__"@, s as int);
        lemma_first_at(cs@, "__FINAL_END__"@, e as int);
    }
    let lim = cs.len();
    assert(e <= lim);
    Some(string_from(crate::text::slice_to_vec(cs.as_slice(), s + 9, e).as_slice()))
}

/// What a line of REPL output comes to.
pub enum ReplLine {
    /// The evaluation is done.
    Done,
    /// The final answer.
    Final(String),
    /// An output line.
    Output(String),
}

/// What a line of REPL output comes to, trimmed: `__DONE__` ends the
/// evaluation, a final answer ends it with that answer, and anything else
/// is output.
pub fn read_repl_line(line: &str) -> (r: ReplLine)
    requires
        markers_ordered(trim(line@)),
    ensures
        trim(line@) == "__DONE__"@ ==> r is Done,
        trim(line@) != "__DONE__"@ ==> match final_marker_spec(trim(line@)) {
            Some(a) => (r matches ReplLine::Final(x) && x@ == a),
            None => (r matches ReplLine::Output(x) && x@ == trim(line@)),
        },
{
    let cs = chars_of(line);
    let t = string_from(crate::text::trimmed(cs.as_slice()).as_slice());
    let tc = chars_of(t.as_str());
    if crate::text::eq_str(tc.as_slice(), "__DONE__") {
        return ReplLine::Done;
    }
    match extract_final(t.as_str()) {
        Some(a) => ReplLine::Final(a),
        None => ReplLine::Output(t),
    }
}

} // verus!
