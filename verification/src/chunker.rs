//! Semantic chunking for large contexts.
//!
//! Splits content at natural boundaries (conversation turns, tool output,
//! code blocks, definitions, errors, headers), prioritizes the pieces, and
//! selects and reassembles them to fit a token budget.

use vstd::prelude::*;
use crate::text::{
    byte_len, decimal, decimal_string, join, join_range, join_strings, lowercase, lowercase_chars, push_str, string_from,
    all_digits, chars_of, contains, ends_with, equals_any, equals_one_of, has, is_digit, lines_of,
    match_at, split_lines, starts, starts_any, starts_with, starts_with_any, trim, trimmed, utf8_len,
    utf8_len_exceeds, views,
};

verus! {

/// Content type for optimized processing.
#[derive(Debug, Clone, Copy, PartialEq, Eq, Structural)]
pub enum ContentType {
    Code,
    Documents,
    Logs,
    Conversation,
    Mixed,
}

/// Line prefixes that mark source code.
pub open spec fn code_prefixes() -> Seq<&'static str> {
    seq![
        "function", "class ", "def ", "const ", "let ", "var ", "import ", "export ", "async ",
        "fn ", "impl ", "struct ", "enum ", "pub ", "use ", "mod ", "trait ",
    ]
}

/// Whole lines made only of punctuation that code uses.
pub open spec fn code_punctuation_lines() -> Seq<&'static str> {
    seq!["{", "}", "(", ")", ";", "{}", "};"]
}

/// Comment openers.
pub open spec fn comment_prefixes() -> Seq<&'static str> {
    seq!["//", "#", "*", "/*"]
}

/// A trimmed line that looks like code.
pub open spec fn is_code_line_spec(line: Seq<char>) -> bool {
    starts_with_any(line, code_prefixes()) || equals_any(line, code_punctuation_lines())
        || starts_with_any(line, comment_prefixes())
}

/// Log-level words.
pub open spec fn log_levels() -> Seq<&'static str> {
    seq!["INFO", "DEBUG", "WARN", "ERROR", "FATAL", "TRACE"]
}

/// A trimmed line that looks like log output: an ISO date prefix, a
/// `[HH:MM` time prefix, or a log level.
pub open spec fn is_log_line_spec(line: Seq<char>) -> bool {
    (utf8_len(line) >= 10 && line.len() >= 5 && all_digits(line.take(4)) && line[4] == '-') || (
    starts_with(line, "["@) && utf8_len(line) > 5 && line.len() > 1 && is_digit(line[1])) || (
    exists|i: int|
        0 <= i < log_levels().len() && (starts_with(line, log_levels()[i]@) || contains(
            line,
            " "@ + log_levels()[i]@ + " "@,
        )))
}

/// Prefixes of conversation turns.
pub open spec fn conversation_prefixes() -> Seq<&'static str> {
    seq![
        "[User]:", "[Assistant]:", "[Human]:", "[AI]:", "User:", "Assistant:", "Human:", "AI:",
        "[Tool ", "<user>", "<assistant>", "<system>",
    ]
}

/// A trimmed line that starts a conversation turn.
pub open spec fn is_conversation_line_spec(line: Seq<char>) -> bool {
    starts_with_any(line, conversation_prefixes())
}

/// Characters that end a line of code rather than prose.
pub open spec fn code_terminators() -> Seq<char> {
    seq!['{', ';', '(', ')', '=']
}

/// A trimmed line that looks like documentation or prose.
pub open spec fn is_document_line_spec(line: Seq<char>) -> bool {
    (starts_with(line, "#"@) && line.len() > 1 && (line[1] == ' ' || line[1] == '#')) || (
    starts_with(line, "**"@) && contains(line, "**"@)) || starts_with(line, "> "@) || (starts_with(
        line,
        "- "@,
    ) && utf8_len(line) > 3) || (utf8_len(line) > 80 && !(line.len() > 0
        && code_terminators().contains(line.last())))
}

/// Number of lines of `ls` satisfying `p`.
pub open spec fn count_by(ls: Seq<Seq<char>>, p: spec_fn(Seq<char>) -> bool) -> nat
    decreases ls.len(),
{
    if ls.len() == 0 {
        0
    } else {
        count_by(ls.drop_last(), p) + if p(ls.last()) {
            1nat
        } else {
            0nat
        }
    }
}

/// The number of lines that content detection samples: all of them, up to 200.
pub open spec fn sample_size(n: nat) -> nat {
    if n < 200 {
        n
    } else {
        200
    }
}

/// The lines that content detection samples: every line of a content of
/// fewer than 200 lines; otherwise the first 100 and the last 100. The
/// head takes the odd line, so a one-line content is sampled whole.
pub open spec fn detection_sample(ls: Seq<Seq<char>>) -> Seq<Seq<char>> {
    let size = sample_size(ls.len());
    let head = (size + 1) / 2;
    let tail = size / 2;
    ls.take(head as int) + ls.subrange(ls.len() - tail, ls.len() as int)
}

/// The content type chosen from the four indicator counts: the first of
/// conversation, logs, code, documents whose count exceeds 30% of the total.
pub open spec fn content_type_from_counts(code: nat, log: nat, conv: nat, doc: nat) -> ContentType {
    let total = code + log + conv + doc;
    let threshold = total * 3 / 10;
    if total == 0 {
        ContentType::Mixed
    } else if conv > threshold {
        ContentType::Conversation
    } else if log > threshold {
        ContentType::Logs
    } else if code > threshold {
        ContentType::Code
    } else if doc > threshold {
        ContentType::Documents
    } else {
        ContentType::Mixed
    }
}

/// The content type of `content`, from the trimmed sample lines.
pub open spec fn detect_content_type_spec(content: Seq<char>) -> ContentType {
    let sample = detection_sample(lines_of(content)).map_values(|l: Seq<char>| trim(l));
    content_type_from_counts(
        count_by(sample, |l: Seq<char>| is_code_line_spec(l)),
        count_by(sample, |l: Seq<char>| is_log_line_spec(l)),
        count_by(sample, |l: Seq<char>| is_conversation_line_spec(l)),
        count_by(sample, |l: Seq<char>| is_document_line_spec(l)),
    )
}

/// The trimmed lines that content detection samples.
pub open spec fn detection_lines(content: Seq<char>) -> Seq<Seq<char>> {
    detection_sample(lines_of(content)).map_values(|l: Seq<char>| trim(l))
}

/// Log output is recognised: when no sampled line reads as conversation
/// and more than 30% of all the indicators found in the sample are log
/// indicators, the content is detected as logs. In particular a content
/// whose sampled lines are log lines and nothing else is logs.
pub proof fn law_logs_are_detected(content: Seq<char>)
    requires
        ({
            let sample = detection_lines(content);
            let code = count_by(sample, |l: Seq<char>| is_code_line_spec(l));
            let log = count_by(sample, |l: Seq<char>| is_log_line_spec(l));
            let conv = count_by(sample, |l: Seq<char>| is_conversation_line_spec(l));
            let doc = count_by(sample, |l: Seq<char>| is_document_line_spec(l));
            conv == 0 && log * 10 > (code + log + conv + doc) * 3
        }),
    ensures
        detect_content_type_spec(content) == ContentType::Logs,
{
    let sample = detection_lines(content);
    let code = count_by(sample, |l: Seq<char>| is_code_line_spec(l));
    let log = count_by(sample, |l: Seq<char>| is_log_line_spec(l));
    let conv = count_by(sample, |l: Seq<char>| is_conversation_line_spec(l));
    let doc = count_by(sample, |l: Seq<char>| is_document_line_spec(l));
    let total = code + log + conv + doc;
    assert(log > total * 3 / 10) by (nonlinear_arith)
        requires
            log * 10 > total * 3,
            log >= 0,
            total >= 0,
    ;
    assert(total > 0);
}

/// The kind of a chunk.
#[derive(Debug, Clone, Copy, PartialEq, Eq, Structural)]
pub enum ChunkType {
    Code,
    Text,
    ToolOutput,
    Conversation,
}

/// A chunk of content with metadata.
#[derive(Debug)]
pub struct Chunk {
    pub content: String,
    pub chunk_type: ChunkType,
    pub start_line: usize,
    pub end_line: usize,
    pub tokens: usize,
    /// Higher = more important to keep.
    pub priority: u8,
}

/// The mathematical content of a [`Chunk`].
pub struct ChunkView {
    pub content: Seq<char>,
    pub chunk_type: ChunkType,
    pub start_line: int,
    pub end_line: int,
    pub tokens: int,
    pub priority: int,
}

impl View for Chunk {
    type V = ChunkView;

    open spec fn view(&self) -> ChunkView {
        ChunkView {
            content: self.content@,
            chunk_type: self.chunk_type,
            start_line: self.start_line as int,
            end_line: self.end_line as int,
            tokens: self.tokens as int,
            priority: self.priority as int,
        }
    }
}

impl Clone for Chunk {
    fn clone(&self) -> (r: Self)
        ensures
            r@ == self@,
    {
        Chunk {
            content: self.content.clone(),
            chunk_type: self.chunk_type,
            start_line: self.start_line,
            end_line: self.end_line,
            tokens: self.tokens,
            priority: self.priority,
        }
    }
}

/// The views of a sequence of chunks.
pub open spec fn chunk_views(cs: Seq<Chunk>) -> Seq<ChunkView> {
    cs.map_values(|c: Chunk| c@)
}

/// Options for chunking.
#[derive(Debug, Clone, Copy)]
pub struct ChunkOptions {
    /// Maximum tokens per chunk.
    pub max_chunk_tokens: usize,
    /// Number of recent lines whose chunks are always boosted.
    pub preserve_recent: usize,
}

impl ChunkOptions {
    /// The default options: 4000 tokens per chunk, 100 recent lines.
    pub fn default_options() -> (o: ChunkOptions)
        ensures
            o.max_chunk_tokens == 4000,
            o.preserve_recent == 100,
    {
        ChunkOptions { max_chunk_tokens: 4000, preserve_recent: 100 }
    }
}

impl Default for ChunkOptions {
    fn default() -> (o: ChunkOptions)
        ensures
            o.max_chunk_tokens == 4000,
            o.preserve_recent == 100,
    {
        ChunkOptions::default_options()
    }
}

/// Estimated token count of a text of `n` bytes (about 4 bytes per token).
pub open spec fn tokens_for_bytes(n: usize) -> int {
    (n + 3) / 4
}

/// Estimated token count of a text.
pub open spec fn tokens_of(s: Seq<char>) -> int {
    tokens_for_bytes(byte_len(s))
}

/// Line prefixes that start a definition.
pub open spec fn definition_prefixes() -> Seq<&'static str> {
    seq!["function", "class ", "def ", "async function", "export", "fn ", "impl ", "struct ", "enum "]
}

/// Whether the trimmed line `t` starts a new chunk, and with which type and
/// priority.
pub open spec fn boundary_of(t: Seq<char>) -> Option<(ChunkType, u8)> {
    if starts_with(t, "[User]:"@) || starts_with(t, "[Assistant]:"@) {
        Some((ChunkType::Conversation, 5u8))
    } else if starts_with(t, "[Tool "@) {
        Some(
            (
                ChunkType::ToolOutput,
                if contains(t, "FAILED"@) || contains(t, "error"@) {
                    7u8
                } else {
                    3u8
                },
            ),
        )
    } else if starts_with(t, "```"@) {
        Some((ChunkType::Code, 4u8))
    } else if starts_with(t, "/"@) || starts_with(t, "./"@) || starts_with(t, "~/"@) {
        Some((ChunkType::Code, 4u8))
    } else if starts_with_any(t, definition_prefixes()) {
        Some((ChunkType::Code, 5u8))
    } else if starts_with(lowercase(t), "error"@) || contains(lowercase(t), "error:"@) || starts_with(
        t,
        "Exception"@,
    ) || contains(t, "FAILED"@) {
        Some((ChunkType::Text, 8u8))
    } else if starts_with(t, "#"@) && utf8_len(t) > 2 && t.len() > 1 && t[1] == ' ' {
        Some((ChunkType::Text, 6u8))
    } else {
        None
    }
}

/// The boundary marks of a sequence of lines.
pub open spec fn boundaries_of(ls: Seq<Seq<char>>) -> Seq<Option<(ChunkType, u8)>> {
    ls.map_values(|l: Seq<char>| boundary_of(trim(l)))
}

/// The first index `>= j` that carries a boundary mark, or the length.
pub open spec fn next_boundary(bnd: Seq<Option<(ChunkType, u8)>>, j: int) -> int
    decreases bnd.len() - j,
{
    if j >= bnd.len() {
        bnd.len() as int
    } else if bnd[j] is Some {
        j
    } else {
        next_boundary(bnd, j + 1)
    }
}

/// The priority of a piece of a split segment: 8 when it holds one of the
/// recent lines (from line `recent` on), 3 otherwise.
pub open spec fn piece_priority(end_line: int, recent: int) -> int {
    if end_line >= recent {
        8
    } else {
        3
    }
}

/// The chunk made of the lines `seg[a..b]` of a segment starting at line
/// `start`, as the splitter emits it: its tokens are those of its content.
pub open spec fn piece(seg: Seq<Seq<char>>, start: int, ty: ChunkType, recent: int, a: int, b: int) -> ChunkView {
    let content = join(seg.subrange(a, b), "\n"@);
    ChunkView {
        content: content,
        chunk_type: ty,
        start_line: start + a,
        end_line: start + b - 1,
        tokens: tokens_of(content),
        priority: piece_priority(start + b - 1, recent),
    }
}

/// Greedy packing of the lines of a too-large segment: the piece that
/// starts at `gstart` is closed before line `i` when adding that line would
/// take its content past `max` tokens, unless the piece is still empty.
pub open spec fn split_from(
    seg: Seq<Seq<char>>,
    start: int,
    ty: ChunkType,
    max: int,
    recent: int,
    i: int,
    gstart: int,
) -> Seq<ChunkView>
    decreases seg.len() - i,
{
    if i >= seg.len() {
        if 0 <= gstart < seg.len() {
            seq![piece(seg, start, ty, recent, gstart, seg.len() as int)]
        } else {
            Seq::empty()
        }
    } else if 0 <= gstart < i && tokens_of(join(seg.subrange(gstart, i + 1), "\n"@)) > max {
        seq![piece(seg, start, ty, recent, gstart, i)] + split_from(seg, start, ty, max, recent, i + 1, i)
    } else {
        split_from(seg, start, ty, max, recent, i + 1, gstart)
    }
}

/// `split_large_chunk`: the pieces of a segment.
pub open spec fn split_spec(seg: Seq<Seq<char>>, start: int, ty: ChunkType, max: int, recent: int) -> Seq<ChunkView> {
    split_from(seg, start, ty, max, recent, 0, 0)
}

/// The chunks of one segment: a single chunk, or its pieces when its joined
/// content exceeds `max` tokens.
pub open spec fn segment_chunks(
    seg: Seq<Seq<char>>,
    start: int,
    ty: ChunkType,
    pr: int,
    max: int,
    recent: int,
) -> Seq<ChunkView> {
    let content = join(seg, "\n"@);
    if tokens_of(content) > max {
        split_spec(seg, start, ty, max, recent)
    } else {
        seq![
            ChunkView {
                content: content,
                chunk_type: ty,
                start_line: start,
                end_line: start + seg.len() - 1,
                tokens: tokens_of(content),
                priority: pr,
            },
        ]
    }
}

/// First line index whose chunk gets the recent-content boost.
pub open spec fn recent_from(n: int, preserve: int) -> int {
    if n >= preserve {
        n - preserve
    } else {
        0
    }
}

/// The chunks of the lines from `start` on, where the segment at `start` has
/// type `ty` and base priority `pr`. A segment runs to the next boundary
/// mark; its priority rises to at least 8 when it reaches a recent line.
pub open spec fn chunks_from(
    ls: Seq<Seq<char>>,
    bnd: Seq<Option<(ChunkType, u8)>>,
    opts: ChunkOptions,
    start: int,
    ty: ChunkType,
    pr: int,
) -> Seq<ChunkView>
    decreases ls.len() - start,
{
    if start < 0 || start >= ls.len() {
        Seq::empty()
    } else {
        let e = next_boundary(bnd, start + 1);
        let pr2 = if e - 1 >= recent_from(ls.len() as int, opts.preserve_recent as int) && pr < 8 {
            8
        } else {
            pr
        };
        let here = segment_chunks(
            ls.subrange(start, e),
            start,
            ty,
            pr2,
            opts.max_chunk_tokens as int,
            recent_from(ls.len() as int, opts.preserve_recent as int),
        );
        if start < e && e < ls.len() && bnd.len() == ls.len() {
            here + chunks_from(ls, bnd, opts, e, bnd[e].unwrap().0, bnd[e].unwrap().1 as int)
        } else {
            here
        }
    }
}

/// `chunk`: the chunks of `content`. The first segment is plain text of
/// priority 1; a boundary mark on the first line is not used.
pub open spec fn chunk_spec(content: Seq<char>, opts: ChunkOptions) -> Seq<ChunkView> {
    let ls = lines_of(content);
    chunks_from(ls, boundaries_of(ls), opts, 0, ChunkType::Text, 1)
}

proof fn lemma_next_boundary(bnd: Seq<Option<(ChunkType, u8)>>, k: int, i: int)
    requires
        0 <= k <= i <= bnd.len(),
        forall|j: int| k <= j < i ==> bnd[j] is None,
        i == bnd.len() || bnd[i] is Some,
    ensures
        next_boundary(bnd, k) == i,
    decreases i - k,
{
    if k < i {
        lemma_next_boundary(bnd, k + 1, i);
    }
}

/// `a` is kept before `b` when choosing chunks: higher priority first,
/// then the later start line.
pub open spec fn selected_before(a: ChunkView, b: ChunkView) -> bool {
    a.priority > b.priority || (a.priority == b.priority && a.start_line > b.start_line)
}

/// `a` comes before `b` in line order.
pub open spec fn line_before(a: ChunkView, b: ChunkView) -> bool {
    a.start_line < b.start_line
}

/// Inserts `x` into `s` before the first element that `x` must precede.
pub open spec fn insert_by(
    s: Seq<ChunkView>,
    x: ChunkView,
    before: spec_fn(ChunkView, ChunkView) -> bool,
) -> Seq<ChunkView>
    decreases s.len(),
{
    if s.len() == 0 {
        seq![x]
    } else if before(x, s[0]) {
        seq![x] + s
    } else {
        seq![s[0]] + insert_by(s.drop_first(), x, before)
    }
}

/// The stable sort of `s` by the strict order `before`: elements that
/// neither precedes keep their order.
pub open spec fn stable_sort(s: Seq<ChunkView>, before: spec_fn(ChunkView, ChunkView) -> bool) -> Seq<
    ChunkView,
>
    decreases s.len(),
{
    if s.len() == 0 {
        Seq::empty()
    } else {
        insert_by(stable_sort(s.drop_last(), before), s.last(), before)
    }
}

/// Greedy selection in order: a chunk is taken when it still fits in the
/// budget `max` given the `used` tokens so far.
pub open spec fn take_fitting(s: Seq<ChunkView>, max: int, used: int) -> Seq<ChunkView>
    decreases s.len(),
{
    if s.len() == 0 {
        Seq::empty()
    } else if used + s[0].tokens <= max {
        seq![s[0]] + take_fitting(s.drop_first(), max, used + s[0].tokens)
    } else {
        take_fitting(s.drop_first(), max, used)
    }
}

/// `select_chunks`: the chunks that fit in `max` tokens, taken by priority
/// and recency, returned in line order.
pub open spec fn select_spec(chunks: Seq<ChunkView>, max: int) -> Seq<ChunkView> {
    stable_sort(
        take_fitting(stable_sort(chunks, |a: ChunkView, b: ChunkView| selected_before(a, b)), max, 0),
        |a: ChunkView, b: ChunkView| line_before(a, b),
    )
}

/// The marker that stands for `gap` omitted lines.
pub open spec fn gap_marker(gap: int) -> Seq<char> {
    "\n[... "@ + decimal(gap as nat) + " lines omitted ...]\n"@
}

/// The parts that `reassemble` joins: each chunk's content, preceded by a
/// gap marker when lines are missing since the previous chunk.
pub open spec fn reassembly_parts(cs: Seq<ChunkView>) -> Seq<Seq<char>>
    decreases cs.len(),
{
    if cs.len() == 0 {
        Seq::empty()
    } else {
        let prev = reassembly_parts(cs.drop_last());
        let c = cs.last();
        let with_gap = if cs.len() >= 2 && c.start_line > cs[cs.len() - 2].end_line + 1 {
            prev.push(gap_marker(c.start_line - cs[cs.len() - 2].end_line - 1))
        } else {
            prev
        };
        with_gap.push(c.content)
    }
}

/// `reassemble`: the parts joined by newlines.
pub open spec fn reassemble_spec(cs: Seq<ChunkView>) -> Seq<char> {
    join(reassembly_parts(cs), "\n"@)
}

/// Sum of the token counts of a sequence of chunks.
pub open spec fn total_tokens(s: Seq<ChunkView>) -> int
    decreases s.len(),
{
    if s.len() == 0 {
        0
    } else {
        total_tokens(s.drop_last()) + s.last().tokens
    }
}

proof fn lemma_insert_by_position(
    s: Seq<ChunkView>,
    x: ChunkView,
    before: spec_fn(ChunkView, ChunkView) -> bool,
    k: int,
)
    requires
        0 <= k <= s.len(),
        forall|j: int| 0 <= j < k ==> !before(x, #[trigger] s[j]),
        k == s.len() || before(x, s[k]),
    ensures
        insert_by(s, x, before) == s.take(k) + seq![x] + s.skip(k),
    decreases s.len(),
{
    if s.len() == 0 {
        assert(s.take(k) + seq![x] + s.skip(k) =~= seq![x]);
    } else if k == 0 {
        assert(s.take(k) + seq![x] + s.skip(k) =~= seq![x] + s);
    } else {
        assert forall|j: int| 0 <= j < k - 1 implies !before(x, #[trigger] s.drop_first()[j]) by {
            assert(s.drop_first()[j] == s[j + 1]);
        }
        lemma_insert_by_position(s.drop_first(), x, before, k - 1);
        assert(s.take(k) + seq![x] + s.skip(k) =~= seq![s[0]] + (s.drop_first().take(k - 1)
            + seq![x] + s.drop_first().skip(k - 1)));
    }
}

proof fn lemma_total_tokens_concat(a: Seq<ChunkView>, b: Seq<ChunkView>)
    ensures
        total_tokens(a + b) == total_tokens(a) + total_tokens(b),
    decreases b.len(),
{
    if b.len() == 0 {
        assert(a + b =~= a);
    } else {
        lemma_total_tokens_concat(a, b.drop_last());
        assert((a + b).drop_last() =~= a + b.drop_last());
    }
}

proof fn lemma_total_tokens_insert_by(
    s: Seq<ChunkView>,
    x: ChunkView,
    before: spec_fn(ChunkView, ChunkView) -> bool,
)
    ensures
        total_tokens(insert_by(s, x, before)) == total_tokens(s) + x.tokens,
    decreases s.len(),
{
    reveal_with_fuel(total_tokens, 2);
    if s.len() == 0 {
    } else if before(x, s[0]) {
        lemma_total_tokens_concat(seq![x], s);
    } else {
        lemma_total_tokens_insert_by(s.drop_first(), x, before);
        lemma_total_tokens_concat(seq![s[0]], insert_by(s.drop_first(), x, before));
        lemma_total_tokens_concat(seq![s[0]], s.drop_first());
        assert(seq![s[0]] + s.drop_first() =~= s);
    }
}

proof fn lemma_total_tokens_stable_sort(s: Seq<ChunkView>, before: spec_fn(ChunkView, ChunkView) -> bool)
    ensures
        total_tokens(stable_sort(s, before)) == total_tokens(s),
    decreases s.len(),
{
    if s.len() > 0 {
        lemma_total_tokens_stable_sort(s.drop_last(), before);
        lemma_total_tokens_insert_by(stable_sort(s.drop_last(), before), s.last(), before);
    }
}

proof fn lemma_take_fitting_budget(s: Seq<ChunkView>, max: int, used: int)
    requires
        used <= max,
    ensures
        used + total_tokens(take_fitting(s, max, used)) <= max,
    decreases s.len(),
{
    if s.len() > 0 {
        if used + s[0].tokens <= max {
            lemma_take_fitting_budget(s.drop_first(), max, used + s[0].tokens);
            lemma_total_tokens_concat(seq![s[0]], take_fitting(s.drop_first(), max, used + s[0].tokens));
            reveal_with_fuel(total_tokens, 2);
        } else {
            lemma_take_fitting_budget(s.drop_first(), max, used);
        }
    }
}

/// The chunks that `select_chunks` keeps never hold more tokens than the
/// budget.
pub proof fn lemma_select_within_budget(chunks: Seq<ChunkView>, max: int)
    requires
        max >= 0,
    ensures
        total_tokens(select_spec(chunks, max)) <= max,
{
    let by_priority = |a: ChunkView, b: ChunkView| selected_before(a, b);
    let by_line = |a: ChunkView, b: ChunkView| line_before(a, b);
    let kept = take_fitting(stable_sort(chunks, by_priority), max, 0);
    lemma_take_fitting_budget(stable_sort(chunks, by_priority), max, 0);
    lemma_total_tokens_stable_sort(kept, by_line);
}

proof fn lemma_insert_by_contains(
    s: Seq<ChunkView>,
    x: ChunkView,
    before: spec_fn(ChunkView, ChunkView) -> bool,
    y: ChunkView,
)
    ensures
        insert_by(s, x, before).contains(y) <==> (s.contains(y) || y == x),
    decreases s.len(),
{
    if s.len() == 0 {
        assert(seq![x][0] == x);
    } else if before(x, s[0]) {
        assert((seq![x] + s)[0] == x);
        if s.contains(y) {
            let i = choose|i: int| 0 <= i < s.len() && s[i] == y;
            assert((seq![x] + s)[i + 1] == y);
        }
        if (seq![x] + s).contains(y) && y != x {
            let i = choose|i: int| 0 <= i < (seq![x] + s).len() && (seq![x] + s)[i] == y;
            assert(s[i - 1] == y);
        }
    } else {
        let rest = insert_by(s.drop_first(), x, before);
        lemma_insert_by_contains(s.drop_first(), x, before, y);
        let r = seq![s[0]] + rest;
        if s.contains(y) {
            let i = choose|i: int| 0 <= i < s.len() && s[i] == y;
            if i == 0 {
                assert(r[0] == y);
            } else {
                assert(s.drop_first()[i - 1] == y);
                let j = choose|j: int| 0 <= j < rest.len() && rest[j] == y;
                assert(r[j + 1] == y);
            }
        }
        if y == x {
            let j = choose|j: int| 0 <= j < rest.len() && rest[j] == y;
            assert(r[j + 1] == y);
        }
        if r.contains(y) {
            let i = choose|i: int| 0 <= i < r.len() && r[i] == y;
            if i == 0 {
                assert(s[0] == y);
            } else {
                assert(rest[i - 1] == y);
                if s.drop_first().contains(y) {
                    let j = choose|j: int| 0 <= j < s.drop_first().len() && s.drop_first()[j] == y;
                    assert(s[j + 1] == y);
                }
            }
        }
    }
}

proof fn lemma_stable_sort_contains(s: Seq<ChunkView>, before: spec_fn(ChunkView, ChunkView) -> bool, y: ChunkView)
    ensures
        stable_sort(s, before).contains(y) <==> s.contains(y),
    decreases s.len(),
{
    if s.len() > 0 {
        lemma_stable_sort_contains(s.drop_last(), before, y);
        lemma_insert_by_contains(stable_sort(s.drop_last(), before), s.last(), before, y);
        if s.contains(y) && y != s.last() {
            let i = choose|i: int| 0 <= i < s.len() && s[i] == y;
            assert(s.drop_last()[i] == y);
        }
        if s.drop_last().contains(y) {
            let i = choose|i: int| 0 <= i < s.drop_last().len() && s.drop_last()[i] == y;
            assert(s[i] == y);
        }
        if y == s.last() {
            assert(s[s.len() - 1] == y);
        }
    }
}

/// Sorting by priority puts a chunk of strictly the highest priority first.
proof fn lemma_top_first(s: Seq<ChunkView>, c: ChunkView)
    requires
        s.contains(c),
        forall|i: int| 0 <= i < s.len() ==> (#[trigger] s[i]) == c || s[i].priority < c.priority,
    ensures
        stable_sort(s, |a: ChunkView, b: ChunkView| selected_before(a, b)).len() > 0,
        stable_sort(s, |a: ChunkView, b: ChunkView| selected_before(a, b))[0] == c,
    decreases s.len(),
{
    let order = |a: ChunkView, b: ChunkView| selected_before(a, b);
    let p = s.drop_last();
    let t = stable_sort(p, order);
    lemma_total_len_sort(p, order);
    if p.contains(c) {
        assert forall|i: int| 0 <= i < p.len() implies (#[trigger] p[i]) == c || p[i].priority < c.priority by {
            assert(p[i] == s[i]);
        }
        lemma_top_first(p, c);
        assert(s.last() == s[s.len() - 1]);
        if s.last() != c {
            assert(!order(s.last(), t[0]));
        } else {
            assert(!order(s.last(), t[0]));
        }
        assert(insert_by(t, s.last(), order)[0] == c);
    } else {
        let i = choose|i: int| 0 <= i < s.len() && s[i] == c;
        if i < s.len() - 1 {
            assert(p[i] == c);
        }
        assert(s.last() == c);
        if t.len() > 0 {
            lemma_stable_sort_contains(p, order, t[0]);
            assert(t.contains(t[0]));
            let j = choose|j: int| 0 <= j < p.len() && p[j] == t[0];
            assert(p[j] == s[j]);
            assert(order(c, t[0]));
        }
    }
}

proof fn lemma_total_len_sort(s: Seq<ChunkView>, before: spec_fn(ChunkView, ChunkView) -> bool)
    ensures
        stable_sort(s, before).len() == s.len(),
    decreases s.len(),
{
    if s.len() > 0 {
        lemma_total_len_sort(s.drop_last(), before);
        lemma_insert_by_len(stable_sort(s.drop_last(), before), s.last(), before);
    }
}

proof fn lemma_insert_by_len(s: Seq<ChunkView>, x: ChunkView, before: spec_fn(ChunkView, ChunkView) -> bool)
    ensures
        insert_by(s, x, before).len() == s.len() + 1,
    decreases s.len(),
{
    if s.len() > 0 && !before(x, s[0]) {
        lemma_insert_by_len(s.drop_first(), x, before);
    }
}

/// Chunk selection keeps the most important content: a chunk whose
/// priority is strictly higher than that of every other chunk is always
/// selected when it fits in the budget on its own, whatever the other
/// chunks are.
pub proof fn law_select_keeps_top_priority(chunks: Seq<ChunkView>, k: int, max: int)
    requires
        0 <= k < chunks.len(),
        chunks[k].tokens <= max,
        forall|i: int| 0 <= i < chunks.len() && i != k ==> (#[trigger] chunks[i]).priority < chunks[k].priority,
    ensures
        select_spec(chunks, max).contains(chunks[k]),
{
    let c = chunks[k];
    let by_priority = |a: ChunkView, b: ChunkView| selected_before(a, b);
    let by_line = |a: ChunkView, b: ChunkView| line_before(a, b);
    assert(chunks.contains(c)) by {
        assert(chunks[k] == c);
    }
    assert forall|i: int| 0 <= i < chunks.len() implies (#[trigger] chunks[i]) == c || chunks[i].priority < c.priority by {
        if i != k {
        }
    }
    lemma_top_first(chunks, c);
    let sorted = stable_sort(chunks, by_priority);
    let kept = take_fitting(sorted, max, 0);
    assert(kept[0] == c);
    assert(kept.contains(c));
    lemma_stable_sort_contains(kept, by_line, c);
}

/// `s` is in line order.
pub open spec fn in_line_order(s: Seq<ChunkView>) -> bool {
    forall|i: int, j: int| 0 <= i < j < s.len() ==> s[i].start_line <= s[j].start_line
}

proof fn lemma_insert_by_line_sorted(
    s: Seq<ChunkView>,
    x: ChunkView,
    before: spec_fn(ChunkView, ChunkView) -> bool,
)
    requires
        in_line_order(s),
        before == (|a: ChunkView, b: ChunkView| line_before(a, b)),
    ensures
        in_line_order(insert_by(s, x, before)),
        insert_by(s, x, before).len() == s.len() + 1,
        forall|k: int|
            0 <= k < s.len() + 1 ==> #[trigger] insert_by(s, x, before)[k] == x || s.contains(
                insert_by(s, x, before)[k],
            ),
    decreases s.len(),
{
    if s.len() == 0 {
    } else if before(x, s[0]) {
        let r = seq![x] + s;
        assert forall|k: int| 0 <= k < s.len() + 1 && r[k] != x implies s.contains(r[k]) by {
            assert(r[k] == s[k - 1]);
        }
    } else {
        let t = s.drop_first();
        lemma_insert_by_line_sorted(t, x, before);
        let it = insert_by(t, x, before);
        let r = seq![s[0]] + it;
        assert forall|k: int| 0 <= k < r.len() && r[k] != x implies s.contains(r[k]) by {
            if k == 0 {
                assert(r[0] == s[0]);
            } else {
                assert(r[k] == it[k - 1]);
                let j = choose|j: int| 0 <= j < t.len() && it[k - 1] == #[trigger] t[j];
                assert(t[j] == s[j + 1]);
            }
        }
        assert forall|i: int, j: int| 0 <= i < j < r.len() implies r[i].start_line
            <= r[j].start_line by {
            if i == 0 {
                assert(r[j] == it[j - 1]);
                if it[j - 1] != x {
                    let m = choose|m: int| 0 <= m < t.len() && it[j - 1] == #[trigger] t[m];
                    assert(t[m] == s[m + 1]);
                }
            } else {
                assert(r[i] == it[i - 1]);
                assert(r[j] == it[j - 1]);
            }
        }
    }
}

proof fn lemma_stable_sort_by_line(s: Seq<ChunkView>, before: spec_fn(ChunkView, ChunkView) -> bool)
    requires
        before == (|a: ChunkView, b: ChunkView| line_before(a, b)),
    ensures
        in_line_order(stable_sort(s, before)),
        stable_sort(s, before).len() == s.len(),
    decreases s.len(),
{
    if s.len() > 0 {
        lemma_stable_sort_by_line(s.drop_last(), before);
        lemma_insert_by_line_sorted(stable_sort(s.drop_last(), before), s.last(), before);
    }
}

/// A chunk keeps the chunking promises: its tokens are those of its
/// content, only a single line may exceed `max` tokens, and a chunk that
/// reaches a recent line (from `recent` on) has priority at least 8.
pub open spec fn chunk_ok(c: ChunkView, max: int, recent: int) -> bool {
    &&& c.tokens == tokens_of(c.content)
    &&& (c.start_line == c.end_line || c.tokens <= max)
    &&& (c.end_line >= recent ==> c.priority >= 8)
}

proof fn lemma_split_ok(
    seg: Seq<Seq<char>>,
    start: int,
    ty: ChunkType,
    max: int,
    recent: int,
    i: int,
    gstart: int,
)
    requires
        0 <= gstart <= i <= seg.len(),
        i - gstart <= 1 || tokens_of(join(seg.subrange(gstart, i), "\n"@)) <= max,
    ensures
        forall|k: int|
            0 <= k < split_from(seg, start, ty, max, recent, i, gstart).len() ==> chunk_ok(
                #[trigger] split_from(seg, start, ty, max, recent, i, gstart)[k],
                max,
                recent,
            ),
    decreases seg.len() - i,
{
    if i >= seg.len() {
        if gstart < seg.len() {
            let p = piece(seg, start, ty, recent, gstart, seg.len() as int);
            assert(chunk_ok(p, max, recent));
            assert(split_from(seg, start, ty, max, recent, i, gstart) == seq![p]);
        }
    } else if 0 <= gstart < i && tokens_of(join(seg.subrange(gstart, i + 1), "\n"@)) > max {
        lemma_split_ok(seg, start, ty, max, recent, i + 1, i);
        let p = piece(seg, start, ty, recent, gstart, i);
        let rest = split_from(seg, start, ty, max, recent, i + 1, i);
        assert(chunk_ok(p, max, recent));
        assert(split_from(seg, start, ty, max, recent, i, gstart) == seq![p] + rest);
        assert forall|k: int| 0 <= k < (seq![p] + rest).len() implies chunk_ok(#[trigger] (seq![p] + rest)[k], max, recent) by {
            if k > 0 {
                assert((seq![p] + rest)[k] == rest[k - 1]);
            }
        }
    } else {
        lemma_split_ok(seg, start, ty, max, recent, i + 1, gstart);
        assert(split_from(seg, start, ty, max, recent, i, gstart) == split_from(
            seg,
            start,
            ty,
            max,
            recent,
            i + 1,
            gstart,
        ));
    }
}

proof fn lemma_next_boundary_bounds(bnd: Seq<Option<(ChunkType, u8)>>, j: int)
    requires
        0 <= j <= bnd.len(),
    ensures
        j <= next_boundary(bnd, j) <= bnd.len(),
    decreases bnd.len() - j,
{
    if j < bnd.len() && bnd[j] is None {
        lemma_next_boundary_bounds(bnd, j + 1);
    }
}

proof fn lemma_chunks_from_ok(
    ls: Seq<Seq<char>>,
    bnd: Seq<Option<(ChunkType, u8)>>,
    opts: ChunkOptions,
    start: int,
    ty: ChunkType,
    pr: int,
)
    requires
        bnd.len() == ls.len(),
    ensures
        forall|k: int|
            0 <= k < chunks_from(ls, bnd, opts, start, ty, pr).len() ==> chunk_ok(
                #[trigger] chunks_from(ls, bnd, opts, start, ty, pr)[k],
                opts.max_chunk_tokens as int,
                recent_from(ls.len() as int, opts.preserve_recent as int),
            ),
    decreases ls.len() - start,
{
    if start < 0 || start >= ls.len() {
    } else {
        let max = opts.max_chunk_tokens as int;
        let recent = recent_from(ls.len() as int, opts.preserve_recent as int);
        let e = next_boundary(bnd, start + 1);
        let pr2 = if e - 1 >= recent && pr < 8 {
            8
        } else {
            pr
        };
        lemma_next_boundary_bounds(bnd, start + 1);
        let seg = ls.subrange(start, e);
        let here = segment_chunks(seg, start, ty, pr2, max, recent);
        if tokens_of(join(seg, "\n"@)) > max {
            lemma_split_ok(seg, start, ty, max, recent, 0, 0);
        } else {
            assert(chunk_ok(here[0], max, recent));
        }
        assert(forall|k: int| 0 <= k < here.len() ==> chunk_ok(#[trigger] here[k], max, recent));
        if start < e && e < ls.len() && bnd.len() == ls.len() {
            let rest = chunks_from(ls, bnd, opts, e, bnd[e].unwrap().0, bnd[e].unwrap().1 as int);
            lemma_chunks_from_ok(ls, bnd, opts, e, bnd[e].unwrap().0, bnd[e].unwrap().1 as int);
            assert forall|k: int| 0 <= k < (here + rest).len() implies chunk_ok(#[trigger] (here + rest)[k], max, recent) by {
                if k >= here.len() {
                    assert((here + rest)[k] == rest[k - here.len()]);
                }
            }
        }
    }
}

/// Chunking keeps its promises for every chunk: each chunk's tokens are
/// those of its content, no chunk of several lines exceeds the maximum
/// tokens per chunk, and every chunk that holds one of the last
/// `preserve_recent` lines has priority at least 8.
pub proof fn law_chunks_keep_their_promises(content: Seq<char>, opts: ChunkOptions)
    ensures
        forall|k: int|
            0 <= k < chunk_spec(content, opts).len() ==> chunk_ok(
                #[trigger] chunk_spec(content, opts)[k],
                opts.max_chunk_tokens as int,
                recent_from(lines_of(content).len() as int, opts.preserve_recent as int),
            ),
{
    let ls = lines_of(content);
    lemma_chunks_from_ok(ls, boundaries_of(ls), opts, 0, ChunkType::Text, 1);
}

/// The contents of a sequence of chunks.
pub open spec fn contents(cs: Seq<ChunkView>) -> Seq<Seq<char>> {
    cs.map_values(|c: ChunkView| c.content)
}

/// Each chunk starts on the line after the previous one ends.
pub open spec fn contiguous(cs: Seq<ChunkView>) -> bool {
    forall|k: int| 0 < k < cs.len() ==> #[trigger] cs[k].start_line == cs[k - 1].end_line + 1
}

/// The chunks `cs` cover the lines `lines`, numbered `first` to `last`,
/// one after the other, their contents joined giving the lines joined.
pub open spec fn covers(cs: Seq<ChunkView>, lines: Seq<Seq<char>>, first: int, last: int) -> bool {
    &&& cs.len() > 0
    &&& lines.len() > 0
    &&& cs[0].start_line == first
    &&& cs.last().end_line == last
    &&& contiguous(cs)
    &&& join(contents(cs), "\n"@) == join(lines, "\n"@)
}

proof fn lemma_join_concat(a: Seq<Seq<char>>, b: Seq<Seq<char>>, sep: Seq<char>)
    requires
        a.len() > 0,
        b.len() > 0,
    ensures
        join(a + b, sep) == join(a, sep) + sep + join(b, sep),
    decreases b.len(),
{
    if b.len() == 1 {
        assert((a + b).drop_last() =~= a);
        assert((a + b).last() == b[0]);
    } else {
        lemma_join_concat(a, b.drop_last(), sep);
        assert((a + b).drop_last() =~= a + b.drop_last());
        assert((a + b).last() == b.last());
        assert(join(a, sep) + sep + join(b.drop_last(), sep) + sep + b.last() =~= join(a, sep) + sep + (join(
            b.drop_last(),
            sep,
        ) + sep + b.last()));
    }
}

proof fn lemma_covers_concat(
    x: Seq<ChunkView>,
    l1: Seq<Seq<char>>,
    f: int,
    m: int,
    y: Seq<ChunkView>,
    l2: Seq<Seq<char>>,
    e: int,
)
    requires
        covers(x, l1, f, m - 1),
        covers(y, l2, m, e),
    ensures
        covers(x + y, l1 + l2, f, e),
{
    let xy = x + y;
    assert(contents(xy) =~= contents(x) + contents(y));
    lemma_join_concat(contents(x), contents(y), "\n"@);
    lemma_join_concat(l1, l2, "\n"@);
    assert(xy[0] == x[0]);
    assert(xy.last() == y.last());
    assert forall|k: int| 0 < k < xy.len() implies #[trigger] xy[k].start_line == xy[k - 1].end_line + 1 by {
        if k < x.len() {
            assert(xy[k] == x[k] && xy[k - 1] == x[k - 1]);
        } else if k == x.len() {
            assert(xy[k] == y[0] && xy[k - 1] == x.last());
        } else {
            assert(xy[k] == y[k - x.len()] && xy[k - 1] == y[k - 1 - x.len()]);
        }
    }
}

proof fn lemma_split_covers(
    seg: Seq<Seq<char>>,
    start: int,
    ty: ChunkType,
    max: int,
    recent: int,
    i: int,
    gstart: int,
)
    requires
        0 <= gstart <= i <= seg.len(),
        gstart < seg.len(),
    ensures
        covers(
            split_from(seg, start, ty, max, recent, i, gstart),
            seg.subrange(gstart, seg.len() as int),
            start + gstart,
            start + seg.len() - 1,
        ),
    decreases seg.len() - i,
{
    if i >= seg.len() {
        let p = piece(seg, start, ty, recent, gstart, seg.len() as int);
        assert(split_from(seg, start, ty, max, recent, i, gstart) == seq![p]);
        assert(contents(seq![p]) =~= seq![p.content]);
    } else if 0 <= gstart < i && tokens_of(join(seg.subrange(gstart, i + 1), "\n"@)) > max {
        lemma_split_covers(seg, start, ty, max, recent, i + 1, i);
        let p = piece(seg, start, ty, recent, gstart, i);
        let rest = split_from(seg, start, ty, max, recent, i + 1, i);
        assert(split_from(seg, start, ty, max, recent, i, gstart) == seq![p] + rest);
        assert(contents(seq![p]) =~= seq![p.content]);
        assert(covers(seq![p], seg.subrange(gstart, i), start + gstart, start + i - 1));
        lemma_covers_concat(
            seq![p],
            seg.subrange(gstart, i),
            start + gstart,
            start + i,
            rest,
            seg.subrange(i, seg.len() as int),
            start + seg.len() - 1,
        );
        assert(seg.subrange(gstart, i) + seg.subrange(i, seg.len() as int) =~= seg.subrange(
            gstart,
            seg.len() as int,
        ));
    } else {
        lemma_split_covers(seg, start, ty, max, recent, i + 1, gstart);
        assert(split_from(seg, start, ty, max, recent, i, gstart) == split_from(
            seg,
            start,
            ty,
            max,
            recent,
            i + 1,
            gstart,
        ));
    }
}

proof fn lemma_chunks_from_covers(
    ls: Seq<Seq<char>>,
    bnd: Seq<Option<(ChunkType, u8)>>,
    opts: ChunkOptions,
    start: int,
    ty: ChunkType,
    pr: int,
)
    requires
        bnd.len() == ls.len(),
        0 <= start < ls.len(),
    ensures
        covers(
            chunks_from(ls, bnd, opts, start, ty, pr),
            ls.subrange(start, ls.len() as int),
            start,
            ls.len() - 1,
        ),
    decreases ls.len() - start,
{
    let max = opts.max_chunk_tokens as int;
    let recent = recent_from(ls.len() as int, opts.preserve_recent as int);
    let e = next_boundary(bnd, start + 1);
    let pr2 = if e - 1 >= recent && pr < 8 {
        8
    } else {
        pr
    };
    lemma_next_boundary_bounds(bnd, start + 1);
    let seg = ls.subrange(start, e);
    let here = segment_chunks(seg, start, ty, pr2, max, recent);
    if tokens_of(join(seg, "\n"@)) > max {
        lemma_split_covers(seg, start, ty, max, recent, 0, 0);
        assert(seg.subrange(0, seg.len() as int) =~= seg);
    } else {
        assert(contents(here) =~= seq![join(seg, "\n"@)]);
    }
    assert(covers(here, seg, start, e - 1));
    if e < ls.len() {
        let rest = chunks_from(ls, bnd, opts, e, bnd[e].unwrap().0, bnd[e].unwrap().1 as int);
        lemma_chunks_from_covers(ls, bnd, opts, e, bnd[e].unwrap().0, bnd[e].unwrap().1 as int);
        lemma_covers_concat(here, seg, start, e, rest, ls.subrange(e, ls.len() as int), ls.len() - 1);
        assert(seg + ls.subrange(e, ls.len() as int) =~= ls.subrange(start, ls.len() as int));
    }
}

proof fn lemma_contiguous_parts(cs: Seq<ChunkView>)
    requires
        contiguous(cs),
    ensures
        reassembly_parts(cs) == contents(cs),
    decreases cs.len(),
{
    if cs.len() > 0 {
        let p = cs.drop_last();
        assert forall|k: int| 0 < k < p.len() implies #[trigger] p[k].start_line == p[k - 1].end_line + 1 by {
            assert(p[k] == cs[k] && p[k - 1] == cs[k - 1]);
        }
        lemma_contiguous_parts(p);
        if cs.len() >= 2 {
            assert(cs[cs.len() - 1].start_line == cs[cs.len() - 2].end_line + 1);
        }
        assert(contents(cs) =~= contents(p).push(cs.last().content));
    }
}

/// Chunking loses nothing: reassembling the chunks of a content gives its
/// lines joined by newlines, as the chunks follow each other with no gap.
pub proof fn law_reassemble_chunks(content: Seq<char>, opts: ChunkOptions)
    ensures
        reassemble_spec(chunk_spec(content, opts)) == join(lines_of(content), "\n"@),
{
    let ls = lines_of(content);
    let cs = chunk_spec(content, opts);
    if ls.len() == 0 {
        assert(reassembly_parts(cs) =~= Seq::<Seq<char>>::empty());
    } else {
        lemma_chunks_from_covers(ls, boundaries_of(ls), opts, 0, ChunkType::Text, 1);
        assert(ls.subrange(0, ls.len() as int) =~= ls);
        lemma_contiguous_parts(cs);
    }
}

/// `select_chunks` returns its chunks in line order.
pub proof fn lemma_select_in_line_order(chunks: Seq<ChunkView>, max: int)
    ensures
        in_line_order(select_spec(chunks, max)),
{
    lemma_stable_sort_by_line(
        take_fitting(stable_sort(chunks, |a: ChunkView, b: ChunkView| selected_before(a, b)), max, 0),
        |a: ChunkView, b: ChunkView| line_before(a, b),
    );
}

/// The processing hint given for each content type.
pub open spec fn processing_hint(t: ContentType) -> Seq<char> {
    match t {
        ContentType::Code => "This appears to be source code. Focus on:\n- Function/class definitions and their purposes\n- Import statements and dependencies\n- Error handling patterns\n- Key algorithms and logic flow"@,
        ContentType::Logs => "This appears to be log output. Focus on:\n- Error and warning messages\n- Timestamps and event sequences\n- Stack traces and exceptions\n- Key events and state changes"@,
        ContentType::Conversation => "This appears to be conversation history. Focus on:\n- User's original request/goal\n- Key decisions made\n- Tool calls and their results\n- Current state and pending tasks"@,
        ContentType::Documents => "This appears to be documentation or prose. Focus on:\n- Main topics and structure\n- Key information and facts\n- Actionable items\n- References and links"@,
        ContentType::Mixed => "Mixed content detected. Analyze the structure first, then extract key information."@,
    }
}

pub struct RlmChunker;




impl RlmChunker {
    fn is_code_line(line: &[char]) -> (b: bool)
        ensures
            b == is_code_line_spec(line@),
    {
        let prefixes: [&str; 17] = [
            "function", "class ", "def ", "const ", "let ", "var ", "import ", "export ",
            "async ", "fn ", "impl ", "struct ", "enum ", "pub ", "use ", "mod ", "trait ",
        ];
        assert(prefixes@ =~= code_prefixes());
        if starts_any(line, &prefixes) {
            return true;
        }
        let punct: [&str; 7] = ["{", "}", "(", ")", ";", "{}", "};"];
        assert(punct@ =~= code_punctuation_lines());
        if equals_one_of(line, &punct) {
            return true;
        }
        let comments: [&str; 4] = ["//", "#", "*", "/*"];
        assert(comments@ =~= comment_prefixes());
        starts_any(line, &comments)
    }

    fn is_log_line(line: &[char]) -> (b: bool)
        ensures
            b == is_log_line_spec(line@),
    {
        if utf8_len_exceeds(line, 9) && line.len() >= 5 && '0' <= line[0] && line[0] <= '9'
            && '0' <= line[1] && line[1] <= '9' && '0' <= line[2] && line[2] <= '9' && '0'
            <= line[3] && line[3] <= '9' && line[4] == '-' {
            assert(all_digits(line@.take(4)));
            return true;
        }
        assert(line@.len() >= 5 && all_digits(line@.take(4)) ==> is_digit(line@[0]) && is_digit(
            line@[1],
        ) && is_digit(line@[2]) && is_digit(line@[3])) by {
            if line@.len() >= 5 && all_digits(line@.take(4)) {
                assert(is_digit(line@.take(4)[0]) && is_digit(line@.take(4)[1]) && is_digit(
                    line@.take(4)[2],
                ) && is_digit(line@.take(4)[3]));
            }
        }
        let open: [char; 1] = ['['];
        proof {
            reveal_strlit("[");
        }
        assert(open@ =~= "["@);
        if starts(line, &open) && utf8_len_exceeds(line, 5) && line.len() > 1 && '0' <= line[1]
            && line[1] <= '9' {
            return true;
        }
        let levels: [&str; 6] = ["INFO", "DEBUG", "WARN", "ERROR", "FATAL", "TRACE"];
        assert(levels@ =~= log_levels());
        let mut i: usize = 0;
        while i < 6
            invariant
                i <= 6,
                levels@ == log_levels(),
                forall|k: int|
                    0 <= k < i ==> !(starts_with(line@, log_levels()[k]@) || contains(
                        line@,
                        " "@ + log_levels()[k]@ + " "@,
                    )),
            decreases 6 - i,
        {
            let lv = chars_of(levels[i]);
            if starts(line, lv.as_slice()) {
                return true;
            }
            let mut padded: Vec<char> = Vec::new();
            padded.push(' ');
            let mut k: usize = 0;
            while k < lv.len()
                invariant
                    k <= lv.len(),
                    padded@ == seq![' '] + lv@.take(k as int),
                decreases lv.len() - k,
            {
                padded.push(lv[k]);
                assert(seq![' '] + lv@.take(k + 1) =~= (seq![' '] + lv@.take(k as int)).push(lv@[k as int]));
                k += 1;
            }
            padded.push(' ');
            proof {
                reveal_strlit(" ");
                assert(lv@.take(lv.len() as int) =~= lv@);
                assert(padded@ =~= " "@ + levels@[i as int]@ + " "@);
            }
            if has(line, padded.as_slice()) {
                return true;
            }
            i += 1;
        }
        false
    }

    fn is_conversation_line(line: &[char]) -> (b: bool)
        ensures
            b == is_conversation_line_spec(line@),
    {
        let prefixes: [&str; 12] = [
            "[User]:", "[Assistant]:", "[Human]:", "[AI]:", "User:", "Assistant:", "Human:",
            "AI:", "[Tool ", "<user>", "<assistant>", "<system>",
        ];
        assert(prefixes@ =~= conversation_prefixes());
        starts_any(line, &prefixes)
    }

    fn is_document_line(line: &[char]) -> (b: bool)
        ensures
            b == is_document_line_spec(line@),
    {
        let hash = chars_of("#");
        let bold = chars_of("**");
        let quote = chars_of("> ");
        let dash = chars_of("- ");
        if starts(line, hash.as_slice()) && line.len() > 1 && (line[1] == ' ' || line[1] == '#') {
            return true;
        }
        if starts(line, bold.as_slice()) && has(line, bold.as_slice()) {
            return true;
        }
        if starts(line, quote.as_slice()) {
            return true;
        }
        if starts(line, dash.as_slice()) && utf8_len_exceeds(line, 3) {
            return true;
        }
        if utf8_len_exceeds(line, 80) {
            let n = line.len();
            let ends_code = n > 0 && (line[n - 1] == '{' || line[n - 1] == ';' || line[n - 1] == '('
                || line[n - 1] == ')' || line[n - 1] == '=');
            assert(ends_code == (line@.len() > 0 && code_terminators().contains(line@.last()))) by {
                if line@.len() > 0 && code_terminators().contains(line@.last()) {
                    let k = choose|k: int| 0 <= k < 5 && code_terminators()[k] == line@.last();
                }
            }
            if !ends_code {
                return true;
            }
        }
        false
    }

    /// Detects the primary type of `content` from up to 200 sampled lines.
    #[verifier::spinoff_prover]
    pub fn detect_content_type(content: &str) -> (t: ContentType)
        ensures
            t == detect_content_type_spec(content@),
    {
        let cs = chars_of(content);
        let lines = split_lines(cs.as_slice());
        let ghost ls = lines_of(content@);
        let n = lines.len();
        let size = if n < 200 {
            n
        } else {
            200
        };
        let h = (size + 1) / 2;
        let ghost sample = detection_sample(ls).map_values(|l: Seq<char>| trim(l));
        let ghost code_p = |l: Seq<char>| is_code_line_spec(l);
        let ghost log_p = |l: Seq<char>| is_log_line_spec(l);
        let ghost conv_p = |l: Seq<char>| is_conversation_line_spec(l);
        let ghost doc_p = |l: Seq<char>| is_document_line_spec(l);
        let mut code: usize = 0;
        let mut log: usize = 0;
        let mut conv: usize = 0;
        let mut doc: usize = 0;
        let mut k: usize = 0;
        assert(sample.take(0) =~= Seq::<Seq<char>>::empty());
        while k < size
            invariant
                views(lines@) == ls,
                n == lines.len(),
                size == sample_size(n as nat),
                h == (size + 1) / 2,
                k <= size,
                sample == detection_sample(ls).map_values(|l: Seq<char>| trim(l)),
                sample.len() == size,
                code_p == (|l: Seq<char>| is_code_line_spec(l)),
                log_p == (|l: Seq<char>| is_log_line_spec(l)),
                conv_p == (|l: Seq<char>| is_conversation_line_spec(l)),
                doc_p == (|l: Seq<char>| is_document_line_spec(l)),
                code == count_by(sample.take(k as int), code_p),
                log == count_by(sample.take(k as int), log_p),
                conv == count_by(sample.take(k as int), conv_p),
                doc == count_by(sample.take(k as int), doc_p),
                code <= k && log <= k && conv <= k && doc <= k,
            decreases size - k,
        {
            let idx = if k < h {
                k
            } else {
                n - size + k
            };
            let lc = chars_of(lines[idx].as_str());
            let t = trimmed(lc.as_slice());
            proof {
                assert(sample[k as int] == trim(ls[idx as int]));
                assert(sample.take(k + 1).drop_last() =~= sample.take(k as int));
                assert(sample.take(k + 1).last() == t@);
            }
            if Self::is_code_line(t.as_slice()) {
                code += 1;
            }
            if Self::is_log_line(t.as_slice()) {
                log += 1;
            }
            if Self::is_conversation_line(t.as_slice()) {
                conv += 1;
            }
            if Self::is_document_line(t.as_slice()) {
                doc += 1;
            }
            k += 1;
        }
        assert(sample.take(size as int) =~= sample);
        let total = code + log + conv + doc;
        if total == 0 {
            return ContentType::Mixed;
        }
        let threshold = total * 3 / 10;
        if conv > threshold {
            ContentType::Conversation
        } else if log > threshold {
            ContentType::Logs
        } else if code > threshold {
            ContentType::Code
        } else if doc > threshold {
            ContentType::Documents
        } else {
            ContentType::Mixed
        }
    }

    /// Processing hints for a content type.
    pub fn get_processing_hints(content_type: ContentType) -> (r: &'static str)
        ensures
            r@ == processing_hint(content_type),
    {
        match content_type {
            ContentType::Code => "This appears to be source code. Focus on:\n- Function/class definitions and their purposes\n- Import statements and dependencies\n- Error handling patterns\n- Key algorithms and logic flow",
            ContentType::Logs => "This appears to be log output. Focus on:\n- Error and warning messages\n- Timestamps and event sequences\n- Stack traces and exceptions\n- Key events and state changes",
            ContentType::Conversation => "This appears to be conversation history. Focus on:\n- User's original request/goal\n- Key decisions made\n- Tool calls and their results\n- Current state and pending tasks",
            ContentType::Documents => "This appears to be documentation or prose. Focus on:\n- Main topics and structure\n- Key information and facts\n- Actionable items\n- References and links",
            ContentType::Mixed => "Mixed content detected. Analyze the structure first, then extract key information.",
        }
    }

    /// Estimates the token count of `text` (about 4 bytes per token).
    pub fn estimate_tokens(text: &str) -> (t: usize)
        ensures
            t == tokens_of(text@),
    {
        let n = text.len();
        assert(n == byte_len(text@));
        n / 4 + if n % 4 == 0 {
            0
        } else {
            1
        }
    }

    fn boundary_for(t: &[char]) -> (r: Option<(ChunkType, u8)>)
        ensures
            r == boundary_of(t@),
    {
        let user = chars_of("[User]:");
        let assistant = chars_of("[Assistant]:");
        if starts(t, user.as_slice()) || starts(t, assistant.as_slice()) {
            return Some((ChunkType::Conversation, 5));
        }
        let tool = chars_of("[Tool ");
        if starts(t, tool.as_slice()) {
            let failed = chars_of("FAILED");
            let error = chars_of("error");
            let p: u8 = if has(t, failed.as_slice()) || has(t, error.as_slice()) {
                7
            } else {
                3
            };
            return Some((ChunkType::ToolOutput, p));
        }
        let fence = chars_of("```");
        if starts(t, fence.as_slice()) {
            return Some((ChunkType::Code, 4));
        }
        let slash = chars_of("/");
        let dot_slash = chars_of("./");
        let home = chars_of("~/");
        if starts(t, slash.as_slice()) || starts(t, dot_slash.as_slice()) || starts(t, home.as_slice()) {
            return Some((ChunkType::Code, 4));
        }
        let defs: [&str; 9] = [
            "function", "class ", "def ", "async function", "export", "fn ", "impl ", "struct ",
            "enum ",
        ];
        assert(defs@ =~= definition_prefixes());
        if starts_any(t, &defs) {
            return Some((ChunkType::Code, 5));
        }
        let lower = lowercase_chars(t);
        let error = chars_of("error");
        let error_colon = chars_of("error:");
        let exception = chars_of("Exception");
        let failed = chars_of("FAILED");
        if starts(lower.as_slice(), error.as_slice()) || has(lower.as_slice(), error_colon.as_slice())
            || starts(t, exception.as_slice()) || has(t, failed.as_slice()) {
            return Some((ChunkType::Text, 8));
        }
        let hash = chars_of("#");
        if starts(t, hash.as_slice()) && utf8_len_exceeds(t, 2) && t.len() > 1 && t[1] == ' ' {
            return Some((ChunkType::Text, 6));
        }
        None
    }

    /// The boundary marks of every line, by position.
    fn find_boundaries(lines: &Vec<String>) -> (r: Vec<Option<(ChunkType, u8)>>)
        ensures
            r@ == boundaries_of(views(lines@)),
    {
        let mut r: Vec<Option<(ChunkType, u8)>> = Vec::new();
        let mut i: usize = 0;
        while i < lines.len()
            invariant
                i <= lines.len(),
                r@ == boundaries_of(views(lines@)).take(i as int),
            decreases lines.len() - i,
        {
            let lc = chars_of(lines[i].as_str());
            let t = trimmed(lc.as_slice());
            let b = Self::boundary_for(t.as_slice());
            r.push(b);
            assert(boundaries_of(views(lines@)).take(i + 1) =~= boundaries_of(views(lines@)).take(
                i as int,
            ).push(b));
            i += 1;
        }
        assert(boundaries_of(views(lines@)).take(lines.len() as int) =~= boundaries_of(
            views(lines@),
        ));
        r
    }

    /// Splits the lines `lines[a..b]` into pieces of at most `max_tokens`
    /// tokens (a single longer line is a piece of its own).
    fn split_large_chunk(
        lines: &Vec<String>,
        a: usize,
        b: usize,
        chunk_type: ChunkType,
        max_tokens: usize,
        recent: usize,
    ) -> (r: Vec<Chunk>)
        requires
            a <= b <= lines.len(),
        ensures
            chunk_views(r@) == split_spec(
                views(lines@).subrange(a as int, b as int),
                a as int,
                chunk_type,
                max_tokens as int,
                recent as int,
            ),
    {
        let ghost seg = views(lines@).subrange(a as int, b as int);
        let mut out: Vec<Chunk> = Vec::new();
        let mut gstart: usize = a;
        let mut i: usize = a;
        while i < b
            invariant
                a <= gstart <= i <= b <= lines.len(),
                seg == views(lines@).subrange(a as int, b as int),
                chunk_views(out@) + split_from(
                    seg,
                    a as int,
                    chunk_type,
                    max_tokens as int,
                    recent as int,
                    i - a,
                    gstart - a,
                ) == split_spec(seg, a as int, chunk_type, max_tokens as int, recent as int),
            decreases b - i,
        {
            if gstart < i {
                let grown = join_range(lines, gstart, i + 1, "\n");
                assert(seg.subrange(gstart - a, i + 1 - a) =~= views(lines@).subrange(gstart as int, i + 1));
                let t = Self::estimate_tokens(grown.as_str());
                if t > max_tokens {
                    let ghost p = piece(seg, a as int, chunk_type, recent as int, gstart - a, i - a);
                    let c = Self::make_piece(lines, gstart, i, chunk_type, recent);
                    assert(seg.subrange(gstart - a, i - a) =~= views(lines@).subrange(gstart as int, i as int));
                    assert(c@ == p);
                    let ghost before = chunk_views(out@);
                    out.push(c);
                    assert(chunk_views(out@) =~= before.push(p));
                    assert(chunk_views(out@) + split_from(
                        seg,
                        a as int,
                        chunk_type,
                        max_tokens as int,
                        recent as int,
                        i + 1 - a,
                        i - a,
                    ) =~= before + (seq![p] + split_from(
                        seg,
                        a as int,
                        chunk_type,
                        max_tokens as int,
                        recent as int,
                        i + 1 - a,
                        i - a,
                    )));
                    gstart = i;
                }
            }
            i += 1;
        }
        if gstart < b {
            let ghost p = piece(seg, a as int, chunk_type, recent as int, gstart - a, b - a);
            let c = Self::make_piece(lines, gstart, b, chunk_type, recent);
            assert(seg.subrange(gstart - a, b - a) =~= views(lines@).subrange(gstart as int, b as int));
            assert(c@ == p);
            let ghost before = chunk_views(out@);
            out.push(c);
            assert(chunk_views(out@) =~= before.push(p));
        } else {
            assert(chunk_views(out@) + Seq::<ChunkView>::empty() =~= chunk_views(out@));
        }
        out
    }

    /// The piece of the lines `lines[g..e]`, with the tokens of its content.
    fn make_piece(lines: &Vec<String>, g: usize, e: usize, chunk_type: ChunkType, recent: usize) -> (c: Chunk)
        requires
            g < e <= lines.len(),
        ensures
            c@ == (ChunkView {
                content: join(views(lines@).subrange(g as int, e as int), "\n"@),
                chunk_type: chunk_type,
                start_line: g as int,
                end_line: e - 1,
                tokens: tokens_of(join(views(lines@).subrange(g as int, e as int), "\n"@)),
                priority: piece_priority(e - 1, recent as int),
            }),
    {
        let content = join_range(lines, g, e, "\n");
        let tokens = Self::estimate_tokens(content.as_str());
        Chunk { content, chunk_type, start_line: g, end_line: e - 1, tokens, priority: if e - 1 >= recent { 8 } else { 3 } }
    }

    /// Emits the chunks of the segment `lines[a..b]`.
    fn emit_segment(
        lines: &Vec<String>,
        a: usize,
        b: usize,
        chunk_type: ChunkType,
        priority: u8,
        max_tokens: usize,
        recent: usize,
        out: &mut Vec<Chunk>,
    )
        requires
            a < b <= lines.len(),
        ensures
            chunk_views(final(out)@) == chunk_views(old(out)@) + segment_chunks(
                views(lines@).subrange(a as int, b as int),
                a as int,
                chunk_type,
                priority as int,
                max_tokens as int,
                recent as int,
            ),
    {
        let ghost seg = views(lines@).subrange(a as int, b as int);
        let content = join_range(lines, a, b, "\n");
        let tokens = Self::estimate_tokens(content.as_str());
        if tokens > max_tokens {
            let pieces = Self::split_large_chunk(lines, a, b, chunk_type, max_tokens, recent);
            let ghost before = chunk_views(out@);
            let mut pieces = pieces;
            let ghost pv = chunk_views(pieces@);
            out.append(&mut pieces);
            assert(chunk_views(out@) =~= before + pv);
        } else {
            let ghost before = chunk_views(out@);
            out.push(
                Chunk {
                    content,
                    chunk_type,
                    start_line: a,
                    end_line: b - 1,
                    tokens,
                    priority,
                },
            );
            assert(chunk_views(out@) =~= before + segment_chunks(
                seg,
                a as int,
                chunk_type,
                priority as int,
                max_tokens as int,
                recent as int,
            ));
        }
    }

    /// Splits `content` into chunks at semantic boundaries.
    pub fn chunk(content: &str, options: Option<ChunkOptions>) -> (r: Vec<Chunk>)
        ensures
            chunk_views(r@) == chunk_spec(
                content@,
                match options {
                    Some(o) => o,
                    None => ChunkOptions { max_chunk_tokens: 4000, preserve_recent: 100 },
                },
            ),
    {
        let opts = match options {
            Some(o) => o,
            None => ChunkOptions::default_options(),
        };
        let cs = chars_of(content);
        let lines = split_lines(cs.as_slice());
        let ghost ls = views(lines@);
        let bnd = Self::find_boundaries(&lines);
        let n = lines.len();
        let recent = if n >= opts.preserve_recent {
            n - opts.preserve_recent
        } else {
            0
        };
        let mut out: Vec<Chunk> = Vec::new();
        let mut cur_start: usize = 0;
        let mut ty = ChunkType::Text;
        let mut base: u8 = 1;
        let mut pr: u8 = 1;
        let mut i: usize = 0;
        while i < n
            invariant
                n == lines.len(),
                ls == views(lines@),
                ls == lines_of(content@),
                bnd@ == boundaries_of(ls),
                bnd@.len() == n,
                recent as int == recent_from(n as int, opts.preserve_recent as int),
                i <= n,
                cur_start <= i,
                cur_start < i || (cur_start == 0 && i == 0),
                forall|j: int| cur_start < j < i ==> bnd@[j] is None,
                cur_start == 0 ==> ty == ChunkType::Text && base == 1,
                cur_start > 0 ==> bnd@[cur_start as int] == Some((ty, base)),
                pr == (if cur_start < i && i - 1 >= recent && base < 8 {
                    8u8
                } else {
                    base
                }),
                chunk_views(out@) + chunks_from(ls, bnd@, opts, cur_start as int, ty, base as int)
                    == chunk_spec(content@, opts),
            decreases n - i,
        {
            match bnd[i] {
                Some((bty, bpr)) => {
                    if cur_start < i {
                        proof {
                            lemma_next_boundary(bnd@, cur_start + 1, i as int);
                        }
                        let ghost before = chunk_views(out@);
                        Self::emit_segment(&lines, cur_start, i, ty, pr, opts.max_chunk_tokens, recent, &mut out);
                        assert(chunks_from(ls, bnd@, opts, cur_start as int, ty, base as int)
                            == segment_chunks(
                            ls.subrange(cur_start as int, i as int),
                            cur_start as int,
                            ty,
                            pr as int,
                            opts.max_chunk_tokens as int,
                            recent as int,
                        ) + chunks_from(ls, bnd@, opts, i as int, bty, bpr as int));
                        assert(chunk_views(out@) + chunks_from(ls, bnd@, opts, i as int, bty, bpr as int)
                            =~= before + chunks_from(ls, bnd@, opts, cur_start as int, ty, base as int));
                        cur_start = i;
                        ty = bty;
                        base = bpr;
                        pr = bpr;
                    }
                },
                None => {},
            }
            if i >= recent && pr < 8 {
                pr = 8;
            }
            i += 1;
        }
        if cur_start < n {
            proof {
                lemma_next_boundary(bnd@, cur_start + 1, n as int);
            }
            Self::emit_segment(&lines, cur_start, n, ty, pr, opts.max_chunk_tokens, recent, &mut out);
        } else {
            assert(chunk_views(out@) + Seq::<ChunkView>::empty() =~= chunk_views(out@));
        }
        out
    }

    fn precedes(x: &Chunk, y: &Chunk, by_priority: bool) -> (b: bool)
        ensures
            b == (if by_priority {
                selected_before(x@, y@)
            } else {
                line_before(x@, y@)
            }),
    {
        if by_priority {
            x.priority > y.priority || (x.priority == y.priority && x.start_line > y.start_line)
        } else {
            x.start_line < y.start_line
        }
    }

    /// Inserts `x` into the sorted vector `v` at its stable position.
    fn insert_sorted(v: &mut Vec<Chunk>, x: Chunk, by_priority: bool)
        ensures
            chunk_views(final(v)@) == insert_by(
                chunk_views(old(v)@),
                x@,
                if by_priority {
                    |a: ChunkView, b: ChunkView| selected_before(a, b)
                } else {
                    |a: ChunkView, b: ChunkView| line_before(a, b)
                },
            ),
    {
        let ghost before = if by_priority {
            |a: ChunkView, b: ChunkView| selected_before(a, b)
        } else {
            |a: ChunkView, b: ChunkView| line_before(a, b)
        };
        let ghost s = chunk_views(v@);
        let mut k: usize = 0;
        while k < v.len() && !Self::precedes(&x, &v[k], by_priority)
            invariant
                k <= v.len(),
                s == chunk_views(v@),
                before == (if by_priority {
                    |a: ChunkView, b: ChunkView| selected_before(a, b)
                } else {
                    |a: ChunkView, b: ChunkView| line_before(a, b)
                }),
                forall|j: int| 0 <= j < k ==> !before(x@, #[trigger] s[j]),
            decreases v.len() - k,
        {
            k += 1;
        }
        proof {
            lemma_insert_by_position(s, x@, before, k as int);
        }
        let ghost xv = x@;
        v.insert(k, x);
        assert(chunk_views(v@) =~= s.take(k as int) + seq![xv] + s.skip(k as int));
    }

    /// Stable sort of chunks, by priority and recency or by line.
    fn sort_chunks(cs: Vec<Chunk>, by_priority: bool) -> (r: Vec<Chunk>)
        ensures
            chunk_views(r@) == stable_sort(
                chunk_views(cs@),
                if by_priority {
                    |a: ChunkView, b: ChunkView| selected_before(a, b)
                } else {
                    |a: ChunkView, b: ChunkView| line_before(a, b)
                },
            ),
    {
        let ghost before = if by_priority {
            |a: ChunkView, b: ChunkView| selected_before(a, b)
        } else {
            |a: ChunkView, b: ChunkView| line_before(a, b)
        };
        let ghost s = chunk_views(cs@);
        let mut r: Vec<Chunk> = Vec::new();
        let mut rest = cs;
        let mut i: usize = 0;
        let n = rest.len();
        assert(s.take(0) =~= Seq::<ChunkView>::empty());
        while i < n
            invariant
                n == s.len(),
                i <= n,
                chunk_views(rest@) == s.skip(i as int),
                rest@.len() == n - i,
                before == (if by_priority {
                    |a: ChunkView, b: ChunkView| selected_before(a, b)
                } else {
                    |a: ChunkView, b: ChunkView| line_before(a, b)
                }),
                chunk_views(r@) == stable_sort(s.take(i as int), before),
            decreases n - i,
        {
            let ghost old_rest = rest@;
            let x = rest.remove(0);
            assert(x == old_rest[0]);
            assert(chunk_views(old_rest)[0] == s.skip(i as int)[0]);
            assert(x@ == s[i as int]);
            assert(rest@ =~= old_rest.subrange(1, old_rest.len() as int));
            assert forall|j: int| 0 <= j < rest@.len() implies #[trigger] chunk_views(rest@)[j]
                == s.skip(i + 1)[j] by {
                assert(rest@[j] == old_rest[j + 1]);
                assert(chunk_views(old_rest)[j + 1] == s.skip(i as int)[j + 1]);
            }
            assert(chunk_views(rest@) =~= s.skip(i + 1));
            assert(s.take(i + 1).drop_last() =~= s.take(i as int));
            assert(s.take(i + 1).last() == s[i as int]);
            Self::insert_sorted(&mut r, x, by_priority);
            i += 1;
        }
        assert(s.take(n as int) =~= s);
        r
    }

    /// Selects chunks that fit within `max_tokens`, preferring high priority
    /// and recent content; the result is in line order.
    pub fn select_chunks(chunks: &[Chunk], max_tokens: usize) -> (r: Vec<Chunk>)
        ensures
            chunk_views(r@) == select_spec(chunk_views(chunks@), max_tokens as int),
    {
        let mut copies: Vec<Chunk> = Vec::new();
        let mut i: usize = 0;
        while i < chunks.len()
            invariant
                i <= chunks.len(),
                chunk_views(copies@) == chunk_views(chunks@).take(i as int),
            decreases chunks.len() - i,
        {
            copies.push(chunks[i].clone());
            assert(chunk_views(chunks@).take(i + 1) =~= chunk_views(chunks@).take(i as int).push(
                chunks@[i as int]@,
            ));
            i += 1;
        }
        assert(chunk_views(chunks@).take(chunks.len() as int) =~= chunk_views(chunks@));
        let sorted = Self::sort_chunks(copies, true);
        let ghost ss = chunk_views(sorted@);
        let mut selected: Vec<Chunk> = Vec::new();
        let mut total: usize = 0;
        let mut rest = sorted;
        let n = rest.len();
        let mut k: usize = 0;
        assert(ss.skip(0) =~= ss);
        while k < n
            invariant
                n == ss.len(),
                k <= n,
                total <= max_tokens,
                chunk_views(rest@) == ss.skip(k as int),
                rest@.len() == n - k,
                chunk_views(selected@) + take_fitting(ss.skip(k as int), max_tokens as int, total as int)
                    == take_fitting(ss, max_tokens as int, 0),
            decreases n - k,
        {
            let ghost old_rest = rest@;
            let c = rest.remove(0);
            assert(c == old_rest[0]);
            assert(chunk_views(old_rest)[0] == ss.skip(k as int)[0]);
            assert(rest@ =~= old_rest.subrange(1, old_rest.len() as int));
            assert(ss.skip(k as int).drop_first() =~= ss.skip(k + 1));
            assert(chunk_views(rest@) =~= ss.skip(k + 1));
            if c.tokens <= max_tokens - total {
                total = total + c.tokens;
                let ghost before = chunk_views(selected@);
                let ghost cv = c@;
                selected.push(c);
                assert(chunk_views(selected@) =~= before.push(cv));
                assert(before.push(cv) + take_fitting(ss.skip(k + 1), max_tokens as int, total as int)
                    =~= before + (seq![cv] + take_fitting(ss.skip(k + 1), max_tokens as int, total as int)));
            }
            k += 1;
        }
        assert(chunk_views(selected@) + Seq::<ChunkView>::empty() =~= chunk_views(selected@));
        Self::sort_chunks(selected, false)
    }

    /// Reassembles chunks into one string, marking omitted line ranges.
    pub fn reassemble(chunks: &[Chunk]) -> (r: String)
        ensures
            r@ == reassemble_spec(chunk_views(chunks@)),
    {
        let mut parts: Vec<String> = Vec::new();
        let mut i: usize = 0;
        assert(chunk_views(chunks@).take(0) =~= Seq::<ChunkView>::empty());
        while i < chunks.len()
            invariant
                i <= chunks.len(),
                views(parts@) == reassembly_parts(chunk_views(chunks@).take(i as int)),
            decreases chunks.len() - i,
        {
            let ghost cs = chunk_views(chunks@).take(i + 1);
            assert(cs.drop_last() =~= chunk_views(chunks@).take(i as int));
            if i > 0 {
                let end = chunks[i - 1].end_line;
                let start = chunks[i].start_line;
                assert(cs[cs.len() - 2] == chunks@[i - 1]@);
                if start > end && start - end > 1 {
                    let gap = start - end - 1;
                    let mut marker = String::new();
                    push_str(&mut marker, "\n[... ");
                    let digits = decimal_string(gap);
                    push_str(&mut marker, digits.as_str());
                    push_str(&mut marker, " lines omitted ...]\n");
                    let ghost before = views(parts@);
                    parts.push(marker);
                    assert(views(parts@) =~= before.push(gap_marker(gap as int)));
                }
            }
            let ghost before = views(parts@);
            parts.push(chunks[i].content.clone());
            assert(views(parts@) =~= before.push(chunks@[i as int].content@));
            i += 1;
        }
        assert(chunk_views(chunks@).take(chunks.len() as int) =~= chunk_views(chunks@));
        join_strings(&parts, "\n")
    }

    /// Compresses `content` to fit `max_tokens`: chunk, select, reassemble.
    pub fn compress(content: &str, max_tokens: usize, options: Option<ChunkOptions>) -> (r: String)
        ensures
            r@ == reassemble_spec(
                select_spec(
                    chunk_spec(
                        content@,
                        match options {
                            Some(o) => o,
                            None => ChunkOptions { max_chunk_tokens: 4000, preserve_recent: 100 },
                        },
                    ),
                    max_tokens as int,
                ),
            ),
    {
        let chunks = Self::chunk(content, options);
        let selected = Self::select_chunks(chunks.as_slice(), max_tokens);
        Self::reassemble(selected.as_slice())
    }
}

} // verus!
