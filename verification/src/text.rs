//! Character-level text model shared by every module.
//!
//! Strings are modelled by their `Seq<char>` view. The spec functions here
//! state, in the most direct form, the std string operations the library
//! relies on (`lines`, `trim`, `starts_with`, `contains`, `find`, `replace`,
//! `join`, decimal parsing and printing); the exec functions compute them.

use vstd::prelude::*;

verus! {

/// Removes one trailing carriage return, as `str::lines` does for a line
/// that was terminated by `"\r\n"`.
pub open spec fn strip_cr(line: Seq<char>) -> Seq<char> {
    if line.len() > 0 && line.last() == '\r' {
        line.drop_last()
    } else {
        line
    }
}

/// The lines of `s` (with `cur` the part of the current line already read),
/// split exactly as `str::lines` splits: at `'\n'`, dropping a `'\r'` right
/// before it, with no empty line after a final newline.
pub open spec fn lines_from(s: Seq<char>, cur: Seq<char>) -> Seq<Seq<char>>
    decreases s.len(),
{
    if s.len() == 0 {
        if cur.len() == 0 {
            Seq::empty()
        } else {
            seq![cur]
        }
    } else if s[0] == '\n' {
        seq![strip_cr(cur)] + lines_from(s.drop_first(), Seq::empty())
    } else {
        lines_from(s.drop_first(), cur.push(s[0]))
    }
}

/// `str::lines` on the character sequence `s`.
pub open spec fn lines_of(s: Seq<char>) -> Seq<Seq<char>> {
    lines_from(s, Seq::empty())
}

/// The character views of a vector of strings.
pub open spec fn views(v: Seq<String>) -> Seq<Seq<char>> {
    v.map_values(|x: String| x@)
}

/// `String::push`: the string afterwards is the old one with `c` appended.
#[verifier::external_body]
pub(crate) fn push_char(s: &mut String, c: char)
    ensures
        final(s)@ == old(s)@.push(c),
{
    s.push(c);
}

/// The characters of `s`, in order.
pub fn chars_of(s: &str) -> (v: Vec<char>)
    ensures
        v@ == s@,
{
    let mut v: Vec<char> = Vec::new();
    for c in it: s.chars()
        invariant
            it.seq() == s@,
            v@ == it.seq().take(it.index()),
    {
        v.push(c);
    }
    v
}

/// Builds a string from the characters `cs[start..end]`.
pub fn string_of_range(cs: &[char], start: usize, end: usize) -> (s: String)
    requires
        start <= end <= cs.len(),
    ensures
        s@ == cs@.subrange(start as int, end as int),
{
    let mut s = String::new();
    let mut i: usize = start;
    while i < end
        invariant
            start <= i <= end <= cs.len(),
            s@ == cs@.subrange(start as int, i as int),
        decreases end - i,
    {
        push_char(&mut s, cs[i]);
        assert(cs@.subrange(start as int, i as int).push(cs@[i as int]) =~= cs@.subrange(start as int, i + 1));
        i += 1;
    }
    s
}

/// Builds a string from a character slice.
pub fn string_from(cs: &[char]) -> (s: String)
    ensures
        s@ == cs@,
{
    let s = string_of_range(cs, 0, cs.len());
    assert(cs@.subrange(0, cs.len() as int) =~= cs@);
    s
}

/// Splits `s` into lines exactly as `str::lines` does.
pub fn split_lines(s: &[char]) -> (out: Vec<String>)
    ensures
        views(out@) == lines_of(s@),
{
    let mut out: Vec<String> = Vec::new();
    let mut cur: Vec<char> = Vec::new();
    let mut i: usize = 0;
    assert(s@.skip(0) =~= s@);
    while i < s.len()
        invariant
            i <= s.len(),
            views(out@) + lines_from(s@.skip(i as int), cur@) == lines_of(s@),
        decreases s.len() - i,
    {
        let ghost rest = s@.skip(i as int);
        assert(rest.drop_first() =~= s@.skip(i + 1));
        if s[i] == '\n' {
            let mut line_end = cur.len();
            if line_end > 0 && cur[line_end - 1] == '\r' {
                line_end = line_end - 1;
            }
            let line = string_of_range(cur.as_slice(), 0, line_end);
            assert(line@ == strip_cr(cur@)) by {
                if cur@.len() > 0 && cur@.last() == '\r' {
                    assert(cur@.subrange(0, line_end as int) =~= cur@.drop_last());
                } else {
                    assert(cur@.subrange(0, line_end as int) =~= cur@);
                }
            }
            let ghost old_out = out@;
            out.push(line);
            assert(views(out@) =~= views(old_out).push(strip_cr(cur@)));
            assert(views(out@) + lines_from(s@.skip(i + 1), Seq::empty())
                =~= views(old_out) + (seq![strip_cr(cur@)] + lines_from(s@.skip(i + 1), Seq::empty())));
            cur = Vec::new();
        } else {
            cur.push(s[i]);
        }
        i += 1;
    }
    if cur.len() > 0 {
        let ghost old_out = out@;
        let line = string_from(cur.as_slice());
        out.push(line);
        assert(views(out@) =~= views(old_out).push(cur@));
    } else {
        assert(views(out@) =~= views(out@) + Seq::<Seq<char>>::empty());
    }
    out
}


/// `char::is_whitespace`: the Unicode `White_Space` property.
pub open spec fn is_ws(c: char) -> bool {
    let u = c as u32;
    (0x9 <= u <= 0xd) || u == 0x20 || u == 0x85 || u == 0xa0 || u == 0x1680 || (0x2000 <= u
        <= 0x200a) || u == 0x2028 || u == 0x2029 || u == 0x202f || u == 0x205f || u == 0x3000
}

/// Exec form of [`is_ws`].
pub fn is_whitespace(c: char) -> (b: bool)
    ensures
        b == is_ws(c),
{
    let u = c as u32;
    (0x9 <= u && u <= 0xd) || u == 0x20 || u == 0x85 || u == 0xa0 || u == 0x1680 || (0x2000 <= u
        && u <= 0x200a) || u == 0x2028 || u == 0x2029 || u == 0x202f || u == 0x205f || u == 0x3000
}

/// The characters a trim removes: whitespace when `ws`, else those in `set`.
pub open spec fn trims(ws: bool, set: Seq<char>, c: char) -> bool {
    if ws {
        is_ws(c)
    } else {
        set.contains(c)
    }
}

/// `trim_start_matches` with a character predicate (`trim_start` for whitespace).
pub open spec fn trim_start_by(s: Seq<char>, ws: bool, set: Seq<char>) -> Seq<char>
    decreases s.len(),
{
    if s.len() > 0 && trims(ws, set, s[0]) {
        trim_start_by(s.drop_first(), ws, set)
    } else {
        s
    }
}

/// `trim_end_matches` with a character predicate (`trim_end` for whitespace).
pub open spec fn trim_end_by(s: Seq<char>, ws: bool, set: Seq<char>) -> Seq<char>
    decreases s.len(),
{
    if s.len() > 0 && trims(ws, set, s.last()) {
        trim_end_by(s.drop_last(), ws, set)
    } else {
        s
    }
}

/// `trim_matches` with a character predicate.
pub open spec fn trim_by(s: Seq<char>, ws: bool, set: Seq<char>) -> Seq<char> {
    trim_end_by(trim_start_by(s, ws, set), ws, set)
}

/// `str::trim`.
pub open spec fn trim(s: Seq<char>) -> Seq<char> {
    trim_by(s, true, Seq::empty())
}

fn in_set(set: &[char], c: char) -> (b: bool)
    ensures
        b == set@.contains(c),
{
    let mut i: usize = 0;
    while i < set.len()
        invariant
            i <= set.len(),
            forall|k: int| 0 <= k < i ==> set@[k] != c,
        decreases set.len() - i,
    {
        if set[i] == c {
            return true;
        }
        i += 1;
    }
    false
}

fn trims_exec(ws: bool, set: &[char], c: char) -> (b: bool)
    ensures
        b == trims(ws, set@, c),
{
    if ws {
        is_whitespace(c)
    } else {
        in_set(set, c)
    }
}

/// Bounds `(a, b)` such that `s[a..b]` is `s` trimmed by the predicate.
pub fn trim_bounds(s: &[char], ws: bool, set: &[char]) -> (r: (usize, usize))
    ensures
        r.0 <= r.1 <= s.len(),
        s@.subrange(r.0 as int, r.1 as int) == trim_by(s@, ws, set@),
        s@.skip(r.0 as int) == trim_start_by(s@, ws, set@),
{
    let mut i: usize = 0;
    assert(s@.skip(0) =~= s@);
    while i < s.len() && trims_exec(ws, set, s[i])
        invariant
            i <= s.len(),
            trim_start_by(s@, ws, set@) == trim_start_by(s@.skip(i as int), ws, set@),
        decreases s.len() - i,
    {
        assert(s@.skip(i as int).drop_first() =~= s@.skip(i + 1));
        i += 1;
    }
    let ghost t = s@.skip(i as int);
    assert(trim_start_by(t, ws, set@) == t);
    let mut j: usize = s.len();
    assert(t.take(t.len() as int) =~= t);
    while j > i && trims_exec(ws, set, s[j - 1])
        invariant
            i <= j <= s.len(),
            t == s@.skip(i as int),
            trim_end_by(t, ws, set@) == trim_end_by(t.take(j - i), ws, set@),
        decreases j,
    {
        assert(t.take(j - i).drop_last() =~= t.take(j - 1 - i));
        j -= 1;
    }
    assert(s@.subrange(i as int, j as int) =~= t.take(j - i));
    (i, j)
}

/// `str::trim` on a character slice, as a new vector.
pub fn trimmed(s: &[char]) -> (r: Vec<char>)
    ensures
        r@ == trim(s@),
{
    let empty: Vec<char> = Vec::new();
    let (a, b) = trim_bounds(s, true, empty.as_slice());
    assert(trim_by(s@, true, empty@) == trim(s@)) by {
        assert(empty@ =~= Seq::<char>::empty());
    }
    slice_to_vec(s, a, b)
}

/// `trim_matches` with the characters of `set`, as a new vector.
pub fn trimmed_by(s: &[char], set: &[char]) -> (r: Vec<char>)
    ensures
        r@ == trim_by(s@, false, set@),
{
    let (a, b) = trim_bounds(s, false, set);
    slice_to_vec(s, a, b)
}

/// Copies `s[a..b]` into a new vector.
pub fn slice_to_vec(s: &[char], a: usize, b: usize) -> (r: Vec<char>)
    requires
        a <= b <= s.len(),
    ensures
        r@ == s@.subrange(a as int, b as int),
{
    let mut r: Vec<char> = Vec::new();
    let mut i = a;
    while i < b
        invariant
            a <= i <= b <= s.len(),
            r@ == s@.subrange(a as int, i as int),
        decreases b - i,
    {
        r.push(s[i]);
        assert(s@.subrange(a as int, i as int).push(s@[i as int]) =~= s@.subrange(a as int, i + 1));
        i += 1;
    }
    r
}

/// `p` occurs in `s` at position `i`.
pub open spec fn matches_at(s: Seq<char>, p: Seq<char>, i: int) -> bool {
    0 <= i && i + p.len() <= s.len() && s.subrange(i, i + p.len()) == p
}

/// `str::starts_with`.
pub open spec fn starts_with(s: Seq<char>, p: Seq<char>) -> bool {
    matches_at(s, p, 0)
}

/// `str::ends_with`.
pub open spec fn ends_with(s: Seq<char>, p: Seq<char>) -> bool {
    matches_at(s, p, s.len() - p.len())
}

/// `str::contains`.
pub open spec fn contains(s: Seq<char>, p: Seq<char>) -> bool {
    exists|i: int| matches_at(s, p, i)
}

/// Whether `p` occurs in `s` at `i`.
pub fn match_at(s: &[char], p: &[char], i: usize) -> (b: bool)
    ensures
        b == matches_at(s@, p@, i as int),
{
    if i > s.len() || p.len() > s.len() - i {
        return false;
    }
    let mut k: usize = 0;
    while k < p.len()
        invariant
            k <= p.len(),
            i + p.len() <= s.len(),
            forall|m: int| 0 <= m < k ==> s@[i + m] == p@[m],
        decreases p.len() - k,
    {
        if s[i + k] != p[k] {
            assert(s@.subrange(i as int, i + p.len())[k as int] != p@[k as int]);
            return false;
        }
        k += 1;
    }
    assert(s@.subrange(i as int, i + p.len()) =~= p@);
    true
}

/// Position of the first occurrence of `p` in `s`, if any (`str::find`).
pub fn find(s: &[char], p: &[char]) -> (r: Option<usize>)
    ensures
        r is None <==> !contains(s@, p@),
        r matches Some(i) ==> matches_at(s@, p@, i as int),
        r matches Some(i) ==> forall|j: int| 0 <= j < i ==> !matches_at(s@, p@, j),
{
    if p.len() > s.len() {
        return None;
    }
    let last = s.len() - p.len();
    let mut i: usize = 0;
    loop
        invariant
            last == s.len() - p.len(),
            i <= last,
            forall|j: int| 0 <= j < i ==> !matches_at(s@, p@, j),
        decreases last - i,
    {
        if match_at(s, p, i) {
            return Some(i);
        }
        if i == last {
            assert forall|j: int| !matches_at(s@, p@, j) by {
                if 0 <= j && j < i {
                }
            }
            return None;
        }
        i += 1;
    }
}

/// Position of the last occurrence of `p` in `s`, if any (`str::rfind`).
pub fn rfind(s: &[char], p: &[char]) -> (r: Option<usize>)
    ensures
        r is None <==> !contains(s@, p@),
        r matches Some(i) ==> matches_at(s@, p@, i as int),
        r matches Some(i) ==> forall|j: int| i < j ==> !matches_at(s@, p@, j),
{
    if p.len() > s.len() {
        return None;
    }
    let mut i: usize = s.len() - p.len();
    loop
        invariant
            i <= s.len() - p.len(),
            p.len() <= s.len(),
            forall|j: int| i < j ==> !matches_at(s@, p@, j),
        decreases i,
    {
        if match_at(s, p, i) {
            return Some(i);
        }
        if i == 0 {
            assert forall|j: int| !matches_at(s@, p@, j) by {
                if j == 0 {
                }
            }
            return None;
        }
        i -= 1;
    }
}

/// `str::starts_with` on slices.
pub fn starts(s: &[char], p: &[char]) -> (b: bool)
    ensures
        b == starts_with(s@, p@),
{
    match_at(s, p, 0)
}

/// `str::contains` on slices.
pub fn has(s: &[char], p: &[char]) -> (b: bool)
    ensures
        b == contains(s@, p@),
{
    find(s, p).is_some()
}


/// `[parts].join(sep)`.
pub open spec fn join(parts: Seq<Seq<char>>, sep: Seq<char>) -> Seq<char>
    decreases parts.len(),
{
    if parts.len() == 0 {
        Seq::empty()
    } else if parts.len() == 1 {
        parts[0]
    } else {
        join(parts.drop_last(), sep) + sep + parts.last()
    }
}

/// Appends the characters of `cs` to `s`.
pub fn push_all(s: &mut String, cs: &[char])
    ensures
        final(s)@ == old(s)@ + cs@,
{
    let mut i: usize = 0;
    while i < cs.len()
        invariant
            i <= cs.len(),
            s@ == old(s)@ + cs@.take(i as int),
        decreases cs.len() - i,
    {
        push_char(s, cs[i]);
        assert(old(s)@ + cs@.take(i + 1) =~= (old(s)@ + cs@.take(i as int)).push(cs@[i as int]));
        i += 1;
    }
    assert(cs@.take(cs.len() as int) =~= cs@);
}

/// Appends a string to another.
pub fn push_str(s: &mut String, t: &str)
    ensures
        final(s)@ == old(s)@ + t@,
{
    let cs = chars_of(t);
    push_all(s, cs.as_slice());
}

/// Joins strings with a separator.
pub fn join_strings(parts: &Vec<String>, sep: &str) -> (r: String)
    ensures
        r@ == join(views(parts@), sep@),
{
    let r = join_range(parts, 0, parts.len(), sep);
    assert(views(parts@).subrange(0, parts.len() as int) =~= views(parts@));
    r
}

/// `str::replace` for a non-empty pattern: every non-overlapping
/// occurrence of `from`, scanning left to right, becomes `to`.
pub open spec fn replace_all(s: Seq<char>, from: Seq<char>, to: Seq<char>) -> Seq<char>
    decreases s.len(),
{
    if from.len() == 0 || s.len() == 0 {
        s
    } else if starts_with(s, from) {
        to + replace_all(s.skip(from.len() as int), from, to)
    } else {
        seq![s[0]] + replace_all(s.drop_first(), from, to)
    }
}

/// Replaces every occurrence of `from` in `s` by `to`.
pub fn replace(s: &[char], from: &[char], to: &[char]) -> (r: Vec<char>)
    requires
        from.len() > 0,
    ensures
        r@ == replace_all(s@, from@, to@),
{
    let mut r: Vec<char> = Vec::new();
    let mut i: usize = 0;
    assert(s@.skip(0) =~= s@);
    while i < s.len()
        invariant
            i <= s.len(),
            from.len() > 0,
            r@ + replace_all(s@.skip(i as int), from@, to@) == replace_all(s@, from@, to@),
        decreases s.len() - i,
    {
        let ghost rest = s@.skip(i as int);
        if match_at(s, from, i) {
            assert(starts_with(rest, from@)) by {
                assert(rest.subrange(0, from@.len() as int) =~= s@.subrange(i as int, i + from@.len()));
            }
            assert(rest.skip(from@.len() as int) =~= s@.skip(i + from.len()));
            let mut k: usize = 0;
            let ghost r0 = r@;
            while k < to.len()
                invariant
                    k <= to.len(),
                    r@ == r0 + to@.take(k as int),
                decreases to.len() - k,
            {
                r.push(to[k]);
                assert(r0 + to@.take(k + 1) =~= (r0 + to@.take(k as int)).push(to@[k as int]));
                k += 1;
            }
            assert(to@.take(to.len() as int) =~= to@);
            assert(r@ + replace_all(s@.skip(i + from.len()), from@, to@) =~= r0 + (to@
                + replace_all(rest.skip(from@.len() as int), from@, to@)));
            i = i + from.len();
        } else {
            assert(!starts_with(rest, from@)) by {
                if starts_with(rest, from@) {
                    assert(rest.subrange(0, from@.len() as int) =~= s@.subrange(i as int, i + from@.len()));
                }
            }
            assert(rest.drop_first() =~= s@.skip(i + 1));
            let ghost r0 = r@;
            r.push(s[i]);
            assert(r@ + replace_all(s@.skip(i + 1), from@, to@) =~= r0 + (seq![rest[0]]
                + replace_all(rest.drop_first(), from@, to@)));
            i += 1;
        }
    }
    assert(replace_all(s@.skip(i as int), from@, to@) =~= Seq::<char>::empty());
    assert(r@ + Seq::<char>::empty() =~= r@);
    r
}

/// Decimal value of an ASCII digit.
pub open spec fn digit_value(c: char) -> nat {
    ((c as u32) - ('0' as u32)) as nat
}

/// `char::is_ascii_digit`.
pub open spec fn is_digit(c: char) -> bool {
    '0' <= c && c <= '9'
}

/// All characters are ASCII digits.
pub open spec fn all_digits(d: Seq<char>) -> bool {
    forall|i: int| 0 <= i < d.len() ==> is_digit(#[trigger] d[i])
}

/// The number that the decimal digits `d` denote.
pub open spec fn digits_value(d: Seq<char>) -> nat
    decreases d.len(),
{
    if d.len() == 0 {
        0
    } else {
        digits_value(d.drop_last()) * 10 + digit_value(d.last())
    }
}

/// The digits of an unsigned decimal literal: `s` without one leading `'+'`.
pub open spec fn unsigned_digits(s: Seq<char>) -> Seq<char> {
    if s.len() > 0 && s[0] == '+' {
        s.drop_first()
    } else {
        s
    }
}

/// `usize::from_str`: an optional `'+'`, then one or more ASCII digits
/// whose value fits in a `usize`.
pub open spec fn parse_usize_spec(s: Seq<char>) -> Option<nat> {
    let d = unsigned_digits(s);
    if d.len() > 0 && all_digits(d) && digits_value(d) <= usize::MAX {
        Some(digits_value(d))
    } else {
        None
    }
}

proof fn lemma_digits_value_monotone(d: Seq<char>, k: int)
    requires
        0 <= k <= d.len(),
        all_digits(d),
    ensures
        digits_value(d.take(k)) <= digits_value(d),
    decreases d.len(),
{
    if k < d.len() {
        assert(all_digits(d.drop_last()));
        lemma_digits_value_monotone(d.drop_last(), k);
        assert(d.drop_last().take(k) =~= d.take(k));
        assert(digits_value(d.drop_last()) <= digits_value(d)) by (nonlinear_arith)
            requires
                digits_value(d) == digits_value(d.drop_last()) * 10 + digit_value(d.last()),
        ;
    } else {
        assert(d.take(k) =~= d);
    }
}

/// Parses a decimal `usize` exactly as `str::parse::<usize>` does.
pub fn parse_usize(s: &[char]) -> (r: Option<usize>)
    ensures
        r matches Some(v) ==> parse_usize_spec(s@) == Some(v as nat),
        r is None ==> parse_usize_spec(s@) is None,
{
    let start: usize = if s.len() > 0 && s[0] == '+' {
        1
    } else {
        0
    };
    let ghost d = unsigned_digits(s@);
    assert(d =~= s@.skip(start as int));
    if start >= s.len() {
        return None;
    }
    let mut v: usize = 0;
    let mut i: usize = start;
    while i < s.len()
        invariant
            start <= i <= s.len(),
            d == s@.skip(start as int),
            d == unsigned_digits(s@),
            all_digits(d.take(i - start)),
            v as nat == digits_value(d.take(i - start)),
        decreases s.len() - i,
    {
        let c = s[i];
        assert(d.take(i + 1 - start).drop_last() =~= d.take(i - start));
        assert(d.take(i + 1 - start).last() == c);
        if !('0' <= c && c <= '9') {
            assert(!is_digit(d[i - start]));
            assert(!all_digits(d));
            return None;
        }
        let dv = (c as u32 - '0' as u32) as usize;
        assert(digit_value(c) == dv);
        assert(digits_value(d.take(i + 1 - start)) == v * 10 + dv);
        if v > (usize::MAX - dv) / 10 {
            proof {
                assert(v * 10 + dv > usize::MAX) by (nonlinear_arith)
                    requires
                        v > (usize::MAX - dv) / 10,
                        dv <= 9,
                ;
                if all_digits(d) {
                    lemma_digits_value_monotone(d, i + 1 - start);
                    assert(digits_value(d) > usize::MAX);
                }
            }
            return None;
        }
        assert(v * 10 + dv <= usize::MAX) by (nonlinear_arith)
            requires
                v <= (usize::MAX - dv) / 10,
                dv <= 9,
        ;
        v = v * 10 + dv;
        i += 1;
    }
    assert(d.take(i - start) =~= d);
    Some(v)
}

/// The ASCII digit for `n < 10`.
pub open spec fn digit_char(n: nat) -> char {
    ((n + ('0' as u32)) as u32) as char
}

/// The decimal representation of `n` (`usize::to_string`).
pub open spec fn decimal(n: nat) -> Seq<char>
    decreases n,
{
    if n < 10 {
        seq![digit_char(n)]
    } else {
        decimal(n / 10).push(digit_char(n % 10))
    }
}

/// Decimal representation of `n`.
pub fn decimal_chars(n: usize) -> (r: Vec<char>)
    ensures
        r@ == decimal(n as nat),
    decreases n,
{
    let d = ((n % 10) as u32 + '0' as u32) as u8 as char;
    assert(d == digit_char((n % 10) as nat));
    if n < 10 {
        let mut r = Vec::new();
        r.push(d);
        assert(r@ =~= seq![digit_char(n as nat)]);
        r
    } else {
        let mut r = decimal_chars(n / 10);
        r.push(d);
        r
    }
}

/// Whether two character slices are equal.
pub fn same_chars(a: &[char], b: &[char]) -> (r: bool)
    ensures
        r == (a@ == b@),
{
    if a.len() != b.len() {
        return false;
    }
    let mut i: usize = 0;
    while i < a.len()
        invariant
            i <= a.len(),
            a.len() == b.len(),
            forall|k: int| 0 <= k < i ==> a@[k] == b@[k],
        decreases a.len() - i,
    {
        if a[i] != b[i] {
            return false;
        }
        i += 1;
    }
    assert(a@ =~= b@);
    true
}

/// Decimal representation of a wide `n`.
pub fn decimal_wide(n: u128) -> (r: Vec<char>)
    ensures
        r@ == decimal(n as nat),
    decreases n,
{
    let d = ((n % 10) as u32 + '0' as u32) as u8 as char;
    assert(d == digit_char((n % 10) as nat));
    if n < 10 {
        let mut r = Vec::new();
        r.push(d);
        assert(r@ =~= seq![digit_char(n as nat)]);
        r
    } else {
        let mut r = decimal_wide(n / 10);
        r.push(d);
        r
    }
}

/// `usize::to_string`.
pub fn decimal_string(n: usize) -> (r: String)
    ensures
        r@ == decimal(n as nat),
{
    let cs = decimal_chars(n);
    string_from(cs.as_slice())
}


/// Number of UTF-8 bytes of a character sequence (`str::len`).
pub open spec fn utf8_len(s: Seq<char>) -> nat {
    vstd::utf8::encode_utf8(s).len()
}

proof fn lemma_encode_utf8_push(s: Seq<char>, c: char)
    ensures
        vstd::utf8::encode_utf8(s.push(c)) == vstd::utf8::encode_utf8(s) + vstd::utf8::encode_scalar(
            c as u32,
        ),
    decreases s.len(),
{
    if s.len() == 0 {
        assert(s.push(c).drop_first() =~= Seq::<char>::empty());
        assert(vstd::utf8::encode_utf8(Seq::<char>::empty()) =~= Seq::<u8>::empty());
        assert(vstd::utf8::encode_scalar(c as u32) + Seq::<u8>::empty() =~= vstd::utf8::encode_scalar(c as u32));
        assert(Seq::<u8>::empty() + vstd::utf8::encode_scalar(c as u32) =~= vstd::utf8::encode_scalar(c as u32));
    } else {
        lemma_encode_utf8_push(s.drop_first(), c);
        assert(s.push(c).drop_first() =~= s.drop_first().push(c));
        assert(s.push(c)[0] == s[0]);
        let a = vstd::utf8::encode_scalar(s[0] as u32);
        let b = vstd::utf8::encode_utf8(s.drop_first());
        let e = vstd::utf8::encode_scalar(c as u32);
        assert(a + (b + e) =~= (a + b) + e);
    }
}

/// Number of UTF-8 bytes of `c`.
fn char_width(c: char) -> (w: usize)
    ensures
        w == vstd::utf8::encode_scalar(c as u32).len(),
        1 <= w <= 4,
{
    let u = c as u32;
    proof {
        vstd::utf8::char_is_scalar(c);
    }
    if u <= 0x7f {
        1
    } else if u <= 0x7ff {
        2
    } else if u <= 0xffff {
        3
    } else {
        4
    }
}

/// Whether the UTF-8 encoding of `cs` is longer than `k` bytes.
pub fn utf8_len_exceeds(cs: &[char], k: usize) -> (b: bool)
    ensures
        b == (utf8_len(cs@) > k),
{
    let mut total: usize = 0;
    let mut i: usize = 0;
    assert(cs@.take(0) =~= Seq::<char>::empty());
    while i < cs.len()
        invariant
            i <= cs.len(),
            total == utf8_len(cs@.take(i as int)),
            total <= k,
        decreases cs.len() - i,
    {
        let w = char_width(cs[i]);
        proof {
            lemma_encode_utf8_push(cs@.take(i as int), cs@[i as int]);
            assert(cs@.take(i as int).push(cs@[i as int]) =~= cs@.take(i + 1));
        }
        if w > k - total {
            proof {
                lemma_utf8_len_prefix(cs@, i + 1);
            }
            return true;
        }
        total = total + w;
        i += 1;
    }
    assert(cs@.take(cs.len() as int) =~= cs@);
    false
}

/// A prefix takes no more UTF-8 bytes than the whole.
pub proof fn lemma_utf8_len_prefix(s: Seq<char>, k: int)
    requires
        0 <= k <= s.len(),
    ensures
        utf8_len(s.take(k)) <= utf8_len(s),
    decreases s.len() - k,
{
    if k < s.len() {
        lemma_utf8_len_prefix(s, k + 1);
        lemma_encode_utf8_push(s.take(k), s[k]);
        assert(s.take(k).push(s[k]) =~= s.take(k + 1));
    } else {
        assert(s.take(k) =~= s);
    }
}


/// Whether `cs` equals the string `lit`.
pub fn eq_str(cs: &[char], lit: &str) -> (b: bool)
    ensures
        b == (cs@ == lit@),
{
    let l = chars_of(lit);
    if l.len() != cs.len() {
        return false;
    }
    let r = match_at(cs, l.as_slice(), 0);
    assert(r ==> cs@.subrange(0, l.len() as int) =~= cs@);
    assert(cs@ == lit@ ==> cs@.subrange(0, l.len() as int) =~= l@);
    r
}

/// `s` starts with one of `pats`.
pub open spec fn starts_with_any(s: Seq<char>, pats: Seq<&str>) -> bool {
    exists|i: int| 0 <= i < pats.len() && starts_with(s, pats[i]@)
}

/// `s` equals one of `pats`.
pub open spec fn equals_any(s: Seq<char>, pats: Seq<&str>) -> bool {
    exists|i: int| 0 <= i < pats.len() && s == pats[i]@
}

/// Whether `s` starts with one of `pats`.
pub fn starts_any(s: &[char], pats: &[&str]) -> (b: bool)
    ensures
        b == starts_with_any(s@, pats@),
{
    let mut i: usize = 0;
    while i < pats.len()
        invariant
            i <= pats.len(),
            forall|k: int| 0 <= k < i ==> !starts_with(s@, (#[trigger] pats@[k])@),
        decreases pats.len() - i,
    {
        let p = chars_of(pats[i]);
        if starts(s, p.as_slice()) {
            return true;
        }
        i += 1;
    }
    false
}

/// Whether `s` equals one of `pats`.
pub fn equals_one_of(s: &[char], pats: &[&str]) -> (b: bool)
    ensures
        b == equals_any(s@, pats@),
{
    let mut i: usize = 0;
    while i < pats.len()
        invariant
            i <= pats.len(),
            forall|k: int| 0 <= k < i ==> s@ != (#[trigger] pats@[k])@,
        decreases pats.len() - i,
    {
        if eq_str(s, pats[i]) {
            return true;
        }
        i += 1;
    }
    false
}


/// The lowercase form of a string as `str::to_lowercase` computes it
/// (Unicode `Lowercase` mapping).
pub uninterp spec fn lowercase(s: Seq<char>) -> Seq<char>;

/// The lowercase form of an ASCII character: `A` to `Z` become `a` to `z`.
pub open spec fn ascii_lower(c: char) -> char {
    if 'A' <= c && c <= 'Z' {
        ((c as int) + 32) as char
    } else {
        c
    }
}

/// Calls `str::to_lowercase`; the result is named [`lowercase`] of the
/// input. On ASCII text it lowercases `A` to `Z` one for one and keeps
/// every other character (the documented ASCII behaviour of the Unicode
/// `Lowercase` mapping).
#[verifier::external_body]
pub fn to_lowercase(s: &str) -> (r: String)
    ensures
        r@ == lowercase(s@),
        (forall|i: int| 0 <= i < s@.len() ==> (s@[i] as u32) < 128) ==> r@ == s@.map_values(
            |c: char| ascii_lower(c),
        ),
{
    s.to_lowercase()
}

/// Lowercase of a character slice, as characters.
pub fn lowercase_chars(cs: &[char]) -> (r: Vec<char>)
    ensures
        r@ == lowercase(cs@),
        (forall|i: int| 0 <= i < cs@.len() ==> (cs@[i] as u32) < 128) ==> r@ == cs@.map_values(
            |c: char| ascii_lower(c),
        ),
{
    let s = string_from(cs);
    let l = to_lowercase(s.as_str());
    chars_of(l.as_str())
}

/// Byte length of a string, as `str::len` reports it.
pub open spec fn byte_len(s: Seq<char>) -> usize {
    utf8_len(s) as usize
}

/// Joins `parts[a..b]` with a separator.
pub fn join_range(parts: &Vec<String>, a: usize, b: usize, sep: &str) -> (r: String)
    requires
        a <= b <= parts.len(),
    ensures
        r@ == join(views(parts@).subrange(a as int, b as int), sep@),
{
    let ghost ps = views(parts@).subrange(a as int, b as int);
    let mut r = String::new();
    let mut i: usize = a;
    while i < b
        invariant
            a <= i <= b <= parts.len(),
            ps == views(parts@).subrange(a as int, b as int),
            r@ == join(ps.take(i - a), sep@),
        decreases b - i,
    {
        let ghost before = ps.take(i - a);
        if i > a {
            push_str(&mut r, sep);
        }
        push_str(&mut r, parts[i].as_str());
        assert(ps.take(i + 1 - a).drop_last() =~= before);
        assert(ps.take(i + 1 - a).last() == parts@[i as int]@);
        if i == a {
            assert(ps.take(1) =~= seq![parts@[a as int]@]);
        }
        i += 1;
    }
    assert(ps.take(b - a) =~= ps);
    r
}

/// Whether `s` contains the string `lit`.
pub fn contains_str(s: &[char], lit: &str) -> (b: bool)
    ensures
        b == contains(s@, lit@),
{
    let l = chars_of(lit);
    has(s, l.as_slice())
}

/// Whether `s` starts with the string `lit`.
pub fn starts_with_str(s: &[char], lit: &str) -> (b: bool)
    ensures
        b == starts_with(s@, lit@),
{
    let l = chars_of(lit);
    starts(s, l.as_slice())
}

/// The index of the first `c` in `s` (meaningful when `s` holds a `c`).
pub open spec fn first_of(s: Seq<char>, c: char) -> int {
    choose|i: int| 0 <= i < s.len() && s[i] == c && forall|j: int| 0 <= j < i ==> s[j] != c
}

/// Position of the first `c` in `s`, if any (`str::find` with a `char`).
pub fn find_char(s: &[char], c: char) -> (r: Option<usize>)
    ensures
        r is None <==> !s@.contains(c),
        r matches Some(i) ==> i == first_of(s@, c) && i < s.len() && s@[i as int] == c,
{
    let mut i: usize = 0;
    while i < s.len()
        invariant
            i <= s.len(),
            forall|j: int| 0 <= j < i ==> s@[j] != c,
        decreases s.len() - i,
    {
        if s[i] == c {
            let ghost k = first_of(s@, c);
            assert(0 <= i < s@.len() && s@[i as int] == c && forall|j: int| 0 <= j < i ==> s@[j] != c);
            assert(k == i) by {
                if k < i {
                } else if k > i {
                }
            }
            return Some(i);
        }
        i += 1;
    }
    None
}

/// `s` contains one of `pats`.
pub open spec fn contains_any(s: Seq<char>, pats: Seq<&str>) -> bool {
    exists|i: int| 0 <= i < pats.len() && contains(s, pats[i]@)
}

/// Whether `s` contains one of `pats`.
pub fn contains_one_of(s: &[char], pats: &[&str]) -> (b: bool)
    ensures
        b == contains_any(s@, pats@),
{
    let mut i: usize = 0;
    while i < pats.len()
        invariant
            i <= pats.len(),
            forall|k: int| 0 <= k < i ==> !contains(s@, (#[trigger] pats@[k])@),
        decreases pats.len() - i,
    {
        if contains_str(s, pats[i]) {
            return true;
        }
        i += 1;
    }
    false
}

/// `str::matches(p).count()`: the non-overlapping occurrences of `p`,
/// scanning left to right; the empty pattern matches at every boundary.
pub open spec fn occurrences(s: Seq<char>, p: Seq<char>) -> nat
    decreases s.len(),
{
    if p.len() == 0 {
        s.len() + 1
    } else if s.len() == 0 {
        0
    } else if starts_with(s, p) {
        1 + occurrences(s.skip(p.len() as int), p)
    } else {
        occurrences(s.drop_first(), p)
    }
}

/// Counts the non-overlapping occurrences of `p` in `s`.
pub fn count_occurrences(s: &[char], p: &[char]) -> (r: usize)
    requires
        p.len() > 0 || s.len() < usize::MAX,
    ensures
        r == occurrences(s@, p@),
{
    if p.len() == 0 {
        return s.len() + 1;
    }
    let mut i: usize = 0;
    let mut n: usize = 0;
    assert(s@.skip(0) =~= s@);
    while i < s.len()
        invariant
            p.len() > 0,
            i <= s.len(),
            n <= i,
            n + occurrences(s@.skip(i as int), p@) == occurrences(s@, p@),
        decreases s.len() - i,
    {
        let ghost rest = s@.skip(i as int);
        if match_at(s, p, i) {
            assert(rest.subrange(0, p@.len() as int) =~= s@.subrange(i as int, i + p@.len()));
            assert(rest.skip(p@.len() as int) =~= s@.skip(i + p.len()));
            n = n + 1;
            i = i + p.len();
        } else {
            assert(!starts_with(rest, p@)) by {
                if starts_with(rest, p@) {
                    assert(rest.subrange(0, p@.len() as int) =~= s@.subrange(i as int, i + p@.len()));
                }
            }
            assert(rest.drop_first() =~= s@.skip(i + 1));
            i = i + 1;
        }
    }
    assert(s@.skip(i as int).len() == 0);
    n
}

/// `str::split(c)`: the pieces between the occurrences of `c`.
pub open spec fn split_char(s: Seq<char>, c: char) -> Seq<Seq<char>>
    decreases s.len(),
{
    if s.len() == 0 {
        seq![Seq::empty()]
    } else {
        let prev = split_char(s.drop_last(), c);
        if s.last() == c {
            prev.push(Seq::empty())
        } else {
            prev.update(prev.len() - 1, prev.last().push(s.last()))
        }
    }
}

proof fn lemma_split_char_nonempty(s: Seq<char>, c: char)
    ensures
        split_char(s, c).len() >= 1,
    decreases s.len(),
{
    if s.len() > 0 {
        lemma_split_char_nonempty(s.drop_last(), c);
    }
}

/// Splits `s` at each `c`.
pub fn split_on(s: &[char], c: char) -> (r: Vec<Vec<char>>)
    ensures
        r@.len() == split_char(s@, c).len(),
        forall|k: int| 0 <= k < r@.len() ==> (#[trigger] r@[k])@ == split_char(s@, c)[k],
{
    let mut r: Vec<Vec<char>> = Vec::new();
    let mut cur: Vec<char> = Vec::new();
    let mut i: usize = 0;
    assert(s@.take(0) =~= Seq::<char>::empty());
    while i < s.len()
        invariant
            i <= s.len(),
            r@.len() + 1 == split_char(s@.take(i as int), c).len(),
            forall|k: int| 0 <= k < r@.len() ==> (#[trigger] r@[k])@ == split_char(s@.take(i as int), c)[k],
            cur@ == split_char(s@.take(i as int), c).last(),
        decreases s.len() - i,
    {
        let ghost t = s@.take(i + 1);
        assert(t.drop_last() =~= s@.take(i as int));
        assert(t.last() == s@[i as int]);
        proof {
            lemma_split_char_nonempty(s@.take(i as int), c);
        }
        if s[i] == c {
            let done = cur;
            r.push(done);
            cur = Vec::new();
            assert(cur@ =~= Seq::<char>::empty());
        } else {
            cur.push(s[i]);
        }
        i += 1;
    }
    assert(s@.take(s.len() as int) =~= s@);
    let ghost before = r@;
    r.push(cur);
    r
}

/// `str::trim_start_matches(p)` with a string pattern: every leading
/// repetition of a non-empty `p` removed.
pub open spec fn strip_prefixes(s: Seq<char>, p: Seq<char>) -> Seq<char>
    decreases s.len(),
{
    if p.len() > 0 && starts_with(s, p) {
        strip_prefixes(s.skip(p.len() as int), p)
    } else {
        s
    }
}

/// Removes every leading repetition of the non-empty string `p`.
pub fn strip_prefixes_of(s: &[char], p: &str) -> (r: Vec<char>)
    requires
        p@.len() > 0,
    ensures
        r@ == strip_prefixes(s@, p@),
{
    let pc = chars_of(p);
    let mut i: usize = 0;
    assert(s@.skip(0) =~= s@);
    while match_at(s, pc.as_slice(), i)
        invariant
            pc@ == p@,
            pc@.len() > 0,
            i <= s.len(),
            strip_prefixes(s@.skip(i as int), p@) == strip_prefixes(s@, p@),
        decreases s.len() - i,
    {
        assert(s@.skip(i as int).subrange(0, pc@.len() as int) =~= s@.subrange(i as int, i + pc@.len()));
        assert(s@.skip(i as int).skip(pc@.len() as int) =~= s@.skip(i + pc.len()));
        i = i + pc.len();
    }
    assert(!starts_with(s@.skip(i as int), p@)) by {
        if starts_with(s@.skip(i as int), p@) {
            assert(s@.skip(i as int).subrange(0, pc@.len() as int) =~= s@.subrange(i as int, i + pc@.len()));
        }
    }
    slice_to_vec(s, i, s.len())
}

/// `trim_end_matches` with the characters of `set`.
pub fn trimmed_end_by(s: &[char], set: &[char]) -> (r: Vec<char>)
    ensures
        r@ == trim_end_by(s@, false, set@),
{
    let mut j: usize = s.len();
    assert(s@.take(s.len() as int) =~= s@);
    while j > 0 && in_set(set, s[j - 1])
        invariant
            j <= s.len(),
            trim_end_by(s@, false, set@) == trim_end_by(s@.take(j as int), false, set@),
        decreases j,
    {
        assert(s@.take(j as int).drop_last() =~= s@.take(j - 1));
        j -= 1;
    }
    assert(s@.subrange(0, j as int) =~= s@.take(j as int));
    slice_to_vec(s, 0, j)
}

/// `trim_start_matches` with the characters of `set`.
pub fn trimmed_start_by(s: &[char], set: &[char]) -> (r: Vec<char>)
    ensures
        r@ == trim_start_by(s@, false, set@),
{
    let (a, _) = trim_bounds(s, false, set);
    let r = slice_to_vec(s, a, s.len());
    assert(r@ =~= s@.skip(a as int));
    r
}

/// The index of the last `c` in `s` (meaningful when `s` holds a `c`).
pub open spec fn last_of(s: Seq<char>, c: char) -> int {
    choose|i: int| 0 <= i < s.len() && s[i] == c && forall|j: int| i < j < s.len() ==> s[j] != c
}

/// Position of the last `c` in `s`, if any (`str::rfind` with a `char`).
pub fn rfind_char(s: &[char], c: char) -> (r: Option<usize>)
    ensures
        r is None <==> !s@.contains(c),
        r matches Some(i) ==> i == last_of(s@, c) && i < s.len() && s@[i as int] == c,
{
    let mut i: usize = s.len();
    while i > 0
        invariant
            i <= s.len(),
            forall|j: int| i <= j < s.len() ==> s@[j] != c,
        decreases i,
    {
        if s[i - 1] == c {
            let ghost k = last_of(s@, c);
            assert(0 <= i - 1 < s@.len() && s@[i - 1] == c && forall|j: int| i - 1 < j < s@.len() ==> s@[j] != c);
            assert(k == i - 1) by {
                if k < i - 1 {
                } else if k > i - 1 {
                }
            }
            return Some(i - 1);
        }
        i -= 1;
    }
    None
}

/// The `Debug` rendering of a string (quoted, with escapes), as
/// `<str as Debug>::fmt` writes it.
pub uninterp spec fn debug_text(s: Seq<char>) -> Seq<char>;

/// `format!("{:?}", s)`: the `Debug` rendering of `s`, as [`debug_text`]
/// names it.
#[verifier::external_body]
pub(crate) fn debug_str(s: &str) -> (r: String)
    ensures
        r@ == debug_text(s@),
{
    format!("{:?}", s)
}

/// Whether `s` ends with the string `lit`.
pub fn ends_with_str(s: &[char], lit: &str) -> (b: bool)
    ensures
        b == ends_with(s@, lit@),
{
    let l = chars_of(lit);
    if l.len() > s.len() {
        return false;
    }
    match_at(s, l.as_slice(), s.len() - l.len())
}

/// An owned copy of `s`.
pub fn owned(s: &str) -> (r: String)
    ensures
        r@ == s@,
{
    let mut r = String::new();
    push_str(&mut r, s);
    r
}

/// The first `k` characters of `s` (all of them when it is shorter).
pub fn take_chars(s: &[char], k: usize) -> (r: Vec<char>)
    ensures
        r@ == s@.take(if k < s.len() { k as int } else { s.len() as int }),
{
    let n = if k < s.len() {
        k
    } else {
        s.len()
    };
    slice_to_vec(s, 0, n)
}

/// The last `k` characters of `s` (all of them when it is shorter).
pub fn last_chars(s: &[char], k: usize) -> (r: Vec<char>)
    ensures
        r@ == s@.skip(if k < s.len() { s.len() - k } else { 0 }),
{
    let start = if k < s.len() {
        s.len() - k
    } else {
        0
    };
    let r = slice_to_vec(s, start, s.len());
    assert(r@ =~= s@.skip(start as int));
    r
}

/// The UTF-8 length of `cs` when it is below `n`.
pub fn utf8_len_below(cs: &[char], n: usize) -> (r: Option<usize>)
    ensures
        match r {
            Some(b) => b == utf8_len(cs@) && b < n,
            None => utf8_len(cs@) >= n,
        },
{
    if n == 0 {
        return None;
    }
    if utf8_len_exceeds(cs, n - 1) {
        return None;
    }
    let mut total: usize = 0;
    let mut i: usize = 0;
    assert(cs@.take(0) =~= Seq::<char>::empty());
    while i < cs.len()
        invariant
            i <= cs.len(),
            total == utf8_len(cs@.take(i as int)),
            utf8_len(cs@) <= n - 1,
        decreases cs.len() - i,
    {
        let w = char_width(cs[i]);
        proof {
            lemma_encode_utf8_push(cs@.take(i as int), cs@[i as int]);
            assert(cs@.take(i as int).push(cs@[i as int]) =~= cs@.take(i + 1));
            lemma_utf8_len_prefix(cs@, i + 1);
        }
        total = total + w;
        i += 1;
    }
    assert(cs@.take(cs.len() as int) =~= cs@);
    Some(total)
}

/// `str::split_whitespace`: the maximal runs of non-whitespace characters.
pub open spec fn words(s: Seq<char>) -> Seq<Seq<char>>
    decreases s.len(),
{
    if s.len() == 0 {
        Seq::empty()
    } else {
        let prev = words(s.drop_last());
        if is_ws(s.last()) {
            prev
        } else if s.len() >= 2 && !is_ws(s[s.len() - 2]) {
            prev.update(prev.len() - 1, prev.last().push(s.last()))
        } else {
            prev.push(seq![s.last()])
        }
    }
}

proof fn lemma_words_nonempty(s: Seq<char>)
    requires
        s.len() > 0,
        !is_ws(s.last()),
    ensures
        words(s).len() > 0,
    decreases s.len(),
{
    if s.len() >= 2 && !is_ws(s[s.len() - 2]) {
        assert(s.drop_last().last() == s[s.len() - 2]);
        lemma_words_nonempty(s.drop_last());
    }
}

/// The words of `s`.
pub fn split_words(s: &[char]) -> (r: Vec<Vec<char>>)
    ensures
        r@.len() == words(s@).len(),
        forall|k: int| 0 <= k < r@.len() ==> (#[trigger] r@[k])@ == words(s@)[k],
{
    let mut r: Vec<Vec<char>> = Vec::new();
    let mut cur: Vec<char> = Vec::new();
    let mut i: usize = 0;
    assert(s@.take(0) =~= Seq::<char>::empty());
    while i < s.len()
        invariant
            i <= s.len(),
            cur@.len() > 0 ==> i > 0 && !is_ws(s@[i - 1]),
            cur@.len() == 0 ==> (i == 0 || is_ws(s@[i - 1])),
            r@.len() + (if cur@.len() > 0 { 1int } else { 0 }) == words(s@.take(i as int)).len(),
            forall|k: int| 0 <= k < r@.len() ==> (#[trigger] r@[k])@ == words(s@.take(i as int))[k],
            cur@.len() > 0 ==> cur@ == words(s@.take(i as int)).last(),
        decreases s.len() - i,
    {
        let ghost t = s@.take(i + 1);
        assert(t.drop_last() =~= s@.take(i as int));
        assert(t.last() == s@[i as int]);
        if is_whitespace(s[i]) {
            if cur.len() > 0 {
                let done = cur;
                r.push(done);
                cur = Vec::new();
            }
        } else {
            if cur.len() > 0 {
                assert(t[t.len() - 2] == s@[i - 1]);
                proof {
                    lemma_words_nonempty(s@.take(i as int));
                }
            } else {
                if i > 0 {
                    assert(t[t.len() - 2] == s@[i - 1]);
                }
            }
            cur.push(s[i]);
        }
        i += 1;
    }
    assert(s@.take(s.len() as int) =~= s@);
    if cur.len() > 0 {
        r.push(cur);
    }
    r
}

/// The characters of `s` that are not whitespace.
pub open spec fn strip_ws(s: Seq<char>) -> Seq<char>
    decreases s.len(),
{
    if s.len() == 0 {
        Seq::empty()
    } else if is_ws(s.last()) {
        strip_ws(s.drop_last())
    } else {
        strip_ws(s.drop_last()).push(s.last())
    }
}

/// Removes every whitespace character.
pub fn without_whitespace(s: &[char]) -> (r: Vec<char>)
    ensures
        r@ == strip_ws(s@),
{
    let mut r: Vec<char> = Vec::new();
    let mut i: usize = 0;
    assert(s@.take(0) =~= Seq::<char>::empty());
    while i < s.len()
        invariant
            i <= s.len(),
            r@ == strip_ws(s@.take(i as int)),
        decreases s.len() - i,
    {
        assert(s@.take(i + 1).drop_last() =~= s@.take(i as int));
        assert(s@.take(i + 1).last() == s@[i as int]);
        if !is_whitespace(s[i]) {
            r.push(s[i]);
        }
        i += 1;
    }
    assert(s@.take(s.len() as int) =~= s@);
    r
}

} // verus!
