//! Association lists of named strings: a map from names to values kept in
//! insertion order, each name at most once.

use vstd::prelude::*;
use crate::text::{chars_of, eq_str};

verus! {

/// The views of an association list.
pub open spec fn assoc_view(v: Seq<(String, String)>) -> Seq<(Seq<char>, Seq<char>)> {
    v.map_values(|p: (String, String)| (p.0@, p.1@))
}

/// The value bound to `name`, the first binding winning.
pub open spec fn lookup(entries: Seq<(Seq<char>, Seq<char>)>, name: Seq<char>) -> Option<Seq<char>>
    decreases entries.len(),
{
    if entries.len() == 0 {
        None
    } else if entries[0].0 == name {
        Some(entries[0].1)
    } else {
        lookup(entries.drop_first(), name)
    }
}

/// `entries` with `name` bound to `value`: the binding replaced in place,
/// or appended when `name` is new.
pub open spec fn assign(entries: Seq<(Seq<char>, Seq<char>)>, name: Seq<char>, value: Seq<char>) -> Seq<
    (Seq<char>, Seq<char>),
>
    decreases entries.len(),
{
    if entries.len() == 0 {
        seq![(name, value)]
    } else if entries[0].0 == name {
        seq![(name, value)] + entries.drop_first()
    } else {
        seq![entries[0]] + assign(entries.drop_first(), name, value)
    }
}

/// No name is bound twice.
pub open spec fn distinct_names(entries: Seq<(Seq<char>, Seq<char>)>) -> bool {
    forall|i: int, j: int| 0 <= i < j < entries.len() ==> entries[i].0 != entries[j].0
}

/// The names bound.
pub open spec fn names(entries: Seq<(Seq<char>, Seq<char>)>) -> Seq<Seq<char>> {
    entries.map_values(|e: (Seq<char>, Seq<char>)| e.0)
}

proof fn lemma_assign_names(entries: Seq<(Seq<char>, Seq<char>)>, name: Seq<char>, value: Seq<char>)
    requires
        distinct_names(entries),
    ensures
        distinct_names(assign(entries, name, value)),
        forall|k: int|
            0 <= k < assign(entries, name, value).len() ==> (#[trigger] assign(entries, name, value)[k]).0
                == name || names(entries).contains(assign(entries, name, value)[k].0),
    decreases entries.len(),
{
    if entries.len() > 0 && entries[0].0 != name {
        let t = entries.drop_first();
        lemma_assign_names(t, name, value);
        let a = assign(t, name, value);
        let r = seq![entries[0]] + a;
        assert forall|k: int| 0 <= k < r.len() implies (#[trigger] r[k]).0 == name || names(
            entries,
        ).contains(r[k].0) by {
            if k == 0 {
                assert(names(entries)[0] == r[0].0);
            } else {
                assert(r[k] == a[k - 1]);
                if a[k - 1].0 != name {
                    let m = choose|m: int| 0 <= m < names(t).len() && names(t)[m] == a[k - 1].0;
                    assert(names(entries)[m + 1] == names(t)[m]);
                }
            }
        }
        assert forall|i: int, j: int| 0 <= i < j < r.len() implies r[i].0 != r[j].0 by {
            if i == 0 {
                assert(r[j] == a[j - 1]);
                if a[j - 1].0 != name {
                    let m = choose|m: int| 0 <= m < names(t).len() && names(t)[m] == a[j - 1].0;
                    assert(entries[m + 1].0 == names(t)[m]);
                }
            } else {
                assert(r[i] == a[i - 1]);
                assert(r[j] == a[j - 1]);
            }
        }
    } else if entries.len() > 0 {
        let r = seq![(name, value)] + entries.drop_first();
        assert forall|k: int| 0 <= k < r.len() implies (#[trigger] r[k]).0 == name || names(
            entries,
        ).contains(r[k].0) by {
            if k > 0 {
                assert(names(entries)[k] == r[k].0);
            }
        }
        assert forall|i: int, j: int| 0 <= i < j < r.len() implies r[i].0 != r[j].0 by {
            if i == 0 {
                assert(r[j] == entries[j]);
            } else {
                assert(r[i] == entries[i]);
                assert(r[j] == entries[j]);
            }
        }
    }
}

/// Reading a name gives back what was last written to it; other names are
/// unchanged.
pub proof fn lemma_lookup_assign(
    entries: Seq<(Seq<char>, Seq<char>)>,
    name: Seq<char>,
    value: Seq<char>,
    other: Seq<char>,
)
    ensures
        lookup(assign(entries, name, value), name) == Some(value),
        other != name ==> lookup(assign(entries, name, value), other) == lookup(entries, other),
    decreases entries.len(),
{
    if entries.len() == 0 {
        assert(seq![(name, value)][0] == (name, value));
        assert(seq![(name, value)].drop_first() =~= Seq::<(Seq<char>, Seq<char>)>::empty());
        assert(lookup(Seq::<(Seq<char>, Seq<char>)>::empty(), other) is None);
    } else {
        if entries[0].0 == name {
            assert((seq![(name, value)] + entries.drop_first())[0] == (name, value));
            assert((seq![(name, value)] + entries.drop_first()).drop_first() =~= entries.drop_first());
        } else {
            assert((seq![entries[0]] + assign(entries.drop_first(), name, value))[0] == entries[0]);
            lemma_lookup_assign(entries.drop_first(), name, value, other);
            assert((seq![entries[0]] + assign(entries.drop_first(), name, value)).drop_first()
                =~= assign(entries.drop_first(), name, value));
        }
    }
}

/// `entries` after the writes `ws` (name and value), in order.
pub open spec fn assign_all(entries: Seq<(Seq<char>, Seq<char>)>, ws: Seq<(Seq<char>, Seq<char>)>) -> Seq<
    (Seq<char>, Seq<char>),
>
    decreases ws.len(),
{
    if ws.len() == 0 {
        entries
    } else {
        assign(assign_all(entries, ws.drop_last()), ws.last().0, ws.last().1)
    }
}

/// The value of the last write to `name` among `ws`, if any.
pub open spec fn last_write(ws: Seq<(Seq<char>, Seq<char>)>, name: Seq<char>) -> Option<Seq<char>>
    decreases ws.len(),
{
    if ws.len() == 0 {
        None
    } else if ws.last().0 == name {
        Some(ws.last().1)
    } else {
        last_write(ws.drop_last(), name)
    }
}

/// After any sequence of writes, reading a name gives the value last written
/// to it, and a name never written keeps its earlier value: the last write
/// wins, and writes to other names leave it alone.
pub proof fn law_last_write_wins(
    entries: Seq<(Seq<char>, Seq<char>)>,
    ws: Seq<(Seq<char>, Seq<char>)>,
    name: Seq<char>,
)
    ensures
        lookup(assign_all(entries, ws), name) == match last_write(ws, name) {
            Some(v) => Some(v),
            None => lookup(entries, name),
        },
    decreases ws.len(),
{
    if ws.len() > 0 {
        law_last_write_wins(entries, ws.drop_last(), name);
        lemma_lookup_assign(assign_all(entries, ws.drop_last()), ws.last().0, ws.last().1, name);
    }
}

/// The value bound to `name`.
pub fn assoc_get<'a>(entries: &'a Vec<(String, String)>, name: &str) -> (r: Option<&'a str>)
    ensures
        match r {
            Some(v) => lookup(assoc_view(entries@), name@) == Some(v@),
            None => lookup(assoc_view(entries@), name@) is None,
        },
{
    let ghost all = assoc_view(entries@);
    let mut i: usize = 0;
    assert(all.skip(0) =~= all);
    while i < entries.len()
        invariant
            i <= entries.len(),
            all == assoc_view(entries@),
            lookup(all.skip(i as int), name@) == lookup(all, name@),
        decreases entries.len() - i,
    {
        assert(all.skip(i as int)[0] == (entries@[i as int].0@, entries@[i as int].1@));
        assert(all.skip(i as int).drop_first() =~= all.skip(i + 1));
        let k = chars_of(entries[i].0.as_str());
        if eq_str(k.as_slice(), name) {
            return Some(entries[i].1.as_str());
        }
        i += 1;
    }
    None
}

/// Binds `name` to `value`.
pub fn assoc_set(entries: &mut Vec<(String, String)>, name: String, value: String)
    requires
        distinct_names(assoc_view(old(entries)@)),
    ensures
        assoc_view(final(entries)@) == assign(assoc_view(old(entries)@), name@, value@),
        distinct_names(assoc_view(final(entries)@)),
{
    proof {
        lemma_assign_names(assoc_view(entries@), name@, value@);
    }
    let ghost all = assoc_view(entries@);
    let mut i: usize = 0;
    assert(all.skip(0) =~= all);
    assert(all.take(0) =~= Seq::<(Seq<char>, Seq<char>)>::empty());
    while i < entries.len()
        invariant
            i <= entries.len(),
            all == assoc_view(entries@),
            entries@ == old(entries)@,
            distinct_names(assign(all, name@, value@)),
            assign(all, name@, value@) == all.take(i as int) + assign(all.skip(i as int), name@, value@),
        decreases entries.len() - i,
    {
        let ghost rest = all.skip(i as int);
        assert(rest[0] == (entries@[i as int].0@, entries@[i as int].1@));
        assert(rest.drop_first() =~= all.skip(i + 1));
        if entries[i].0 == name {
            let ghost before = entries@;
            entries.set(i, (name, value));
            assert(assoc_view(entries@) =~= all.take(i as int) + (seq![(name@, value@)] + rest.drop_first()));
            return;
        }
        assert(all.take(i + 1) =~= all.take(i as int).push(rest[0]));
        assert(all.take(i as int) + assign(rest, name@, value@) =~= all.take(i + 1) + assign(
            all.skip(i + 1),
            name@,
            value@,
        ));
        i += 1;
    }
    assert(all.take(i as int) =~= all);
    let ghost before = entries@;
    entries.push((name, value));
    assert(assoc_view(entries@) =~= assoc_view(before).push((name@, value@)));
    assert(all + seq![(name@, value@)] =~= assoc_view(before).push((name@, value@)));
    assert(all.skip(i as int) =~= Seq::<(Seq<char>, Seq<char>)>::empty());
    assert(assoc_view(entries@) == assign(all, name@, value@));
}

} // verus!
