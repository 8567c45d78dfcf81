//! The order of a history: what it means for a list of entries to be free
//! of duplicates and ranked, and the list that cleaning makes of any list.

use vstd::prelude::*;
use crate::clock::Timestamp;
use crate::history::{EntryView, MAX_ENTRIES};

verus! {

/// `a` belongs strictly before `b`: it was used later, or at the same
/// instant and more often.
pub open spec fn ranks_before(a: EntryView, b: EntryView) -> bool {
    a.last_used.later_than(b.last_used) || (a.last_used == b.last_used && a.use_count
        > b.use_count)
}

/// Some entry of `s` has the path `path`.
pub open spec fn has_path(s: Seq<EntryView>, path: Seq<char>) -> bool {
    exists|i: int| 0 <= i < s.len() && (#[trigger] s[i]).path == path
}

/// No two entries of `s` share a path.
pub open spec fn no_duplicates(s: Seq<EntryView>) -> bool {
    forall|i: int, j: int| 0 <= i < j < s.len() ==> (#[trigger] s[i]).path != (#[trigger] s[j]).path
}

/// No entry of `s` stands behind one that it belongs strictly before.
pub open spec fn ranked(s: Seq<EntryView>) -> bool {
    forall|i: int, j: int| 0 <= i < j < s.len() ==> !ranks_before(#[trigger] s[j], #[trigger] s[i])
}

/// The invariant of a history's entries: one entry per path, most recently
/// used first (the more often used first among equals), and no more than
/// [`MAX_ENTRIES`].
pub open spec fn well_formed(s: Seq<EntryView>) -> bool {
    no_duplicates(s) && ranked(s) && s.len() <= MAX_ENTRIES
}

/// `s` without the entries whose path an earlier entry has already.
pub open spec fn dedup(s: Seq<EntryView>) -> Seq<EntryView>
    decreases s.len(),
{
    if s.len() == 0 {
        s
    } else if has_path(s.drop_last(), s.last().path) {
        dedup(s.drop_last())
    } else {
        dedup(s.drop_last()).push(s.last())
    }
}

/// Where `e` goes into `s`: before the first entry that it belongs
/// strictly before, so behind every entry that is its equal.
pub open spec fn insert_position(s: Seq<EntryView>, e: EntryView) -> int
    decreases s.len(),
{
    if s.len() == 0 {
        0
    } else if ranks_before(e, s[0]) {
        0
    } else {
        1 + insert_position(s.subrange(1, s.len() as int), e)
    }
}

/// `s` brought into ranked order, equals staying in the order they had.
pub open spec fn sort_ranked(s: Seq<EntryView>) -> Seq<EntryView>
    decreases s.len(),
{
    if s.len() == 0 {
        s
    } else {
        let head = sort_ranked(s.drop_last());
        head.insert(insert_position(head, s.last()), s.last())
    }
}

/// The first `n` entries of `s`, or all of `s` if it has fewer.
pub open spec fn first_entries(s: Seq<EntryView>, n: int) -> Seq<EntryView> {
    if s.len() > n {
        s.subrange(0, n)
    } else {
        s
    }
}

/// What cleaning makes of a list: duplicates of a path dropped (the first
/// stays), the rest ranked, and only the first [`MAX_ENTRIES`] kept.
pub open spec fn cleaned(s: Seq<EntryView>) -> Seq<EntryView> {
    first_entries(sort_ranked(dedup(s)), MAX_ENTRIES as int)
}

/// Dropping duplicates leaves one entry per path, keeps every path, and
/// every entry kept was in the list.
pub proof fn lemma_dedup(s: Seq<EntryView>)
    ensures
        no_duplicates(dedup(s)),
        dedup(s).len() <= s.len(),
        forall|p: Seq<char>| has_path(dedup(s), p) <==> has_path(s, p),
        forall|i: int| 0 <= i < dedup(s).len() ==> s.contains(#[trigger] dedup(s)[i]),
    decreases s.len(),
{
    if s.len() > 0 {
        let h = s.drop_last();
        let last = s.last();
        let d = dedup(h);
        lemma_dedup(h);
        assert forall|p: Seq<char>| has_path(h, p) implies has_path(s, p) by {
            let i = choose|i: int| 0 <= i < h.len() && (#[trigger] h[i]).path == p;
            assert(s[i] == h[i]);
        }
        assert forall|p: Seq<char>| has_path(s, p) implies has_path(h, p) || p == last.path by {
            let i = choose|i: int| 0 <= i < s.len() && (#[trigger] s[i]).path == p;
            if i < h.len() {
                assert(h[i] == s[i]);
            }
        }
        assert(s[s.len() - 1] == last);
        assert forall|i: int| 0 <= i < d.len() implies s.contains(#[trigger] d[i]) by {
            assert(h.contains(d[i]));
            let k = choose|k: int| 0 <= k < h.len() && h[k] == d[i];
            assert(s[k] == d[i]);
        }
        if has_path(h, last.path) {
            assert(dedup(s) == d);
        } else {
            let r = d.push(last);
            assert(dedup(s) == r);
            assert(!has_path(d, last.path));
            assert forall|i: int, j: int| 0 <= i < j < r.len() implies (#[trigger] r[i]).path != (
            #[trigger] r[j]).path by {
                if j == d.len() {
                    assert(r[i] == d[i]);
                    assert(d[i].path != last.path);
                } else {
                    assert(r[i] == d[i] && r[j] == d[j]);
                }
            }
            assert forall|p: Seq<char>| has_path(r, p) <==> has_path(s, p) by {
                if has_path(r, p) {
                    let i = choose|i: int| 0 <= i < r.len() && (#[trigger] r[i]).path == p;
                    if i < d.len() {
                        assert(d[i] == r[i]);
                        assert(has_path(d, p));
                    } else {
                        assert(has_path(s, p));
                    }
                }
                if has_path(s, p) {
                    if has_path(h, p) {
                        let i = choose|i: int| 0 <= i < d.len() && (#[trigger] d[i]).path == p;
                        assert(r[i] == d[i]);
                    } else {
                        assert(r[d.len() as int] == last);
                    }
                }
            }
            assert forall|i: int| 0 <= i < r.len() implies s.contains(#[trigger] r[i]) by {
                if i < d.len() {
                    assert(r[i] == d[i]);
                    assert(s.contains(d[i]));
                }
            }
        }
    }
}

/// A list with one entry per path has nothing to drop.
pub proof fn lemma_dedup_of_distinct(s: Seq<EntryView>)
    requires
        no_duplicates(s),
    ensures
        dedup(s) == s,
    decreases s.len(),
{
    if s.len() > 0 {
        let h = s.drop_last();
        assert forall|i: int, j: int| 0 <= i < j < h.len() implies (#[trigger] h[i]).path != (
        #[trigger] h[j]).path by {
            assert(h[i] == s[i] && h[j] == s[j]);
        }
        lemma_dedup_of_distinct(h);
        if has_path(h, s.last().path) {
            let i = choose|i: int| 0 <= i < h.len() && (#[trigger] h[i]).path == s.last().path;
            assert(h[i] == s[i]);
            assert(s[s.len() - 1] == s.last());
            assert(false);
        }
        assert(h.push(s.last()) =~= s);
    }
}

/// The place an entry is inserted at lies behind every entry that it does
/// not belong before, and right before one that it does.
pub proof fn lemma_insert_position(s: Seq<EntryView>, e: EntryView)
    ensures
        0 <= insert_position(s, e) <= s.len(),
        forall|j: int| 0 <= j < insert_position(s, e) ==> !ranks_before(e, #[trigger] s[j]),
        insert_position(s, e) < s.len() ==> ranks_before(e, s[insert_position(s, e)]),
    decreases s.len(),
{
    if s.len() > 0 && !ranks_before(e, s[0]) {
        let t = s.subrange(1, s.len() as int);
        lemma_insert_position(t, e);
        let k = insert_position(t, e);
        assert forall|j: int| 0 <= j < k + 1 implies !ranks_before(e, #[trigger] s[j]) by {
            if j > 0 {
                assert(s[j] == t[j - 1]);
            }
        }
        if k < t.len() {
            assert(s[k + 1] == t[k]);
        }
    }
}

/// The place an entry is inserted at is the only one with that property.
pub proof fn lemma_insert_position_is(s: Seq<EntryView>, e: EntryView, k: int)
    requires
        0 <= k <= s.len(),
        forall|j: int| 0 <= j < k ==> !ranks_before(e, #[trigger] s[j]),
        k < s.len() ==> ranks_before(e, s[k]),
    ensures
        insert_position(s, e) == k,
{
    lemma_insert_position(s, e);
}

/// Ranking a list keeps its entries, each as often as it was there, and
/// leaves the list ranked.
pub proof fn lemma_sort_ranked(s: Seq<EntryView>)
    ensures
        ranked(sort_ranked(s)),
        sort_ranked(s).len() == s.len(),
        forall|e: EntryView| sort_ranked(s).contains(e) <==> s.contains(e),
        forall|p: Seq<char>| has_path(sort_ranked(s), p) <==> has_path(s, p),
        no_duplicates(s) ==> no_duplicates(sort_ranked(s)),
    decreases s.len(),
{
    if s.len() > 0 {
        let h = s.drop_last();
        let last = s.last();
        let head = sort_ranked(h);
        let k = insert_position(head, last);
        let r = head.insert(k, last);
        lemma_sort_ranked(h);
        lemma_insert_position(head, last);
        assert(sort_ranked(s) == r);
        assert(s[s.len() - 1] == last);
        assert(r[k] == last);
        assert forall|i: int, j: int| 0 <= i < j < r.len() implies !ranks_before(
            #[trigger] r[j],
            #[trigger] r[i],
        ) by {
            if j < k {
                assert(r[i] == head[i] && r[j] == head[j]);
            } else if j == k {
                assert(r[i] == head[i]);
            } else if i < k {
                assert(r[i] == head[i] && r[j] == head[j - 1]);
            } else if i == k {
                assert(r[j] == head[j - 1]);
                assert(ranks_before(last, head[k]));
                if j - 1 > k {
                    assert(!ranks_before(head[j - 1], head[k]));
                }
            } else {
                assert(r[i] == head[i - 1] && r[j] == head[j - 1]);
            }
        }
        assert forall|e: EntryView| r.contains(e) <==> s.contains(e) by {
            if r.contains(e) {
                let i = choose|i: int| 0 <= i < r.len() && r[i] == e;
                if i != k {
                    let m = if i < k {
                        i
                    } else {
                        i - 1
                    };
                    assert(head[m] == e);
                    assert(head.contains(e));
                    assert(h.contains(e));
                    let n = choose|n: int| 0 <= n < h.len() && h[n] == e;
                    assert(s[n] == e);
                }
            }
            if s.contains(e) {
                let n = choose|n: int| 0 <= n < s.len() && s[n] == e;
                if n < h.len() {
                    assert(h[n] == e);
                    assert(h.contains(e));
                    assert(head.contains(e));
                    let m = choose|m: int| 0 <= m < head.len() && head[m] == e;
                    if m < k {
                        assert(r[m] == e);
                    } else {
                        assert(r[m + 1] == e);
                    }
                }
            }
        }
        assert forall|p: Seq<char>| has_path(r, p) <==> has_path(s, p) by {
            if has_path(r, p) {
                let i = choose|i: int| 0 <= i < r.len() && (#[trigger] r[i]).path == p;
                assert(r.contains(r[i]));
                assert(s.contains(r[i]));
                let n = choose|n: int| 0 <= n < s.len() && s[n] == r[i];
                assert(s[n].path == p);
            }
            if has_path(s, p) {
                let n = choose|n: int| 0 <= n < s.len() && (#[trigger] s[n]).path == p;
                assert(s.contains(s[n]));
                assert(r.contains(s[n]));
                let i = choose|i: int| 0 <= i < r.len() && r[i] == s[n];
                assert(r[i].path == p);
            }
        }
        if no_duplicates(s) {
            assert forall|i: int, j: int| 0 <= i < j < h.len() implies (#[trigger] h[i]).path != (
            #[trigger] h[j]).path by {
                assert(h[i] == s[i] && h[j] == s[j]);
            }
            if has_path(h, last.path) {
                let n = choose|n: int| 0 <= n < h.len() && (#[trigger] h[n]).path == last.path;
                assert(h[n] == s[n]);
                assert(false);
            }
            assert(!has_path(head, last.path));
            assert forall|i: int, j: int| 0 <= i < j < r.len() implies (#[trigger] r[i]).path != (
            #[trigger] r[j]).path by {
                let a = if i < k {
                    i
                } else {
                    i - 1
                };
                let b = if j < k {
                    j
                } else {
                    j - 1
                };
                if i == k {
                    assert(r[j] == head[b]);
                } else if j == k {
                    assert(r[i] == head[a]);
                } else {
                    assert(r[i] == head[a] && r[j] == head[b]);
                }
            }
        }
    }
}

/// A ranked list is its own ranking.
pub proof fn lemma_sort_of_ranked(s: Seq<EntryView>)
    requires
        ranked(s),
    ensures
        sort_ranked(s) == s,
    decreases s.len(),
{
    if s.len() > 0 {
        let h = s.drop_last();
        assert forall|i: int, j: int| 0 <= i < j < h.len() implies !ranks_before(
            #[trigger] h[j],
            #[trigger] h[i],
        ) by {
            assert(h[i] == s[i] && h[j] == s[j]);
        }
        lemma_sort_of_ranked(h);
        assert forall|j: int| 0 <= j < h.len() implies !ranks_before(s.last(), #[trigger] h[j]) by {
            assert(h[j] == s[j]);
            assert(s[s.len() - 1] == s.last());
        }
        lemma_insert_position_is(h, s.last(), h.len() as int);
        assert(h.insert(h.len() as int, s.last()) =~= s);
    }
}

/// Whatever the list, cleaning it gives a well-formed history: at most
/// [`MAX_ENTRIES`] entries, ranked, one per path; and every entry of the
/// result was in the list.
pub proof fn lemma_cleaned(s: Seq<EntryView>)
    ensures
        well_formed(cleaned(s)),
        cleaned(s).len() <= s.len(),
        forall|i: int| 0 <= i < cleaned(s).len() ==> s.contains(#[trigger] cleaned(s)[i]),
        forall|p: Seq<char>| has_path(cleaned(s), p) ==> has_path(s, p),
{
    let d = dedup(s);
    let r = sort_ranked(d);
    let c = cleaned(s);
    lemma_dedup(s);
    lemma_sort_ranked(d);
    assert forall|i: int| 0 <= i < c.len() implies c[i] == r[i] by {}
    assert forall|i: int| 0 <= i < c.len() implies s.contains(#[trigger] c[i]) by {
        assert(r.contains(r[i]));
        assert(d.contains(r[i]));
        let k = choose|k: int| 0 <= k < d.len() && d[k] == r[i];
        assert(s.contains(d[k]));
    }
    assert forall|p: Seq<char>| has_path(c, p) implies has_path(s, p) by {
        let i = choose|i: int| 0 <= i < c.len() && (#[trigger] c[i]).path == p;
        assert(s.contains(c[i]));
        let n = choose|n: int| 0 <= n < s.len() && s[n] == c[i];
        assert(s[n].path == p);
    }
    assert forall|i: int, j: int| 0 <= i < j < c.len() implies (#[trigger] c[i]).path != (
    #[trigger] c[j]).path by {
        assert(c[i] == r[i] && c[j] == r[j]);
    }
    assert forall|i: int, j: int| 0 <= i < j < c.len() implies !ranks_before(
        #[trigger] c[j],
        #[trigger] c[i],
    ) by {
        assert(c[i] == r[i] && c[j] == r[j]);
    }
}

/// Cleaning changes nothing in a well-formed history.
pub proof fn lemma_cleaned_of_well_formed(s: Seq<EntryView>)
    requires
        well_formed(s),
    ensures
        cleaned(s) == s,
{
    lemma_dedup_of_distinct(s);
    lemma_sort_of_ranked(s);
}

/// The place of the first entry with the path `path`, or the length of
/// `s` if there is none.
pub open spec fn position_of(s: Seq<EntryView>, path: Seq<char>) -> int
    decreases s.len(),
{
    if s.len() == 0 {
        0
    } else if s[0].path == path {
        0
    } else {
        1 + position_of(s.subrange(1, s.len() as int), path)
    }
}

/// `position_of` finds the first entry with the path, and finds one
/// whenever there is one.
pub proof fn lemma_position_of(s: Seq<EntryView>, path: Seq<char>)
    ensures
        0 <= position_of(s, path) <= s.len(),
        forall|j: int| 0 <= j < position_of(s, path) ==> (#[trigger] s[j]).path != path,
        position_of(s, path) < s.len() ==> s[position_of(s, path)].path == path,
        position_of(s, path) < s.len() <==> has_path(s, path),
    decreases s.len(),
{
    if s.len() > 0 && s[0].path != path {
        let t = s.subrange(1, s.len() as int);
        lemma_position_of(t, path);
        let k = position_of(t, path);
        assert forall|j: int| 0 <= j < k + 1 implies (#[trigger] s[j]).path != path by {
            if j > 0 {
                assert(s[j] == t[j - 1]);
            }
        }
        if k < t.len() {
            assert(s[k + 1] == t[k]);
        }
        if has_path(s, path) {
            let i = choose|i: int| 0 <= i < s.len() && (#[trigger] s[i]).path == path;
            assert(t[i - 1] == s[i]);
        }
    }
}

/// An entry after one more use at the instant `now`: a name or a book
/// count that was given replaces the old one, one that was not leaves it.
pub open spec fn touched(
    e: EntryView,
    name: Option<Seq<char>>,
    book_count: Option<i32>,
    now: Timestamp,
) -> EntryView {
    EntryView {
        path: e.path,
        name: if name is Some {
            name
        } else {
            e.name
        },
        last_used: now,
        use_count: e.use_count + 1,
        book_count: if book_count is Some {
            book_count
        } else {
            e.book_count
        },
    }
}

/// The entry of a library used for the first time at the instant `now`.
pub open spec fn first_use(
    path: Seq<char>,
    name: Option<Seq<char>>,
    book_count: Option<i32>,
    now: Timestamp,
) -> EntryView {
    EntryView { path, name, last_used: now, use_count: 1, book_count }
}

/// The list with one use of `path` written down: its entry touched, or a
/// first entry appended.
pub open spec fn recorded(
    s: Seq<EntryView>,
    path: Seq<char>,
    name: Option<Seq<char>>,
    book_count: Option<i32>,
    now: Timestamp,
) -> Seq<EntryView> {
    let i = position_of(s, path);
    if i < s.len() {
        s.update(i, touched(s[i], name, book_count, now))
    } else {
        s.push(first_use(path, name, book_count, now))
    }
}

/// The history after one use of `path` at the instant `now`.
pub open spec fn added(
    s: Seq<EntryView>,
    path: Seq<char>,
    name: Option<Seq<char>>,
    book_count: Option<i32>,
    now: Timestamp,
) -> Seq<EntryView> {
    cleaned(recorded(s, path, name, book_count, now))
}

/// The path an entry is kept under: the resolved form of a path where
/// resolving it succeeded, else the path as it was given.
pub open spec fn entry_key(path: Seq<char>, canonical: Option<Seq<char>>) -> Seq<char> {
    match canonical {
        Some(c) => c,
        None => path,
    }
}

/// How often the library at `path` was used, by the list `s`: the count of
/// its entry, or 0 if it has none.
pub open spec fn uses_of(s: Seq<EntryView>, path: Seq<char>) -> nat {
    if position_of(s, path) < s.len() {
        s[position_of(s, path)].use_count
    } else {
        0
    }
}

/// Writing down a use in a list with one entry per path leaves one entry
/// per path, among them one for the path used, counted once more.
pub proof fn lemma_recorded(
    s: Seq<EntryView>,
    path: Seq<char>,
    name: Option<Seq<char>>,
    book_count: Option<i32>,
    now: Timestamp,
)
    requires
        no_duplicates(s),
    ensures
        no_duplicates(recorded(s, path, name, book_count, now)),
        has_path(recorded(s, path, name, book_count, now), path),
        recorded(s, path, name, book_count, now).len() == if has_path(s, path) {
            s.len()
        } else {
            s.len() + 1
        },
        forall|i: int|
            0 <= i < recorded(s, path, name, book_count, now).len() && (#[trigger] recorded(
                s,
                path,
                name,
                book_count,
                now,
            )[i]).path == path ==> recorded(s, path, name, book_count, now)[i].use_count
                == uses_of(s, path) + 1,
{
    let m = recorded(s, path, name, book_count, now);
    let k = position_of(s, path);
    lemma_position_of(s, path);
    if k < s.len() {
        assert(m[k].path == path);
        assert forall|i: int, j: int| 0 <= i < j < m.len() implies (#[trigger] m[i]).path != (
        #[trigger] m[j]).path by {
            assert(m[i].path == s[i].path && m[j].path == s[j].path);
        }
        assert forall|i: int| 0 <= i < m.len() && (#[trigger] m[i]).path == path implies m[i].use_count
            == uses_of(s, path) + 1 by {
            if i != k {
                assert(s[i].path == path);
                assert(s[k].path == path);
                assert(false);
            }
        }
    } else {
        assert(m[s.len() as int].path == path);
        assert forall|i: int, j: int| 0 <= i < j < m.len() implies (#[trigger] m[i]).path != (
        #[trigger] m[j]).path by {
            if j == s.len() {
                assert(m[i] == s[i]);
            } else {
                assert(m[i] == s[i] && m[j] == s[j]);
            }
        }
        assert forall|i: int| 0 <= i < m.len() && (#[trigger] m[i]).path == path implies m[i].use_count
            == uses_of(s, path) + 1 by {
            if i < s.len() {
                assert(m[i] == s[i]);
            }
        }
    }
}

/// The use of a library is kept by a well-formed history that knows the
/// library already or still has room.
pub proof fn lemma_use_is_kept(
    s: Seq<EntryView>,
    path: Seq<char>,
    name: Option<Seq<char>>,
    book_count: Option<i32>,
    now: Timestamp,
)
    requires
        well_formed(s),
        has_path(s, path) || s.len() < MAX_ENTRIES,
    ensures
        has_path(added(s, path, name, book_count, now), path),
        added(s, path, name, book_count, now).len() == if has_path(s, path) {
            s.len()
        } else {
            s.len() + 1
        },
{
    let m = recorded(s, path, name, book_count, now);
    lemma_recorded(s, path, name, book_count, now);
    lemma_dedup_of_distinct(m);
    lemma_sort_ranked(m);
}

/// After a use that the history kept, the path has exactly one entry, and
/// its count is one more than the history had for the path.
pub proof fn lemma_kept_use_counts_once(
    s: Seq<EntryView>,
    path: Seq<char>,
    name: Option<Seq<char>>,
    book_count: Option<i32>,
    now: Timestamp,
)
    requires
        no_duplicates(s),
        has_path(added(s, path, name, book_count, now), path),
    ensures
        well_formed(added(s, path, name, book_count, now)),
        uses_of(added(s, path, name, book_count, now), path) == uses_of(s, path) + 1,
        forall|j: int|
            0 <= j < added(s, path, name, book_count, now).len() && (#[trigger] added(
                s,
                path,
                name,
                book_count,
                now,
            )[j]).path == path ==> j == position_of(added(s, path, name, book_count, now), path),
{
    let m = recorded(s, path, name, book_count, now);
    let a = added(s, path, name, book_count, now);
    lemma_recorded(s, path, name, book_count, now);
    lemma_cleaned(m);
    lemma_position_of(a, path);
    let i = position_of(a, path);
    assert(m.contains(a[i]));
    let n = choose|n: int| 0 <= n < m.len() && m[n] == a[i];
    assert(m[n].path == path);
    assert forall|j: int| 0 <= j < a.len() && (#[trigger] a[j]).path == path implies j == i by {
        if j != i {
            assert(a[i].path == a[j].path);
            assert(false);
        }
    }
}

/// Two uses of one path in a row leave exactly one entry for the path, not
/// two, and its count is two more than the history had for the path before
/// (so 2 for a path that is new to it). This is stated of a first use that
/// the history kept: a full history drops a new entry that ranks last.
pub proof fn lemma_two_uses_one_entry(
    s: Seq<EntryView>,
    path: Seq<char>,
    name1: Option<Seq<char>>,
    book_count1: Option<i32>,
    at1: Timestamp,
    name2: Option<Seq<char>>,
    book_count2: Option<i32>,
    at2: Timestamp,
)
    requires
        well_formed(s),
        has_path(added(s, path, name1, book_count1, at1), path),
    ensures
        ({
            let once = added(s, path, name1, book_count1, at1);
            let twice = added(once, path, name2, book_count2, at2);
            &&& well_formed(twice)
            &&& twice.len() == once.len()
            &&& has_path(twice, path)
            &&& uses_of(twice, path) == uses_of(s, path) + 2
            &&& forall|j: int|
                0 <= j < twice.len() && (#[trigger] twice[j]).path == path ==> j == position_of(
                    twice,
                    path,
                )
        }),
{
    let once = added(s, path, name1, book_count1, at1);
    lemma_kept_use_counts_once(s, path, name1, book_count1, at1);
    lemma_use_is_kept(once, path, name2, book_count2, at2);
    lemma_kept_use_counts_once(once, path, name2, book_count2, at2);
}

/// One use of a library: the path it is kept under, the name and book
/// count given with it, and the instant of the use.
pub struct LibraryUse {
    pub path: Seq<char>,
    pub name: Option<Seq<char>>,
    pub book_count: Option<i32>,
    pub at: Timestamp,
}

/// The history after a sequence of uses, the first of them first.
pub open spec fn added_all(s: Seq<EntryView>, uses: Seq<LibraryUse>) -> Seq<EntryView>
    decreases uses.len(),
{
    if uses.len() == 0 {
        s
    } else {
        let u = uses.last();
        added(added_all(s, uses.drop_last()), u.path, u.name, u.book_count, u.at)
    }
}

/// After any sequence of uses the history is well-formed: at most
/// [`MAX_ENTRIES`] entries, most recently used first (the more often used
/// first among equals), and no path twice. This holds from the first use
/// on, whatever the list was before.
pub proof fn lemma_uses_leave_history_well_formed(s: Seq<EntryView>, uses: Seq<LibraryUse>)
    requires
        uses.len() > 0 || well_formed(s),
    ensures
        well_formed(added_all(s, uses)),
        added_all(s, uses).len() <= MAX_ENTRIES,
        ranked(added_all(s, uses)),
        no_duplicates(added_all(s, uses)),
{
    if uses.len() > 0 {
        let u = uses.last();
        let before = added_all(s, uses.drop_last());
        lemma_cleaned(recorded(before, u.path, u.name, u.book_count, u.at));
    }
}

} // verus!
