//! Sequence helpers: filtered maps, sorted string sets and first-occurrence dedup.
use vstd::prelude::*;

use crate::text::{contains_str, views};

verus! {

/// The images under `f` of the elements of `s` that `f` keeps, in order.
pub open spec fn collect<A, B>(s: Seq<A>, f: spec_fn(A) -> Option<B>) -> Seq<B>
    decreases s.len(),
{
    if s.len() == 0 {
        Seq::empty()
    } else {
        let rest = collect(s.drop_last(), f);
        match f(s.last()) {
            Some(b) => rest.push(b),
            None => rest,
        }
    }
}

/// One more element of the prefix extends the collected sequence by that element's image.
pub proof fn lemma_collect_step<A, B>(s: Seq<A>, f: spec_fn(A) -> Option<B>, i: int)
    requires
        0 <= i < s.len(),
    ensures
        collect(s.take(i + 1), f) == (match f(s[i]) {
            Some(b) => collect(s.take(i), f).push(b),
            None => collect(s.take(i), f),
        }),
{
    assert(s.take(i + 1).drop_last() =~= s.take(i));
    assert(s.take(i + 1).last() == s[i]);
}

/// The whole sequence is its own longest prefix.
pub proof fn lemma_take_all<A>(s: Seq<A>)
    ensures
        s.take(s.len() as int) == s,
{
    assert(s.take(s.len() as int) =~= s);
}

/// Collecting over a concatenation collects each part.
pub proof fn lemma_collect_append<A, B>(s: Seq<A>, t: Seq<A>, f: spec_fn(A) -> Option<B>)
    ensures
        collect(s + t, f) == collect(s, f) + collect(t, f),
    decreases t.len(),
{
    if t.len() == 0 {
        assert(s + t =~= s);
        assert(collect(s, f) + collect(t, f) =~= collect(s, f));
    } else {
        lemma_collect_append(s, t.drop_last(), f);
        assert((s + t).drop_last() =~= s + t.drop_last());
        assert((s + t).last() == t.last());
        match f(t.last()) {
            Some(b) => {
                assert(collect(s, f) + collect(t, f) =~= (collect(s, f) + collect(t.drop_last(), f)).push(b));
            },
            None => {},
        }
    }
}

/// Strict lexicographic order on character sequences, by code point (the order
/// of `String`'s `Ord`, which compares UTF-8 bytes).
pub open spec fn lex_lt(a: Seq<char>, b: Seq<char>) -> bool
    decreases a.len(),
{
    if b.len() == 0 {
        false
    } else if a.len() == 0 {
        true
    } else if a[0] < b[0] {
        true
    } else if a[0] == b[0] {
        lex_lt(a.skip(1), b.skip(1))
    } else {
        false
    }
}

/// `lex_lt` is irreflexive, transitive and total.
pub proof fn lemma_lex_irreflexive(a: Seq<char>)
    ensures
        !lex_lt(a, a),
    decreases a.len(),
{
    if a.len() > 0 {
        lemma_lex_irreflexive(a.skip(1));
    }
}

/// Transitivity of `lex_lt`.
pub proof fn lemma_lex_transitive(a: Seq<char>, b: Seq<char>, c: Seq<char>)
    requires
        lex_lt(a, b),
        lex_lt(b, c),
    ensures
        lex_lt(a, c),
    decreases a.len(),
{
    if a.len() > 0 && b.len() > 0 && c.len() > 0 && a[0] == b[0] && b[0] == c[0] {
        lemma_lex_transitive(a.skip(1), b.skip(1), c.skip(1));
    }
}

/// Totality of `lex_lt`.
pub proof fn lemma_lex_total(a: Seq<char>, b: Seq<char>)
    ensures
        lex_lt(a, b) || lex_lt(b, a) || a == b,
    decreases a.len(),
{
    if a.len() > 0 && b.len() > 0 && a[0] == b[0] {
        lemma_lex_total(a.skip(1), b.skip(1));
        if a.skip(1) == b.skip(1) {
            assert(a =~= seq![a[0]] + a.skip(1));
            assert(b =~= seq![b[0]] + b.skip(1));
        }
    } else if a.len() == 0 && b.len() == 0 {
        assert(a =~= b);
    } else if a.len() > 0 && b.len() > 0 {
    }
}

/// Strictly increasing in `lex_lt`, hence without repeats.
pub open spec fn sorted_strict(s: Seq<Seq<char>>) -> bool {
    forall|i: int, j: int| 0 <= i < j < s.len() ==> lex_lt(s[i], s[j])
}

/// `a < b` for strings (`Ord` on `String`).
pub fn str_lt(a: &str, b: &str) -> (r: bool)
    ensures
        r == lex_lt(a@, b@),
{
    let n = a.unicode_len();
    let m = b.unicode_len();
    let mut i: usize = 0;
    assert(a@.skip(0) =~= a@);
    assert(b@.skip(0) =~= b@);
    while i < n && i < m
        invariant
            n == a@.len(),
            m == b@.len(),
            i <= n,
            i <= m,
            lex_lt(a@, b@) == lex_lt(a@.skip(i as int), b@.skip(i as int)),
        decreases n - i,
    {
        let x = a.get_char(i);
        let y = b.get_char(i);
        assert(a@.skip(i as int)[0] == x && b@.skip(i as int)[0] == y);
        if x < y {
            return true;
        }
        if x != y {
            return false;
        }
        assert(a@.skip(i as int).skip(1) =~= a@.skip(i + 1));
        assert(b@.skip(i as int).skip(1) =~= b@.skip(i + 1));
        i = i + 1;
    }
    i < m
}

/// Inserts `s` into a strictly sorted vector of strings, keeping it strictly
/// sorted; the set of held strings gains `s`.
pub fn insert_sorted(v: &mut Vec<String>, s: String)
    requires
        sorted_strict(crate::text::views(old(v)@)),
    ensures
        sorted_strict(crate::text::views(final(v)@)),
        crate::text::views(final(v)@).to_set() == crate::text::views(old(v)@).to_set().insert(s@),
{
    let ghost old_views = crate::text::views(v@);
    let mut i: usize = 0;
    let mut stop = false;
    while !stop && i < v.len()
        invariant
            old_views == crate::text::views(v@),
            sorted_strict(old_views),
            i <= v@.len(),
            forall|k: int| 0 <= k < i ==> lex_lt(old_views[k], s@),
            stop ==> i < v@.len() && !lex_lt(old_views[i as int], s@),
        decreases v@.len() - i, (if stop { 0int } else { 1int }),
    {
        if !str_lt(v[i].as_str(), s.as_str()) {
            stop = true;
        } else {
            i = i + 1;
        }
    }
    if i < v.len() && crate::text::str_eq(v[i].as_str(), s.as_str()) {
        assert(old_views.contains(s@)) by {
            assert(old_views[i as int] == s@);
        }
        assert(old_views.to_set().insert(s@) =~= old_views.to_set());
        return;
    }
    proof {
        if i < v@.len() {
            lemma_lex_total(old_views[i as int], s@);
        }
    }
    v.insert(i, s);
    let ghost new_views = crate::text::views(v@);
    assert(new_views =~= old_views.take(i as int).push(s@) + old_views.skip(i as int));
    assert forall|a: int, b: int| 0 <= a < b < new_views.len() implies lex_lt(new_views[a], new_views[b]) by {
        if a < i && b == i {
        } else if a < i && b > i {
            assert(new_views[b] == old_views[b - 1]);
        } else if a == i && b > i {
            assert(new_views[b] == old_views[b - 1]);
            if b - 1 > i {
                lemma_lex_transitive(s@, old_views[i as int], old_views[b - 1]);
            }
        } else if a > i {
            assert(new_views[a] == old_views[a - 1]);
            assert(new_views[b] == old_views[b - 1]);
        } else {
            assert(new_views[a] == old_views[a]);
            assert(new_views[b] == old_views[b]);
        }
    }
    assert forall|x: Seq<char>| new_views.to_set().contains(x) <==> old_views.to_set().insert(s@).contains(x) by {
        if new_views.contains(x) {
            let k = choose|k: int| 0 <= k < new_views.len() && new_views[k] == x;
            if k < i {
                assert(old_views[k] == x);
            } else if k > i {
                assert(old_views[k - 1] == x);
            }
        }
        if old_views.contains(x) {
            let k = choose|k: int| 0 <= k < old_views.len() && old_views[k] == x;
            if k < i {
                assert(new_views[k] == x);
            } else {
                assert(new_views[k + 1] == x);
            }
        }
        if x == s@ {
            assert(new_views[i as int] == x);
        }
    }
    assert(new_views.to_set() =~= old_views.to_set().insert(s@));
}

/// The elements of `s` that do not occur earlier in `s`, in order.
pub open spec fn first_occurrences<A>(s: Seq<A>) -> Seq<A>
    decreases s.len(),
{
    if s.len() == 0 {
        Seq::empty()
    } else {
        let rest = first_occurrences(s.drop_last());
        if s.drop_last().contains(s.last()) {
            rest
        } else {
            rest.push(s.last())
        }
    }
}

/// `first_occurrences` holds exactly the elements of its argument, once each.
pub proof fn lemma_first_occurrences<A>(s: Seq<A>)
    ensures
        first_occurrences(s).to_set() == s.to_set(),
        first_occurrences(s).no_duplicates(),
    decreases s.len(),
{
    if s.len() > 0 {
        let t = s.drop_last();
        lemma_first_occurrences(t);
        assert(s =~= t.push(s.last()));
        assert(s.to_set() =~= t.to_set().insert(s.last()));
        if t.contains(s.last()) {
            assert(t.to_set().insert(s.last()) =~= t.to_set());
        } else {
            let r = first_occurrences(t);
            assert forall|x: A| r.push(s.last()).contains(x) <==> r.to_set().insert(s.last()).contains(x) by {
                if r.push(s.last()).contains(x) {
                    let k = choose|k: int| 0 <= k < r.len() + 1 && r.push(s.last())[k] == x;
                    if k < r.len() {
                        assert(r[k] == x);
                    }
                }
                if r.contains(x) {
                    let k = choose|k: int| 0 <= k < r.len() && r[k] == x;
                    assert(r.push(s.last())[k] == x);
                }
                if x == s.last() {
                    assert(r.push(s.last())[r.len() as int] == x);
                }
            }
            assert(r.push(s.last()).to_set() =~= r.to_set().insert(s.last()));
            assert(!r.contains(s.last())) by {
                if r.contains(s.last()) {
                    assert(r.to_set().contains(s.last()));
                }
            }
        }
    }
}


/// (item index, sub-index) pairs: for each item in order, one pair per sub-item.
pub open spec fn flat_positions<A>(s: Seq<A>, count: spec_fn(A) -> nat) -> Seq<(int, int)>
    decreases s.len(),
{
    if s.len() == 0 {
        Seq::empty()
    } else {
        flat_positions(s.drop_last(), count) + Seq::new(count(s.last()), |j: int| ((s.len() - 1) as int, j))
    }
}

/// Positions `(i, 0..j)` after all positions of the first `i` items.
pub open spec fn flat_prefix<A>(s: Seq<A>, count: spec_fn(A) -> nat, i: int, j: int) -> Seq<(int, int)> {
    flat_positions(s.take(i), count) + Seq::new(j as nat, |jj: int| (i, jj))
}

/// The prefix through a whole item is the positions of the next-longer item prefix.
pub proof fn lemma_flat_prefix_next<A>(s: Seq<A>, count: spec_fn(A) -> nat, i: int)
    requires
        0 <= i < s.len(),
    ensures
        flat_prefix(s, count, i, count(s[i]) as int) == flat_positions(s.take(i + 1), count),
        flat_prefix(s, count, i, 0) == flat_positions(s.take(i), count),
{
    assert(s.take(i + 1).drop_last() =~= s.take(i));
    assert(s.take(i + 1).last() == s[i]);
    assert(flat_prefix(s, count, i, count(s[i]) as int) =~= flat_positions(s.take(i + 1), count));
    assert(flat_prefix(s, count, i, 0) =~= flat_positions(s.take(i), count));
}

/// The elements whose key does not occur for an earlier element, in order.
pub open spec fn kept_first<P>(s: Seq<P>, key: spec_fn(P) -> Seq<char>) -> Seq<P>
    decreases s.len(),
{
    if s.len() == 0 {
        Seq::empty()
    } else {
        let rest = kept_first(s.drop_last(), key);
        if s.drop_last().map_values(key).contains(key(s.last())) {
            rest
        } else {
            rest.push(s.last())
        }
    }
}

/// Appending an element keeps it exactly when its key is new.
pub proof fn lemma_kept_first_step<P>(s: Seq<P>, x: P, key: spec_fn(P) -> Seq<char>)
    ensures
        kept_first(s.push(x), key) == (if s.map_values(key).contains(key(x)) {
            kept_first(s, key)
        } else {
            kept_first(s, key).push(x)
        }),
        s.push(x).map_values(key) == s.map_values(key).push(key(x)),
{
    assert(s.push(x).drop_last() =~= s);
    assert(s.push(x).map_values(key) =~= s.map_values(key).push(key(x)));
}

/// An element is in a pushed sequence when it is the pushed element or was there before.
pub proof fn lemma_push_contains<A>(s: Seq<A>, a: A, x: A)
    ensures
        s.push(a).contains(x) <==> (s.contains(x) || x == a),
{
    if s.push(a).contains(x) {
        let k = choose|k: int| 0 <= k < s.push(a).len() && s.push(a)[k] == x;
        if k < s.len() {
            assert(s[k] == x);
        }
    }
    if s.contains(x) {
        let k = choose|k: int| 0 <= k < s.len() && s[k] == x;
        assert(s.push(a)[k] == x);
    }
    if x == a {
        assert(s.push(a)[s.len() as int] == x);
    }
}

/// The kept elements carry every key of the sequence, each once.
pub proof fn lemma_kept_first_keys<P>(s: Seq<P>, key: spec_fn(P) -> Seq<char>)
    ensures
        forall|x: Seq<char>| #[trigger] s.map_values(key).contains(x) <==> kept_first(s, key).map_values(key).contains(x),
        kept_first(s, key).map_values(key).no_duplicates(),
    decreases s.len(),
{
    if s.len() > 0 {
        let t = s.drop_last();
        let y = s.last();
        lemma_kept_first_keys(t, key);
        lemma_kept_first_step(t, y, key);
        assert(s =~= t.push(y));
        let kt = kept_first(t, key);
        let tk = t.map_values(key);
        let kk = kt.map_values(key);
        let ky = key(y);
        assert(s.map_values(key) == tk.push(ky));
        if tk.contains(ky) {
            assert forall|x: Seq<char>| #[trigger] s.map_values(key).contains(x) <==> kept_first(s, key).map_values(key).contains(x) by {
                lemma_push_contains(tk, ky, x);
            }
        } else {
            assert(kt.push(y).map_values(key) =~= kk.push(ky));
            assert forall|x: Seq<char>| #[trigger] s.map_values(key).contains(x) <==> kept_first(s, key).map_values(key).contains(x) by {
                lemma_push_contains(tk, ky, x);
                lemma_push_contains(kk, ky, x);
            }
            assert(!kk.contains(ky));
            assert forall|i: int, j: int| 0 <= i < j < kk.push(ky).len() implies kk.push(ky)[i] != kk.push(ky)[j] by {
                if j == kk.len() {
                    assert(kk[i] == kk.push(ky)[i]);
                } else {
                    assert(kk[i] != kk[j]);
                }
            }
        }
    }
}

/// Appending a name keeps it exactly when it is new; `first_occurrences` and
/// its argument hold the same names.
proof fn lemma_first_occurrences_push(s: Seq<Seq<char>>, x: Seq<char>)
    ensures
        first_occurrences(s.push(x)) == (if s.contains(x) {
            first_occurrences(s)
        } else {
            first_occurrences(s).push(x)
        }),
        first_occurrences(s).contains(x) == s.contains(x),
{
    assert(s.push(x).drop_last() =~= s);
    lemma_first_occurrences(s);
    if s.contains(x) {
        assert(s.to_set().contains(x));
        assert(first_occurrences(s).to_set().contains(x));
    }
    if first_occurrences(s).contains(x) {
        assert(first_occurrences(s).to_set().contains(x));
        assert(s.to_set().contains(x));
    }
}

/// Appends `name` unless an equal string is already there, keeping `names`
/// the first occurrences of the names seen so far.
pub fn push_first_occurrence(names: &mut Vec<String>, name: String, Ghost(all): Ghost<Seq<Seq<char>>>)
    requires
        views(old(names)@) == first_occurrences(all),
    ensures
        views(final(names)@) == first_occurrences(all.push(name@)),
{
    proof {
        lemma_first_occurrences_push(all, name@);
    }
    if !contains_str(names, name.as_str()) {
        let ghost before = views(names@);
        names.push(name);
        assert(views(names@) =~= before.push(name@));
    }
}

} // verus!
