//! Keeping the first item of each name while items are produced group by group.
use vstd::prelude::*;

use crate::seqs::{kept_first, lemma_kept_first_keys, lemma_kept_first_step};
use crate::text::{contains_str, views};

verus! {

/// Items that carry a name to deduplicate by.
pub trait Keyed {
    spec fn key_view(&self) -> Seq<char>;

    fn key_str(&self) -> (r: &str)
        ensures
            r@ == self.key_view(),
    ;
}

/// `items` and `seen` correspond to the kept positions of `prefix`: one item per
/// kept position, satisfying `ok` there, and `seen` holds their names.
pub open spec fn dedup_state<C>(
    items: Seq<C>,
    seen: Seq<String>,
    prefix: Seq<(int, int)>,
    key: spec_fn((int, int)) -> Seq<char>,
    ok: spec_fn(C, (int, int)) -> bool,
) -> bool {
    let kept = kept_first(prefix, key);
    &&& items.len() == kept.len()
    &&& forall|k: int| 0 <= k < kept.len() ==> #[trigger] ok(items[k], kept[k])
    &&& views(seen) == kept.map_values(key)
}

/// The positions `(i, 0..n)`.
pub open spec fn group_positions(i: int, n: nat) -> Seq<(int, int)> {
    Seq::new(n, |j: int| (i, j))
}

/// Whether some kept position belongs to group `i`.
pub open spec fn group_kept(kept: Seq<(int, int)>, i: int) -> bool {
    exists|k: int| 0 <= k < kept.len() && #[trigger] kept[k].0 == i
}

/// Appends the items of group `i` whose names are new, in order.
pub fn absorb_group<C: Keyed>(
    items: &mut Vec<C>,
    seen: &mut Vec<String>,
    group: Vec<C>,
    Ghost(prefix): Ghost<Seq<(int, int)>>,
    Ghost(i): Ghost<int>,
    Ghost(key): Ghost<spec_fn((int, int)) -> Seq<char>>,
    Ghost(ok): Ghost<spec_fn(C, (int, int)) -> bool>,
) -> (any: bool)
    requires
        dedup_state(old(items)@, old(seen)@, prefix, key, ok),
        forall|j: int| 0 <= j < group@.len() ==> #[trigger] ok(group@[j], (i, j)),
        forall|j: int| 0 <= j < group@.len() ==> (#[trigger] group@[j]).key_view() == key((i, j)),
    ensures
        dedup_state(final(items)@, final(seen)@, prefix + group_positions(i, group@.len()), key, ok),
        kept_first(prefix + group_positions(i, group@.len()), key) == kept_first(prefix, key) + kept_first(
            prefix + group_positions(i, group@.len()),
            key,
        ).skip(kept_first(prefix, key).len() as int),
        forall|k: int|
            kept_first(prefix, key).len() <= k < kept_first(prefix + group_positions(i, group@.len()), key).len()
                ==> (#[trigger] kept_first(prefix + group_positions(i, group@.len()), key)[k]).0 == i,
        any == (kept_first(prefix + group_positions(i, group@.len()), key).len() > kept_first(prefix, key).len()),
{
    let ghost orig = group@;
    let ghost start = kept_first(prefix, key);
    let mut group = group;
    let n = group.len();
    let mut any = false;
    let mut j: usize = 0;
    assert(prefix + group_positions(i, 0) =~= prefix);
    while j < n
        invariant
            n == orig.len(),
            j <= n,
            group@ == orig.skip(j as int),
            forall|jj: int| 0 <= jj < orig.len() ==> #[trigger] ok(orig[jj], (i, jj)),
            forall|jj: int| 0 <= jj < orig.len() ==> (#[trigger] orig[jj]).key_view() == key((i, jj)),
            start == kept_first(prefix, key),
            dedup_state(items@, seen@, prefix + group_positions(i, j as nat), key, ok),
            kept_first(prefix + group_positions(i, j as nat), key) == start + kept_first(
                prefix + group_positions(i, j as nat),
                key,
            ).skip(start.len() as int),
            forall|k: int|
                start.len() <= k < kept_first(prefix + group_positions(i, j as nat), key).len()
                    ==> (#[trigger] kept_first(prefix + group_positions(i, j as nat), key)[k]).0 == i,
            any == (kept_first(prefix + group_positions(i, j as nat), key).len() > start.len()),
        decreases n - j,
    {
        let ghost p = prefix + group_positions(i, j as nat);
        let ghost kept = kept_first(p, key);
        let c = group.remove(0);
        proof {
            assert(c == orig[j as int]);
            assert(orig.skip(j as int).skip(1) =~= orig.skip(j + 1));
            assert(p.push((i, j as int)) =~= prefix + group_positions(i, (j + 1) as nat));
            lemma_kept_first_step(p, (i, j as int), key);
            lemma_kept_first_keys(p, key);
        }
        if !contains_str(seen, c.key_str()) {
            proof {
                assert(kept.push((i, j as int)).map_values(key) =~= kept.map_values(key).push(key((i, j as int))));
                assert(kept.push((i, j as int)).skip(start.len() as int) =~= kept.skip(start.len() as int).push((i, j as int)));
            }
            seen.push(crate::text::owned(c.key_str()));
            items.push(c);
            any = true;
            proof {
                let kept2 = kept.push((i, j as int));
                assert(views(seen@) =~= kept2.map_values(key));
            }
        }
        j = j + 1;
    }
    any
}

/// `flags[i]` tells whether operation `i` kept a method, for every operation below `n`.
pub open spec fn flags_match(flags: Seq<bool>, kept: Seq<(int, int)>, n: int) -> bool {
    &&& flags.len() == n
    &&& forall|x: int| 0 <= x < n ==> #[trigger] flags[x] == group_kept(kept, x)
}

/// Extending the kept positions by a group keeps the flags in step.
pub proof fn lemma_group_flags(used: Seq<bool>, before: Seq<(int, int)>, after: Seq<(int, int)>, i: int, any: bool)
    requires
        used.len() == i + 1,
        used[i] == any,
        forall|x: int| 0 <= x < i ==> #[trigger] used[x] == group_kept(before, x),
        forall|k: int| 0 <= k < before.len() ==> (#[trigger] before[k]).0 < i,
        after == before + after.skip(before.len() as int),
        forall|k: int| before.len() <= k < after.len() ==> (#[trigger] after[k]).0 == i,
        any == (after.len() > before.len()),
    ensures
        flags_match(used, after, i + 1),
        forall|k: int| 0 <= k < after.len() ==> (#[trigger] after[k]).0 < i + 1,
{
    assert forall|x: int| 0 <= x < i + 1 implies #[trigger] used[x] == group_kept(after, x) by {
        if x < i {
            if group_kept(before, x) {
                let k = choose|k: int| 0 <= k < before.len() && #[trigger] before[k].0 == x;
                assert(after[k] == before[k]);
            }
            if group_kept(after, x) {
                let k = choose|k: int| 0 <= k < after.len() && #[trigger] after[k].0 == x;
                if k < before.len() {
                    assert(after[k] == before[k]);
                }
            }
        } else {
            if any {
                assert(after[before.len() as int].0 == i);
            }
            if group_kept(after, x) {
                let k = choose|k: int| 0 <= k < after.len() && #[trigger] after[k].0 == x;
                if k < before.len() {
                    assert(after[k] == before[k]);
                }
            }
        }
    }
    assert forall|k: int| 0 <= k < after.len() implies (#[trigger] after[k]).0 < i + 1 by {
        if k < before.len() {
            assert(after[k] == before[k]);
        }
    }
}

} // verus!
