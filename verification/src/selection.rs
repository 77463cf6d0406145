//! Ordered selection of the rows a scan admits: the eligible positions
//! ordered by a timestamp key, oldest or newest first, ties kept in scan
//! order (what a stable sort by that key of the filtered rows yields), and
//! the limit/offset window a listing returns of it.
use vstd::prelude::*;

verus! {

/// Row `a` comes before row `b`: a key earlier in the chosen direction
/// (smaller when oldest first, larger when newest first), or the same key
/// and an earlier scan position.
pub open spec fn key_before(keys: Seq<i64>, a: int, b: int, newest_first: bool) -> bool {
    (if newest_first {
        keys[a] > keys[b]
    } else {
        keys[a] < keys[b]
    }) || (keys[a] == keys[b] && a < b)
}

/// `r` lists exactly the eligible positions, each once, in key order.
pub open spec fn is_ordered_selection(
    keys: Seq<i64>,
    eligible: Seq<bool>,
    r: Seq<usize>,
    newest_first: bool,
) -> bool {
    &&& forall|i: int| 0 <= i < r.len() ==> (#[trigger] r[i] as int) < keys.len() && eligible[r[i] as int]
    &&& forall|j: int| 0 <= j < keys.len() && eligible[j] ==> r.contains(j as usize)
    &&& forall|i: int, k: int|
        0 <= i < k < r.len() ==> key_before(keys, #[trigger] r[i] as int, #[trigger] r[k] as int, newest_first)
}

/// `r` lists exactly the eligible positions, each once, oldest first.
pub open spec fn is_oldest_first_selection(keys: Seq<i64>, eligible: Seq<bool>, r: Seq<usize>) -> bool {
    is_ordered_selection(keys, eligible, r, false)
}

/// `r` lists exactly the eligible positions, each once, newest first.
pub open spec fn is_newest_first_selection(keys: Seq<i64>, eligible: Seq<bool>, r: Seq<usize>) -> bool {
    is_ordered_selection(keys, eligible, r, true)
}

/// `x` is at or before `y` in the chosen direction.
pub open spec fn not_after(x: i64, y: i64, newest_first: bool) -> bool {
    if newest_first {
        x >= y
    } else {
        x <= y
    }
}

fn not_after_exec(x: i64, y: i64, newest_first: bool) -> (r: bool)
    ensures
        r == not_after(x, y, newest_first),
{
    if newest_first {
        x >= y
    } else {
        x <= y
    }
}

/// The eligible positions, oldest key first, ties in scan order.
pub fn oldest_first_selection(keys: &Vec<i64>, eligible: &Vec<bool>) -> (r: Vec<usize>)
    requires
        keys@.len() == eligible@.len(),
    ensures
        is_oldest_first_selection(keys@, eligible@, r@),
{
    ordered_selection(keys, eligible, false)
}

/// The eligible positions, newest key first, ties in scan order.
pub fn newest_first_selection(keys: &Vec<i64>, eligible: &Vec<bool>) -> (r: Vec<usize>)
    requires
        keys@.len() == eligible@.len(),
    ensures
        is_newest_first_selection(keys@, eligible@, r@),
{
    ordered_selection(keys, eligible, true)
}

/// The eligible positions in key order, ties in scan order.
pub fn ordered_selection(keys: &Vec<i64>, eligible: &Vec<bool>, newest_first: bool) -> (r: Vec<usize>)
    requires
        keys@.len() == eligible@.len(),
    ensures
        is_ordered_selection(keys@, eligible@, r@, newest_first),
{
    let n = keys.len();
    let mut r: Vec<usize> = Vec::new();
    let mut idx: usize = 0;
    while idx < n
        invariant
            n == keys@.len(),
            n == eligible@.len(),
            idx <= n,
            forall|i: int| 0 <= i < r@.len() ==> (#[trigger] r@[i] as int) < idx && eligible@[r@[i] as int],
            forall|j: int| 0 <= j < idx && eligible@[j] ==> r@.contains(j as usize),
            forall|i: int, k: int|
                0 <= i < k < r@.len() ==> key_before(
                    keys@,
                    #[trigger] r@[i] as int,
                    #[trigger] r@[k] as int,
                    newest_first,
                ),
        decreases n - idx,
    {
        if eligible[idx] {
            let key = keys[idx];
            let mut pos: usize = 0;
            while pos < r.len() && not_after_exec(keys[r[pos]], key, newest_first)
                invariant
                    n == keys@.len(),
                    idx < n,
                    key == keys@[idx as int],
                    pos <= r@.len(),
                    forall|i: int| 0 <= i < r@.len() ==> (#[trigger] r@[i] as int) < idx,
                    forall|i: int| 0 <= i < pos ==> not_after(keys@[#[trigger] r@[i] as int], key, newest_first),
                decreases r@.len() - pos,
            {
                pos = pos + 1;
            }
            let ghost old_r = r@;
            proof {
                // Every element from `pos` on has a key strictly after `key`.
                assert forall|k: int| pos <= k < old_r.len() implies !not_after(
                    keys@[#[trigger] old_r[k] as int],
                    key,
                    newest_first,
                ) by {
                    if k > pos {
                        assert(key_before(keys@, old_r[pos as int] as int, old_r[k] as int, newest_first));
                    }
                }
            }
            r.insert(pos, idx);
            proof {
                assert(r@ == old_r.insert(pos as int, idx));
                assert forall|i: int, k: int| 0 <= i < k < r@.len() implies key_before(
                    keys@,
                    #[trigger] r@[i] as int,
                    #[trigger] r@[k] as int,
                    newest_first,
                ) by {
                    if k < pos {
                        assert(r@[i] == old_r[i]);
                        assert(r@[k] == old_r[k]);
                    } else if k == pos {
                        assert(r@[i] == old_r[i]);
                    } else if i < pos {
                        assert(r@[i] == old_r[i]);
                        assert(r@[k] == old_r[k - 1]);
                        assert(not_after(keys@[old_r[i] as int], key, newest_first));
                    } else if i == pos {
                        assert(r@[k] == old_r[k - 1]);
                    } else {
                        assert(r@[i] == old_r[i - 1]);
                        assert(r@[k] == old_r[k - 1]);
                    }
                }
                assert forall|j: int| 0 <= j < idx + 1 && eligible@[j] implies r@.contains(
                    j as usize,
                ) by {
                    if j == idx {
                        assert(r@[pos as int] == idx);
                    } else {
                        assert(old_r.contains(j as usize));
                        let w = choose|w: int| 0 <= w < old_r.len() && old_r[w] == j as usize;
                        if w < pos {
                            assert(r@[w] == j as usize);
                        } else {
                            assert(r@[w + 1] == j as usize);
                        }
                    }
                }
                assert forall|i: int| 0 <= i < r@.len() implies (#[trigger] r@[i] as int) < idx + 1
                    && eligible@[r@[i] as int] by {
                    if i < pos {
                        assert(r@[i] == old_r[i]);
                    } else if i > pos {
                        assert(r@[i] == old_r[i - 1]);
                    }
                }
            }
        }
        idx = idx + 1;
    }
    r
}

/// Keep the first `max(limit, 1)` entries of a selection.
pub fn truncate_to_limit(r: &mut Vec<usize>, limit: i64)
    ensures
        ({
            let cap: int = if limit < 1 {
                1
            } else {
                limit as int
            };
            if cap < old(r)@.len() {
                final(r)@ == old(r)@.subrange(0, cap)
            } else {
                final(r)@ == old(r)@
            }
        }),
{
    let cap: i64 = if limit < 1 {
        1
    } else {
        limit
    };
    if (cap as u64 as u128) < (r.len() as u128) {
        let c: usize = cap as usize;
        r.truncate(c);
    }
}

/// A prefix of an ordered selection is still in key order and holds only
/// eligible positions.
pub proof fn lemma_selection_prefix_ordered(
    keys: Seq<i64>,
    eligible: Seq<bool>,
    r: Seq<usize>,
    n: int,
    newest_first: bool,
)
    requires
        is_ordered_selection(keys, eligible, r, newest_first),
        0 <= n <= r.len(),
    ensures
        forall|i: int| 0 <= i < n ==> (#[trigger] r.subrange(0, n)[i] as int) < keys.len()
            && eligible[r[i] as int],
        forall|i: int, k: int|
            0 <= i < k < n ==> key_before(keys, #[trigger] r.subrange(0, n)[i] as int, #[trigger] r.subrange(0, n)[k] as int, newest_first),
{
    assert forall|i: int| 0 <= i < n implies (#[trigger] r.subrange(0, n)[i] as int) < keys.len()
        && eligible[r[i] as int] by {
        assert(r.subrange(0, n)[i] == r[i]);
    }
    assert forall|i: int, k: int| 0 <= i < k < n implies key_before(
        keys,
        #[trigger] r.subrange(0, n)[i] as int,
        #[trigger] r.subrange(0, n)[k] as int,
        newest_first,
    ) by {
        assert(r.subrange(0, n)[i] == r[i]);
        assert(r.subrange(0, n)[k] == r[k]);
    }
}

/// The selection is unique: two lists that both select the eligible
/// positions in the same key order are equal.
pub proof fn lemma_selection_unique(
    keys: Seq<i64>,
    eligible: Seq<bool>,
    a: Seq<usize>,
    b: Seq<usize>,
    newest_first: bool,
)
    requires
        keys.len() == eligible.len(),
        keys.len() <= usize::MAX,
        is_ordered_selection(keys, eligible, a, newest_first),
        is_ordered_selection(keys, eligible, b, newest_first),
    ensures
        a == b,
    decreases a.len() + b.len(),
{
    if a.len() == 0 && b.len() == 0 {
        assert(a =~= b);
    } else if a.len() == 0 {
        assert(b.contains(b[0]));
        assert(a.contains(b[0]));
    } else if b.len() == 0 {
        assert(b.contains(a[0]));
    } else {
        // The heads agree: each is the earliest of the other's elements.
        assert(b.contains(a[0]));
        assert(a.contains(b[0]));
        let wa = choose|w: int| 0 <= w < a.len() && a[w] == b[0];
        let wb = choose|w: int| 0 <= w < b.len() && b[w] == a[0];
        if a[0] != b[0] {
            assert(wa > 0);
            assert(wb > 0);
            assert(key_before(keys, a[0] as int, a[wa] as int, newest_first));
            assert(key_before(keys, b[0] as int, b[wb] as int, newest_first));
            assert(false);
        }
        assert(a[0] == b[0]);
        // The tails select the remaining eligible positions.
        let e2 = eligible.update(a[0] as int, false);
        assert forall|i: int| 0 <= i < a.len() - 1 implies (#[trigger] a.skip(1)[i] as int) < keys.len()
            && e2[a.skip(1)[i] as int] by {
            assert(a.skip(1)[i] == a[i + 1]);
            assert(key_before(keys, a[0] as int, a[i + 1] as int, newest_first));
            assert(a[i + 1] != a[0]);
        }
        assert forall|i: int| 0 <= i < b.len() - 1 implies (#[trigger] b.skip(1)[i] as int) < keys.len()
            && e2[b.skip(1)[i] as int] by {
            assert(b.skip(1)[i] == b[i + 1]);
            assert(key_before(keys, b[0] as int, b[i + 1] as int, newest_first));
            assert(b[i + 1] != b[0]);
        }
        assert forall|j: int| 0 <= j < keys.len() && e2[j] implies a.skip(1).contains(j as usize) by {
            assert(a.contains(j as usize));
            let w = choose|w: int| 0 <= w < a.len() && a[w] == j as usize;
            if w == 0 {
                assert(j == a[0] as int);
                assert(!e2[a[0] as int]);
            }
            assert(a.skip(1)[w - 1] == j as usize);
        }
        assert forall|j: int| 0 <= j < keys.len() && e2[j] implies b.skip(1).contains(j as usize) by {
            assert(b.contains(j as usize));
            let w = choose|w: int| 0 <= w < b.len() && b[w] == j as usize;
            if w == 0 {
                assert(j == b[0] as int);
                assert(!e2[b[0] as int]);
            }
            assert(b.skip(1)[w - 1] == j as usize);
        }
        assert forall|i: int, k: int| 0 <= i < k < a.len() - 1 implies key_before(
            keys,
            #[trigger] a.skip(1)[i] as int,
            #[trigger] a.skip(1)[k] as int,
            newest_first,
        ) by {
            assert(a.skip(1)[i] == a[i + 1]);
            assert(a.skip(1)[k] == a[k + 1]);
        }
        assert forall|i: int, k: int| 0 <= i < k < b.len() - 1 implies key_before(
            keys,
            #[trigger] b.skip(1)[i] as int,
            #[trigger] b.skip(1)[k] as int,
            newest_first,
        ) by {
            assert(b.skip(1)[i] == b[i + 1]);
            assert(b.skip(1)[k] == b[k + 1]);
        }
        lemma_selection_unique(keys, e2, a.skip(1), b.skip(1), newest_first);
        assert(a =~= seq![a[0]] + a.skip(1));
        assert(b =~= seq![b[0]] + b.skip(1));
    }
}

} // verus!
