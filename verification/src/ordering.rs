//! Ordered selection of row indices: which rows of a flat result stand for
//! an entity, and in what order those entities are listed.

use vstd::prelude::*;

verus! {

/// A choice among the indices `0..count()` together with a strict total
/// order in which the chosen indices are to be listed.
pub trait Listing {
    /// Number of rows the choice ranges over.
    spec fn count(&self) -> int;

    /// Whether row `i` is chosen.
    spec fn picks(&self, i: int) -> bool;

    /// Whether row `i` is listed ahead of row `j`.
    spec fn before(&self, i: int, j: int) -> bool;

    /// `before` is a strict total order on the indices in range.
    proof fn before_is_strict_total(&self, i: int, j: int, k: int)
        requires
            0 <= i < self.count(),
            0 <= j < self.count(),
            0 <= k < self.count(),
        ensures
            !self.before(i, i),
            i != j ==> self.before(i, j) || self.before(j, i),
            self.before(i, j) && self.before(j, k) ==> self.before(i, k),
    ;
}

/// A listing that can be evaluated on the rows at hand.
pub trait Selection: Listing {
    fn len(&self) -> (n: usize)
        ensures
            n == self.count(),
    ;

    fn pick(&self, i: usize) -> (b: bool)
        requires
            i < self.count(),
        ensures
            b == self.picks(i as int),
    ;

    fn precedes(&self, i: usize, j: usize) -> (b: bool)
        requires
            i < self.count(),
            j < self.count(),
        ensures
            b == self.before(i as int, j as int),
    ;
}

/// `order` lists exactly the chosen indices, every entry ahead of all that
/// follow it.
pub open spec fn is_enumeration<S: Listing>(sel: &S, order: Seq<int>) -> bool {
    &&& forall|k: int|
        0 <= k < order.len() ==> 0 <= #[trigger] order[k] < sel.count() && sel.picks(order[k])
    &&& forall|i: int| 0 <= i < sel.count() && #[trigger] sel.picks(i) ==> order.contains(i)
    &&& forall|k: int, l: int|
        0 <= k < l < order.len() ==> sel.before(#[trigger] order[k], #[trigger] order[l])
}

/// The indices of a vector as mathematical integers.
pub open spec fn indices(order: Seq<usize>) -> Seq<int> {
    order.map_values(|i: usize| i as int)
}

/// An enumeration of one listing is an enumeration of any listing that
/// chooses and orders the same way.
pub proof fn enumeration_carries_over<S: Listing, T: Listing>(s: &S, t: &T, order: Seq<int>)
    requires
        is_enumeration(s, order),
        s.count() == t.count(),
        forall|i: int|
            #![trigger s.picks(i)]
            #![trigger t.picks(i)]
            0 <= i < s.count() ==> s.picks(i) == t.picks(i),
        forall|i: int, j: int|
            #![trigger s.before(i, j)]
            #![trigger t.before(i, j)]
            0 <= i < s.count() && 0 <= j < s.count() ==> s.before(i, j) == t.before(i, j),
    ensures
        is_enumeration(t, order),
{
    assert forall|k: int, l: int| 0 <= k < l < order.len() implies t.before(
        #[trigger] order[k],
        #[trigger] order[l],
    ) by {
        assert(s.before(order[k], order[l]));
    }
}

/// Two enumerations of one selection agree on their first `n` entries.
proof fn enumerations_agree_upto<S: Listing>(sel: &S, a: Seq<int>, b: Seq<int>, n: int)
    requires
        is_enumeration(sel, a),
        is_enumeration(sel, b),
        0 <= n <= a.len(),
        n <= b.len(),
    ensures
        forall|k: int| 0 <= k < n ==> a[k] == b[k],
    decreases n,
{
    if n > 0 {
        enumerations_agree_upto(sel, a, b, n - 1);
        let m = n - 1;
        let x = a[m];
        let y = b[m];
        if x != y {
            // Each of the two stands further back in the other list, so each
            // would have to come ahead of the other.
            assert(sel.picks(y));
            assert(a.contains(y));
            let p = choose|p: int| 0 <= p < a.len() && a[p] == y;
            if p < m {
                assert(sel.before(b[p], b[m]));
                sel.before_is_strict_total(y, y, y);
            }
            assert(sel.before(a[m], a[p]));
            assert(sel.picks(x));
            assert(b.contains(x));
            let q = choose|q: int| 0 <= q < b.len() && b[q] == x;
            if q < m {
                assert(sel.before(a[q], a[m]));
                sel.before_is_strict_total(x, x, x);
            }
            assert(sel.before(b[m], b[q]));
            sel.before_is_strict_total(x, y, x);
            assert(false);
        }
    }
}

/// One enumeration of a selection is no longer than another.
proof fn enumeration_no_longer<S: Listing>(sel: &S, a: Seq<int>, b: Seq<int>)
    requires
        is_enumeration(sel, a),
        is_enumeration(sel, b),
    ensures
        a.len() <= b.len(),
{
    if a.len() > b.len() {
        let n = b.len() as int;
        enumerations_agree_upto(sel, a, b, n);
        let x = a[n];
        assert(sel.picks(x));
        assert(b.contains(x));
        let q = choose|q: int| 0 <= q < b.len() && b[q] == x;
        assert(sel.before(a[q], a[n]));
        sel.before_is_strict_total(x, x, x);
    }
}

/// A selection has one enumeration only.
pub proof fn enumeration_is_unique<S: Listing>(sel: &S, a: Seq<int>, b: Seq<int>)
    requires
        is_enumeration(sel, a),
        is_enumeration(sel, b),
    ensures
        a == b,
{
    enumeration_no_longer(sel, a, b);
    enumeration_no_longer(sel, b, a);
    enumerations_agree_upto(sel, a, b, a.len() as int);
    assert(a =~= b);
}

/// Lists the chosen rows in their order.
pub fn enumerate<S: Selection>(sel: &S) -> (order: Vec<usize>)
    ensures
        is_enumeration(sel, indices(order@)),
{
    let n: usize = sel.len();
    let mut order: Vec<usize> = Vec::new();
    let mut i: usize = 0;
    while i < n
        invariant
            n == sel.count(),
            i <= n,
            forall|k: int|
                0 <= k < order@.len() ==> 0 <= #[trigger] indices(order@)[k] < i && sel.picks(
                    indices(order@)[k],
                ),
            forall|j: int| 0 <= j < i && #[trigger] sel.picks(j) ==> indices(order@).contains(j),
            forall|k: int, l: int|
                0 <= k < l < order@.len() ==> sel.before(
                    #[trigger] indices(order@)[k],
                    #[trigger] indices(order@)[l],
                ),
        decreases n - i,
    {
        if sel.pick(i) {
            let mut p: usize = 0;
            let mut placed: bool = false;
            while p < order.len() && !placed
                invariant
                    n == sel.count(),
                    i < n,
                    p <= order@.len(),
                    forall|k: int|
                        0 <= k < order@.len() ==> 0 <= #[trigger] indices(order@)[k] < i,
                    forall|k: int|
                        0 <= k < p ==> sel.before(#[trigger] indices(order@)[k], i as int),
                    placed ==> p < order@.len() && !sel.before(indices(order@)[p as int], i as int),
                decreases order@.len() - p + (if placed { 0int } else { 1int }),
            {
                assert(indices(order@)[p as int] == order@[p as int]);
                if sel.precedes(order[p], i) {
                    p = p + 1;
                } else {
                    placed = true;
                }
            }
            let ghost before_insert = indices(order@);
            proof {
                assert forall|l: int| p <= l < before_insert.len() implies sel.before(
                    i as int,
                    #[trigger] before_insert[l],
                ) by {
                    let pi = p as int;
                    assert(0 <= before_insert[pi] < i);
                    sel.before_is_strict_total(before_insert[pi], i as int, before_insert[l]);
                    sel.before_is_strict_total(i as int, before_insert[pi], before_insert[l]);
                    if pi < l {
                        assert(sel.before(before_insert[pi], before_insert[l]));
                    }
                }
            }
            order.insert(p, i);
            proof {
                let after = indices(order@);
                assert(after =~= before_insert.insert(p as int, i as int));
                assert forall|j: int| 0 <= j < i + 1 && #[trigger] sel.picks(j) implies after.contains(
                    j,
                ) by {
                    if j == i {
                        assert(after[p as int] == j);
                    } else {
                        assert(before_insert.contains(j));
                        let k = choose|k: int| 0 <= k < before_insert.len() && before_insert[k] == j;
                        if k < p {
                            assert(after[k] == j);
                        } else {
                            assert(after[k + 1] == j);
                        }
                    }
                }
                assert forall|k: int, l: int| 0 <= k < l < after.len() implies sel.before(
                    #[trigger] after[k],
                    #[trigger] after[l],
                ) by {
                    let pi = p as int;
                    if l < pi {
                        assert(after[k] == before_insert[k] && after[l] == before_insert[l]);
                    } else if l == pi {
                        assert(after[k] == before_insert[k]);
                    } else if k < pi {
                        assert(after[k] == before_insert[k] && after[l] == before_insert[l - 1]);
                        if l - 1 == k {
                        } else {
                            assert(sel.before(before_insert[k], before_insert[l - 1]));
                        }
                    } else if k == pi {
                        assert(after[l] == before_insert[l - 1]);
                    } else {
                        assert(after[k] == before_insert[k - 1] && after[l] == before_insert[l - 1]);
                    }
                }
                assert forall|k: int| 0 <= k < after.len() implies 0 <= #[trigger] after[k] < i + 1
                    && sel.picks(after[k]) by {
                    let pi = p as int;
                    if k < pi {
                        assert(after[k] == before_insert[k]);
                    } else if k > pi {
                        assert(after[k] == before_insert[k - 1]);
                    }
                }
            }
        }
        i = i + 1;
    }
    order
}

} // verus!
