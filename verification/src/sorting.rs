//! Stable sorting by a total preorder.
use vstd::prelude::*;

verus! {

/// Values with a total preorder.
pub trait Ranked: Sized {
    /// Whether this value may stand before the other.
    spec fn before(self, other: Self) -> bool;

    /// Whether this value may stand before the other.
    fn is_before(&self, other: &Self) -> (r: bool)
        ensures
            r == self.before(*other),
    ;

    /// Of two values one may stand before the other.
    proof fn before_total(a: Self, b: Self)
        ensures
            a.before(b) || b.before(a),
    ;

    /// What may stand before a value may stand before all that follow it.
    proof fn before_transitive(a: Self, b: Self, c: Self)
        requires
            a.before(b),
            b.before(c),
        ensures
            a.before(c),
    ;
}

/// Whether `order` lists positions of `items` so that the items come in order,
/// and items of equal rank keep the order of their positions.
pub open spec fn is_sorted_order<T: Ranked>(items: Seq<T>, order: Seq<usize>) -> bool {
    &&& forall|i: int| 0 <= i < order.len() ==> (#[trigger] order[i]) < items.len()
    &&& forall|i: int, j: int|
        0 <= i < j < order.len() ==> {
            let a = items[#[trigger] order[i] as int];
            let b = items[#[trigger] order[j] as int];
            &&& a.before(b)
            &&& b.before(a) ==> order[i] < order[j]
        }
}

/// Whether `order` lists each of the first `n` positions once.
pub open spec fn lists_each(order: Seq<usize>, n: int) -> bool {
    &&& order.len() == n
    &&& order.no_duplicates()
    &&& forall|i: int| 0 <= i < order.len() ==> (#[trigger] order[i]) < n
    &&& forall|k: usize| k < n ==> #[trigger] order.contains(k)
}

/// The positions of the items in sorted order.
pub fn sorted_order<T: Ranked>(items: &Vec<T>) -> (order: Vec<usize>)
    ensures
        is_sorted_order(items@, order@),
        lists_each(order@, items@.len() as int),
{
    let mut order: Vec<usize> = Vec::new();
    let mut m: usize = 0;
    while m < items.len()
        invariant
            0 <= m <= items@.len(),
            is_sorted_order(items@, order@),
            lists_each(order@, m as int),
        decreases items@.len() - m,
    {
        let mut pos: usize = order.len();
        let mut placed = false;
        while pos > 0 && !placed
            invariant
                0 <= pos <= order@.len(),
                m < items@.len(),
                is_sorted_order(items@, order@),
                lists_each(order@, m as int),
                forall|q: int|
                    pos <= q < order@.len() ==> !items@[(#[trigger] order@[q]) as int].before(
                        items@[m as int],
                    ),
                placed ==> pos > 0 && items@[order@[pos - 1] as int].before(items@[m as int]),
            decreases pos + (if placed {
                0int
            } else {
                1int
            }),
        {
            if items[order[pos - 1]].is_before(&items[m]) {
                placed = true;
            } else {
                pos = pos - 1;
            }
        }
        let ghost old_order = order@;
        order.insert(pos, m);
        proof {
            let it = items@;
            let p = pos as int;
            assert forall|i: int, j: int| 0 <= i < j < order@.len() implies ({
                let a = it[#[trigger] order@[i] as int];
                let b = it[#[trigger] order@[j] as int];
                &&& a.before(b)
                &&& b.before(a) ==> order@[i] < order@[j]
            }) by {
                if j == p {
                    assert(order@[i] == old_order[i]);
                    if i < p - 1 {
                        T::before_transitive(
                            it[old_order[i] as int],
                            it[old_order[p - 1] as int],
                            it[m as int],
                        );
                    }
                } else if i == p {
                    assert(order@[j] == old_order[j - 1]);
                    T::before_total(it[m as int], it[old_order[j - 1] as int]);
                } else {
                    let i0 = if i < p { i } else { i - 1 };
                    let j0 = if j < p { j } else { j - 1 };
                    assert(order@[i] == old_order[i0]);
                    assert(order@[j] == old_order[j0]);
                }
            }
            assert forall|i: int| 0 <= i < order@.len() implies (#[trigger] order@[i]) <= m by {
                if i < p {
                    assert(order@[i] == old_order[i]);
                } else if i > p {
                    assert(order@[i] == old_order[i - 1]);
                }
            }
            assert forall|i: int, j: int|
                0 <= i < order@.len() && 0 <= j < order@.len() && i != j implies order@[i]
                != order@[j] by {
                if i != p {
                    let i0 = if i < p { i } else { i - 1 };
                    assert(order@[i] == old_order[i0]);
                }
                if j != p {
                    let j0 = if j < p { j } else { j - 1 };
                    assert(order@[j] == old_order[j0]);
                }
            }
            assert forall|k: usize| k < m + 1 implies #[trigger] order@.contains(k) by {
                if k == m {
                    assert(order@[p] == k);
                } else {
                    assert(old_order.contains(k));
                    let w = choose|w: int| 0 <= w < old_order.len() && old_order[w] == k;
                    let w1 = if w < p { w } else { w + 1 };
                    assert(order@[w1] == k);
                }
            }
        }
        m = m + 1;
    }
    order
}

/// A number that ranks the higher the larger it is.
pub struct Highest {
    pub key: u64,
}

impl Ranked for Highest {
    open spec fn before(self, other: Self) -> bool {
        self.key >= other.key
    }

    fn is_before(&self, other: &Self) -> (r: bool) {
        self.key >= other.key
    }

    proof fn before_total(a: Self, b: Self) {
    }

    proof fn before_transitive(a: Self, b: Self, c: Self) {
    }
}

/// A number that ranks the higher the smaller it is.
pub struct Lowest {
    pub key: u64,
}

impl Ranked for Lowest {
    open spec fn before(self, other: Self) -> bool {
        self.key <= other.key
    }

    fn is_before(&self, other: &Self) -> (r: bool) {
        self.key <= other.key
    }

    proof fn before_total(a: Self, b: Self) {
    }

    proof fn before_transitive(a: Self, b: Self, c: Self) {
    }
}

/// Whether one byte string comes before another or equals it: at the first
/// difference the smaller byte, or the end, comes first.
pub open spec fn bytes_le(a: Seq<u8>, b: Seq<u8>) -> bool
    decreases a.len(),
{
    if a.len() == 0 {
        true
    } else if b.len() == 0 {
        false
    } else if a[0] != b[0] {
        a[0] < b[0]
    } else {
        bytes_le(a.skip(1), b.skip(1))
    }
}

/// Whether one byte string comes before another or equals it.
pub fn bytes_in_order(a: &Vec<u8>, b: &Vec<u8>) -> (r: bool)
    ensures
        r == bytes_le(a@, b@),
{
    let mut i: usize = 0;
    assert(a@.skip(0) =~= a@);
    assert(b@.skip(0) =~= b@);
    while i < a.len() && i < b.len()
        invariant
            0 <= i <= a@.len(),
            i <= b@.len(),
            bytes_le(a@, b@) == bytes_le(a@.skip(i as int), b@.skip(i as int)),
        decreases a@.len() - i,
    {
        assert(a@.skip(i as int)[0] == a@[i as int]);
        assert(b@.skip(i as int)[0] == b@[i as int]);
        if a[i] != b[i] {
            return a[i] < b[i];
        }
        assert(a@.skip(i as int).skip(1) =~= a@.skip(i + 1));
        assert(b@.skip(i as int).skip(1) =~= b@.skip(i + 1));
        i = i + 1;
    }
    i >= a.len()
}

/// Of two byte strings one comes before the other.
pub proof fn bytes_le_total(a: Seq<u8>, b: Seq<u8>)
    ensures
        bytes_le(a, b) || bytes_le(b, a),
    decreases a.len(),
{
    if a.len() > 0 && b.len() > 0 && a[0] == b[0] {
        bytes_le_total(a.skip(1), b.skip(1));
    }
}

/// The order of byte strings is transitive.
pub proof fn bytes_le_transitive(a: Seq<u8>, b: Seq<u8>, c: Seq<u8>)
    requires
        bytes_le(a, b),
        bytes_le(b, c),
    ensures
        bytes_le(a, c),
    decreases a.len(),
{
    if a.len() > 0 && b.len() > 0 && c.len() > 0 && a[0] == b[0] && b[0] == c[0] {
        bytes_le_transitive(a.skip(1), b.skip(1), c.skip(1));
    }
}

} // verus!
