//! Lists in which nothing occurs twice.
use vstd::prelude::*;

verus! {

/// A list without duplicates has none after some of its items were dropped.
pub proof fn filtered_once<A>(s: Seq<A>, keep: spec_fn(A) -> bool)
    requires
        s.no_duplicates(),
    ensures
        s.filter(keep).no_duplicates(),
        forall|x: A| #[trigger] s.filter(keep).contains(x) == (s.contains(x) && keep(x)),
    decreases s.len(),
{
    reveal(Seq::filter);
    if s.len() > 0 {
        let rest = s.drop_last();
        let last = s.last();
        filtered_once(rest, keep);
        assert forall|x: A| #[trigger] s.contains(x) == (rest.contains(x) || x == last) by {
            if s.contains(x) && x != last {
                let i = choose|i: int| 0 <= i < s.len() && s[i] == x;
                assert(rest[i] == x);
            }
            if rest.contains(x) {
                let i = choose|i: int| 0 <= i < rest.len() && rest[i] == x;
                assert(s[i] == x);
            }
            if x == last {
                assert(s[s.len() - 1] == x);
            }
        }
        let kept = rest.filter(keep);
        if keep(last) {
            assert(s.filter(keep) == kept.push(last));
            assert(!rest.contains(last));
            assert(!kept.contains(last));
            pushed_once(kept, last);
        }
    }
}

/// A list without duplicates has none after a new item was added.
pub proof fn pushed_once<A>(s: Seq<A>, x: A)
    requires
        s.no_duplicates(),
        !s.contains(x),
    ensures
        s.push(x).no_duplicates(),
        forall|y: A| #[trigger] s.push(x).contains(y) == (s.contains(y) || y == x),
{
    assert forall|y: A| #[trigger] s.push(x).contains(y) == (s.contains(y) || y == x) by {
        if s.contains(y) {
            let i = choose|i: int| 0 <= i < s.len() && s[i] == y;
            assert(s.push(x)[i] == y);
        }
        if y == x {
            assert(s.push(x)[s.len() as int] == y);
        }
    }
}

} // verus!
