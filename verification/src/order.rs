//! Picking the greatest element out of a slice by a scan.

use core::cmp::Ordering;
use vstd::prelude::*;
use vstd::std_specs::cmp::PartialOrdSpec;

verus! {

/// The element a left-to-right scan of `s` keeps: the current element
/// replaces the best so far exactly when it compares strictly greater.
pub open spec fn running_largest<T: PartialOrd>(s: Seq<T>) -> T
    recommends
        s.len() > 0,
    decreases s.len(),
{
    if s.len() <= 1 {
        s[0]
    } else {
        let best = running_largest(s.drop_last());
        if s.last().partial_cmp_spec(&best) == Some(Ordering::Greater) {
            s.last()
        } else {
            best
        }
    }
}

/// A reference to the element of `list` that the scan keeps; for a total
/// order this is the first of its greatest elements.
pub fn largest<T: PartialOrd>(list: &[T]) -> (r: &T)
    requires
        list@.len() > 0,
        T::obeys_partial_cmp_spec(),
    ensures
        *r == running_largest(list@),
        exists|k: int| 0 <= k < list@.len() && *r == list@[k],
{
    let mut best = &list[0];
    let n = list.len();
    for i in 1..n
        invariant
            n == list@.len(),
            1 <= i <= n,
            T::obeys_partial_cmp_spec(),
            *best == running_largest(list@.take(i as int)),
            exists|k: int| 0 <= k < i && *best == list@[k],
    {
        let item = &list[i];
        proof {
            assert(list@.take(i + 1).drop_last() =~= list@.take(i as int));
            assert(list@.take(i + 1).last() == list@[i as int]);
        }
        if item > best {
            best = item;
        }
    }
    proof {
        assert(list@.take(n as int) =~= list@);
    }
    best
}

} // verus!
