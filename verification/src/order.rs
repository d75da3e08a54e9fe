//! Order of elements as their `PartialOrd` and `Ord` impls define it.
//!
//! What a comparison returns is known only where the element type obeys
//! the laws of a total order (`lawful_order`); the sorting helpers state
//! their order under that condition.
use vstd::prelude::*;
use vstd::std_specs::cmp::PartialOrdSpec;
use core::cmp::Ordering;

verus! {

/// The element type's comparisons follow its specification and the laws
/// of a total order.
pub open spec fn lawful_order<T: Ord>() -> bool {
    vstd::laws_cmp::obeys_cmp::<T>()
}

/// `a` compares greater than `b`.
pub open spec fn greater<T: PartialOrd>(a: T, b: T) -> bool {
    a.partial_cmp_spec(&b) == Some(Ordering::Greater)
}

/// Each element of `s` is not greater than the one after it.
pub open spec fn ascending<T: PartialOrd>(s: Seq<T>) -> bool {
    forall|i: int, j: int|
        #![trigger s[i], s[j]]
        0 <= i && j == i + 1 && j < s.len() ==> !greater(s[i], s[j])
}

/// Each element of `s` is not greater than the one before it.
pub open spec fn descending<T: PartialOrd>(s: Seq<T>) -> bool {
    forall|i: int, j: int|
        #![trigger s[i], s[j]]
        0 <= i && j == i + 1 && j < s.len() ==> !greater(s[j], s[i])
}

/// Under a lawful order, one of two elements is greater than the other in
/// one direction at most.
pub proof fn lemma_greater_asymmetric<T: Ord>(a: T, b: T)
    requires
        lawful_order::<T>(),
        greater(a, b),
    ensures
        !greater(b, a),
{
    reveal(vstd::laws_cmp::obeys_partial_cmp_spec_properties);
    assert(b.partial_cmp_spec(&a) == Some(Ordering::Less));
}

/// Whether `a` compares greater than `b`.
pub fn is_greater<T: Ord>(a: &T, b: &T) -> (r: bool)
    ensures
        lawful_order::<T>() ==> (r == greater(*a, *b)),
{
    proof {
        reveal(vstd::laws_cmp::obeys_cmp_partial_ord);
    }
    *a > *b
}

/// Position of the first element of `s` that is greater than `x`, or the
/// length of `s` when there is none.
pub open spec fn first_greater<T: PartialOrd>(s: Seq<T>, x: T) -> int
    decreases s.len(),
{
    if s.len() == 0 {
        0
    } else if greater(s[0], x) {
        0
    } else {
        1 + first_greater(s.drop_first(), x)
    }
}

/// `c` sorted by stable insertion: each element in turn is placed after
/// every element before it that is not greater than it. Elements that
/// compare equal keep their order.
pub open spec fn stable_sorted<T: PartialOrd>(c: Seq<T>) -> Seq<T>
    decreases c.len(),
{
    if c.len() == 0 {
        Seq::empty()
    } else {
        let s = stable_sorted(c.drop_last());
        s.insert(first_greater(s, c.last()), c.last())
    }
}

} // verus!
