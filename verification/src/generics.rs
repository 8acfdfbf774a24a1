//! Finding the largest element: first once per type, then once for every
//! ordered type; and generic points whose methods move fields about.

use vstd::prelude::*;
use vstd::std_specs::cmp::PartialOrdSpec;
use core::cmp::Ordering;

verus! {

/// A reference to the largest value in the list.
pub fn largest_i32(list: &[i32]) -> (r: &i32)
    requires
        list@.len() > 0,
    ensures
        exists|i: int| 0 <= i < list@.len() && *r == list@[i],
        forall|i: int| 0 <= i < list@.len() ==> list@[i] <= *r,
{
    let mut largest = &list[0];
    let mut k: usize = 1;
    while k < list.len()
        invariant
            1 <= k <= list@.len(),
            exists|i: int| 0 <= i < k && *largest == list@[i],
            forall|i: int| 0 <= i < k ==> list@[i] <= *largest,
        decreases list@.len() - k,
    {
        if list[k] > *largest {
            largest = &list[k];
        }
        k = k + 1;
    }
    largest
}

/// The same search over characters.
pub fn largest_char(list: &[char]) -> (r: &char)
    requires
        list@.len() > 0,
    ensures
        exists|i: int| 0 <= i < list@.len() && *r == list@[i],
        forall|i: int| 0 <= i < list@.len() ==> list@[i] <= *r,
{
    let mut largest = &list[0];
    let mut k: usize = 1;
    while k < list.len()
        invariant
            1 <= k <= list@.len(),
            exists|i: int| 0 <= i < k && *largest == list@[i],
            forall|i: int| 0 <= i < k ==> list@[i] <= *largest,
        decreases list@.len() - k,
    {
        if list[k] > *largest {
            largest = &list[k];
        }
        k = k + 1;
    }
    largest
}

/// What the left-to-right scan keeps: the first element, replaced whenever a
/// later element compares strictly greater.
pub open spec fn spec_largest<T: PartialOrd>(s: Seq<T>) -> T
    recommends
        s.len() > 0,
    decreases s.len(),
{
    if s.len() <= 1 {
        s[0]
    } else {
        let prev = spec_largest(s.drop_last());
        if s.last().partial_cmp_spec(&prev) == Some(Ordering::Greater) {
            s.last()
        } else {
            prev
        }
    }
}

/// The same search once for every ordered type: the result is exactly what
/// the scan in [`spec_largest`] keeps.
pub fn largest<T: PartialOrd>(list: &[T]) -> (r: &T)
    requires
        list@.len() > 0,
        T::obeys_partial_cmp_spec(),
    ensures
        *r == spec_largest(list@),
{
    let mut largest = &list[0];
    let mut k: usize = 1;
    assert(list@.take(1) =~= seq![list@[0]]);
    while k < list.len()
        invariant
            1 <= k <= list@.len(),
            T::obeys_partial_cmp_spec(),
            *largest == spec_largest(list@.take(k as int)),
        decreases list@.len() - k,
    {
        proof {
            assert(list@.take(k + 1).drop_last() =~= list@.take(k as int));
            assert(list@.take(k + 1).last() == list@[k as int]);
        }
        if list[k] > *largest {
            largest = &list[k];
        }
        k = k + 1;
    }
    proof {
        assert(list@.take(list@.len() as int) =~= list@);
    }
    largest
}

/// A point whose two coordinates share one type.
pub struct Point<T> {
    pub x: T,
    pub y: T,
}

impl<T> Point<T> {
    /// A borrow of the first coordinate.
    pub fn x(&self) -> (r: &T)
        ensures
            *r == self.x,
    {
        &self.x
    }
}

/// A point whose coordinates may differ in type.
pub struct OtherPoint<T, U> {
    pub _x: T,
    pub _y: U,
}

/// A point used to mix coordinates across instances.
pub struct AnotherPoint<X1, Y1> {
    pub x: X1,
    pub y: Y1,
}

impl<X1, Y1> AnotherPoint<X1, Y1> {
    /// Keeps this point's first coordinate and takes the other's second.
    pub fn mixup<X2, Y2>(self, other: AnotherPoint<X2, Y2>) -> (r: AnotherPoint<X1, Y2>)
        ensures
            r.x == self.x,
            r.y == other.y,
    {
        AnotherPoint { x: self.x, y: other.y }
    }
}

} // verus!
