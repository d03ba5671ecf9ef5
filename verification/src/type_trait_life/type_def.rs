use vstd::laws_cmp::obeys_partial_cmp_spec_properties;
use vstd::prelude::*;
use vstd::std_specs::cmp::PartialOrdSpec;

use core::cmp::Ordering;

verus! {

/// The greatest element of a non-empty slice, found by one pass that keeps
/// the greater of the running candidate and each element. The contract asks
/// the ordering to behave (its comparison agrees with itself reversed and
/// chains), which every integer ordering does; the result is an element of
/// the slice that no element exceeds.
pub fn largest<T>(list: &[T]) -> (max: T) where T: PartialOrd + Copy
    requires
        list@.len() >= 1,
        T::obeys_partial_cmp_spec(),
        obeys_partial_cmp_spec_properties::<T>(),
    ensures
        list@.contains(max),
        forall|i: int|
            0 <= i < list@.len() ==> (#[trigger] max.partial_cmp_spec(&list@[i])) != Some(
                Ordering::Less,
            ),
{
    proof {
        reveal(obeys_partial_cmp_spec_properties);
    }
    let mut largest = list[0];
    let mut i: usize = 1;
    while i < list.len()
        invariant
            1 <= i <= list@.len(),
            T::obeys_partial_cmp_spec(),
            obeys_partial_cmp_spec_properties::<T>(),
            list@.contains(largest),
            forall|j: int|
                0 <= j < i ==> (#[trigger] largest.partial_cmp_spec(&list@[j])) != Some(
                    Ordering::Less,
                ),
        decreases list@.len() - i,
    {
        proof {
            reveal(obeys_partial_cmp_spec_properties);
        }
        let x = list[i];
        if largest < x {
            largest = x;
        }
        i = i + 1;
    }
    largest
}

/// A point whose two coordinates share one type.
pub struct Point<T> {
    pub x: T,
    pub y: T,
}

impl<T> Point<T> {
    /// Borrows the first coordinate.
    pub fn get_x(&self) -> (r: &T)
        ensures
            *r == self.x,
    {
        &self.x
    }
}

/// A point whose two coordinates may differ in type.
pub struct Point2<T, U> {
    pub x: T,
    pub y: U,
}

impl<T, U> Point2<T, U> {
    /// Mixes two points: the first coordinate of this one with the second
    /// coordinate of the other.
    pub fn mixup<V, W>(self, point2: Point2<V, W>) -> (r: Point2<T, W>)
        ensures
            r.x == self.x,
            r.y == point2.y,
    {
        Point2 { x: self.x, y: point2.y }
    }
}

} // verus!
