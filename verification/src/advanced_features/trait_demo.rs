use vstd::prelude::*;

verus! {

/// The iterator trait sketch below is all this demonstration declares.
pub fn trait_demo() {
}

/// A sketch of an iterator: the associated type names what each step
/// yields, and `next` yields the items one by one until none is left.
pub trait Iterator {
    type Item;

    fn next(&mut self) -> Option<Self::Item>;
}

} // verus!
