use vstd::prelude::*;

verus! {

/// A cons list: each cell owns one number and, boxed on the heap, the rest
/// of the list. The box gives the recursive type a known size.
pub enum List {
    Cons(i32, Box<List>),
    Nil,
}

/// A box of one's own: a newtype holding one value, as the smart-pointer
/// walkthrough builds before giving it dereferencing.
pub struct MyBox<T>(pub T);

impl<T> MyBox<T> {
    /// Wraps a value.
    pub fn new(x: T) -> (b: MyBox<T>)
        ensures
            b.0 == x,
    {
        MyBox(x)
    }

    /// Borrows the held value, as dereferencing the box would.
    pub fn inner(&self) -> (r: &T)
        ensures
            *r == self.0,
    {
        &self.0
    }
}

} // verus!
