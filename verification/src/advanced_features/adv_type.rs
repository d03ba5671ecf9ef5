use vstd::prelude::*;

verus! {

/// A type alias: another name for the same type, sharing its every value.
pub type Kilometers = i32;

} // verus!
