use vstd::prelude::*;

verus! {

/// A leaf item, reachable through the nested module path.
pub fn test_use_() {
}

} // verus!
