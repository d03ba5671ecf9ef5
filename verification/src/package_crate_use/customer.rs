use vstd::prelude::*;

use crate::package_crate_use::a::b;

verus! {

/// Reaches the leaf item both through the imported short path and through
/// the full path from the crate root.
pub fn test_use_() {
    b::test_use_();
    crate::package_crate_use::a::b::test_use_();
}

} // verus!
