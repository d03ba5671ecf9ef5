pub mod a;
pub mod back_of_house;
pub mod customer;

pub use back_of_house::Appetizer;
pub use back_of_house::Breakfast;

use vstd::prelude::*;

verus! {

/// Orders a summer breakfast and changes the toast: the toast is the
/// customer's to change, while the fruit stays the kitchen's.
pub fn eat_at_restaurant() {
    let mut meal = back_of_house::Breakfast::summer("Rye");
    meal.set_toast("Wheat".to_owned());
    assert(meal.spec_toast() == "Wheat"@);
    assert(meal.spec_fruit() == "peaches"@);
}

} // verus!
