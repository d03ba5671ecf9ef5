use vstd::prelude::*;

verus! {

/// A breakfast order. The toast is the customer's choice; the fruit is
/// whatever is in season, and only the kitchen sets it.
pub struct Breakfast {
    pub toast: String,
    seasonal_fruit: String,
}

impl Breakfast {
    /// The chosen toast, as a specification; a private field elsewhere in
    /// the order makes the whole order opaque to outside specifications.
    pub closed spec fn spec_toast(&self) -> Seq<char> {
        self.toast@
    }

    /// What fruit came with the order, as a specification; the field
    /// itself stays the kitchen's business.
    pub closed spec fn spec_fruit(&self) -> Seq<char> {
        self.seasonal_fruit@
    }

    /// Changes the toast on an existing order; the fruit stays as served.
    pub fn set_toast(&mut self, toast: String)
        ensures
            final(self).spec_toast() == toast@,
            final(self).spec_fruit() == old(self).spec_fruit(),
    {
        self.toast = toast;
    }

    /// The summer menu: the chosen toast, served with peaches.
    pub fn summer(toast: &str) -> (b: Breakfast)
        ensures
            b.spec_toast() == toast@,
            b.spec_fruit() == "peaches"@,
    {
        Breakfast { toast: toast.to_owned(), seasonal_fruit: "peaches".to_owned() }
    }
}

/// A public enum's members are all public with it.
pub enum Appetizer {
    Soup,
    Salad,
}

} // verus!
