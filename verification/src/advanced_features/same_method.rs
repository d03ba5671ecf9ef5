use vstd::prelude::*;

verus! {

// Several traits may declare a method of one name, and a type may carry its
// own besides; calls are disambiguated by the trait's name or, for
// associated functions without a receiver, by fully qualified syntax. Each
// method here returns the line the caller announces.

/// What a pilot calls out.
pub trait Pilot {
    /// The announcement, as a specification.
    spec fn spec_fly(&self) -> Seq<char>;

    fn fly(&self) -> (line: String)
        ensures
            line@ == self.spec_fly(),
    ;
}

/// What a wizard calls out.
pub trait Wizard {
    /// The incantation, as a specification.
    spec fn spec_fly(&self) -> Seq<char>;

    fn fly(&self) -> (line: String)
        ensures
            line@ == self.spec_fly(),
    ;
}

/// A person who is a pilot, a wizard, and themselves.
pub struct Human;

impl Pilot for Human {
    open spec fn spec_fly(&self) -> Seq<char> {
        "This is your captain speaking."@
    }

    fn fly(&self) -> (line: String) {
        "This is your captain speaking.".to_owned()
    }
}

impl Wizard for Human {
    open spec fn spec_fly(&self) -> Seq<char> {
        "Up!"@
    }

    fn fly(&self) -> (line: String) {
        "Up!".to_owned()
    }
}

impl Human {
    /// The person's own method of the same name; a plain call lands here.
    pub fn fly(&self) -> (line: String)
        ensures
            line@ == "*waving arms furiously*"@,
    {
        "*waving arms furiously*".to_owned()
    }
}

/// Names baby animals; an associated function without a receiver.
pub trait Animal {
    /// The species' name for its young, as a specification.
    spec fn spec_baby_name() -> Seq<char>;

    fn baby_name() -> (name: String)
        ensures
            name@ == Self::spec_baby_name(),
    ;
}

/// A dog, which names its own puppies apart from what the species does.
pub struct Dog;

impl Dog {
    /// What this dog's people call their puppy; a plain associated call
    /// lands here, and only fully qualified syntax reaches the trait's.
    pub fn baby_name() -> (name: String)
        ensures
            name@ == "Spot"@,
    {
        "Spot".to_owned()
    }
}

impl Animal for Dog {
    open spec fn spec_baby_name() -> Seq<char> {
        "puppy"@
    }

    fn baby_name() -> (name: String) {
        "puppy".to_owned()
    }
}

} // verus!
