use vstd::prelude::*;

verus! {

/// A state whose quarter a coin may show.
#[derive(Clone, Copy, PartialEq, Eq, Structural, Debug)]
pub enum UsState {
    Alabama,
    Alaska,
}

/// The coins the counting example sorts.
#[derive(Clone, Copy, PartialEq, Eq, Structural, Debug)]
pub enum Coin {
    Penny,
    Nickel,
    Dime,
    Quarter(UsState),
}

/// The worth of a coin in cents, as a specification.
pub open spec fn coin_cents(coin: Coin) -> u8 {
    match coin {
        Coin::Penny => 1,
        Coin::Nickel => 5,
        Coin::Dime => 10,
        Coin::Quarter(_) => 25,
    }
}

/// Matches a coin against each of its patterns and returns its worth in
/// cents; a quarter's worth does not depend on whose quarter it is.
pub fn value_in_cents(coin: Coin) -> (cents: u8)
    ensures
        cents == coin_cents(coin),
{
    match coin {
        Coin::Penny => 1,
        Coin::Nickel => 5,
        Coin::Dime => 10,
        Coin::Quarter(state) => 25,
    }
}

/// Adds one inside an option: nothing stays nothing, a number grows by one.
/// Matching is exhaustive, so both shapes are handled.
pub fn plus_one(x: Option<i32>) -> (r: Option<i32>)
    requires
        x is Some ==> x.unwrap() < i32::MAX,
    ensures
        x is None ==> r is None,
        x is Some ==> r == Some((x.unwrap() + 1) as i32),
{
    match x {
        None => None,
        Some(i) => Some(i + 1),
    }
}

} // verus!
