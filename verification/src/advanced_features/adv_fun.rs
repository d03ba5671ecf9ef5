use vstd::prelude::*;

verus! {

/// Adds one; plain functions like this one satisfy the closure traits and
/// can be handed to higher-order functions as values.
pub fn add_one(x: i32) -> (r: i32)
    requires
        x < i32::MAX,
    ensures
        r == x + 1,
{
    x + 1
}

/// Applies the given function to the argument twice and adds the results.
/// Whatever the two calls may return, the caller vouches that the sum fits.
pub fn do_twice(f: impl Fn(i32) -> i32, arg: i32) -> (r: i32)
    requires
        call_requires(f, (arg,)),
        forall|r1: i32, r2: i32|
            call_ensures(f, (arg,), r1) && call_ensures(f, (arg,), r2) ==> i32::MIN <= r1 + r2
                <= i32::MAX,
    ensures
        exists|r1: i32, r2: i32|
            call_ensures(f, (arg,), r1) && call_ensures(f, (arg,), r2) && r == r1 + r2,
{
    let a = f(arg);
    let b = f(arg);
    a + b
}

} // verus!
