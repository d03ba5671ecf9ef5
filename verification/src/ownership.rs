use vstd::prelude::*;
use vstd::string::StrSliceExecFns;
use vstd::string::StringExecFns;

verus! {

// Ownership: every value has a single owner; passing a value to a function
// or returning it moves it, unless the type is plainly copyable. Borrowing
// lends access without moving. The functions here are the ones with
// something to compute; their contracts say exactly what moves where.

/// Makes a fresh string and hands its ownership to the caller.
pub fn gives_ownership() -> (r: String)
    ensures
        r@ == "hello"@,
{
    let some_string = "hello".to_owned();
    some_string
}

/// Takes ownership of a string and gives the very same string back.
pub fn takes_and_gives_back(a_string: String) -> (r: String)
    ensures
        r == a_string,
{
    a_string
}

/// Ownership travels through returns: a string is received from one call
/// and another is passed on and received back.
pub fn ownership_return() {
    let s1 = gives_ownership();
    let s2 = "world".to_owned();
    let s3 = takes_and_gives_back(s2);
    assert(s1@ == "hello"@);
    assert(s3@ == "world"@);
}

/// Reads a borrowed string's length, in characters, without taking
/// ownership of it.
pub fn calculate_length(s: &String) -> (len: usize)
    ensures
        len == s@.len(),
{
    s.as_str().unicode_len()
}

/// Grows a mutably borrowed string in place.
pub fn change(s: &mut String)
    ensures
        final(s)@ == old(s)@ + ", world"@,
{
    s.append(", world")
}

/// Returns an owned string where a borrow of a local would dangle: the
/// local is moved out instead of referenced.
pub fn dangle() -> (r: String)
    ensures
        r@ == "hello"@,
{
    let s = "hello".to_owned();
    s
}

/// A reference can never outlive what it points to; the value is moved out
/// of `dangle` instead.
pub fn ownership_dangling_reference() {
    let reference_to_nothing = dangle();
    assert(reference_to_nothing@ == "hello"@);
}

/// The length of the leading run of characters before the first space.
pub open spec fn first_word_len(s: Seq<char>) -> int
    decreases s.len(),
{
    if s.len() == 0 {
        0
    } else if s[0] == ' ' {
        0
    } else {
        1 + first_word_len(s.drop_first())
    }
}

pub proof fn lemma_first_word_len(s: Seq<char>, i: int)
    requires
        0 <= i <= s.len(),
        forall|j: int| 0 <= j < i ==> s[j] != ' ',
        i < s.len() ==> s[i] == ' ',
    ensures
        first_word_len(s) == i,
    decreases s.len(),
{
    if i == 0 {
    } else {
        assert(s[0] != ' ');
        lemma_first_word_len(s.drop_first(), i - 1);
    }
}

/// The first word of a string: everything before the first space, or the
/// whole string when it holds no space.
pub fn first_world(s: &String) -> (word: &str)
    ensures
        word@ == s@.subrange(0, first_word_len(s@)),
{
    let len = s.as_str().unicode_len();
    let mut i: usize = 0;
    while i < len
        invariant
            i <= len,
            len == s@.len(),
            forall|j: int| 0 <= j < i ==> s@[j] != ' ',
        decreases len - i,
    {
        if s.as_str().get_char(i) == ' ' {
            proof {
                lemma_first_word_len(s@, i as int);
            }
            return s.as_str().substring_char(0, i);
        }
        i = i + 1;
    }
    proof {
        lemma_first_word_len(s@, len as int);
        assert(s@.subrange(0, len as int) =~= s@);
    }
    s.as_str()
}

} // verus!
