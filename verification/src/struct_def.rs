use vstd::prelude::*;

verus! {

/// An account record, as the structure-definition walkthrough builds it.
pub struct User {
    pub username: String,
    pub email: String,
    pub sign_in_count: u64,
    pub active: bool,
}

/// Instantiates a user, derives a second one from it with struct-update
/// syntax (which moves the unlisted fields), and builds a third through the
/// constructor function.
pub fn struct_def() {
    let user = User {
        email: "someone@example.com".to_owned(),
        username: "someusername123".to_owned(),
        active: true,
        sign_in_count: 1,
    };

    let mut user2 = User { email: "sometwo@example.com".to_owned(), ..user };
    user2.active = false;
    assert(user2.username@ == "someusername123"@);
    assert(!user2.active);

    let user3 = struct_build_user("some3".to_owned(), "some3@example.com".to_owned());
    assert(user3.active && user3.sign_in_count == 1);
}

/// Builds an active, first-time user from a name and an address, using the
/// field-init shorthand.
pub fn struct_build_user(username: String, email: String) -> (u: User)
    ensures
        u.username == username,
        u.email == email,
        u.active == true,
        u.sign_in_count == 1,
{
    User { username, email, active: true, sign_in_count: 1 }
}

/// A structure with no fields at all, useful when only the type matters.
pub struct AlwaysEqual;

/// Instantiates the field-less structure.
pub fn struct_no_field() {
    let subject = AlwaysEqual;
}

/// An axis-aligned rectangle, measured in whole pixels.
#[derive(Clone, Copy, PartialEq, Eq, Structural, Debug)]
pub struct Rectangle {
    pub width: u32,
    pub height: u32,
}

impl Rectangle {
    /// The rectangle's area. The caller keeps the product inside `u32`.
    pub fn area(&self) -> (a: u32)
        requires
            self.width * self.height <= u32::MAX,
        ensures
            a == self.width * self.height,
    {
        self.width * self.height
    }

    /// Whether `other` fits strictly inside this rectangle.
    pub fn can_hold(&self, other: &Rectangle) -> (r: bool)
        ensures
            r == (self.width > other.width && self.height > other.height),
    {
        self.width > other.width && self.height > other.height
    }
}

} // verus!
