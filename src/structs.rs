//! A record with named fields, built whole or copied from another with some
//! fields replaced, and two positional records of the same shape that stay
//! distinct types.
use vstd::prelude::*;

verus! {

/// A user profile.
#[derive(Debug)]
pub struct User {
    pub active: bool,
    pub username: String,
    pub email: String,
    pub sign_in_count: u64,
}

/// An RGB colour.
#[derive(Debug, Clone, Copy, PartialEq, Eq, Structural)]
pub struct Color(pub i32, pub i32, pub i32);

/// A point in three dimensions: the same shape as `Color`, yet another type.
#[derive(Debug, Clone, Copy, PartialEq, Eq, Structural)]
pub struct Point(pub i32, pub i32, pub i32);

/// Whether `u` is a new, active user with the given email and name who has
/// signed in once.
pub open spec fn is_new_user(u: User, email: Seq<char>, username: Seq<char>) -> bool {
    &&& u.active
    &&& u.username@ == username
    &&& u.email@ == email
    &&& u.sign_in_count == 1
}

/// A new active user, signed in once, naming each field as it is set.
pub fn build_user(email: String, username: String) -> (r: User)
    ensures
        is_new_user(r, email@, username@),
{
    User { active: true, username: username, email: email, sign_in_count: 1 }
}

/// A new active user, signed in once, with fields set by the shorthand that
/// takes a field's value from the variable of the same name.
pub fn build_user2(email: String, username: String) -> (r: User)
    ensures
        is_new_user(r, email@, username@),
{
    User { active: true, username, email, sign_in_count: 1 }
}

impl User {
    /// A user that takes its email from `email` and every other field from
    /// `self`.
    pub fn with_email(self, email: String) -> (r: User)
        ensures
            r.email@ == email@,
            r.active == self.active,
            r.username@ == self.username@,
            r.sign_in_count == self.sign_in_count,
    {
        User { email, ..self }
    }
}

} // verus!
