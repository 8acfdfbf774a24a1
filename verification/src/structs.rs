//! Defining a struct and building instances of it from a function.

use vstd::prelude::*;

verus! {

/// An account holder, with every field named.
pub struct User {
    pub active: bool,
    pub username: String,
    pub email: String,
    pub sign_in_count: u64,
}

/// A fresh user: active, one sign-in, and the given names.
pub fn build_user(email: String, username: String) -> (r: User)
    ensures
        r.email@ == email@,
        r.username@ == username@,
        r.active,
        r.sign_in_count == 1,
{
    User { email, username, active: true, sign_in_count: 1 }
}

} // verus!
