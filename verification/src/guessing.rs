//! A guess that is valid by construction: its value lies between 1 and 100.

use vstd::prelude::*;

verus! {

/// A number between 1 and 100. The field is private, so every value goes
/// through [`Guess::new`] and the bounds hold of every instance.
pub struct Guess {
    value: i32,
}

impl Guess {
    /// Every guess in existence holds a number between 1 and 100.
    #[verifier::type_invariant]
    pub closed spec fn inv(&self) -> bool {
        1 <= self.value <= 100
    }

    /// The number the guess holds.
    pub closed spec fn spec_value(&self) -> i32 {
        self.value
    }

    /// Wraps a value already known to lie between 1 and 100.
    pub fn new(value: i32) -> (r: Guess)
        requires
            1 <= value <= 100,
        ensures
            r.spec_value() == value,
    {
        Guess { value }
    }

    /// Hands the number back out; it is between 1 and 100.
    pub fn value(&self) -> (r: i32)
        ensures
            r == self.spec_value(),
            1 <= r <= 100,
    {
        proof {
            use_type_invariant(&*self);
        }
        self.value
    }
}

} // verus!
