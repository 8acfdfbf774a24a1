//! References whose lifetimes are spelled out: the longer of two string
//! slices, and a struct that borrows part of a text.

use vstd::prelude::*;

verus! {

/// The longer of the two slices, measured in bytes; `y` wins a tie.
pub fn longest<'a>(x: &'a str, y: &'a str) -> (r: &'a str)
    ensures
        r@ == if x.len() > y.len() {
            x@
        } else {
            y@
        },
{
    if x.len() > y.len() {
        x
    } else {
        y
    }
}

/// A borrowed excerpt of a longer text.
pub struct ImportantExcerpt<'a> {
    pub part: &'a str,
}

impl<'a> ImportantExcerpt<'a> {
    /// How important the excerpt is; every excerpt rates a three.
    pub fn level(&self) -> (r: i32)
        ensures
            r == 3,
    {
        3
    }

    /// The borrowed part itself.
    pub fn part(&self) -> (r: &'a str)
        ensures
            r@ == self.part@,
    {
        self.part
    }
}

} // verus!
