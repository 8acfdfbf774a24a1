//! Borrowing in action: reading a string through a shared reference and
//! growing it through a mutable one.

use vstd::prelude::*;
use vstd::string::StringExecFns;
use vstd::string::StrSliceExecFns;

verus! {

/// The length of the string, in characters, read through a shared borrow.
pub fn calculate_length(s: &String) -> (r: usize)
    ensures
        r == s@.len(),
{
    s.as_str().unicode_len()
}

/// Appends ", world!" in place through a mutable borrow.
pub fn change(some_string: &mut String)
    ensures
        final(some_string)@ == old(some_string)@ + ", world!"@,
{
    some_string.append(", world!");
}

} // verus!
