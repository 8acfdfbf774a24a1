//! Finding the first word of a string: first as an index, then as a slice.

use vstd::prelude::*;
use vstd::string::StrSliceExecFns;

verus! {

/// The index where the first word ends: the position of the first space, or
/// the length of the string when it holds no space at all.
pub fn first_word(s: &String) -> (i: usize)
    ensures
        i <= s@.len(),
        forall|j: int| 0 <= j < i ==> s@[j] != ' ',
        i < s@.len() ==> s@[i as int] == ' ',
{
    let n = s.as_str().unicode_len();
    let mut i: usize = 0;
    while i < n
        invariant
            i <= n,
            n == s@.len(),
            forall|j: int| 0 <= j < i ==> s@[j] != ' ',
        decreases n - i,
    {
        if s.as_str().get_char(i) == ' ' {
            return i;
        }
        i = i + 1;
    }
    i
}

/// The first word itself: everything before the first space, or the whole
/// string when it holds no space at all.
pub fn first_word_slice<'a>(s: &'a String) -> (r: &'a str)
    ensures
        r@.len() <= s@.len(),
        r@ == s@.subrange(0, r@.len() as int),
        forall|j: int| 0 <= j < r@.len() ==> s@[j] != ' ',
        r@.len() < s@.len() ==> s@[r@.len() as int] == ' ',
{
    let end = first_word(s);
    s.as_str().substring_char(0, end)
}

} // verus!
