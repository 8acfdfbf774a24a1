//! Small arithmetic and greeting helpers.

use vstd::prelude::*;
use vstd::string::StringExecFns;

verus! {

/// Returns its argument plus two.
pub fn add_two(a: i32) -> (r: i32)
    requires
        a + 2 <= i32::MAX,
    ensures
        r == a + 2,
{
    a + 2
}

/// Returns the constant five.
pub fn five() -> (r: i32)
    ensures
        r == 5,
{
    5
}

/// Returns its argument plus one.
pub fn plus_one(num: i32) -> (r: i32)
    requires
        num + 1 <= i32::MAX,
    ensures
        r == num + 1,
{
    num + 1
}

/// Builds the greeting "Hello <name>!" for the given name.
pub fn greeting(name: &str) -> (r: String)
    ensures
        r@ == "Hello "@ + name@ + "!"@,
{
    let mut s = String::from_str("Hello ");
    s.append(name);
    s.append("!");
    s
}

} // verus!
