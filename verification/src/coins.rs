//! Matching over enums: a coin sorter, and adding one under an `Option`.

use vstd::prelude::*;

verus! {

/// The states a quarter may come from.
#[derive(Clone, Copy, Debug, PartialEq, Eq, Structural)]
pub enum UsState {
    _Alabama,
    _Alaska,
    Utah,
    _Washington,
}

/// The coins the sorter accepts; a quarter carries its state.
pub enum Coin {
    _Penny,
    _Nickel,
    _Dime,
    Quarter(UsState),
}

/// What a coin is worth, in cents.
pub open spec fn spec_value_in_cents(coin: Coin) -> u8 {
    match coin {
        Coin::_Penny => 1,
        Coin::_Nickel => 5,
        Coin::_Dime => 10,
        Coin::Quarter(_) => 25,
    }
}

/// Sorts a coin to its value: one cent, five, ten, or twenty-five.
pub fn value_in_cents(coin: Coin) -> (r: u8)
    ensures
        r == spec_value_in_cents(coin),
{
    match coin {
        Coin::_Penny => 1,
        Coin::_Nickel => 5,
        Coin::_Dime => 10,
        Coin::Quarter(_state) => 25,
    }
}

/// Adds one inside the `Some` case and leaves `None` alone.
pub fn plus_one(x: Option<i32>) -> (r: Option<i32>)
    requires
        x is Some ==> x->0 + 1 <= i32::MAX,
    ensures
        match x {
            Option::Some(i) => r == Option::Some((i + 1) as i32),
            Option::None => r is None,
        },
{
    match x {
        Option::None => Option::None,
        Option::Some(i) => Option::Some(i + 1),
    }
}

} // verus!
