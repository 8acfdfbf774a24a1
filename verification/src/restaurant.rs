//! A restaurant in miniature: a breakfast you can order, an appetizer to pick,
//! and the staff routines behind the counter.

use vstd::prelude::*;
use vstd::string::StringExecFns;

verus! {

/// A breakfast order. The toast is the customer's to change; the seasonal
/// fruit is the kitchen's choice, so that field stays private.
pub struct Breakfast {
    pub toast: String,
    _seasonal_fruit: String,
}

impl Breakfast {
    /// What toast the meal comes with.
    pub closed spec fn spec_toast(&self) -> Seq<char> {
        self.toast@
    }

    /// What fruit came with the meal.
    pub closed spec fn spec_fruit(&self) -> Seq<char> {
        self._seasonal_fruit@
    }

    /// The summer breakfast: the chosen toast, with peaches on the side.
    pub fn summer(toast: &str) -> (r: Breakfast)
        ensures
            r.spec_toast() == toast@,
            r.spec_fruit() == "peaches"@,
    {
        Breakfast { toast: String::from_str(toast), _seasonal_fruit: String::from_str("peaches") }
    }
}

/// The appetizers on the menu. A public enum makes all its variants public.
pub enum Appetizer {
    Soup,
    Salad,
}

pub fn _add_to_waitlist() {
}

fn _seat_at_table() {
}

fn _take_order() {
}

fn _serve_order() {
}

fn _take_payment() {
}

/// Walks in and joins the waitlist.
pub fn _eat_at_restaurant() {
    _add_to_waitlist();
}

} // verus!
