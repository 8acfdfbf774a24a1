//! A quota tracker: it keeps a value against a maximum and reports through a
//! caller-supplied messenger when the value crosses the warning thresholds.
//!
//! The tracker itself only decides which message is due; sending is left to
//! whatever the caller hands in as the [`Messenger`]. A test can therefore
//! observe the tracker through a recording messenger.

use vstd::prelude::*;

verus! {

/// How close a value stands to its maximum: below three quarters, at or above
/// three quarters, at or above nine tenths, or at or above the maximum itself.
#[derive(Clone, Copy, Debug, PartialEq, Eq, Structural)]
pub enum QuotaLevel {
    Fine,
    Warning,
    Urgent,
    Over,
}

/// The level owed for `value` out of `max`, by exact comparison of
/// `value / max` against 3/4, 9/10 and 1. A zero quota with nothing used is
/// no quota crossed: that pair reports `Fine`.
pub open spec fn quota_level(value: int, max: int) -> QuotaLevel {
    if value == 0 && max == 0 {
        QuotaLevel::Fine
    } else if value >= max {
        QuotaLevel::Over
    } else if 10 * value >= 9 * max {
        QuotaLevel::Urgent
    } else if 4 * value >= 3 * max {
        QuotaLevel::Warning
    } else {
        QuotaLevel::Fine
    }
}

/// Computes the quota level for `value` out of `max`.
pub fn level_for(value: usize, max: usize) -> (r: QuotaLevel)
    ensures
        r == quota_level(value as int, max as int),
{
    let v = value as u128;
    let m = max as u128;
    if v == 0 && m == 0 {
        QuotaLevel::Fine
    } else if v >= m {
        QuotaLevel::Over
    } else if 10 * v >= 9 * m {
        QuotaLevel::Urgent
    } else if 4 * v >= 3 * m {
        QuotaLevel::Warning
    } else {
        QuotaLevel::Fine
    }
}

/// The message owed for a level: none while the value sits below three
/// quarters, and one fixed text for each band above it.
pub fn message_for(level: QuotaLevel) -> (r: Option<&'static str>)
    ensures
        level == QuotaLevel::Over ==> r is Some && r->0@ == "Error: You are over your quota!"@,
        level == QuotaLevel::Urgent ==> r is Some && r->0@
            == "Urgent warning: You've used up over 90% of your quota!"@,
        level == QuotaLevel::Warning ==> r is Some && r->0@
            == "Warning: You've used up over 75% of your quota!"@,
        level == QuotaLevel::Fine ==> r is None,
{
    match level {
        QuotaLevel::Over => Option::Some("Error: You are over your quota!"),
        QuotaLevel::Urgent => Option::Some(
            "Urgent warning: You've used up over 90% of your quota!",
        ),
        QuotaLevel::Warning => Option::Some("Warning: You've used up over 75% of your quota!"),
        QuotaLevel::Fine => Option::None,
    }
}

/// Something that can carry a message out of the library. Users of the
/// tracker implement this; the tracker never looks at how a message travels.
pub trait Messenger {
    fn send(&self, msg: &str);
}

/// Tracks a value against a maximum and tells its messenger when the value
/// crosses three quarters, nine tenths, or the maximum itself.
pub struct LimitTracker<'a, T: Messenger> {
    messenger: &'a T,
    value: usize,
    max: usize,
}

impl<'a, T> LimitTracker<'a, T> where T: Messenger {
    /// The value the tracker currently holds.
    pub closed spec fn spec_value(&self) -> usize {
        self.value
    }

    /// The maximum the tracker was created with.
    pub closed spec fn spec_max(&self) -> usize {
        self.max
    }

    /// Makes a tracker for the given maximum, starting from zero.
    pub fn new(messenger: &'a T, max: usize) -> (r: LimitTracker<'a, T>)
        ensures
            r.spec_value() == 0,
            r.spec_max() == max,
    {
        LimitTracker { messenger, value: 0, max }
    }

    /// Stores `value` and hands the messenger exactly
    /// `message_for(quota_level(value, max))` when that is a message at all:
    /// at most one send per call, its text pinned by [`message_for`].
    pub fn set_value(&mut self, value: usize)
        ensures
            final(self).spec_value() == value,
            final(self).spec_max() == old(self).spec_max(),
    {
        self.value = value;

        let level = level_for(self.value, self.max);
        match message_for(level) {
            Option::Some(msg) => {
                self.messenger.send(msg);
            },
            Option::None => {},
        }
    }
}

/// A walk through the tracker: the level is what `quota_level` says, so a
/// value of 80 against a maximum of 100 sits in the warning band.
pub fn run() {
    let level = level_for(80, 100);
    assert(level == QuotaLevel::Warning);
}

} // verus!
