//! A shirt giveaway: the winner's stated preference wins, and with no
//! preference the most stocked colour does.

use vstd::prelude::*;

verus! {

/// The two colours the company prints.
#[derive(Clone, Copy, Debug, PartialEq, Eq, Structural)]
pub enum ShirtColor {
    Red,
    Blue,
}

/// How many of the shirts are red.
pub open spec fn count_red(s: Seq<ShirtColor>) -> int
    decreases s.len(),
{
    if s.len() == 0 {
        0
    } else {
        count_red(s.drop_last()) + if s.last() is Red {
            1int
        } else {
            0int
        }
    }
}

/// How many of the shirts are blue.
pub open spec fn count_blue(s: Seq<ShirtColor>) -> int
    decreases s.len(),
{
    if s.len() == 0 {
        0
    } else {
        count_blue(s.drop_last()) + if s.last() is Blue {
            1int
        } else {
            0int
        }
    }
}

/// The colour the company would hand out with no preference: red only when
/// strictly more red shirts are in stock, blue otherwise.
pub open spec fn spec_most_stocked(s: Seq<ShirtColor>) -> ShirtColor {
    if count_red(s) > count_blue(s) {
        ShirtColor::Red
    } else {
        ShirtColor::Blue
    }
}

/// The shirts currently in stock.
pub struct Inventory {
    pub shirts: Vec<ShirtColor>,
}

impl Inventory {
    /// The winner's colour: the preference when one was given, and the most
    /// stocked colour otherwise.
    pub fn giveaway(&self, user_preference: Option<ShirtColor>) -> (r: ShirtColor)
        ensures
            r == match user_preference {
                Option::Some(c) => c,
                Option::None => spec_most_stocked(self.shirts@),
            },
    {
        match user_preference {
            Option::Some(c) => c,
            Option::None => self.most_stocked(),
        }
    }

    /// Counts both colours and keeps red only on a strict majority.
    pub fn most_stocked(&self) -> (r: ShirtColor)
        ensures
            r == spec_most_stocked(self.shirts@),
    {
        let mut num_red: usize = 0;
        let mut num_blue: usize = 0;
        let n = self.shirts.len();
        let mut i: usize = 0;
        while i < n
            invariant
                i <= n,
                n == self.shirts@.len(),
                num_red == count_red(self.shirts@.take(i as int)),
                num_blue == count_blue(self.shirts@.take(i as int)),
                num_red + num_blue == i,
            decreases n - i,
        {
            proof {
                assert(self.shirts@.take(i + 1).drop_last() =~= self.shirts@.take(i as int));
                assert(self.shirts@.take(i + 1).last() == self.shirts@[i as int]);
            }
            match self.shirts[i] {
                ShirtColor::Red => {
                    num_red = num_red + 1;
                },
                ShirtColor::Blue => {
                    num_blue = num_blue + 1;
                },
            }
            i = i + 1;
        }
        proof {
            assert(self.shirts@.take(n as int) =~= self.shirts@);
        }
        if num_red > num_blue {
            ShirtColor::Red
        } else {
            ShirtColor::Blue
        }
    }
}

} // verus!
