//! Filtering a collection with a closure that captures its surroundings.

use vstd::prelude::*;

verus! {

/// A shoe in stock.
#[derive(Debug, PartialEq)]
pub struct Shoe {
    pub size: u32,
    pub style: String,
}

/// Keeps exactly the shoes of the asked-for size, in their original order.
pub fn shoes_in_size(shoes: Vec<Shoe>, shoe_size: u32) -> (r: Vec<Shoe>)
    ensures
        r@ == shoes@.filter(|s: Shoe| s.size == shoe_size),
{
    let mut r: Vec<Shoe> = Vec::new();
    let n = shoes.len();
    let mut i: usize = 0;
    proof {
        reveal(Seq::filter);
    }
    while i < n
        invariant
            i <= n,
            n == shoes@.len(),
            r@ == shoes@.take(i as int).filter(|s: Shoe| s.size == shoe_size),
        decreases n - i,
    {
        proof {
            reveal(Seq::filter);
            assert(shoes@.take(i + 1).drop_last() =~= shoes@.take(i as int));
            assert(shoes@.take(i + 1).last() == shoes@[i as int]);
        }
        if shoes[i].size == shoe_size {
            let shoe = Shoe { size: shoes[i].size, style: shoes[i].style.clone() };
            r.push(shoe);
            proof {
                assert(shoe == shoes@[i as int]);
            }
        }
        i = i + 1;
    }
    proof {
        reveal(Seq::filter);
        assert(shoes@.take(n as int) =~= shoes@);
    }
    r
}

} // verus!
