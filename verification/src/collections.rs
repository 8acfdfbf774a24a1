//! Walking collections: every element of a vector raised by the same amount,
//! and a table counting how often each word occurs.

use vstd::prelude::*;

verus! {

/// Adds `amount` to every element of `v`, in place.
pub fn add_to_each(v: &mut Vec<i32>, amount: i32)
    requires
        forall|i: int|
            0 <= i < old(v)@.len() ==> i32::MIN <= #[trigger] old(v)@[i] + amount <= i32::MAX,
    ensures
        final(v)@.len() == old(v)@.len(),
        forall|i: int|
            0 <= i < old(v)@.len() ==> #[trigger] final(v)@[i] == old(v)@[i] + amount,
{
    let n = v.len();
    let mut i: usize = 0;
    while i < n
        invariant
            i <= n,
            n == v@.len(),
            v@.len() == old(v)@.len(),
            forall|j: int| 0 <= j < i ==> #[trigger] v@[j] == old(v)@[j] + amount,
            forall|j: int| i <= j < v@.len() ==> #[trigger] v@[j] == old(v)@[j],
            forall|j: int|
                0 <= j < old(v)@.len() ==> i32::MIN <= #[trigger] old(v)@[j] + amount <= i32::MAX,
        decreases n - i,
    {
        let x = v[i];
        v[i] = x + amount;
        i = i + 1;
    }
}

/// How often the word `w` occurs in `words`.
pub open spec fn count_word(words: Seq<String>, w: Seq<char>) -> int
    decreases words.len(),
{
    if words.len() == 0 {
        0
    } else {
        count_word(words.drop_last(), w) + if words.last()@ == w {
            1int
        } else {
            0int
        }
    }
}

/// A word occurs between zero times and once per element.
proof fn lemma_count_word_bounds(words: Seq<String>, w: Seq<char>)
    ensures
        0 <= count_word(words, w) <= words.len(),
    decreases words.len(),
{
    if words.len() > 0 {
        lemma_count_word_bounds(words.drop_last(), w);
    }
}

/// A word with a positive count occurs somewhere in the sequence.
proof fn lemma_count_word_occurs(words: Seq<String>, w: Seq<char>)
    requires
        count_word(words, w) > 0,
    ensures
        exists|j: int| 0 <= j < words.len() && words[j]@ == w,
    decreases words.len(),
{
    if words.last()@ == w {
        assert(words[words.len() - 1]@ == w);
    } else {
        lemma_count_word_bounds(words.drop_last(), w);
        lemma_count_word_occurs(words.drop_last(), w);
        let j = choose|j: int| 0 <= j < words.drop_last().len() && words.drop_last()[j]@ == w;
        assert(words[j]@ == w);
    }
}

/// Whether the table holds a row for the word `w`.
pub open spec fn has_row(r: Seq<(String, usize)>, w: Seq<char>) -> bool {
    exists|k: int| 0 <= k < r.len() && #[trigger] r[k].0@ == w
}

/// Tallies the words into a table: one row per distinct word, in order of
/// first appearance, each with exactly its number of occurrences.
pub fn word_count(words: &Vec<String>) -> (r: Vec<(String, usize)>)
    ensures
        forall|k: int| 0 <= k < r@.len() ==> #[trigger] r@[k].1 == count_word(words@, r@[k].0@),
        forall|k1: int, k2: int| 0 <= k1 < k2 < r@.len() ==> r@[k1].0@ != r@[k2].0@,
        forall|j: int| 0 <= j < words@.len() ==> #[trigger] has_row(r@, words@[j]@),
{
    let mut r: Vec<(String, usize)> = Vec::new();
    let n = words.len();
    let mut i: usize = 0;
    while i < n
        invariant
            i <= n,
            n == words@.len(),
            forall|k: int|
                0 <= k < r@.len() ==> #[trigger] r@[k].1 == count_word(
                    words@.take(i as int),
                    r@[k].0@,
                ),
            forall|k1: int, k2: int| 0 <= k1 < k2 < r@.len() ==> r@[k1].0@ != r@[k2].0@,
            forall|j: int| 0 <= j < i ==> #[trigger] has_row(r@, words@[j]@),
        decreases n - i,
    {
        let w = &words[i];
        proof {
            assert(words@.take(i + 1).drop_last() =~= words@.take(i as int));
            assert(words@.take(i + 1).last() == words@[i as int]);
        }

        let m = r.len();
        let mut at: Option<usize> = Option::None;
        let mut k: usize = 0;
        while k < m
            invariant
                k <= m,
                m == r@.len(),
                at is None ==> forall|t: int| 0 <= t < k ==> r@[t].0@ != w@,
                at matches Option::Some(t) ==> t < m && r@[t as int].0@ == w@,
            decreases m - k,
        {
            if at.is_none() && r[k].0 == *w {
                at = Option::Some(k);
            }
            k = k + 1;
        }

        let ghost prev = r@;
        match at {
            Option::Some(t) => {
                proof {
                    lemma_count_word_bounds(words@.take(i as int), r@[t as int].0@);
                    assert forall|k2: int| 0 <= k2 < r@.len() && k2 != t implies r@[k2].0@
                        != w@ by {
                        if k2 < t {
                            assert(r@[k2].0@ != r@[t as int].0@);
                        } else {
                            assert(r@[t as int].0@ != r@[k2].0@);
                        }
                    }
                }
                let c = r[t].1;
                let key = r[t].0.clone();
                r[t] = (key, c + 1);
            },
            Option::None => {
                proof {
                    lemma_count_word_bounds(words@.take(i as int), w@);
                    if count_word(words@.take(i as int), w@) > 0 {
                        lemma_count_word_occurs(words@.take(i as int), w@);
                        let j = choose|j: int|
                            0 <= j < words@.take(i as int).len() && words@.take(i as int)[j]@
                                == w@;
                        assert(words@[j]@ == w@);
                        assert(has_row(prev, words@[j]@));
                        let k0 = choose|k0: int|
                            0 <= k0 < prev.len() && #[trigger] prev[k0].0@ == words@[j]@;
                        assert(prev[k0].0@ == w@);
                        assert(false);
                    }
                }
                r.push((w.clone(), 1));
            },
        }

        proof {
            assert forall|k2: int| 0 <= k2 < prev.len() implies #[trigger] r@[k2].0@
                == prev[k2].0@ by {
            }
            assert forall|j: int| 0 <= j <= i implies #[trigger] has_row(r@, words@[j]@) by {
                if j < i {
                    assert(has_row(prev, words@[j]@));
                    let k0 = choose|k0: int|
                        0 <= k0 < prev.len() && #[trigger] prev[k0].0@ == words@[j]@;
                    assert(r@[k0].0@ == words@[j]@);
                } else {
                    if at is Some {
                        let t = at->0;
                        assert(r@[t as int].0@ == words@[i as int]@);
                    } else {
                        assert(r@[prev.len() as int].0@ == words@[i as int]@);
                    }
                }
            }
        }
        i = i + 1;
    }
    proof {
        assert(words@.take(n as int) =~= words@);
    }
    r
}

} // verus!
