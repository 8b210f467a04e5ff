//! The high-water mark: the largest block number below which every block is
//! known to be persisted.
use vstd::prelude::*;

verus! {

/// The larger of two integers.
pub open spec fn max_int(a: int, b: int) -> int {
    if a >= b { a } else { b }
}

/// `init` folded with `max` over every number of `s`.
pub open spec fn seq_max(init: int, s: Seq<u32>) -> int
    decreases s.len(),
{
    if s.len() == 0 {
        init
    } else {
        max_int(seq_max(init, s.drop_last()), s.last() as int)
    }
}

/// `seq_max` is an upper bound of `init` and of every element, and it is one
/// of them.
pub proof fn lemma_seq_max_bounds(init: int, s: Seq<u32>)
    ensures
        seq_max(init, s) >= init,
        forall|i: int| 0 <= i < s.len() ==> seq_max(init, s) >= s[i] as int,
        seq_max(init, s) == init || exists|i: int| 0 <= i < s.len() && seq_max(init, s) == s[i] as int,
    decreases s.len(),
{
    if s.len() > 0 {
        lemma_seq_max_bounds(init, s.drop_last());
        let m = seq_max(init, s.drop_last());
        if m == seq_max(init, s) && m != init {
            let i = choose|i: int| 0 <= i < s.drop_last().len() && m == s.drop_last()[i] as int;
            assert(s[i] == s.drop_last()[i]);
        }
        assert forall|i: int| 0 <= i < s.len() implies seq_max(init, s) >= s[i] as int by {
            if i < s.len() - 1 {
                assert(s[i] == s.drop_last()[i]);
            }
        }
    }
}

/// Folds `max` over `numbers`, starting from `init`.
pub fn fold_max(init: u32, numbers: &Vec<u32>) -> (r: u32)
    ensures
        r as int == seq_max(init as int, numbers@),
{
    let mut acc: u32 = init;
    let mut i: usize = 0;
    while i < numbers.len()
        invariant
            i <= numbers.len(),
            acc as int == seq_max(init as int, numbers@.subrange(0, i as int)),
        decreases numbers.len() - i,
    {
        assert(numbers@.subrange(0, i as int + 1).drop_last() == numbers@.subrange(0, i as int));
        if numbers[i] > acc {
            acc = numbers[i];
        }
        i = i + 1;
    }
    assert(numbers@.subrange(0, numbers.len() as int) == numbers@);
    acc
}

} // verus!
