//! Sums.
use vstd::prelude::*;

verus! {

/// The sum of the values.
pub open spec fn total(values: Seq<int>) -> int
    decreases values.len(),
{
    if values.len() == 0 {
        0
    } else {
        total(values.drop_last()) + values.last()
    }
}

pub proof fn lemma_total_grows(count: nat, value: spec_fn(int) -> int)
    requires
        count > 0,
    ensures
        total(Seq::new(count, value)) == total(Seq::new((count - 1) as nat, value)) + value(
            count - 1,
        ),
{
    assert(Seq::new(count, value).drop_last() =~= Seq::new((count - 1) as nat, value));
}

} // verus!
