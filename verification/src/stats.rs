//! Summary statistics over a range of stored readings: the count, the
//! smallest and largest value, and the truncated mean.  The store that the
//! readings come from lives outside the library; this only does the math.

use vstd::prelude::*;

verus! {

/// Sum of a sequence of readings.
pub open spec fn seq_sum(s: Seq<i32>) -> int
    decreases s.len(),
{
    if s.len() == 0 {
        0
    } else {
        seq_sum(s.drop_last()) + s.last()
    }
}

/// The summary of one queried range.  For an empty range every field is 0.
#[derive(Clone, Copy, Debug)]
pub struct RangeStats {
    pub count: usize,
    pub min: i32,
    pub max: i32,
    pub avg: i32,
}

/// Summarize a list of readings: count, minimum, maximum and truncated mean.
/// Readings are rates, hence non-negative.
pub fn summarize(values: &Vec<i32>) -> (st: RangeStats)
    requires
        forall|i: int| 0 <= i < values@.len() ==> 0 <= values@[i],
        values@.len() < 4294967296,
    ensures
        st.count == values@.len(),
        values@.len() == 0 ==> st.min == 0 && st.max == 0 && st.avg == 0,
        values@.len() > 0 ==> (exists|i: int| 0 <= i < values@.len() && values@[i] == st.min),
        values@.len() > 0 ==> (exists|i: int| 0 <= i < values@.len() && values@[i] == st.max),
        forall|i: int| 0 <= i < values@.len() ==> st.min <= values@[i] && values@[i] <= st.max,
        values@.len() > 0 ==> st.avg == seq_sum(values@) / (values@.len() as int),
{
    if values.len() == 0 {
        return RangeStats { count: 0, min: 0, max: 0, avg: 0 };
    }
    let mut min: i32 = values[0];
    let mut max: i32 = values[0];
    let mut sum: u64 = 0;
    let mut i: usize = 0;
    while i < values.len()
        invariant
            0 <= i <= values@.len(),
            0 < values@.len() < 4294967296,
            forall|k: int| 0 <= k < values@.len() ==> 0 <= values@[k],
            i > 0 ==> (exists|k: int| 0 <= k < i && values@[k] == min),
            i > 0 ==> (exists|k: int| 0 <= k < i && values@[k] == max),
            i == 0 ==> min == values@[0] && max == values@[0],
            forall|k: int| 0 <= k < i ==> min <= values@[k] && values@[k] <= max,
            sum == seq_sum(values@.take(i as int)),
            sum <= i * 2147483647,
        decreases values@.len() - i,
    {
        let v = values[i];
        if v < min {
            min = v;
        }
        if v > max {
            max = v;
        }
        proof {
            assert(values@.take(i as int + 1).drop_last() =~= values@.take(i as int));
        }
        sum = sum + (v as u64);
        i = i + 1;
    }
    proof {
        assert(values@.take(values@.len() as int) =~= values@);
        assert(seq_sum(values@) == sum);
        assert((sum as int) / (values@.len() as int) <= 2147483647) by (nonlinear_arith)
            requires
                sum <= values@.len() * 2147483647,
                0 < values@.len(),
        ;
    }
    let avg64: u64 = sum / (values.len() as u64);
    let avg: i32 = avg64 as i32;
    RangeStats { count: values.len(), min, max, avg }
}

} // verus!
