use vstd::prelude::*;

verus! {

/// Largest magnitude a value may have on entry to the smoother. Four times
/// this bound must fit in an i64, because the second difference combines
/// four bounded terms; this is a machine limit, not a domain rule.
pub const APPROX_VALUE_LIMIT: i64 = 0x1fff_ffff_ffff_ffff;

/// One smoothed trend point. `x` is the position of the point in the
/// caller's index space (the interior index plus one, matching where the
/// forward-evaluated reconstruction lands); `y` is the smoothed value in
/// milli-ppm.
#[derive(Clone, Copy, PartialEq, Eq, Structural, Debug)]
pub struct TrendPoint {
    pub x: usize,
    pub y: i64,
}

/// Every value of the sequence is within the smoother's admitted range.
pub open spec fn values_in_limit(v: Seq<i64>) -> bool {
    forall|k: int| 0 <= k < v.len() ==> -APPROX_VALUE_LIMIT <= #[trigger] v[k] <= APPROX_VALUE_LIMIT
}

/// The local quadratic reconstruction at interior index `i`, evaluated one
/// unit forward: `v[i] + d1 + d2/2` with first difference
/// `d1 = (v[i+1] - v[i-1]) / 2` and second difference
/// `d2 = v[i+1] - 2*v[i] + v[i-1]`. The two half-terms are combined over a
/// common denominator before dividing, so the division is exact and the
/// fixed-point result equals the real-valued formula.
pub open spec fn smoothed_at(v: Seq<i64>, i: int) -> int
    recommends
        1 <= i < v.len() - 1,
{
    v[i] + ((v[i + 1] - v[i - 1]) + (v[i + 1] - 2 * v[i] + v[i - 1])) / 2
}

/// The quadratic reconstruction through three consecutive samples, evaluated
/// one unit forward, lands exactly on the next sample: the two difference
/// terms telescope to `v[i+1] - v[i]`.
pub proof fn lemma_smoothed_at_shifts_forward(v: Seq<i64>, i: int)
    requires
        1 <= i < v.len() - 1,
    ensures
        smoothed_at(v, i) == v[i + 1],
{
    let a = v[i - 1] as int;
    let b = v[i] as int;
    let c = v[i + 1] as int;
    assert((c - a) + (c - 2 * b + a) == 2 * (c - b));
    assert(2 * (c - b) / 2 == c - b);
}

/// A sequence is linear with slope `slope` when every adjacent pair differs
/// by exactly `slope`.
pub open spec fn is_linear(v: Seq<i64>, slope: int) -> bool {
    forall|k: int| 0 <= k < v.len() - 1 ==> #[trigger] v[k + 1] - v[k] == slope
}

/// Smoothing a perfectly linear sequence is a no-op on values: the second
/// difference vanishes and the first difference equals the slope, so each
/// smoothed value advances from its centre by exactly the slope and so lies
/// on the input line at its own position.
pub proof fn lemma_linear_smoothing_noop(v: Seq<i64>, slope: int, i: int)
    requires
        is_linear(v, slope),
        1 <= i < v.len() - 1,
    ensures
        smoothed_at(v, i) == v[i] + slope,
        smoothed_at(v, i) == v[i + 1],
{
    lemma_smoothed_at_shifts_forward(v, i);
    assert(v[(i - 1) + 1] - v[i - 1] == slope);
    assert(v[i + 1] - v[i] == slope);
}

/// Smooth a sequence of concentration values into trend points.
///
/// Only interior points are smoothed: with fewer than three values there is
/// no index with two neighbours and the result is empty. Otherwise the
/// result holds one point per interior index `i` (from 1 through
/// `len - 2`), at position `x = i + 1`, whose `y` is the local quadratic
/// reconstruction around `i`. Stateless and pure: identical input always
/// yields identical output.
pub fn compute_approximation(data: &Vec<i64>) -> (result: Vec<TrendPoint>)
    requires
        values_in_limit(data@),
    ensures
        data@.len() < 3 ==> result@.len() == 0,
        data@.len() >= 3 ==> result@.len() == data@.len() - 2,
        forall|j: int|
            0 <= j < result@.len() ==> {
                &&& (#[trigger] result@[j]).x == j + 2
                &&& result@[j].y == smoothed_at(data@, j + 1)
            },
{
    let n = data.len();
    let mut result: Vec<TrendPoint> = Vec::new();
    if n < 3 {
        return result;
    }
    let mut i: usize = 1;
    while i < n - 1
        invariant
            3 <= n == data@.len(),
            1 <= i <= n - 1,
            values_in_limit(data@),
            result@.len() == i - 1,
            forall|j: int|
                0 <= j < result@.len() ==> {
                    &&& (#[trigger] result@[j]).x == j + 2
                    &&& result@[j].y == smoothed_at(data@, j + 1)
                },
        decreases n - i,
    {
        let f0 = data[i];
        let d1_doubled = data[i + 1] - data[i - 1];
        let d2 = data[i + 1] - 2 * data[i] + data[i - 1];
        let y = f0 + (d1_doubled + d2) / 2;
        result.push(TrendPoint { x: i + 1, y });
        i = i + 1;
    }
    result
}

} // verus!
