use vstd::prelude::*;

verus! {

/// Concentrations are carried as fixed-point integers in milli-ppm
/// (thousandths of a part per million), so that threshold comparisons and
/// the smoothing arithmetic are exact. One ppm is this many milli-ppm.
pub const MILLI_PPM_PER_PPM: i64 = 1000;

/// Alert threshold in milli-ppm: 100 ppm. A value at or above it is Dirty;
/// the boundary is inclusive. Fixed by the domain, not user-configurable.
pub const DIRTY_THRESHOLD_MILLI_PPM: i64 = 100_000;

/// One timestamped gas-concentration sample, immutable once constructed.
#[derive(Clone, Copy, PartialEq, Eq, Structural, Debug)]
pub struct SensorData {
    /// Milliseconds since the Unix epoch, UTC.
    pub timestamp_ms: i64,
    /// Concentration in milli-ppm.
    pub value_milli_ppm: i64,
}

/// Two-state air-quality verdict derived from the fixed threshold.
#[derive(Clone, Copy, PartialEq, Eq, Structural, Debug)]
pub enum Verdict {
    Clean,
    Dirty,
}

/// Realtime status label: the verdict of the most recent reading, or an
/// explicit no-data state when the buffer has never held a reading.
#[derive(Clone, Copy, PartialEq, Eq, Structural, Debug)]
pub enum Status {
    NoData,
    Clean,
    Dirty,
}

/// What classification means: Dirty exactly when the value reaches the
/// threshold, Clean strictly below it.
pub open spec fn spec_classify(value_milli_ppm: int) -> Verdict {
    if value_milli_ppm >= DIRTY_THRESHOLD_MILLI_PPM {
        Verdict::Dirty
    } else {
        Verdict::Clean
    }
}

/// Classify one concentration value against the fixed threshold.
pub fn classify(value_milli_ppm: i64) -> (v: Verdict)
    ensures
        v == spec_classify(value_milli_ppm as int),
        v == Verdict::Dirty <==> value_milli_ppm >= DIRTY_THRESHOLD_MILLI_PPM,
        v == Verdict::Clean <==> value_milli_ppm < DIRTY_THRESHOLD_MILLI_PPM,
{
    if value_milli_ppm >= DIRTY_THRESHOLD_MILLI_PPM {
        Verdict::Dirty
    } else {
        Verdict::Clean
    }
}

/// Status of an optional most-recent reading: absence yields the explicit
/// no-data state, never a default value; otherwise the verdict of the value.
pub fn status_of(last: Option<SensorData>) -> (s: Status)
    ensures
        last is None <==> s == Status::NoData,
        last is Some ==> {
            &&& (s == Status::Dirty <==> spec_classify(
                last->0.value_milli_ppm as int,
            ) == Verdict::Dirty)
            &&& (s == Status::Clean <==> spec_classify(
                last->0.value_milli_ppm as int,
            ) == Verdict::Clean)
        },
{
    match last {
        None => Status::NoData,
        Some(reading) => match classify(reading.value_milli_ppm) {
            Verdict::Clean => Status::Clean,
            Verdict::Dirty => Status::Dirty,
        },
    }
}

} // verus!
