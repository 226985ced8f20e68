use vstd::prelude::*;

verus! {

/// Bucket size of a results time series.
#[derive(Clone, Copy, Debug, PartialEq, Eq, Structural)]
pub enum Granularity {
    Hour,
    Day,
}

impl Granularity {
    /// Length of one bucket in milliseconds.
    pub fn bucket_ms(self) -> (r: i64)
        ensures
            r == match self {
                Granularity::Hour => 3_600_000int,
                Granularity::Day => 86_400_000int,
            },
    {
        match self {
            Granularity::Hour => 60 * 60 * 1000,
            Granularity::Day => 24 * 60 * 60 * 1000,
        }
    }
}

/// Exposures per variant in one bucket of the time series.
pub struct TimeSeriesBucket {
    pub bucket_start_ms: i64,
    pub per_variant: std::collections::BTreeMap<String, u64>,
}

} // verus!
