use vstd::prelude::*;

verus! {

/// Schema version written with every metric event.
pub const METRIC_SCHEMA_VERSION: u16 = 1;

} // verus!
