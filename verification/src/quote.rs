use vstd::prelude::*;

verus! {

/// Largest timestamp the pipeline accepts: the last second of year 9999 (UTC),
/// comfortably inside the calendar range the date library can convert.
pub const MAX_TIMESTAMP: u64 = 253402300799;

/// Prices are fixed-point integers counting thousandths of a currency unit
/// (one "milli"). This bound keeps every derived quantity inside `i64`.
pub const PRICE_LIMIT: i64 = 1000000000000000;

/// A fixed-point price is within the range the formatting code supports.
pub open spec fn wf_price(p: i64) -> bool {
    -PRICE_LIMIT <= p <= PRICE_LIMIT
}

/// One trading day's record: the authoritative time key in epoch seconds,
/// prices in thousandths of a unit, and a share count.
#[derive(Clone, Copy, PartialEq, Eq, Structural, Debug)]
pub struct Quote {
    pub timestamp: u64,
    pub open: i64,
    pub high: i64,
    pub low: i64,
    pub close: i64,
    pub adjclose: i64,
    pub volume: u64,
}

impl Quote {
    /// The quote's fields are within the ranges the pipeline works on.
    pub open spec fn wf(self) -> bool {
        &&& self.timestamp <= MAX_TIMESTAMP
        &&& wf_price(self.open)
        &&& wf_price(self.high)
        &&& wf_price(self.low)
        &&& wf_price(self.close)
        &&& wf_price(self.adjclose)
    }
}

} // verus!
