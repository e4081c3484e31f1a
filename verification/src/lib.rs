//! Verified core of a daily-quote reporting pipeline: partitioning an ordered
//! price series into contiguous calendar-month groups, deriving display rows
//! (fixed-precision prices, grouped volumes, formatted dates), and computing
//! candlestick chart geometry (axis domains, per-candle tuples, color choice).

pub mod calendar;
pub mod chart;
pub mod numfmt;
pub mod quote;
pub mod rows;
pub mod segment;
