//! Candlestick chart geometry: axis domains, per-candle drawing tuples and
//! color selection, computed from the full quote series without drawing.

use vstd::prelude::*;
use crate::quote::Quote;

verus! {

/// Fixed candle body width in pixels; not derived from the data.
pub const CANDLE_WIDTH: u32 = 1;

/// A candle reads as "up" exactly when it closed at or above its open.
pub open spec fn bullish(open: i64, close: i64) -> bool {
    close >= open
}

/// Color selection for one candle: "up" when `close >= open`, else "down".
pub fn is_bullish(open: i64, close: i64) -> (r: bool)
    ensures
        r == bullish(open, close),
{
    close >= open
}

/// The two candle colors; a renderer maps them to its palette (up is
/// conventionally green, down red).
#[derive(Clone, Copy, PartialEq, Eq, Structural, Debug)]
pub enum CandleColor {
    Up,
    Down,
}

/// The color of a candle with the given open and close prices.
pub fn candle_color(open: i64, close: i64) -> (c: CandleColor)
    ensures
        c == CandleColor::Up <==> bullish(open, close),
{
    if close >= open {
        CandleColor::Up
    } else {
        CandleColor::Down
    }
}

/// Everything a renderer needs to draw one candle: its x position in raw
/// epoch seconds, the four prices, and the color choice.
#[derive(Clone, Copy, PartialEq, Eq, Structural, Debug)]
pub struct Candle {
    pub x: u64,
    pub open: i64,
    pub high: i64,
    pub low: i64,
    pub close: i64,
    pub color: CandleColor,
}

/// The parallel-array view of the full input series that chart geometry
/// works on.
pub struct ChartSeries {
    pub timestamps: Vec<u64>,
    pub opens: Vec<i64>,
    pub highs: Vec<i64>,
    pub lows: Vec<i64>,
    pub closes: Vec<i64>,
}

impl ChartSeries {
    /// All five arrays cover the same points.
    pub open spec fn wf(self) -> bool {
        &&& self.opens@.len() == self.timestamps@.len()
        &&& self.highs@.len() == self.timestamps@.len()
        &&& self.lows@.len() == self.timestamps@.len()
        &&& self.closes@.len() == self.timestamps@.len()
    }

    /// The candle drawn for point `i` of the series.
    pub open spec fn candle_of(self, i: int) -> Candle {
        Candle {
            x: self.timestamps@[i],
            open: self.opens@[i],
            high: self.highs@[i],
            low: self.lows@[i],
            close: self.closes@[i],
            color: if bullish(self.opens@[i], self.closes@[i]) {
                CandleColor::Up
            } else {
                CandleColor::Down
            },
        }
    }
}

/// Builds the parallel-array series from the original, ungrouped quotes.
pub fn build_series(quotes: &Vec<Quote>) -> (s: ChartSeries)
    ensures
        s.wf(),
        s.timestamps@ == quotes@.map_values(|q: Quote| q.timestamp),
        s.opens@ == quotes@.map_values(|q: Quote| q.open),
        s.highs@ == quotes@.map_values(|q: Quote| q.high),
        s.lows@ == quotes@.map_values(|q: Quote| q.low),
        s.closes@ == quotes@.map_values(|q: Quote| q.close),
{
    let n = quotes.len();
    let mut timestamps: Vec<u64> = Vec::new();
    let mut opens: Vec<i64> = Vec::new();
    let mut highs: Vec<i64> = Vec::new();
    let mut lows: Vec<i64> = Vec::new();
    let mut closes: Vec<i64> = Vec::new();
    let mut i: usize = 0;
    while i < n
        invariant
            0 <= i <= n,
            n == quotes@.len(),
            timestamps@ =~= quotes@.take(i as int).map_values(|q: Quote| q.timestamp),
            opens@ =~= quotes@.take(i as int).map_values(|q: Quote| q.open),
            highs@ =~= quotes@.take(i as int).map_values(|q: Quote| q.high),
            lows@ =~= quotes@.take(i as int).map_values(|q: Quote| q.low),
            closes@ =~= quotes@.take(i as int).map_values(|q: Quote| q.close),
        decreases n - i,
    {
        let q = quotes[i];
        timestamps.push(q.timestamp);
        opens.push(q.open);
        highs.push(q.high);
        lows.push(q.low);
        closes.push(q.close);
        i = i + 1;
        proof {
            assert(quotes@.take(i as int).drop_last() =~= quotes@.take(i - 1));
            assert(timestamps@ =~= quotes@.take(i as int).map_values(|q: Quote| q.timestamp));
            assert(opens@ =~= quotes@.take(i as int).map_values(|q: Quote| q.open));
            assert(highs@ =~= quotes@.take(i as int).map_values(|q: Quote| q.high));
            assert(lows@ =~= quotes@.take(i as int).map_values(|q: Quote| q.low));
            assert(closes@ =~= quotes@.take(i as int).map_values(|q: Quote| q.close));
        }
    }
    proof {
        assert(quotes@.take(n as int) =~= quotes@);
    }
    ChartSeries { timestamps, opens, highs, lows, closes }
}

/// The least element of a non-empty sequence.
pub open spec fn seq_min(s: Seq<i64>) -> int
    recommends
        s.len() > 0,
    decreases s.len(),
{
    if s.len() <= 1 {
        if s.len() == 1 {
            s[0] as int
        } else {
            0
        }
    } else if (s.last() as int) < seq_min(s.drop_last()) {
        s.last() as int
    } else {
        seq_min(s.drop_last())
    }
}

/// The greatest element of a non-empty sequence.
pub open spec fn seq_max(s: Seq<i64>) -> int
    recommends
        s.len() > 0,
    decreases s.len(),
{
    if s.len() <= 1 {
        if s.len() == 1 {
            s[0] as int
        } else {
            0
        }
    } else if (s.last() as int) > seq_max(s.drop_last()) {
        s.last() as int
    } else {
        seq_max(s.drop_last())
    }
}

/// The timestamps arrive oldest first: the pipeline's input invariant,
/// assumed from the source and not enforced here.
pub open spec fn ascending(s: Seq<u64>) -> bool {
    forall|i: int, j: int| 0 <= i <= j < s.len() ==> s[i] <= s[j]
}

/// Axis domains and per-candle geometry for one render: the x-domain spans
/// the series' first and last raw timestamps (a continuous linear scale, no
/// gap compression), the y-domain spans the least low and the greatest high.
/// On an ascending series the x-domain therefore covers every data point.
pub struct ChartGeometry {
    pub x_lo: u64,
    pub x_hi: u64,
    pub y_lo: i64,
    pub y_hi: i64,
    pub candles: Vec<Candle>,
}

/// Computes the full chart geometry, or `None` for an empty series: an empty
/// render is reported as a no-op to be skipped, never an error.
pub fn compute_geometry(series: &ChartSeries) -> (r: Option<ChartGeometry>)
    requires
        series.wf(),
    ensures
        r is None <==> series.timestamps@.len() == 0,
        r matches Some(g) ==> {
            &&& g.x_lo == series.timestamps@.first()
            &&& g.x_hi == series.timestamps@.last()
            &&& g.y_lo == seq_min(series.lows@)
            &&& g.y_hi == seq_max(series.highs@)
            &&& g.candles@.len() == series.timestamps@.len()
            &&& forall|i: int|
                0 <= i < series.timestamps@.len() ==> #[trigger] g.candles@[i]
                    == series.candle_of(i)
            &&& ascending(series.timestamps@) ==> forall|i: int|
                0 <= i < series.timestamps@.len() ==> g.x_lo <= #[trigger] series.timestamps@[i]
                    <= g.x_hi
        },
{
    let n = series.timestamps.len();
    if n == 0 {
        return None;
    }
    let x_lo = series.timestamps[0];
    let x_hi = series.timestamps[n - 1];
    let mut y_lo = series.lows[0];
    let mut y_hi = series.highs[0];
    let mut candles: Vec<Candle> = Vec::new();
    let mut i: usize = 1;
    while i < n
        invariant
            1 <= i <= n,
            n == series.timestamps@.len(),
            series.wf(),
            y_lo == seq_min(series.lows@.take(i as int)),
            y_hi == seq_max(series.highs@.take(i as int)),
        decreases n - i,
    {
        proof {
            assert(series.lows@.take(i + 1).drop_last() =~= series.lows@.take(i as int));
            assert(series.highs@.take(i + 1).drop_last() =~= series.highs@.take(i as int));
        }
        let lo = series.lows[i];
        if lo < y_lo {
            y_lo = lo;
        }
        let hi = series.highs[i];
        if hi > y_hi {
            y_hi = hi;
        }
        i = i + 1;
    }
    proof {
        assert(series.lows@.take(n as int) =~= series.lows@);
        assert(series.highs@.take(n as int) =~= series.highs@);
    }
    let mut j: usize = 0;
    while j < n
        invariant
            0 <= j <= n,
            n == series.timestamps@.len(),
            series.wf(),
            candles@.len() == j,
            forall|k: int| 0 <= k < j ==> #[trigger] candles@[k] == series.candle_of(k),
        decreases n - j,
    {
        let color = candle_color(series.opens[j], series.closes[j]);
        candles.push(
            Candle {
                x: series.timestamps[j],
                open: series.opens[j],
                high: series.highs[j],
                low: series.lows[j],
                close: series.closes[j],
                color,
            },
        );
        j = j + 1;
    }
    Some(ChartGeometry { x_lo, x_hi, y_lo, y_hi, candles })
}

} // verus!
