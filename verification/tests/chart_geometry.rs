use stock_report::chart::{
    build_series, candle_color, compute_geometry, is_bullish, CandleColor, CANDLE_WIDTH,
};
use stock_report::quote::Quote;

fn mk_quote_chart(timestamp: u64, open: i64, high: i64, low: i64, close: i64) -> Quote {
    Quote { timestamp, open, high, low, close, adjclose: close, volume: 100 }
}

#[test]
fn y_domain_spans_lows_and_highs() {
    let quotes = vec![
        mk_quote_chart(1000, 10000, 12000, 9000, 11000),
        mk_quote_chart(2000, 11000, 15000, 10000, 12000),
        mk_quote_chart(3000, 9500, 11000, 8000, 9000),
    ];
    let series = build_series(&quotes);
    let g = compute_geometry(&series).expect("non-empty series");
    assert_eq!(g.y_lo, 8000);
    assert_eq!(g.y_hi, 15000);
}

#[test]
fn x_domain_spans_first_and_last() {
    let quotes = vec![
        mk_quote_chart(1000, 1, 2, 1, 2),
        mk_quote_chart(2000, 1, 2, 1, 2),
        mk_quote_chart(3000, 1, 2, 1, 2),
    ];
    let series = build_series(&quotes);
    let g = compute_geometry(&series).expect("non-empty series");
    assert_eq!(g.x_lo, 1000);
    assert_eq!(g.x_hi, 3000);
}

#[test]
fn empty_series_render_is_skipped() {
    let quotes: Vec<Quote> = Vec::new();
    let series = build_series(&quotes);
    assert!(compute_geometry(&series).is_none());
}

#[test]
fn bullish_when_close_at_or_above_open() {
    assert!(is_bullish(10000, 11000));
    assert!(is_bullish(10000, 10000));
    assert!(!is_bullish(11000, 10000));
}

#[test]
fn color_up_iff_bullish() {
    assert_eq!(candle_color(10000, 11000), CandleColor::Up);
    assert_eq!(candle_color(10000, 10000), CandleColor::Up);
    assert_eq!(candle_color(11000, 10000), CandleColor::Down);
}

#[test]
fn candle_carries_quote_fields() {
    let quotes = vec![mk_quote_chart(5000, 10000, 12000, 9000, 8000)];
    let series = build_series(&quotes);
    let g = compute_geometry(&series).expect("non-empty series");
    assert_eq!(g.candles.len(), 1);
    let c = &g.candles[0];
    assert_eq!(c.x, 5000);
    assert_eq!(c.open, 10000);
    assert_eq!(c.high, 12000);
    assert_eq!(c.low, 9000);
    assert_eq!(c.close, 8000);
    assert_eq!(c.color, CandleColor::Down);
}

#[test]
fn candle_width_is_fixed() {
    assert_eq!(CANDLE_WIDTH, 1);
}
