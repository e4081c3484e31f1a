use stock_report::calendar::{get_month_and_year, month_number_to_name};
use stock_report::quote::Quote;
use stock_report::rows::{csv_row, format_date, group_header, table_row, tick_label};
use stock_report::segment::MonthGroup;

const JAN_15_2023: u64 = 1673740800;

fn mk_quote_fmt() -> Quote {
    // Prices are thousandths: 10.005, 12.345, 9.001, 11.119.
    Quote {
        timestamp: JAN_15_2023,
        open: 10005,
        high: 12345,
        low: 9001,
        close: 11119,
        adjclose: 11119,
        volume: 320053700,
    }
}

#[test]
fn price_cells_round_half_up() {
    let q = mk_quote_fmt();
    let t = table_row(&q);
    assert_eq!(t.open, "10.01");
    assert_eq!(t.high, "12.35");
    assert_eq!(t.low, "9.00");
    assert_eq!(t.close, "11.12");
    let c = csv_row(&q);
    assert_eq!(c.open, "10.01");
    assert_eq!(c.high, "12.35");
    assert_eq!(c.low, "9.00");
    assert_eq!(c.close, "11.12");
}

#[test]
fn negative_price_cell() {
    let mut q = mk_quote_fmt();
    q.adjclose = -10005;
    let t = table_row(&q);
    assert_eq!(t.adjclose, "-10.01");
}

#[test]
fn small_negative_price_rounds_to_zero() {
    let mut q = mk_quote_fmt();
    q.adjclose = -3;
    let t = table_row(&q);
    assert_eq!(t.adjclose, "0.00");
}

#[test]
fn volume_thousands_grouping() {
    let mut q = mk_quote_fmt();
    q.volume = 1234567;
    assert_eq!(table_row(&q).volume, "1,234,567");
    q.volume = 999;
    assert_eq!(table_row(&q).volume, "999");
    q.volume = 1000;
    assert_eq!(table_row(&q).volume, "1,000");
    q.volume = 320053700;
    assert_eq!(table_row(&q).volume, "320,053,700");
}

#[test]
fn csv_volume_two_decimals() {
    let q = mk_quote_fmt();
    assert_eq!(csv_row(&q).volume, "320053700.00");
}

#[test]
fn date_cell_month_day_year() {
    assert_eq!(format_date(&JAN_15_2023), "01-15-2023");
    let q = mk_quote_fmt();
    assert_eq!(table_row(&q).date, "01-15-2023");
    assert_eq!(csv_row(&q).date, "01-15-2023");
}

#[test]
fn month_and_year_key() {
    assert_eq!(get_month_and_year(&JAN_15_2023), (1, 2023));
}

#[test]
fn month_names() {
    assert_eq!(month_number_to_name(1), "January");
    assert_eq!(month_number_to_name(9), "September");
    assert_eq!(month_number_to_name(12), "December");
    assert_eq!(month_number_to_name(0), "");
    assert_eq!(month_number_to_name(13), "");
}

#[test]
fn group_header_name_and_year() {
    let g = MonthGroup { month: 1, year: 2023, members: vec![mk_quote_fmt()] };
    assert_eq!(group_header(&g), "January 2023");
}

#[test]
fn tick_label_local_date_or_placeholder() {
    let label = tick_label(JAN_15_2023);
    assert!(label == "2023-01-15" || label == "Invalid Date");
    assert!(!label.is_empty());
}
