//! Display rows: one quote becomes seven formatted cells, once for the
//! console table and once for the CSV export. The two views share the date
//! and price formats but serialize the volume differently (grouped digits in
//! the table, two zero decimals in the CSV), on purpose.

use vstd::prelude::*;
use vstd::string::StringExecFns;
use crate::calendar::{
    civil_from_timestamp,
    day_of,
    local_civil_from_timestamp,
    month_name_view,
    month_of,
    month_number_to_name,
    year_of,
};
use crate::numfmt::{
    dec_str,
    grouped,
    pad2,
    price_cell,
    price_string,
    push_dec,
    push_pad2,
    volume_csv,
    volume_csv_string,
    volume_table_string,
};
use crate::quote::{Quote, MAX_TIMESTAMP};
use crate::segment::MonthGroup;

verus! {

/// The `MM-DD-YYYY` date cell of a timestamp, by UTC conversion.
pub open spec fn date_cell(ts: u64) -> Seq<char> {
    pad2(month_of(ts)) + "-"@ + pad2(day_of(ts)) + "-"@ + dec_str(year_of(ts) as nat)
}

/// Formats a timestamp as `MM-DD-YYYY` (UTC).
pub fn format_date(timestamp: &u64) -> (r: String)
    requires
        *timestamp <= MAX_TIMESTAMP,
    ensures
        r@ == date_cell(*timestamp),
{
    let (y, m, d) = civil_from_timestamp(*timestamp);
    let mut s = String::new();
    push_pad2(&mut s, m as u64);
    s.append("-");
    push_pad2(&mut s, d as u64);
    s.append("-");
    push_dec(&mut s, y as u64);
    proof {
        assert(s@ =~= date_cell(*timestamp));
    }
    s
}

/// The `YYYY-MM-DD` label of an axis tick.
pub open spec fn tick_cell(ts: u64) -> Seq<char> {
    dec_str(year_of(ts) as nat) + "-"@ + pad2(month_of(ts)) + "-"@ + pad2(day_of(ts))
}

/// Labels a chart axis tick with the local-calendar `YYYY-MM-DD` date of the
/// timestamp; when the local timezone cannot map the instant's wall-clock
/// fields to a single local time, the label degrades to a placeholder.
pub fn tick_label(timestamp: u64) -> (r: String)
    requires
        timestamp <= MAX_TIMESTAMP,
    ensures
        r@ == tick_cell(timestamp) || r@ == "Invalid Date"@,
{
    match local_civil_from_timestamp(timestamp) {
        Some((y, m, d)) => {
            let mut s = String::new();
            push_dec(&mut s, y as u64);
            s.append("-");
            push_pad2(&mut s, m as u64);
            s.append("-");
            push_pad2(&mut s, d as u64);
            proof {
                assert(s@ =~= tick_cell(timestamp));
            }
            s
        },
        None => String::from_str("Invalid Date"),
    }
}

/// The `<MonthName> <Year>` header line of one month group.
pub open spec fn header_cell(month: int, year: int) -> Seq<char> {
    month_name_view(month) + " "@ + dec_str(year as nat)
}

/// Formats the console header line of a month group.
pub fn group_header(group: &MonthGroup) -> (r: String)
    requires
        0 <= group.year,
    ensures
        r@ == header_cell(group.month as int, group.year as int),
{
    let mut s = String::from_str(month_number_to_name(group.month));
    s.append(" ");
    push_dec(&mut s, group.year as u64);
    proof {
        assert(s@ =~= header_cell(group.month as int, group.year as int));
    }
    s
}

/// The seven formatted cells of one quote, in column order
/// `Date, Open, High, Low, Volume, Close, AdjClose`.
pub struct ReportRow {
    pub date: String,
    pub open: String,
    pub high: String,
    pub low: String,
    pub volume: String,
    pub close: String,
    pub adjclose: String,
}

impl ReportRow {
    /// The row holds the given quote's cells, with the volume rendered by
    /// the given view (grouped digits for the table, `.00` for the CSV).
    pub open spec fn matches(self, q: Quote, vol: Seq<char>) -> bool {
        &&& self.date@ == date_cell(q.timestamp)
        &&& self.open@ == price_cell(q.open as int)
        &&& self.high@ == price_cell(q.high as int)
        &&& self.low@ == price_cell(q.low as int)
        &&& self.volume@ == vol
        &&& self.close@ == price_cell(q.close as int)
        &&& self.adjclose@ == price_cell(q.adjclose as int)
    }
}

/// Formats one quote for the console table: prices to two decimals, volume
/// with thousands separators.
pub fn table_row(q: &Quote) -> (r: ReportRow)
    requires
        q.wf(),
    ensures
        r.matches(*q, grouped(dec_str(q.volume as nat))),
{
    ReportRow {
        date: format_date(&q.timestamp),
        open: price_string(q.open),
        high: price_string(q.high),
        low: price_string(q.low),
        volume: volume_table_string(q.volume),
        close: price_string(q.close),
        adjclose: price_string(q.adjclose),
    }
}

/// Formats one quote for the CSV export: same columns, volume with two zero
/// decimal places.
pub fn csv_row(q: &Quote) -> (r: ReportRow)
    requires
        q.wf(),
    ensures
        r.matches(*q, volume_csv(q.volume)),
{
    ReportRow {
        date: format_date(&q.timestamp),
        open: price_string(q.open),
        high: price_string(q.high),
        low: price_string(q.low),
        volume: volume_csv_string(q.volume),
        close: price_string(q.close),
        adjclose: price_string(q.adjclose),
    }
}

/// Formats every quote of one sequence for the console table, in order.
pub fn table_rows(quotes: &Vec<Quote>) -> (rows: Vec<ReportRow>)
    requires
        forall|i: int| 0 <= i < quotes@.len() ==> #[trigger] quotes@[i].wf(),
    ensures
        rows@.len() == quotes@.len(),
        forall|i: int|
            0 <= i < quotes@.len() ==> #[trigger] rows@[i].matches(
                quotes@[i],
                grouped(dec_str(quotes@[i].volume as nat)),
            ),
{
    let mut rows: Vec<ReportRow> = Vec::new();
    let mut i: usize = 0;
    while i < quotes.len()
        invariant
            0 <= i <= quotes@.len(),
            forall|k: int| 0 <= k < quotes@.len() ==> #[trigger] quotes@[k].wf(),
            rows@.len() == i,
            forall|k: int|
                0 <= k < i ==> #[trigger] rows@[k].matches(
                    quotes@[k],
                    grouped(dec_str(quotes@[k].volume as nat)),
                ),
        decreases quotes@.len() - i,
    {
        rows.push(table_row(&quotes[i]));
        i = i + 1;
    }
    rows
}

/// Formats every quote of one sequence for the CSV export, in order.
pub fn csv_rows(quotes: &Vec<Quote>) -> (rows: Vec<ReportRow>)
    requires
        forall|i: int| 0 <= i < quotes@.len() ==> #[trigger] quotes@[i].wf(),
    ensures
        rows@.len() == quotes@.len(),
        forall|i: int|
            0 <= i < quotes@.len() ==> #[trigger] rows@[i].matches(
                quotes@[i],
                volume_csv(quotes@[i].volume),
            ),
{
    let mut rows: Vec<ReportRow> = Vec::new();
    let mut i: usize = 0;
    while i < quotes.len()
        invariant
            0 <= i <= quotes@.len(),
            forall|k: int| 0 <= k < quotes@.len() ==> #[trigger] quotes@[k].wf(),
            rows@.len() == i,
            forall|k: int|
                0 <= k < i ==> #[trigger] rows@[k].matches(
                    quotes@[k],
                    volume_csv(quotes@[k].volume),
                ),
        decreases quotes@.len() - i,
    {
        rows.push(csv_row(&quotes[i]));
        i = i + 1;
    }
    rows
}

} // verus!
