use stock_report::quote::Quote;
use stock_report::segment::segment_quotes;

fn mk_quote_seg(timestamp: u64) -> Quote {
    Quote {
        timestamp,
        open: 10000,
        high: 12000,
        low: 9000,
        close: 11000,
        adjclose: 11000,
        volume: 1000,
    }
}

const JAN_15_2023: u64 = 1673740800;
const JAN_16_2023: u64 = 1673827200;
const JAN_20_2023: u64 = 1674172800;
const FEB_01_2023: u64 = 1675209600;
const FEB_03_2023: u64 = 1675382400;
const MAR_01_2023: u64 = 1677628800;
const DEC_31_2022: u64 = 1672444800;

#[test]
fn single_month_one_group() {
    let quotes = vec![
        mk_quote_seg(JAN_15_2023),
        mk_quote_seg(JAN_16_2023),
        mk_quote_seg(JAN_20_2023),
    ];
    let groups = segment_quotes(&quotes);
    assert_eq!(groups.len(), 1);
    assert_eq!(groups[0].month, 1);
    assert_eq!(groups[0].year, 2023);
    assert_eq!(groups[0].members, quotes);
}

#[test]
fn non_contiguous_repeat_three_groups() {
    let quotes = vec![
        mk_quote_seg(JAN_15_2023),
        mk_quote_seg(JAN_16_2023),
        mk_quote_seg(FEB_01_2023),
        mk_quote_seg(JAN_20_2023),
    ];
    let groups = segment_quotes(&quotes);
    assert_eq!(groups.len(), 3);
    assert_eq!((groups[0].month, groups[0].year), (1, 2023));
    assert_eq!((groups[1].month, groups[1].year), (2, 2023));
    assert_eq!((groups[2].month, groups[2].year), (1, 2023));
    assert_eq!(groups[0].members.len(), 2);
    assert_eq!(groups[1].members.len(), 1);
    assert_eq!(groups[2].members.len(), 1);
    assert_eq!(groups[2].members[0].timestamp, JAN_20_2023);
}

#[test]
fn empty_input_zero_groups() {
    let quotes: Vec<Quote> = Vec::new();
    let groups = segment_quotes(&quotes);
    assert_eq!(groups.len(), 0);
}

#[test]
fn concat_reproduces_input() {
    let quotes = vec![
        mk_quote_seg(JAN_15_2023),
        mk_quote_seg(JAN_20_2023),
        mk_quote_seg(FEB_01_2023),
        mk_quote_seg(FEB_03_2023),
        mk_quote_seg(MAR_01_2023),
    ];
    let groups = segment_quotes(&quotes);
    let mut flat: Vec<Quote> = Vec::new();
    for g in &groups {
        flat.extend_from_slice(&g.members);
    }
    assert_eq!(flat, quotes);
}

#[test]
fn year_boundary_two_groups() {
    let quotes = vec![mk_quote_seg(DEC_31_2022), mk_quote_seg(JAN_15_2023)];
    let groups = segment_quotes(&quotes);
    assert_eq!(groups.len(), 2);
    assert_eq!((groups[0].month, groups[0].year), (12, 2022));
    assert_eq!((groups[1].month, groups[1].year), (1, 2023));
}

#[test]
fn single_quote_singleton_group() {
    let quotes = vec![mk_quote_seg(JAN_15_2023)];
    let groups = segment_quotes(&quotes);
    assert_eq!(groups.len(), 1);
    assert_eq!(groups[0].members.len(), 1);
}
