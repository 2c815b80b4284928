use ob_cli::data::{OrderBook, OrderLevel};
use ob_cli::display::{render, Line, Side, Tone, WIDTH};

fn level(price: &str, size: &str) -> OrderLevel {
    OrderLevel { price: price.to_string(), size: size.to_string() }
}

fn book() -> OrderBook {
    OrderBook {
        market: "0xmarket".to_string(),
        asset_id: "1234567890123456789012345678901234567890123456789012345678901234567890".to_string(),
        timestamp: "1700000000".to_string(),
        bids: vec![level("0.48", "10"), level("0.47", "20"), level("0.46", "30")],
        asks: vec![level("0.52", "5"), level("0.53", "6"), level("0.54", "7")],
        min_order_size: Some("5".to_string()),
        tick_size: Some("0.01".to_string()),
        neg_risk: Some(true),
        last_trade_price: Some("0.5".to_string()),
    }
}

fn text(line: &Line) -> String {
    match line {
        Line::Text(spans) => spans.iter().map(|s| s.text.clone()).collect(),
        _ => panic!("not a text line"),
    }
}

#[test]
fn header_lists_title_fields_and_details() {
    let f = render(&book(), "polymarket", 2, true);
    assert!(f.clear);
    assert_eq!(text(&f.lines[0]), "═".repeat(WIDTH));
    assert_eq!(text(&f.lines[1]), format!("{:^58}", "POLYMARKET  ORDERBOOK  CLI"));
    assert_eq!(text(&f.lines[3]), format!("  Asset:  {}", &book().asset_id[..46]));
    assert_eq!(text(&f.lines[4]), "  Market: 0xmarket");
    assert_eq!(text(&f.lines[5]), "  Last: 0.5  │  Tick: 0.01  │  Min: 5  │  ⚠ NEG-RISK");
    match &f.lines[5] {
        Line::Text(spans) => {
            assert_eq!(spans[2].tone, Tone::YellowBold);
            assert_eq!(spans.last().unwrap().tone, Tone::RedBold);
        }
        _ => panic!(),
    }
    assert_eq!(text(&f.lines[6]), "═".repeat(WIDTH));
}

#[test]
fn columns_follow_the_header() {
    let f = render(&book(), "polymarket", 2, false);
    assert!(!f.clear);
    assert_eq!(
        text(&f.lines[7]),
        format!("  {:>16}  {:>10}  {:>16}", "SIZE", "PRICE", "TOTAL (USDC)")
    );
    assert_eq!(text(&f.lines[8]), "─".repeat(WIDTH));
}

#[test]
fn asks_are_reversed_and_bids_kept_in_order() {
    let f = render(&book(), "polymarket", 2, true);
    match &f.lines[9] {
        Line::Depth(Side::Ask, rows) => {
            let prices: Vec<&str> = rows.iter().map(|r| r.price.as_str()).collect();
            assert_eq!(prices, vec!["0.53", "0.52"]);
        }
        _ => panic!("asks expected"),
    }
    match &f.lines[10] {
        Line::Spread(ask, bid) => assert_eq!((ask.as_str(), bid.as_str()), ("0.52", "0.48")),
        _ => panic!("spread expected"),
    }
    match &f.lines[11] {
        Line::Depth(Side::Bid, rows) => {
            let prices: Vec<&str> = rows.iter().map(|r| r.price.as_str()).collect();
            assert_eq!(prices, vec!["0.48", "0.47"]);
        }
        _ => panic!("bids expected"),
    }
    assert_eq!(text(&f.lines[12]), "═".repeat(WIDTH));
    assert_eq!(text(&f.lines[13]), "  Updated: 1700000000");
    assert_eq!(f.lines.len(), 14);
}

#[test]
fn more_levels_than_the_book_shows_all() {
    let f = render(&book(), "polymarket", 10, true);
    match &f.lines[9] {
        Line::Depth(Side::Ask, rows) => assert_eq!(rows.len(), 3),
        _ => panic!(),
    }
}

#[test]
fn empty_sides_show_notices() {
    let mut b = book();
    b.asks.clear();
    b.bids.clear();
    b.neg_risk = None;
    b.tick_size = None;
    b.min_order_size = None;
    b.last_trade_price = Some("0.0".to_string());
    let f = render(&b, "pendle", 10, true);
    assert_eq!(text(&f.lines[5]), "═".repeat(WIDTH));
    assert_eq!(text(&f.lines[8]), format!("{:^58}", "— no asks —"));
    assert_eq!(text(&f.lines[9]), format!("{:^58}", "──  NO SPREAD  ──"));
    assert_eq!(text(&f.lines[10]), format!("{:^58}", "— no bids —"));
    assert_eq!(f.lines.len(), 13);
}

#[test]
fn zero_last_price_is_not_listed() {
    for p in ["", "0", "0.0"] {
        let mut b = book();
        b.last_trade_price = Some(p.to_string());
        let f = render(&b, "polymarket", 1, false);
        assert_eq!(text(&f.lines[5]), "  Tick: 0.01  │  Min: 5  │  ⚠ NEG-RISK");
    }
}

#[test]
fn one_sided_book_has_no_spread() {
    let mut b = book();
    b.bids.clear();
    let f = render(&b, "polymarket", 1, false);
    assert_eq!(text(&f.lines[10]), format!("{:^58}", "──  NO SPREAD  ──"));
}
