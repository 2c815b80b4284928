use ob_cli::data::hyperliquid::{self, HlBook, HlLevel};
use ob_cli::data::pendle::{self, DEFAULT_CHAIN_ID};
use ob_cli::data::polymarket::{self, RawJson, RawOrderBook};
use ob_cli::data::{copy_level, OrderLevel};

fn level(price: &str, size: &str) -> OrderLevel {
    OrderLevel { price: price.to_string(), size: size.to_string() }
}

#[test]
fn any_to_string_reads_each_kind() {
    assert_eq!(polymarket::any_to_string(RawJson::Text("1700000000".to_string())), "1700000000");
    assert_eq!(polymarket::any_to_string(RawJson::Json("1700000000".to_string())), "1700000000");
    assert_eq!(polymarket::any_to_string(RawJson::Null), "");
    assert_eq!(polymarket::any_to_string(RawJson::Json("true".to_string())), "true");
}

#[test]
fn polymarket_url_picks_the_endpoint() {
    assert_eq!(polymarket::book_url("123", false), "https://clob.polymarket.com/book?token_id=123");
    assert_eq!(
        polymarket::book_url("123", true),
        "https://clob-staging.polymarket.com/book?token_id=123"
    );
}

#[test]
fn polymarket_book_keeps_every_field() {
    let raw = RawOrderBook {
        market: "0xabc".to_string(),
        asset_id: "42".to_string(),
        timestamp: RawJson::Json("1700000000123".to_string()),
        bids: vec![level("0.48", "100")],
        asks: vec![level("0.52", "50"), level("0.53", "10")],
        min_order_size: Some("5".to_string()),
        tick_size: Some("0.01".to_string()),
        neg_risk: Some(false),
        last_trade_price: Some("0.5".to_string()),
    };
    let b = polymarket::book_from_raw(raw);
    assert_eq!(b.market, "0xabc");
    assert_eq!(b.asset_id, "42");
    assert_eq!(b.timestamp, "1700000000123");
    assert_eq!(b.bids.len(), 1);
    assert_eq!(b.asks[1].price, "0.53");
    assert_eq!(b.min_order_size.as_deref(), Some("5"));
    assert_eq!(b.tick_size.as_deref(), Some("0.01"));
    assert_eq!(b.neg_risk, Some(false));
    assert_eq!(b.last_trade_price.as_deref(), Some("0.5"));
}

fn hl(px: &str, sz: &str) -> HlLevel {
    HlLevel { px: px.to_string(), sz: sz.to_string(), n: 1 }
}

#[test]
fn hyperliquid_sides_come_in_order() {
    let raw = HlBook {
        coin: "BTC".to_string(),
        time: 1700000000123,
        levels: vec![vec![hl("100", "1"), hl("99", "2")], vec![hl("101", "3")], vec![hl("1", "1")]],
    };
    let b = hyperliquid::book_from_raw(raw);
    assert_eq!(b.market, "hyperliquid");
    assert_eq!(b.asset_id, "BTC");
    assert_eq!(b.timestamp, "1700000000123");
    assert_eq!(b.bids.len(), 2);
    assert_eq!(b.bids[1].price, "99");
    assert_eq!(b.bids[1].size, "2");
    assert_eq!(b.asks.len(), 1);
    assert_eq!(b.asks[0].price, "101");
    assert!(b.min_order_size.is_none() && b.tick_size.is_none());
    assert!(b.neg_risk.is_none() && b.last_trade_price.is_none());
}

#[test]
fn hyperliquid_missing_sides_are_empty() {
    let b = hyperliquid::book_from_raw(HlBook { coin: "ETH".to_string(), time: 5, levels: vec![] });
    assert!(b.bids.is_empty() && b.asks.is_empty());
    let b = hyperliquid::book_from_raw(HlBook {
        coin: "ETH".to_string(),
        time: 5,
        levels: vec![vec![hl("1", "1")]],
    });
    assert_eq!(b.bids.len(), 1);
    assert!(b.asks.is_empty());
}

#[test]
fn hyperliquid_body_names_the_coin_in_upper_case() {
    assert_eq!(hyperliquid::request_body("btc"), r#"{"coin":"BTC","type":"l2Book"}"#);
    assert_eq!(
        hyperliquid::request_body("a\"b\\c\n\u{1}"),
        "{\"coin\":\"A\\\"B\\\\C\\n\\u0001\",\"type\":\"l2Book\"}"
    );
    assert_eq!(hyperliquid::api_url(), "https://api.hyperliquid.xyz/info");
}

#[test]
fn hyperliquid_body_uses_unicode_upper_case() {
    assert_eq!(hyperliquid::request_body("straße"), r#"{"coin":"STRASSE","type":"l2Book"}"#);
}

#[test]
fn pendle_token_ids_split_at_the_first_colon() {
    assert_eq!(pendle::parse_token_id("1:0xabc"), (1, "0xabc"));
    assert_eq!(pendle::parse_token_id("0xabc"), (DEFAULT_CHAIN_ID, "0xabc"));
    assert_eq!(pendle::parse_token_id("eth:0xabc"), (DEFAULT_CHAIN_ID, "0xabc"));
    assert_eq!(pendle::parse_token_id("8453:0x1:2"), (8453, "0x1:2"));
    assert_eq!(pendle::parse_token_id(":"), (DEFAULT_CHAIN_ID, ""));
}

#[test]
fn pendle_url_and_book() {
    assert_eq!(
        pendle::book_url(42161, "0xabc"),
        "https://api-v2.pendle.finance/core/v2/limit-orders/book/42161?market=0xabc&precisionDecimal=2&limit=50"
    );
    let b = pendle::book_from_levels(1, "0xabc", vec![level("8.3000", "1.0000")], vec![], Some(1700000000));
    assert_eq!(b.market, "pendle");
    assert_eq!(b.asset_id, "1:0xabc");
    assert_eq!(b.timestamp, "1700000000");
    assert_eq!(b.asks.len(), 1);
    assert!(b.bids.is_empty());
    let b = pendle::book_from_levels(1, "m", vec![], vec![], None);
    assert_eq!(b.timestamp, "");
}

#[test]
fn pendle_asset_id_gives_back_the_token() {
    let b = pendle::book_from_levels(8453, "0xdef", vec![], vec![], None);
    assert_eq!(pendle::parse_token_id(&b.asset_id), (8453, "0xdef"));
}

#[test]
fn copy_level_copies() {
    let l = level("1", "2");
    let c = copy_level(&l);
    assert_eq!((c.price.as_str(), c.size.as_str()), ("1", "2"));
}
