//! Polymarket's central limit order book: the request and the reply.

use vstd::prelude::*;
use crate::data::{OrderBook, OrderLevel};

verus! {

/// A JSON value where the reply may carry text, a number, or null.
pub enum RawJson {
    /// A JSON string, unquoted.
    Text(String),
    /// `null`.
    Null,
    /// Any other value (a number, a boolean, an array, an object), as its
    /// JSON text.
    Json(String),
}

/// The text that a `RawJson` field becomes.
pub open spec fn json_field_text(v: RawJson) -> Seq<char> {
    match v {
        RawJson::Text(s) => s@,
        RawJson::Null => Seq::empty(),
        RawJson::Json(t) => t@,
    }
}

/// Reads a field that may come as text, number or null as text: strings stay
/// as they are, null becomes empty, anything else keeps its JSON text.
pub fn any_to_string(v: RawJson) -> (r: String)
    ensures
        r@ == json_field_text(v),
        v is Null ==> r@.len() == 0,
        v matches RawJson::Text(s) ==> r@ == s@,
        v matches RawJson::Json(t) ==> r@ == t@,
{
    match v {
        RawJson::Text(s) => s,
        RawJson::Null => String::new(),
        RawJson::Json(t) => t,
    }
}

/// The book as the endpoint sends it.
pub struct RawOrderBook {
    pub market: String,
    pub asset_id: String,
    pub timestamp: RawJson,
    pub bids: Vec<OrderLevel>,
    pub asks: Vec<OrderLevel>,
    pub min_order_size: Option<String>,
    pub tick_size: Option<String>,
    pub neg_risk: Option<bool>,
    pub last_trade_price: Option<String>,
}

/// The book that a reply describes: every field is kept, the timestamp is
/// read as text.
pub fn book_from_raw(raw: RawOrderBook) -> (b: OrderBook)
    ensures
        b.market == raw.market,
        b.asset_id == raw.asset_id,
        b.timestamp@ == json_field_text(raw.timestamp),
        b.bids == raw.bids,
        b.asks == raw.asks,
        b.min_order_size == raw.min_order_size,
        b.tick_size == raw.tick_size,
        b.neg_risk == raw.neg_risk,
        b.last_trade_price == raw.last_trade_price,
{
    OrderBook {
        market: raw.market,
        asset_id: raw.asset_id,
        timestamp: any_to_string(raw.timestamp),
        bids: raw.bids,
        asks: raw.asks,
        min_order_size: raw.min_order_size,
        tick_size: raw.tick_size,
        neg_risk: raw.neg_risk,
        last_trade_price: raw.last_trade_price,
    }
}

/// The production endpoint.
pub open spec fn prod_base() -> Seq<char> {
    "https://clob.polymarket.com"@
}

/// The staging endpoint.
pub open spec fn staging_base() -> Seq<char> {
    "https://clob-staging.polymarket.com"@
}

/// The address of the book of `token_id`.
pub open spec fn book_url_text(token_id: Seq<char>, staging: bool) -> Seq<char> {
    (if staging {
        staging_base()
    } else {
        prod_base()
    }) + "/book?token_id="@ + token_id
}

/// The address to ask for the book of `token_id`, on the staging endpoint
/// when `staging` holds. The token id is written as it is given.
pub fn book_url(token_id: &str, staging: bool) -> (r: String)
    ensures
        r@ == book_url_text(token_id@, staging),
{
    let mut r = if staging {
        String::from_str("https://clob-staging.polymarket.com")
    } else {
        String::from_str("https://clob.polymarket.com")
    };
    r.append("/book?token_id=");
    r.append(token_id);
    r
}

/// The book address is the host (staging or production), the book path and
/// the token id exactly as given, at the end.
pub proof fn book_url_ends_with_the_token(token_id: Seq<char>, staging: bool)
    ensures
        staging ==> book_url_text(token_id, staging)
            == "https://clob-staging.polymarket.com/book?token_id="@ + token_id,
        !staging ==> book_url_text(token_id, staging) == "https://clob.polymarket.com/book?token_id="@
            + token_id,
{
    reveal_strlit("https://clob-staging.polymarket.com/book?token_id=");
    reveal_strlit("https://clob.polymarket.com/book?token_id=");
    reveal_strlit("https://clob-staging.polymarket.com");
    reveal_strlit("https://clob.polymarket.com");
    reveal_strlit("/book?token_id=");
    assert("https://clob-staging.polymarket.com/book?token_id="@ =~= staging_base() + "/book?token_id="@);
    assert("https://clob.polymarket.com/book?token_id="@ =~= prod_base() + "/book?token_id="@);
}

} // verus!
