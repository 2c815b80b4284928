//! The order book that every market source yields, and the sources.

pub mod hyperliquid;
pub mod pendle;
pub mod polymarket;

use vstd::prelude::*;

verus! {

/// One price level of a book: price and size as the venue wrote them.
pub struct OrderLevel {
    pub price: String,
    pub size: String,
}

/// What an `OrderLevel` holds, as text.
pub struct LevelView {
    pub price: Seq<char>,
    pub size: Seq<char>,
}

impl View for OrderLevel {
    type V = LevelView;

    open spec fn view(&self) -> LevelView {
        LevelView { price: self.price@, size: self.size@ }
    }
}

/// An order book snapshot: bids best first, asks best first, and the details
/// that some venues add.
pub struct OrderBook {
    pub market: String,
    pub asset_id: String,
    pub timestamp: String,
    pub bids: Vec<OrderLevel>,
    pub asks: Vec<OrderLevel>,
    pub min_order_size: Option<String>,
    pub tick_size: Option<String>,
    pub neg_risk: Option<bool>,
    pub last_trade_price: Option<String>,
}

/// What an `OrderBook` holds, as text and sequences.
pub struct BookView {
    pub market: Seq<char>,
    pub asset_id: Seq<char>,
    pub timestamp: Seq<char>,
    pub bids: Seq<LevelView>,
    pub asks: Seq<LevelView>,
    pub min_order_size: Option<Seq<char>>,
    pub tick_size: Option<Seq<char>>,
    pub neg_risk: Option<bool>,
    pub last_trade_price: Option<Seq<char>>,
}

/// The text of an optional string.
pub open spec fn opt_text(o: Option<String>) -> Option<Seq<char>> {
    match o {
        Some(s) => Some(s@),
        None => None,
    }
}

/// The levels of a side, each as text.
pub open spec fn levels_view(v: Seq<OrderLevel>) -> Seq<LevelView> {
    v.map_values(|l: OrderLevel| l@)
}

impl View for OrderBook {
    type V = BookView;

    open spec fn view(&self) -> BookView {
        BookView {
            market: self.market@,
            asset_id: self.asset_id@,
            timestamp: self.timestamp@,
            bids: levels_view(self.bids@),
            asks: levels_view(self.asks@),
            min_order_size: opt_text(self.min_order_size),
            tick_size: opt_text(self.tick_size),
            neg_risk: self.neg_risk,
            last_trade_price: opt_text(self.last_trade_price),
        }
    }
}

/// A copy of `level`.
pub fn copy_level(level: &OrderLevel) -> (r: OrderLevel)
    ensures
        r@ == level@,
{
    OrderLevel { price: level.price.clone(), size: level.size.clone() }
}

} // verus!
