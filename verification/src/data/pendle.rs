//! Pendle's limit order book: the token id, the request and the book.

use vstd::prelude::*;
use crate::data::{OrderBook, OrderLevel};
use crate::text::{decimal, decimal_text, parse_u64, parse_u64_text};

verus! {

/// The chain a bare market address refers to (Arbitrum).
pub const DEFAULT_CHAIN_ID: u64 = 42161;

/// `p` is the position of the first `:` in `s`.
pub open spec fn is_first_colon(s: Seq<char>, p: int) -> bool {
    &&& 0 <= p < s.len()
    &&& s[p] == ':'
    &&& forall|j: int| 0 <= j < p ==> s[j] != ':'
}

/// The position of the first `:` in `s`, if there is one.
pub open spec fn first_colon(s: Seq<char>) -> Option<int> {
    if exists|p: int| is_first_colon(s, p) {
        Some(choose|p: int| is_first_colon(s, p))
    } else {
        None
    }
}

/// The chain that a token id names: the number before the first `:`, or the
/// default chain when there is no `:` or that text is no `u64`.
pub open spec fn token_chain(s: Seq<char>) -> u64 {
    match first_colon(s) {
        Some(p) => match parse_u64_text(s.take(p)) {
            Some(c) => c,
            None => DEFAULT_CHAIN_ID,
        },
        None => DEFAULT_CHAIN_ID,
    }
}

/// The market address that a token id names: what follows the first `:`, or
/// the whole id when there is none.
pub open spec fn token_market(s: Seq<char>) -> Seq<char> {
    match first_colon(s) {
        Some(p) => s.skip(p + 1),
        None => s,
    }
}

/// Splits a token id of the form `chain:market` or `market` into the chain id
/// and the market address.
pub fn parse_token_id(token_id: &str) -> (r: (u64, &str))
    ensures
        r.0 == token_chain(token_id@),
        r.1@ == token_market(token_id@),
{
    let n = token_id.unicode_len();
    let mut p: usize = 0;
    while p < n
        invariant
            p <= n,
            n == token_id@.len(),
            forall|j: int| 0 <= j < p ==> token_id@[j] != ':',
        decreases n - p,
    {
        if token_id.get_char(p) == ':' {
            let ghost s = token_id@;
            assert(is_first_colon(s, p as int));
            assert(first_colon(s) == Some(p as int)) by {
                let q = choose|q: int| is_first_colon(s, q);
                assert(is_first_colon(s, q));
                if q < p {
                    assert(s[q] != ':');
                } else if q > p {
                    assert(s[p as int] != ':');
                }
            }
            let chain_text = token_id.substring_char(0, p);
            assert(chain_text@ =~= s.take(p as int));
            let chain = match parse_u64(chain_text) {
                Some(c) => c,
                None => DEFAULT_CHAIN_ID,
            };
            let market = token_id.substring_char(p + 1, n);
            assert(market@ =~= s.skip(p + 1));
            return (chain, market);
        }
        p = p + 1;
    }
    assert(!exists|q: int| is_first_colon(token_id@, q));
    (DEFAULT_CHAIN_ID, token_id)
}

/// The address of the book of `market` on `chain_id`.
pub open spec fn book_url_text(chain_id: u64, market: Seq<char>) -> Seq<char> {
    "https://api-v2.pendle.finance/core"@ + "/v2/limit-orders/book/"@ + decimal_text(chain_id as nat)
        + "?market="@ + market + "&precisionDecimal=2&limit=50"@
}

/// The address to ask for the book of `market` on `chain_id`: two decimals of
/// precision, fifty entries.
pub fn book_url(chain_id: u64, market: &str) -> (r: String)
    ensures
        r@ == book_url_text(chain_id, market@),
{
    let mut r = String::from_str("https://api-v2.pendle.finance/core");
    r.append("/v2/limit-orders/book/");
    let chain = decimal(chain_id);
    r.append(chain.as_str());
    r.append("?market=");
    r.append(market);
    r.append("&precisionDecimal=2&limit=50");
    r
}

/// The asset id that a Pendle book carries: `chain:market`.
pub open spec fn asset_id_text(chain_id: u64, market: Seq<char>) -> Seq<char> {
    decimal_text(chain_id as nat) + seq![':'] + market
}

/// The timestamp text of a book read at `now_secs` (seconds since the epoch),
/// or empty when the clock gave none.
pub open spec fn timestamp_text(now_secs: Option<u64>) -> Seq<char> {
    match now_secs {
        Some(t) => decimal_text(t as nat),
        None => Seq::empty(),
    }
}

/// The book of `market` on `chain_id` with its sides already read: the long
/// yield entries are the asks, the short yield entries the bids.
pub fn book_from_levels(
    chain_id: u64,
    market: &str,
    asks: Vec<OrderLevel>,
    bids: Vec<OrderLevel>,
    now_secs: Option<u64>,
) -> (b: OrderBook)
    ensures
        b.market@ == "pendle"@,
        b.asset_id@ == asset_id_text(chain_id, market@),
        b.timestamp@ == timestamp_text(now_secs),
        b.asks == asks,
        b.bids == bids,
        b.min_order_size is None,
        b.tick_size is None,
        b.neg_risk is None,
        b.last_trade_price is None,
{
    let mut asset_id = decimal(chain_id);
    proof {
        reveal_strlit(":");
    }
    asset_id.append(":");
    asset_id.append(market);
    let timestamp = match now_secs {
        Some(t) => decimal(t),
        None => String::new(),
    };
    assert(asset_id@ =~= asset_id_text(chain_id, market@));
    OrderBook {
        market: String::from_str("pendle"),
        asset_id,
        timestamp,
        bids,
        asks,
        min_order_size: None,
        tick_size: None,
        neg_risk: None,
        last_trade_price: None,
    }
}

/// The asset id of a Pendle book, given back as a token id, names the same
/// chain and market the book was asked for.
pub proof fn asset_id_names_chain_and_market(chain_id: u64, market: Seq<char>)
    ensures
        token_chain(asset_id_text(chain_id, market)) == chain_id,
        token_market(asset_id_text(chain_id, market)) == market,
{
    crate::text::decimal_has_only_digits(chain_id as nat);
    crate::text::decimal_reads_back(chain_id);
    let d = decimal_text(chain_id as nat);
    let s = asset_id_text(chain_id, market);
    let p = d.len() as int;
    assert(s[p] == ':');
    assert forall|j: int| 0 <= j < p implies s[j] != ':' by {
        assert(s[j] == d[j]);
        assert(crate::text::is_digit(d[j]));
    }
    assert(is_first_colon(s, p));
    assert(first_colon(s) == Some(p)) by {
        let q = choose|q: int| is_first_colon(s, q);
        assert(is_first_colon(s, q));
        if q < p {
            assert(s[q] != ':');
        } else if q > p {
            assert(s[p] != ':');
        }
    }
    assert(s.take(p) =~= d);
    assert(s.skip(p + 1) =~= market);
}

/// The address asked for names the chain it was given: after the fixed path
/// comes a numeral that reads back as `chain_id`, then the market query.
pub proof fn book_url_names_the_chain(chain_id: u64, market: Seq<char>)
    ensures
        ({
            let url = book_url_text(chain_id, market);
            let path = "https://api-v2.pendle.finance/core/v2/limit-orders/book/"@;
            let query = "?market="@ + market + "&precisionDecimal=2&limit=50"@;
            let segment = url.subrange(path.len() as int, url.len() - query.len());
            &&& url == path + segment + query
            &&& parse_u64_text(segment) == Some(chain_id)
            &&& forall|i: int| 0 <= i < segment.len() ==> crate::text::is_digit(#[trigger] segment[i])
        }),
{
    reveal_strlit("https://api-v2.pendle.finance/core/v2/limit-orders/book/");
    reveal_strlit("https://api-v2.pendle.finance/core");
    reveal_strlit("/v2/limit-orders/book/");
    crate::text::decimal_reads_back(chain_id);
    crate::text::decimal_has_only_digits(chain_id as nat);
    let d = decimal_text(chain_id as nat);
    let path = "https://api-v2.pendle.finance/core/v2/limit-orders/book/"@;
    assert(path =~= "https://api-v2.pendle.finance/core"@ + "/v2/limit-orders/book/"@);
    let query = "?market="@ + market + "&precisionDecimal=2&limit=50"@;
    let url = book_url_text(chain_id, market);
    assert(url =~= path + d + query);
    assert(url.subrange(path.len() as int, url.len() - query.len()) =~= d);
}

/// A token id `chain:market` leads to the address of that market's book on
/// that chain; a bare market leads to the default chain.
pub proof fn token_id_leads_to_its_chain(chain_id: u64, market: Seq<char>)
    ensures
        book_url_text(
            token_chain(asset_id_text(chain_id, market)),
            token_market(asset_id_text(chain_id, market)),
        ) == book_url_text(chain_id, market),
{
    asset_id_names_chain_and_market(chain_id, market);
}

/// A token id without `:` is a bare market address on Arbitrum (chain 42161);
/// with a `:`, the market is everything after the first one.
pub proof fn bare_market_is_on_arbitrum(s: Seq<char>)
    ensures
        (forall|i: int| 0 <= i < s.len() ==> s[i] != ':') ==> token_chain(s) == 42161 && token_market(s)
            == s,
        forall|p: int|
            #![trigger s[p]]
            0 <= p < s.len() && s[p] == ':' && (forall|j: int| 0 <= j < p ==> s[j] != ':')
                ==> token_market(s) == s.skip(p + 1),
{
    assert forall|p: int|
        #![trigger s[p]]
        0 <= p < s.len() && s[p] == ':' && (forall|j: int| 0 <= j < p ==> s[j] != ':') implies token_market(
        s) == s.skip(p + 1) by {
        assert(is_first_colon(s, p));
        let q = choose|q: int| is_first_colon(s, q);
        assert(is_first_colon(s, q));
        if q < p {
            assert(s[q] != ':');
        } else if q > p {
            assert(s[p] != ':');
        }
    }
}

/// A book read with a clock reading carries that reading in decimal; without
/// one, an empty timestamp.
pub proof fn timestamp_is_the_clock_reading(now_secs: Option<u64>)
    ensures
        now_secs is None ==> timestamp_text(now_secs).len() == 0,
        now_secs matches Some(t) ==> parse_u64_text(timestamp_text(now_secs)) == Some(t),
{
    if let Some(t) = now_secs {
        crate::text::decimal_reads_back(t);
    }
}

} // verus!
