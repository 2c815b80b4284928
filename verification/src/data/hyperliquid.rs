//! Hyperliquid's L2 book: the request body and the reply.

use vstd::prelude::*;
use crate::data::{levels_view, OrderBook, OrderLevel, LevelView};
use crate::text::{decimal, decimal_text, to_uppercase, uppercase};

verus! {

/// One level of the reply: price, size, and the number of orders.
pub struct HlLevel {
    pub px: String,
    pub sz: String,
    pub n: u64,
}

/// The reply: the coin, the time in milliseconds, and the sides (bids first,
/// then asks).
pub struct HlBook {
    pub coin: String,
    pub time: u64,
    pub levels: Vec<Vec<HlLevel>>,
}

/// A reply level as an order book level.
pub open spec fn level_of(l: HlLevel) -> LevelView {
    LevelView { price: l.px@, size: l.sz@ }
}

/// The levels of side `k` of a reply, or none when the reply has no such side.
pub open spec fn side_of(levels: Seq<Vec<HlLevel>>, k: int) -> Seq<LevelView> {
    if 0 <= k < levels.len() {
        levels[k]@.map_values(|l: HlLevel| level_of(l))
    } else {
        Seq::empty()
    }
}

fn to_levels(levels: &Vec<HlLevel>) -> (r: Vec<OrderLevel>)
    ensures
        levels_view(r@) == levels@.map_values(|l: HlLevel| level_of(l)),
        r@.len() == levels@.len(),
        forall|i: int| 0 <= i < r@.len() ==> (#[trigger] r@[i])@ == level_of(levels@[i]),
{
    let mut r: Vec<OrderLevel> = Vec::new();
    let mut i: usize = 0;
    while i < levels.len()
        invariant
            i <= levels@.len(),
            r@.len() == i,
            forall|j: int| 0 <= j < i ==> #[trigger] r@[j]@ == level_of(levels@[j]),
        decreases levels@.len() - i,
    {
        let l = &levels[i];
        r.push(OrderLevel { price: l.px.clone(), size: l.sz.clone() });
        i = i + 1;
    }
    assert(levels_view(r@) =~= levels@.map_values(|l: HlLevel| level_of(l)));
    r
}

/// The book that a reply describes: the first side gives the bids, the second
/// the asks (a missing side is empty, further sides are ignored); the time is
/// written in decimal.
pub fn book_from_raw(raw: HlBook) -> (b: OrderBook)
    ensures
        b.market@ == "hyperliquid"@,
        b.asset_id == raw.coin,
        b.timestamp@ == decimal_text(raw.time as nat),
        levels_view(b.bids@) == side_of(raw.levels@, 0),
        levels_view(b.asks@) == side_of(raw.levels@, 1),
        b.bids@.len() == (if raw.levels@.len() > 0 { raw.levels@[0]@.len() } else { 0 }),
        b.asks@.len() == (if raw.levels@.len() > 1 { raw.levels@[1]@.len() } else { 0 }),
        forall|i: int|
            0 <= i < b.bids@.len() ==> (#[trigger] b.bids@[i]).price@ == raw.levels@[0]@[i].px@
                && b.bids@[i].size@ == raw.levels@[0]@[i].sz@,
        forall|i: int|
            0 <= i < b.asks@.len() ==> (#[trigger] b.asks@[i]).price@ == raw.levels@[1]@[i].px@
                && b.asks@[i].size@ == raw.levels@[1]@[i].sz@,
        b.min_order_size is None,
        b.tick_size is None,
        b.neg_risk is None,
        b.last_trade_price is None,
{
    let bids = if raw.levels.len() > 0 {
        to_levels(&raw.levels[0])
    } else {
        Vec::new()
    };
    let asks = if raw.levels.len() > 1 {
        to_levels(&raw.levels[1])
    } else {
        Vec::new()
    };
    assert(levels_view(Seq::<OrderLevel>::empty()) =~= Seq::<LevelView>::empty());
    OrderBook {
        market: String::from_str("hyperliquid"),
        asset_id: raw.coin,
        timestamp: decimal(raw.time),
        bids,
        asks,
        min_order_size: None,
        tick_size: None,
        neg_risk: None,
        last_trade_price: None,
    }
}

/// Each side of a reply keeps its levels in the reply's order: the `i`-th
/// level of side `k` has the price and size of the `i`-th entry of that side;
/// a side the reply lacks is empty.
pub proof fn sides_keep_reply_order(levels: Seq<Vec<HlLevel>>, k: int)
    ensures
        side_of(levels, k).len() == (if 0 <= k < levels.len() { levels[k]@.len() } else { 0 }),
        forall|i: int|
            0 <= i < side_of(levels, k).len() ==> #[trigger] side_of(levels, k)[i] == (LevelView {
                price: levels[k]@[i].px@,
                size: levels[k]@[i].sz@,
            }),
{
}

/// The lowercase hexadecimal digit for `d < 16`.
pub open spec fn hex_digit(d: nat) -> char {
    if d < 10 {
        ((48 + d) as u32) as char
    } else {
        ((87 + d) as u32) as char
    }
}

/// How a character stands inside a JSON string: quote and backslash are
/// escaped, control characters below U+0020 get `\b`, `\t`, `\n`, `\f`, `\r`
/// or `\u00XX`; every other character stands as it is.
pub open spec fn json_escape_char(c: char) -> Seq<char> {
    let u = c as u32;
    if c == '"' {
        seq!['\\', '"']
    } else if c == '\\' {
        seq!['\\', '\\']
    } else if u == 8 {
        seq!['\\', 'b']
    } else if u == 9 {
        seq!['\\', 't']
    } else if u == 10 {
        seq!['\\', 'n']
    } else if u == 12 {
        seq!['\\', 'f']
    } else if u == 13 {
        seq!['\\', 'r']
    } else if u < 0x20 {
        seq!['\\', 'u', '0', '0', hex_digit((u / 16) as nat), hex_digit((u % 16) as nat)]
    } else {
        seq![c]
    }
}

/// The characters of `s`, each escaped for a JSON string.
pub open spec fn json_escaped(s: Seq<char>) -> Seq<char>
    decreases s.len(),
{
    if s.len() == 0 {
        Seq::empty()
    } else {
        json_escaped(s.drop_last()) + json_escape_char(s.last())
    }
}

/// `s` as a JSON string literal.
pub open spec fn json_string_literal(s: Seq<char>) -> Seq<char> {
    seq!['"'] + json_escaped(s) + seq!['"']
}

/// Plain text needs no escape: a string without quote, backslash or control
/// character is written between quotes as it is. A quote or a backslash is
/// preceded by a backslash; a line feed becomes `\n`.
pub proof fn plain_text_is_quoted_as_is(s: Seq<char>)
    ensures
        (forall|i: int|
            0 <= i < s.len() ==> #[trigger] s[i] != '"' && s[i] != '\\' && (s[i] as u32) >= 0x20)
            ==> json_string_literal(s) == seq!['"'] + s + seq!['"'],
        json_escape_char('"') == seq!['\\', '"'],
        json_escape_char('\\') == seq!['\\', '\\'],
        json_escape_char('\n') == seq!['\\', 'n'],
{
    if (forall|i: int|
        0 <= i < s.len() ==> #[trigger] s[i] != '"' && s[i] != '\\' && (s[i] as u32) >= 0x20) {
        plain_escaped(s);
    }
}

proof fn plain_escaped(s: Seq<char>)
    requires
        forall|i: int|
            0 <= i < s.len() ==> #[trigger] s[i] != '"' && s[i] != '\\' && (s[i] as u32) >= 0x20,
    ensures
        json_escaped(s) == s,
    decreases s.len(),
{
    if s.len() > 0 {
        let t = s.drop_last();
        assert forall|i: int| 0 <= i < t.len() implies #[trigger] t[i] != '"' && t[i] != '\\' && (t[i] as u32)
            >= 0x20 by {
            assert(t[i] == s[i]);
        }
        plain_escaped(t);
        assert(s.last() == s[s.len() - 1]);
        assert(json_escaped(s) =~= s);
    }
}

/// The request body is the object `{"coin":…,"type":"l2Book"}` whose coin is
/// the upper-case coin as a JSON string.
pub proof fn request_body_shape(coin: Seq<char>)
    ensures
        request_body_text(coin) == "{\"coin\":\""@ + json_escaped(uppercase(coin)) + "\",\"type\":\"l2Book\"}"@,
{
    reveal_strlit("{\"coin\":\"");
    reveal_strlit("\",\"type\":\"l2Book\"}");
    reveal_strlit("{\"coin\":");
    reveal_strlit(",\"type\":\"l2Book\"}");
    assert(request_body_text(coin) =~= "{\"coin\":\""@ + json_escaped(uppercase(coin)) + "\",\"type\":\"l2Book\"}"@);
}

/// Calls `serde_json::to_string` on a string slice. The serializer writes the
/// text between quotes with the escapes of `json_escape_char` (its `ESCAPE`
/// table, and `\u00` with lowercase hex digits for the other control
/// characters). Serializing a string into a `Vec<u8>` meets no I/O error, so
/// the call returns `Ok`; the empty default on `Err` is never taken.
#[verifier::external_body]
fn json_encode(s: &str) -> (r: String)
    ensures
        r@ == json_string_literal(s@),
{
    serde_json::to_string(s).unwrap_or_default()
}

/// The body that asks for the L2 book of `coin`: a JSON object with the coin
/// in upper case and the request type, keys in sorted order as serde_json
/// writes a map.
pub open spec fn request_body_text(coin: Seq<char>) -> Seq<char> {
    "{\"coin\":"@ + json_string_literal(uppercase(coin)) + ",\"type\":\"l2Book\"}"@
}

/// The body to post for the book of `coin`.
pub fn request_body(coin: &str) -> (r: String)
    ensures
        r@ == request_body_text(coin@),
{
    let upper = to_uppercase(coin);
    let quoted = json_encode(upper.as_str());
    let mut body = String::from_str("{\"coin\":");
    body.append(quoted.as_str());
    body.append(",\"type\":\"l2Book\"}");
    body
}

/// The address that takes the request.
pub open spec fn api_url_text() -> Seq<char> {
    "https://api.hyperliquid.xyz/info"@
}

/// The address that takes the request.
pub fn api_url() -> (r: &'static str)
    ensures
        r@ == api_url_text(),
{
    "https://api.hyperliquid.xyz/info"
}

} // verus!
