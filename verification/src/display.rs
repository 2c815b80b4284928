//! The frame that a render of an order book draws: lines of styled text, the
//! depth rows of each side and the spread, top to bottom.
//!
//! The figures of a depth row (size, price, total, bar length and shade) are
//! floating point and are drawn by the program; this module decides what is
//! drawn and in which order.

use vstd::prelude::*;
use crate::data::{copy_level, levels_view, BookView, LevelView, OrderBook, OrderLevel};
use crate::text::{
    align_right, center, centered, repeat, repeated, right_aligned, to_uppercase, trunc,
    truncated, cuts_cleanly, uppercase,
};

verus! {

/// The width of the frame, in characters.
pub const WIDTH: usize = 58;

/// How a piece of text is coloured.
#[derive(Clone, Copy, Debug, PartialEq, Eq)]
pub enum Tone {
    Plain,
    Cyan,
    BrightCyan,
    BrightCyanBold,
    Dimmed,
    Yellow,
    YellowBold,
    BrightWhite,
    BrightWhiteBold,
    RedBold,
}

/// A piece of text and its colour.
pub struct Span {
    pub text: String,
    pub tone: Tone,
}

/// What a `Span` holds.
pub struct SpanView {
    pub text: Seq<char>,
    pub tone: Tone,
}

impl View for Span {
    type V = SpanView;

    open spec fn view(&self) -> SpanView {
        SpanView { text: self.text@, tone: self.tone }
    }
}

/// The side of the book that depth rows show.
#[derive(Clone, Copy, Debug, PartialEq, Eq)]
pub enum Side {
    Ask,
    Bid,
}

/// One element of a frame.
pub enum Line {
    /// A line of text made of spans.
    Text(Vec<Span>),
    /// The depth rows of one side, top to bottom; each row shows the size,
    /// the price and their product of one level, shaded by its position.
    Depth(Side, Vec<OrderLevel>),
    /// The spread line: the prices of the best ask and of the best bid.
    Spread(String, String),
}

/// What a `Line` holds.
pub enum LineView {
    Text(Seq<SpanView>),
    Depth(Side, Seq<LevelView>),
    Spread(Seq<char>, Seq<char>),
}

/// The spans of a line, each as text and tone.
pub open spec fn spans_view(v: Seq<Span>) -> Seq<SpanView> {
    v.map_values(|s: Span| s@)
}

impl View for Line {
    type V = LineView;

    open spec fn view(&self) -> LineView {
        match self {
            Line::Text(v) => LineView::Text(spans_view(v@)),
            Line::Depth(side, rows) => LineView::Depth(*side, levels_view(rows@)),
            Line::Spread(ask, bid) => LineView::Spread(ask@, bid@),
        }
    }
}

/// The lines of a frame, each by its view.
pub open spec fn lines_view(v: Seq<Line>) -> Seq<LineView> {
    v.map_values(|l: Line| l@)
}

/// What a render draws: whether the screen is cleared first, then the lines.
pub struct Frame {
    pub clear: bool,
    pub lines: Vec<Line>,
}

/// What a `Frame` holds.
pub struct FrameView {
    pub clear: bool,
    pub lines: Seq<LineView>,
}

impl View for Frame {
    type V = FrameView;

    open spec fn view(&self) -> FrameView {
        FrameView { clear: self.clear, lines: lines_view(self.lines@) }
    }
}

// ─── The frame, as a specification ───────────────────────────

/// A span of `text` in `tone`.
pub open spec fn span_of(text: Seq<char>, tone: Tone) -> SpanView {
    SpanView { text, tone }
}

/// A line of a single span.
pub open spec fn single(text: Seq<char>, tone: Tone) -> LineView {
    LineView::Text(seq![span_of(text, tone)])
}

/// A rule across the frame, drawn with `c`.
pub open spec fn rule(c: char) -> LineView {
    single(repeated(seq![c], WIDTH as nat), Tone::BrightCyan)
}

/// The title: the market name in upper case, centered.
pub open spec fn title_line(market: Seq<char>) -> LineView {
    single(centered(uppercase(market) + "  ORDERBOOK  CLI"@, WIDTH as nat), Tone::BrightCyanBold)
}

/// A labelled field whose value is cut to fit the frame.
pub open spec fn field_line(label: Seq<char>, value: Seq<char>) -> LineView {
    LineView::Text(
        seq![span_of(label, Tone::Plain), span_of(truncated(value, (WIDTH - 12) as nat), Tone::Dimmed)],
    )
}

/// A last trade price is worth showing: it is neither empty nor zero.
pub open spec fn shows_last_price(p: Seq<char>) -> bool {
    p.len() > 0 && p != "0"@ && p != "0.0"@
}

/// The details of the book that the header lists, in order.
pub open spec fn meta_items(book: BookView) -> Seq<Seq<SpanView>> {
    (match book.last_trade_price {
        Some(p) => if shows_last_price(p) {
            seq![seq![span_of("Last: "@, Tone::Plain), span_of(p, Tone::YellowBold)]]
        } else {
            Seq::empty()
        },
        None => Seq::empty(),
    }) + (match book.tick_size {
        Some(t) => seq![seq![span_of("Tick: "@, Tone::Plain), span_of(t, Tone::BrightWhite)]],
        None => Seq::empty(),
    }) + (match book.min_order_size {
        Some(m) => seq![seq![span_of("Min: "@, Tone::Plain), span_of(m, Tone::BrightWhite)]],
        None => Seq::empty(),
    }) + (if book.neg_risk == Some(true) {
        seq![seq![span_of("⚠ NEG-RISK"@, Tone::RedBold)]]
    } else {
        Seq::empty()
    })
}

/// The items one after the other, with `sep` between two of them.
pub open spec fn joined(items: Seq<Seq<SpanView>>, sep: SpanView) -> Seq<SpanView>
    decreases items.len(),
{
    if items.len() == 0 {
        Seq::empty()
    } else if items.len() == 1 {
        items[0]
    } else {
        joined(items.drop_last(), sep).push(sep) + items.last()
    }
}

/// The separator between two details.
pub open spec fn meta_separator() -> SpanView {
    span_of("  │  "@, Tone::Plain)
}

/// The header: title between rules, asset and market, the details if any.
pub open spec fn header_lines(book: BookView, market: Seq<char>) -> Seq<LineView> {
    let items = meta_items(book);
    seq![
        rule('═'),
        title_line(market),
        rule('═'),
        field_line("  Asset:  "@, book.asset_id),
        field_line("  Market: "@, book.market),
    ] + (if items.len() > 0 {
        seq![LineView::Text(seq![span_of("  "@, Tone::Plain)] + joined(items, meta_separator()))]
    } else {
        Seq::empty()
    }) + seq![rule('═')]
}

/// The column headings.
pub open spec fn column_heading() -> Seq<char> {
    "  "@ + right_aligned("SIZE"@, 16) + "  "@ + right_aligned("PRICE"@, 10) + "  "@ + right_aligned(
        "TOTAL (USDC)"@,
        16,
    )
}

/// The column headings and the rule below them.
pub open spec fn column_lines() -> Seq<LineView> {
    seq![single(column_heading(), Tone::BrightWhiteBold), rule('─')]
}

/// The first `n` levels of a side, or all of them when it has fewer.
pub open spec fn shown(levels: Seq<LevelView>, n: nat) -> Seq<LevelView> {
    if n < levels.len() {
        levels.take(n as int)
    } else {
        levels
    }
}

/// The asks: the first `n` of them, the best one at the bottom next to the
/// spread; a notice when there are none.
pub open spec fn ask_lines(book: BookView, n: nat) -> Seq<LineView> {
    if book.asks.len() == 0 {
        seq![single(centered("— no asks —"@, WIDTH as nat), Tone::Dimmed)]
    } else {
        seq![LineView::Depth(Side::Ask, shown(book.asks, n).reverse())]
    }
}

/// The spread of the best prices when both sides have one, else a notice.
pub open spec fn spread_lines(book: BookView) -> Seq<LineView> {
    if book.asks.len() > 0 && book.bids.len() > 0 {
        seq![LineView::Spread(book.asks[0].price, book.bids[0].price)]
    } else {
        seq![single(centered("──  NO SPREAD  ──"@, WIDTH as nat), Tone::Yellow)]
    }
}

/// The bids: the first `n` of them, the best one at the top next to the
/// spread; a notice when there are none.
pub open spec fn bid_lines(book: BookView, n: nat) -> Seq<LineView> {
    if book.bids.len() == 0 {
        seq![single(centered("— no bids —"@, WIDTH as nat), Tone::Dimmed)]
    } else {
        seq![LineView::Depth(Side::Bid, shown(book.bids, n))]
    }
}

/// The footer: a rule and the time of the snapshot.
pub open spec fn footer_lines(book: BookView) -> Seq<LineView> {
    seq![
        rule('═'),
        LineView::Text(seq![span_of("  Updated: "@, Tone::Plain), span_of(book.timestamp, Tone::Dimmed)]),
    ]
}

/// Everything a render draws, top to bottom.
pub open spec fn frame_lines(book: BookView, market: Seq<char>, levels: nat) -> Seq<LineView> {
    header_lines(book, market) + column_lines() + ask_lines(book, levels) + spread_lines(book)
        + bid_lines(book, levels) + footer_lines(book)
}

/// The frame of `book` under the title of `market`, with up to `levels` rows a
/// side.
pub open spec fn rendered(book: BookView, market: Seq<char>, levels: nat, clear: bool) -> FrameView {
    FrameView { clear, lines: frame_lines(book, market, levels) }
}

/// The asset id and the market of `book` can be cut to the width of a field.
pub open spec fn fits_fields(book: BookView) -> bool {
    cuts_cleanly(book.asset_id, (WIDTH - 12) as nat) && cuts_cleanly(book.market, (WIDTH - 12) as nat)
}

// ─── Building the frame ──────────────────────────────────────

fn span(text: String, tone: Tone) -> (s: Span)
    ensures
        s@ == span_of(text@, tone),
{
    Span { text, tone }
}

fn single_line(text: String, tone: Tone) -> (l: Line)
    ensures
        l@ == single(text@, tone),
{
    let ghost t = text@;
    let mut v: Vec<Span> = Vec::new();
    v.push(span(text, tone));
    assert(spans_view(v@) =~= seq![span_of(t, tone)]);
    Line::Text(v)
}

fn two_spans(first: String, first_tone: Tone, second: String, second_tone: Tone) -> (v: Vec<Span>)
    ensures
        spans_view(v@) == seq![span_of(first@, first_tone), span_of(second@, second_tone)],
{
    let ghost a = first@;
    let ghost b = second@;
    let mut v: Vec<Span> = Vec::new();
    v.push(span(first, first_tone));
    v.push(span(second, second_tone));
    assert(spans_view(v@) =~= seq![span_of(a, first_tone), span_of(b, second_tone)]);
    v
}

fn rule_line(heavy: bool) -> (l: Line)
    ensures
        l@ == rule(if heavy { '═' } else { '─' }),
{
    proof {
        reveal_strlit("═");
        reveal_strlit("─");
    }
    let piece = if heavy { "═" } else { "─" };
    assert(piece@ =~= seq![if heavy { '═' } else { '─' }]);
    single_line(repeat(piece, WIDTH), Tone::BrightCyan)
}

fn field_line_of(label: &str, value: &str) -> (l: Line)
    requires
        cuts_cleanly(value@, (WIDTH - 12) as nat),
    ensures
        l@ == field_line(label@, value@),
{
    let shown = trunc(value, WIDTH - 12);
    let v = two_spans(String::from_str(label), Tone::Plain, String::from_str(shown), Tone::Dimmed);
    Line::Text(v)
}

fn shows_last(p: &str) -> (b: bool)
    ensures
        b == shows_last_price(p@),
{
    !p.is_empty() && !crate::text::same_text(p, "0") && !crate::text::same_text(p, "0.0")
}

fn add_item(
    spans: &mut Vec<Span>,
    any: bool,
    item: Vec<Span>,
    Ghost(items): Ghost<Seq<Seq<SpanView>>>,
)
    requires
        spans_view(old(spans)@) == joined(items, meta_separator()),
        any == (items.len() > 0),
    ensures
        spans_view(final(spans)@) == joined(items.push(spans_view(item@)), meta_separator()),
{
    let ghost iv = spans_view(item@);
    let ghost item_seq = item@;
    let ghost before = spans@;
    let mut item = item;
    if any {
        spans.push(span(String::from_str("  │  "), Tone::Plain));
    }
    let ghost mid = spans@;
    spans.append(&mut item);
    proof {
        let all = items.push(iv);
        assert(all.drop_last() =~= items);
        assert(spans@ =~= mid + item_seq);
        assert(spans_view(spans@) =~= spans_view(mid) + iv);
        if any {
            assert(spans_view(mid) =~= spans_view(before).push(meta_separator()));
        } else {
            assert(spans_view(mid) =~= Seq::<SpanView>::empty());
        }
    }
}

fn meta_spans(book: &OrderBook) -> (r: (Vec<Span>, bool))
    ensures
        spans_view(r.0@) == joined(meta_items(book@), meta_separator()),
        r.1 == (meta_items(book@).len() > 0),
{
    let ghost mut items: Seq<Seq<SpanView>> = Seq::empty();
    let mut spans: Vec<Span> = Vec::new();
    let mut any = false;
    assert(spans_view(spans@) =~= joined(items, meta_separator()));
    match &book.last_trade_price {
        Some(p) => {
            if shows_last(p.as_str()) {
                let item = two_spans(String::from_str("Last: "), Tone::Plain, p.clone(), Tone::YellowBold);
                let ghost iv = spans_view(item@);
                add_item(&mut spans, any, item, Ghost(items));
                proof {
                    items = items.push(iv);
                }
                any = true;
            }
        },
        None => {},
    }
    let ghost after_last = items;
    match &book.tick_size {
        Some(t) => {
            let item = two_spans(String::from_str("Tick: "), Tone::Plain, t.clone(), Tone::BrightWhite);
            let ghost iv = spans_view(item@);
            add_item(&mut spans, any, item, Ghost(items));
            proof {
                items = items.push(iv);
            }
            any = true;
        },
        None => {},
    }
    let ghost after_tick = items;
    match &book.min_order_size {
        Some(m) => {
            let item = two_spans(String::from_str("Min: "), Tone::Plain, m.clone(), Tone::BrightWhite);
            let ghost iv = spans_view(item@);
            add_item(&mut spans, any, item, Ghost(items));
            proof {
                items = items.push(iv);
            }
            any = true;
        },
        None => {},
    }
    let ghost after_min = items;
    if book.neg_risk == Some(true) {
        let mut item: Vec<Span> = Vec::new();
        item.push(span(String::from_str("⚠ NEG-RISK"), Tone::RedBold));
        let ghost iv = spans_view(item@);
        assert(iv =~= seq![span_of("⚠ NEG-RISK"@, Tone::RedBold)]);
        add_item(&mut spans, any, item, Ghost(items));
        proof {
            items = items.push(iv);
        }
        any = true;
    }
    proof {
        let b = book@;
        let last_part: Seq<Seq<SpanView>> = match b.last_trade_price {
            Some(p) => if shows_last_price(p) {
                seq![seq![span_of("Last: "@, Tone::Plain), span_of(p, Tone::YellowBold)]]
            } else {
                Seq::empty()
            },
            None => Seq::empty(),
        };
        assert(after_last =~= last_part);
        assert(items =~= meta_items(b));
    }
    (spans, any)
}

fn header(book: &OrderBook, market: &str) -> (r: Vec<Line>)
    requires
        fits_fields(book@),
    ensures
        lines_view(r@) == header_lines(book@, market@),
{
    let mut r: Vec<Line> = Vec::new();
    r.push(rule_line(true));
    let mut title = to_uppercase(market);
    title.append("  ORDERBOOK  CLI");
    r.push(single_line(center(title.as_str(), WIDTH), Tone::BrightCyanBold));
    r.push(rule_line(true));
    r.push(field_line_of("  Asset:  ", book.asset_id.as_str()));
    r.push(field_line_of("  Market: ", book.market.as_str()));
    let ghost five = r@;
    let (mut meta, any) = meta_spans(book);
    let ghost meta_v = spans_view(meta@);
    if any {
        let mut line: Vec<Span> = Vec::new();
        line.push(span(String::from_str("  "), Tone::Plain));
        line.append(&mut meta);
        assert(spans_view(line@) =~= seq![span_of("  "@, Tone::Plain)] + meta_v);
        r.push(Line::Text(line));
    }
    r.push(rule_line(true));
    assert(lines_view(r@) =~= header_lines(book@, market@));
    r
}

fn columns() -> (r: Vec<Line>)
    ensures
        lines_view(r@) == column_lines(),
{
    let mut heading = String::from_str("  ");
    let size = align_right("SIZE", 16);
    heading.append(size.as_str());
    heading.append("  ");
    let price = align_right("PRICE", 10);
    heading.append(price.as_str());
    heading.append("  ");
    let total = align_right("TOTAL (USDC)", 16);
    heading.append(total.as_str());
    assert(heading@ =~= column_heading());
    let mut r: Vec<Line> = Vec::new();
    r.push(single_line(heading, Tone::BrightWhiteBold));
    r.push(rule_line(false));
    assert(lines_view(r@) =~= column_lines());
    r
}

fn first_rows(levels: &Vec<OrderLevel>, n: usize, reversed: bool) -> (rows: Vec<OrderLevel>)
    ensures
        levels_view(rows@) == if reversed {
            shown(levels_view(levels@), n as nat).reverse()
        } else {
            shown(levels_view(levels@), n as nat)
        },
{
    let len = levels.len();
    let k = if n < len { n } else { len };
    let ghost want = shown(levels_view(levels@), n as nat);
    assert(want.len() == k);
    assert(forall|j: int| 0 <= j < k ==> #[trigger] want[j] == levels@[j]@);
    let mut rows: Vec<OrderLevel> = Vec::new();
    let mut i: usize = 0;
    while i < k
        invariant
            i <= k,
            k <= levels@.len(),
            rows@.len() == i,
            forall|j: int|
                0 <= j < i ==> #[trigger] rows@[j]@ == if reversed {
                    levels@[k - 1 - j]@
                } else {
                    levels@[j]@
                },
        decreases k - i,
    {
        let index = if reversed { k - 1 - i } else { i };
        rows.push(copy_level(&levels[index]));
        i = i + 1;
    }
    if reversed {
        assert(levels_view(rows@) =~= want.reverse());
    } else {
        assert(levels_view(rows@) =~= want);
    }
    rows
}

fn asks_section(book: &OrderBook, levels: usize) -> (r: Vec<Line>)
    ensures
        lines_view(r@) == ask_lines(book@, levels as nat),
{
    let mut r: Vec<Line> = Vec::new();
    if book.asks.len() == 0 {
        r.push(single_line(center("— no asks —", WIDTH), Tone::Dimmed));
    } else {
        r.push(Line::Depth(Side::Ask, first_rows(&book.asks, levels, true)));
    }
    assert(lines_view(r@) =~= ask_lines(book@, levels as nat));
    r
}

fn bids_section(book: &OrderBook, levels: usize) -> (r: Vec<Line>)
    ensures
        lines_view(r@) == bid_lines(book@, levels as nat),
{
    let mut r: Vec<Line> = Vec::new();
    if book.bids.len() == 0 {
        r.push(single_line(center("— no bids —", WIDTH), Tone::Dimmed));
    } else {
        r.push(Line::Depth(Side::Bid, first_rows(&book.bids, levels, false)));
    }
    assert(lines_view(r@) =~= bid_lines(book@, levels as nat));
    r
}

fn spread_section(book: &OrderBook) -> (r: Vec<Line>)
    ensures
        lines_view(r@) == spread_lines(book@),
{
    let mut r: Vec<Line> = Vec::new();
    if book.asks.len() > 0 && book.bids.len() > 0 {
        let ask = book.asks[0].price.clone();
        let bid = book.bids[0].price.clone();
        r.push(Line::Spread(ask, bid));
    } else {
        r.push(single_line(center("──  NO SPREAD  ──", WIDTH), Tone::Yellow));
    }
    assert(lines_view(r@) =~= spread_lines(book@));
    r
}

fn footer(book: &OrderBook) -> (r: Vec<Line>)
    ensures
        lines_view(r@) == footer_lines(book@),
{
    let mut r: Vec<Line> = Vec::new();
    r.push(rule_line(true));
    r.push(
        Line::Text(
            two_spans(String::from_str("  Updated: "), Tone::Plain, book.timestamp.clone(), Tone::Dimmed),
        ),
    );
    assert(lines_view(r@) =~= footer_lines(book@));
    r
}

fn append_lines(r: &mut Vec<Line>, more: Vec<Line>)
    ensures
        lines_view(final(r)@) == lines_view(old(r)@) + lines_view(more@),
{
    let ghost m = more@;
    let mut more = more;
    r.append(&mut more);
    assert(lines_view(r@) =~= lines_view(old(r)@) + lines_view(m));
}

/// The frame that shows `book` under the title of `market`, with at most
/// `levels` rows a side: the header, the column headings, the asks (best at
/// the bottom), the spread, the bids (best at the top) and the footer. The
/// screen is cleared first when `clear` holds.
///
/// The asset id and the market are cut to the width of a field by bytes; a
/// cut inside a character panics, so `requires` leaves such books out.
pub fn render(book: &OrderBook, market: &str, levels: usize, clear: bool) -> (f: Frame)
    requires
        fits_fields(book@),
    ensures
        f@ == rendered(book@, market@, levels as nat, clear),
{
    let mut lines = header(book, market);
    append_lines(&mut lines, columns());
    append_lines(&mut lines, asks_section(book, levels));
    append_lines(&mut lines, spread_section(book));
    append_lines(&mut lines, bids_section(book, levels));
    append_lines(&mut lines, footer(book));
    Frame { clear, lines }
}

// ─── What every frame keeps ──────────────────────────────────

/// A side shows at most `levels` rows: the first ones of the book. Asks are
/// drawn from the highest shown down to the best, which sits next to the
/// spread; bids from the best down.
pub proof fn depth_rows_follow_the_book(book: BookView, levels: nat)
    ensures
        book.asks.len() > 0 ==> ({
            let rows = shown(book.asks, levels).reverse();
            &&& ask_lines(book, levels) == seq![LineView::Depth(Side::Ask, rows)]
            &&& rows.len() == if levels < book.asks.len() {
                levels
            } else {
                book.asks.len()
            }
            &&& forall|i: int| 0 <= i < rows.len() ==> #[trigger] rows[rows.len() - 1 - i] == book.asks[i]
        }),
        book.bids.len() > 0 ==> ({
            let rows = shown(book.bids, levels);
            &&& bid_lines(book, levels) == seq![LineView::Depth(Side::Bid, rows)]
            &&& rows.len() == if levels < book.bids.len() {
                levels
            } else {
                book.bids.len()
            }
            &&& forall|i: int| 0 <= i < rows.len() ==> #[trigger] rows[i] == book.bids[i]
        }),
{
}

/// The spread is drawn exactly when both sides have a level, and it is taken
/// between the first (best) ask and the first (best) bid.
pub proof fn spread_needs_both_sides(book: BookView)
    ensures
        (spread_lines(book)[0] is Spread) <==> (book.asks.len() > 0 && book.bids.len() > 0),
        (book.asks.len() > 0 && book.bids.len() > 0) ==> spread_lines(book) == seq![
            LineView::Spread(book.asks[0].price, book.bids[0].price),
        ],
{
}

/// Every rule spans the width of the frame.
pub proof fn rules_span_the_frame(c: char)
    ensures
        rule(c) == single(repeated(seq![c], WIDTH as nat), Tone::BrightCyan),
        repeated(seq![c], WIDTH as nat).len() == WIDTH,
        forall|i: int| 0 <= i < WIDTH ==> #[trigger] repeated(seq![c], WIDTH as nat)[i] == c,
{
    crate::text::repeated_char(c, WIDTH as nat);
}

/// The negative-risk badge is listed exactly when the book is flagged
/// negative risk, and then it comes last among the details.
pub proof fn neg_risk_badge_iff_flagged(book: BookView)
    ensures
        book.neg_risk == Some(true) <==> (meta_items(book).len() > 0 && meta_items(book).last()
            == seq![span_of("⚠ NEG-RISK"@, Tone::RedBold)]),
{
    let items = meta_items(book);
    if book.neg_risk != Some(true) && items.len() > 0 {
        assert(items.last().len() == 2);
    }
}

/// The spans of a text line (none for other lines).
pub open spec fn text_spans(l: LineView) -> Seq<SpanView> {
    match l {
        LineView::Text(spans) => spans,
        _ => Seq::empty(),
    }
}

proof fn joined_starts_with_first(items: Seq<Seq<SpanView>>, sep: SpanView)
    requires
        items.len() > 0,
    ensures
        joined(items, sep).len() >= items[0].len(),
        forall|j: int| 0 <= j < items[0].len() ==> #[trigger] joined(items, sep)[j] == items[0][j],
    decreases items.len(),
{
    if items.len() > 1 {
        let rest = items.drop_last();
        joined_starts_with_first(rest, sep);
        assert(rest[0] == items[0]);
    }
}

/// The details line of a frame (the sixth line) starts with the last trade
/// price, labelled "Last: ", whenever the book has one that is not empty and
/// is neither the text "0" nor the text "0.0"; any other price, such as
/// "0.05", is listed. When the book has no such price, that line does not
/// start with the label.
pub proof fn last_price_listed_iff_meaningful(book: BookView, market: Seq<char>, levels: nat, clear: bool)
    ensures
        ({
            let line = text_spans(rendered(book, market, levels, clear).lines[5]);
            let p = book.last_trade_price->0;
            &&& (book.last_trade_price is Some && p.len() > 0 && p != "0"@ && p != "0.0"@) ==> {
                &&& line.len() >= 3
                &&& line[0] == SpanView { text: "  "@, tone: Tone::Plain }
                &&& line[1] == SpanView { text: "Last: "@, tone: Tone::Plain }
                &&& line[2] == SpanView { text: p, tone: Tone::YellowBold }
            }
            &&& !(book.last_trade_price is Some && p.len() > 0 && p != "0"@ && p != "0.0"@) ==> (
            line.len() < 2 || line[1] != SpanView { text: "Last: "@, tone: Tone::Plain })
        }),
{
    reveal_strlit("Last: ");
    reveal_strlit("Tick: ");
    reveal_strlit("Min: ");
    reveal_strlit("⚠ NEG-RISK");
    let items = meta_items(book);
    let header = header_lines(book, market);
    let lines = frame_lines(book, market, levels);
    assert(header.len() >= 6);
    assert(lines[5] == header[5]);
    if items.len() > 0 {
        joined_starts_with_first(items, meta_separator());
        let spans = seq![span_of("  "@, Tone::Plain)] + joined(items, meta_separator());
        assert(header[5] == LineView::Text(spans));
        assert(spans[1] == items[0][0]);
        assert(items[0].len() >= 1);
        if items[0].len() >= 2 {
            assert(spans[2] == items[0][1]);
        }
        assert(("Last: "@)[0] == 'L');
        assert(("Tick: "@)[0] == 'T');
        assert(("Min: "@)[0] == 'M');
        assert(("⚠ NEG-RISK"@)[0] == '⚠');
    } else {
        assert(header[5] == rule('═'));
    }
}

/// The layout of every frame: a heavy rule, the market's title in upper case
/// centered on the width, a heavy rule, the asset id and the market cut to
/// 46 bytes, the details line when there are details, a heavy rule, the
/// column headings over a light rule, the asks, the spread, the bids, a heavy
/// rule and the time of the snapshot: thirteen lines, fourteen with details.
pub proof fn frame_layout(book: BookView, market: Seq<char>, levels: nat, clear: bool)
    ensures
        ({
            let f = rendered(book, market, levels, clear);
            let extra: int = if meta_items(book).len() > 0 { 1 } else { 0 };
            let n = f.lines.len();
            &&& f.clear == clear
            &&& n == 13 + extra
            &&& text_spans(f.lines[0]) == seq![SpanView { text: repeated(seq!['═'], 58), tone: Tone::BrightCyan }]
            &&& text_spans(f.lines[1]) == seq![SpanView {
                text: centered(uppercase(market) + "  ORDERBOOK  CLI"@, 58),
                tone: Tone::BrightCyanBold,
            }]
            &&& f.lines[2] == f.lines[0]
            &&& text_spans(f.lines[3]) == seq![
                SpanView { text: "  Asset:  "@, tone: Tone::Plain },
                SpanView { text: truncated(book.asset_id, 46), tone: Tone::Dimmed },
            ]
            &&& text_spans(f.lines[4]) == seq![
                SpanView { text: "  Market: "@, tone: Tone::Plain },
                SpanView { text: truncated(book.market, 46), tone: Tone::Dimmed },
            ]
            &&& f.lines[5 + extra] == f.lines[0]
            &&& text_spans(f.lines[6 + extra]) == seq![SpanView {
                text: "  "@ + right_aligned("SIZE"@, 16) + "  "@ + right_aligned("PRICE"@, 10) + "  "@
                    + right_aligned("TOTAL (USDC)"@, 16),
                tone: Tone::BrightWhiteBold,
            }]
            &&& text_spans(f.lines[7 + extra]) == seq![SpanView { text: repeated(seq!['─'], 58), tone: Tone::BrightCyan }]
            &&& f.lines[8 + extra] == ask_lines(book, levels)[0]
            &&& f.lines[9 + extra] == spread_lines(book)[0]
            &&& f.lines[10 + extra] == bid_lines(book, levels)[0]
            &&& f.lines[n - 2] == f.lines[0]
            &&& text_spans(f.lines[n - 1]) == seq![
                SpanView { text: "  Updated: "@, tone: Tone::Plain },
                SpanView { text: book.timestamp, tone: Tone::Dimmed },
            ]
        }),
{
    let h = header_lines(book, market);
    let lines = frame_lines(book, market, levels);
    assert(lines =~= h + column_lines() + ask_lines(book, levels) + spread_lines(book) + bid_lines(book, levels)
        + footer_lines(book));
}

} // verus!
