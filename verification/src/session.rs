//! The decisions of the viewer's refresh loop and of its prompt: what to do
//! after a fetch and after each second of the countdown, and which token id a
//! typed line gives. The program performs the steps.

use vstd::prelude::*;
use crate::display::{Span, SpanView, Tone, spans_view, span_of, WIDTH};
use crate::text::{decimal, decimal_text, spaces, trim, trimmed};

verus! {

/// What the viewer does next.
#[derive(Clone, Copy, Debug, PartialEq, Eq)]
pub enum Step {
    /// Fetch the book, then draw it or the error.
    Fetch,
    /// Show that the next fetch is this many seconds away, then wait a second.
    Countdown(u64),
    /// Erase the countdown line, then fetch.
    Redraw,
    /// Stop after the single fetch, which was drawn.
    Done,
    /// Stop after the single fetch, which failed: exit with status 1.
    Fail,
}

/// Each draw clears the screen first when the view refreshes itself.
pub fn clears_screen(refresh: u64) -> (b: bool)
    ensures
        b == (refresh > 0),
{
    refresh > 0
}

/// The step that follows a fetch.
pub open spec fn next_after_fetch(refresh: u64, fetched: bool) -> Step {
    if refresh == 0 {
        if fetched {
            Step::Done
        } else {
            Step::Fail
        }
    } else {
        Step::Countdown(refresh)
    }
}

/// After a fetch: with no refresh interval the viewer stops (failing when the
/// fetch failed); otherwise it counts down the interval, whatever the fetch
/// gave.
pub fn after_fetch(refresh: u64, fetched: bool) -> (s: Step)
    ensures
        s == next_after_fetch(refresh, fetched),
        refresh > 0 ==> s == Step::Countdown(refresh),
        refresh == 0 && fetched ==> s == Step::Done,
        refresh == 0 && !fetched ==> s == Step::Fail,
{
    if refresh == 0 {
        if fetched {
            Step::Done
        } else {
            Step::Fail
        }
    } else {
        Step::Countdown(refresh)
    }
}

/// The step that follows a second of countdown that showed `remaining`.
pub open spec fn next_after_tick(remaining: u64) -> Step {
    if remaining > 1 {
        Step::Countdown((remaining - 1) as u64)
    } else {
        Step::Redraw
    }
}

/// After the second that showed `remaining`: the next lower count, or, after
/// the last one, the redraw.
pub fn after_tick(remaining: u64) -> (s: Step)
    ensures
        s == next_after_tick(remaining),
        remaining > 1 ==> s == Step::Countdown((remaining - 1) as u64),
        remaining <= 1 ==> s == Step::Redraw,
{
    if remaining > 1 {
        Step::Countdown(remaining - 1)
    } else {
        Step::Redraw
    }
}

/// The step reached from `Countdown(start)` after `k` seconds.
pub open spec fn after_ticks(start: u64, k: nat) -> Step
    decreases k,
{
    if k == 0 {
        Step::Countdown(start)
    } else {
        match after_ticks(start, (k - 1) as nat) {
            Step::Countdown(n) => next_after_tick(n),
            other => other,
        }
    }
}

/// Between two fetches the viewer shows `refresh`, `refresh - 1`, ..., `1`,
/// one a second, and redraws after exactly `refresh` seconds.
pub proof fn countdown_runs_the_interval(refresh: u64, k: nat)
    requires
        refresh > 0,
        k <= refresh,
    ensures
        k < refresh ==> after_ticks(refresh, k) == Step::Countdown((refresh - k) as u64),
        k == refresh ==> after_ticks(refresh, k) == Step::Redraw,
    decreases k,
{
    if k > 0 {
        countdown_runs_the_interval(refresh, (k - 1) as nat);
    }
}

/// A fetch is followed by a wait of exactly `refresh` seconds whenever the
/// view refreshes itself, whether the fetch succeeded or not: the countdown
/// starts at `refresh`, shows each lower count for one second, and the next
/// fetch comes after the `refresh`-th second. With no refresh interval the
/// viewer stops, failing exactly when the fetch failed.
pub proof fn fetches_are_refresh_seconds_apart(refresh: u64, fetched: bool)
    ensures
        refresh > 0 ==> next_after_fetch(refresh, fetched) == Step::Countdown(refresh),
        refresh > 0 ==> forall|k: nat|
            k < refresh ==> #[trigger] after_ticks(refresh, k) == Step::Countdown((refresh - k) as u64),
        refresh > 0 ==> after_ticks(refresh, refresh as nat) == Step::Redraw,
        refresh == 0 ==> next_after_fetch(refresh, fetched) == (if fetched {
            Step::Done
        } else {
            Step::Fail
        }),
{
    if refresh > 0 {
        assert forall|k: nat| k < refresh implies #[trigger] after_ticks(refresh, k) == Step::Countdown(
            (refresh - k) as u64,
        ) by {
            countdown_runs_the_interval(refresh, k);
        }
        countdown_runs_the_interval(refresh, refresh as nat);
    }
}

/// The countdown line for `remaining` seconds: it starts at the beginning of
/// the line, so each one overwrites the last.
pub open spec fn countdown_line(remaining: u64) -> Seq<SpanView> {
    seq![
        span_of("\r  "@, Tone::Plain),
        span_of("→"@, Tone::Cyan),
        span_of("  Refreshing in "@ + decimal_text(remaining as nat) + "s  (Ctrl+C to quit)  "@, Tone::Plain),
    ]
}

/// The spans of the countdown line for `remaining` seconds.
pub fn countdown(remaining: u64) -> (v: Vec<Span>)
    ensures
        spans_view(v@) == countdown_line(remaining),
{
    let mut text = String::from_str("  Refreshing in ");
    let n = decimal(remaining);
    text.append(n.as_str());
    text.append("s  (Ctrl+C to quit)  ");
    let ghost t = text@;
    let mut v: Vec<Span> = Vec::new();
    v.push(Span { text: String::from_str("\r  "), tone: Tone::Plain });
    v.push(Span { text: String::from_str("→"), tone: Tone::Cyan });
    v.push(Span { text, tone: Tone::Plain });
    assert(spans_view(v@) =~= countdown_line(remaining));
    v
}

/// The text that erases the countdown line: the width of the frame in spaces
/// between two carriage returns.
pub fn countdown_erase() -> (s: String)
    ensures
        s@ == seq!['\r'] + spaces(WIDTH as nat) + seq!['\r'],
{
    proof {
        reveal_strlit("\r");
        reveal_strlit(" ");
    }
    let mut s = String::from_str("\r");
    let mut i: usize = 0;
    while i < WIDTH
        invariant
            i <= WIDTH,
            s@ == seq!['\r'] + spaces(i as nat),
        decreases WIDTH - i,
    {
        proof {
            reveal_strlit(" ");
        }
        s.append(" ");
        i = i + 1;
        assert(s@ =~= seq!['\r'] + spaces(i as nat));
    }
    proof {
        reveal_strlit("\r");
    }
    s.append("\r");
    assert(s@ =~= seq!['\r'] + spaces(WIDTH as nat) + seq!['\r']);
    s
}

/// The token id that a typed line gives: the line without surrounding white
/// space, or `None` when nothing else is left.
pub fn token_from_input(line: &str) -> (r: Option<String>)
    ensures
        r matches Some(t) ==> t@ == trimmed(line@) && t@.len() > 0,
        r is None <==> trimmed(line@).len() == 0,
{
    let t = trim(line);
    if t.is_empty() {
        None
    } else {
        Some(String::from_str(t))
    }
}

} // verus!
