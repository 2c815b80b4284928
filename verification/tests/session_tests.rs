use ob_cli::session::{after_fetch, after_tick, clears_screen, countdown, countdown_erase, token_from_input, Step};

#[test]
fn single_fetch_stops() {
    assert_eq!(after_fetch(0, true), Step::Done);
    assert_eq!(after_fetch(0, false), Step::Fail);
    assert!(!clears_screen(0));
}

#[test]
fn refreshing_counts_down_whatever_the_fetch_gave() {
    assert_eq!(after_fetch(3, true), Step::Countdown(3));
    assert_eq!(after_fetch(3, false), Step::Countdown(3));
    assert!(clears_screen(3));
}

#[test]
fn countdown_runs_to_the_redraw() {
    let mut seen = vec![];
    let mut step = after_fetch(3, true);
    while let Step::Countdown(n) = step {
        seen.push(n);
        step = after_tick(n);
    }
    assert_eq!(seen, vec![3, 2, 1]);
    assert_eq!(step, Step::Redraw);
}

#[test]
fn countdown_text() {
    let spans = countdown(5);
    let text: String = spans.iter().map(|s| s.text.clone()).collect();
    assert_eq!(text, "\r  →  Refreshing in 5s  (Ctrl+C to quit)  ");
    assert_eq!(countdown_erase(), format!("\r{}\r", " ".repeat(58)));
}

#[test]
fn typed_token_is_trimmed() {
    assert_eq!(token_from_input("  12345\n").as_deref(), Some("12345"));
    assert_eq!(token_from_input(" \n"), None);
    assert_eq!(token_from_input(""), None);
}
