use finnhub_scanner::errors::ScannerError;
use finnhub_scanner::figure::Figure;
use finnhub_scanner::fetch::{
    record, settle, FetchAction, FetchEvent, FetchRun, Outcome,
};
use finnhub_scanner::finnhub::{check_quote, check_status, quote_url, Quote, StockQuote};

fn fig(value: f64) -> Figure {
    Figure::from_bits(value.to_bits())
}

fn val(figure: Figure) -> f64 {
    f64::from_bits(figure.to_bits())
}

fn reply(c: f64, pc: f64, h: f64, l: f64, o: f64) -> Quote {
    Quote { c: fig(c), pc: fig(pc), h: fig(h), l: fig(l), o: fig(o) }
}

fn relative_change(quote: &Quote) -> Figure {
    fig(((val(quote.c) - val(quote.pc)) / val(quote.pc)) * 100.0)
}

fn quoted(symbol: &str, change_pct: f64) -> Outcome {
    let quote = reply(100.0, 100.0 - change_pct, 105.0, 95.0, 98.0);
    Outcome::Quoted(StockQuote::from_quote(symbol.to_string(), quote, fig(change_pct)))
}

fn failed(symbol: &str) -> Outcome {
    Outcome::Failed(symbol.to_string(), ScannerError::Api(format!("No data for {}", symbol)))
}

fn symbols_of(quotes: &[StockQuote]) -> Vec<String> {
    quotes.iter().map(|quote| quote.symbol.clone()).collect()
}

#[test]
fn test_stock_quote_calculation() {
    let quote = reply(150.0, 100.0, 155.0, 145.0, 148.0);
    let change = relative_change(&quote);
    let stock_quote = StockQuote::from_quote("TEST".to_string(), quote, change);
    assert_eq!(val(stock_quote.change_pct), 50.0);
    assert_eq!(val(stock_quote.price), 150.0);
}

#[test]
fn test_zero_previous_close() {
    let quote = reply(150.0, 0.0, 155.0, 145.0, 148.0);
    let change = relative_change(&quote);
    let stock_quote = StockQuote::from_quote("TEST".to_string(), quote, change);
    assert_eq!(val(stock_quote.change_pct), 0.0);
}

#[test]
fn a_quote_keeps_every_figure_of_the_reply() {
    let quote = reply(150.0, 100.0, 155.0, 145.0, 148.0);
    let stock_quote = StockQuote::from_quote("TEST".to_string(), quote, fig(50.0));
    assert_eq!(stock_quote.symbol, "TEST");
    assert_eq!(val(stock_quote.prev_close), 100.0);
    assert_eq!(val(stock_quote.high), 155.0);
    assert_eq!(val(stock_quote.low), 145.0);
    assert_eq!(val(stock_quote.open), 148.0);
}

#[test]
fn a_negative_zero_previous_close_counts_as_zero() {
    let quote = reply(150.0, -0.0, 155.0, 145.0, 148.0);
    let stock_quote = StockQuote::from_quote("TEST".to_string(), quote, fig(f64::INFINITY));
    assert_eq!(stock_quote.change_pct.to_bits(), 0.0f64.to_bits());
}

#[test]
fn a_reply_of_zeros_holds_no_data() {
    assert!(!reply(0.0, 0.0, 0.0, 0.0, 0.0).has_data());
    assert!(!reply(0.0, -0.0, 1.0, 1.0, 1.0).has_data());
    assert!(reply(0.0, 100.0, 0.0, 0.0, 0.0).has_data());
    assert!(reply(100.0, 0.0, 0.0, 0.0, 0.0).has_data());
}

#[test]
fn a_reply_without_data_is_an_api_error() {
    match check_quote(reply(0.0, 0.0, 0.0, 0.0, 0.0), "NOPE") {
        Err(ScannerError::Api(msg)) => assert_eq!(msg, "No data for NOPE"),
        other => panic!("unexpected result: {:?}", other),
    }
    let kept = check_quote(reply(150.0, 100.0, 155.0, 145.0, 148.0), "AAPL").unwrap();
    assert_eq!(val(kept.c), 150.0);
    assert_eq!(val(kept.pc), 100.0);
}

#[test]
fn the_address_names_symbol_and_key() {
    assert_eq!(
        quote_url("AAPL", "abc123"),
        "https://finnhub.io/api/v1/quote?symbol=AAPL&token=abc123"
    );
}

#[test]
fn a_status_from_200_to_299_is_accepted() {
    assert!(check_status(200, "200 OK", "AAPL").is_ok());
    assert!(check_status(299, "299 <unknown status code>", "AAPL").is_ok());
}

#[test]
fn any_other_status_is_an_api_error() {
    for status in [199u16, 300, 404, 500] {
        assert!(matches!(check_status(status, "x", "AAPL"), Err(ScannerError::Api(_))));
    }
    match check_status(404, "404 Not Found", "AAPL") {
        Err(ScannerError::Api(msg)) => assert_eq!(msg, "HTTP 404 Not Found: AAPL"),
        other => panic!("unexpected result: {:?}", other),
    }
}

#[test]
fn recording_keeps_quotes_and_notes_apart() {
    let mut quotes = Vec::new();
    let mut errors = Vec::new();
    record(
        &mut quotes,
        &mut errors,
        vec![
            failed("BAD"),
            quoted("AAPL", 1.0),
            Outcome::Lost("task 3 panicked".to_string()),
            quoted("MSFT", -2.0),
        ],
    );
    assert_eq!(symbols_of(&quotes), vec!["AAPL", "MSFT"]);
    assert_eq!(errors, vec!["BAD: API error: No data for BAD", "Task error: task 3 panicked"]);
}

#[test]
fn a_batch_where_every_request_fails_is_an_api_error() {
    let run = FetchRun::new(2, 5, 200);
    let (run, _) = run.step(FetchEvent::BatchDone(vec![failed("AAA"), failed("BBB")]));
    match run.finish() {
        Err(ScannerError::Api(msg)) => assert_eq!(
            msg,
            "All requests failed. First error: AAA: API error: No data for AAA"
        ),
        other => panic!("unexpected result: {:?}", other),
    }
}

#[test]
fn a_batch_with_one_success_gives_the_successes_alone() {
    let run = FetchRun::new(3, 5, 200);
    let (run, _) = run.step(FetchEvent::BatchDone(vec![
        failed("AAA"),
        quoted("BBB", 2.0),
        failed("CCC"),
    ]));
    let quotes = run.finish().unwrap();
    assert_eq!(symbols_of(&quotes), vec!["BBB"]);
}

#[test]
fn settling_nothing_gives_nothing() {
    assert!(settle(Vec::new(), Vec::new()).unwrap().is_empty());
}

#[test]
fn settling_failures_alone_reports_the_first() {
    match settle(Vec::new(), vec!["one".to_string(), "two".to_string()]) {
        Err(ScannerError::Api(msg)) => assert_eq!(msg, "All requests failed. First error: one"),
        other => panic!("unexpected result: {:?}", other),
    }
}

#[test]
fn a_run_over_no_symbols_is_done_at_once() {
    let run = FetchRun::new(0, 5, 200);
    assert_eq!(run.pending(), FetchAction::Finish);
    assert!(run.finish().unwrap().is_empty());
}

#[test]
fn a_run_asks_for_consecutive_batches_with_a_pause_after_each() {
    let run = FetchRun::new(7, 3, 250);
    assert_eq!(run.pending(), FetchAction::Request { from: 0, to: 3 });
    let (run, action) =
        run.step(FetchEvent::BatchDone(vec![quoted("A", 1.0), failed("B"), quoted("C", 3.0)]));
    assert_eq!(action, FetchAction::Pause { millis: 250 });
    let (run, action) = run.step(FetchEvent::PauseOver);
    assert_eq!(action, FetchAction::Request { from: 3, to: 6 });
    let (run, action) =
        run.step(FetchEvent::BatchDone(vec![failed("D"), failed("E"), quoted("F", -1.0)]));
    assert_eq!(action, FetchAction::Pause { millis: 250 });
    let (run, action) = run.step(FetchEvent::PauseOver);
    assert_eq!(action, FetchAction::Request { from: 6, to: 7 });
    let (run, action) = run.step(FetchEvent::BatchDone(vec![quoted("G", 0.0)]));
    assert_eq!(action, FetchAction::Pause { millis: 250 });
    let (run, action) = run.step(FetchEvent::PauseOver);
    assert_eq!(action, FetchAction::Finish);
    assert_eq!(run.pending(), FetchAction::Finish);
    let quotes = run.finish().unwrap();
    assert_eq!(symbols_of(&quotes), vec!["A", "C", "F", "G"]);
}

#[test]
fn a_run_of_exactly_one_batch_still_pauses() {
    let run = FetchRun::new(2, 2, 200);
    assert_eq!(run.pending(), FetchAction::Request { from: 0, to: 2 });
    let (run, action) = run.step(FetchEvent::BatchDone(vec![quoted("A", 1.0), quoted("B", 2.0)]));
    assert_eq!(action, FetchAction::Pause { millis: 200 });
    let (_, action) = run.step(FetchEvent::PauseOver);
    assert_eq!(action, FetchAction::Finish);
}

#[test]
fn an_event_that_is_not_awaited_changes_nothing() {
    let run = FetchRun::new(4, 2, 200);
    let (run, action) = run.step(FetchEvent::PauseOver);
    assert_eq!(action, FetchAction::Request { from: 0, to: 2 });
    let (run, _) = run.step(FetchEvent::BatchDone(vec![quoted("A", 1.0), failed("B")]));
    let (run, action) = run.step(FetchEvent::BatchDone(vec![quoted("X", 1.0)]));
    assert_eq!(action, FetchAction::Pause { millis: 200 });
    let (run, _) = run.step(FetchEvent::PauseOver);
    let (run, _) = run.step(FetchEvent::BatchDone(vec![quoted("C", 1.0), quoted("D", 1.0)]));
    let (run, action) = run.step(FetchEvent::PauseOver);
    assert_eq!(action, FetchAction::Finish);
    let (run, action) = run.step(FetchEvent::BatchDone(vec![quoted("Y", 1.0)]));
    assert_eq!(action, FetchAction::Finish);
    assert_eq!(symbols_of(&run.finish().unwrap()), vec!["A", "C", "D"]);
}
