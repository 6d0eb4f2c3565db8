use finnhub_scanner::figure::Figure;
use finnhub_scanner::finnhub::StockQuote;
use finnhub_scanner::summary::calculate_summary;

fn fig(value: f64) -> Figure {
    Figure::from_bits(value.to_bits())
}

fn val(figure: Figure) -> f64 {
    f64::from_bits(figure.to_bits())
}

fn quote(symbol: &str, change_pct: f64) -> StockQuote {
    StockQuote {
        symbol: symbol.to_string(),
        price: fig(100.0),
        prev_close: fig(100.0 - change_pct),
        change_pct: fig(change_pct),
        high: fig(105.0),
        low: fig(95.0),
        open: fig(98.0),
    }
}

#[test]
fn the_summary_of_nothing_is_empty() {
    let summary = calculate_summary(&[]);
    assert_eq!(summary.total, 0);
    assert_eq!(summary.gainers, 0);
    assert_eq!(summary.losers, 0);
    assert!(summary.top_gainer.is_none());
    assert!(summary.top_loser.is_none());
}

#[test]
fn the_summary_counts_gainers_and_losers() {
    let quotes =
        vec![quote("A", 2.0), quote("B", -5.0), quote("C", 10.0), quote("D", 0.0), quote("E", -1.0)];
    let summary = calculate_summary(&quotes);
    assert_eq!(summary.total, 5);
    assert_eq!(summary.gainers, 2);
    assert_eq!(summary.losers, 2);
    let top_gainer = summary.top_gainer.unwrap();
    assert_eq!(top_gainer.symbol, "C");
    assert_eq!(val(top_gainer.change_pct), 10.0);
    let top_loser = summary.top_loser.unwrap();
    assert_eq!(top_loser.symbol, "B");
    assert_eq!(val(top_loser.change_pct), -5.0);
}

#[test]
fn one_quote_is_both_top_gainer_and_top_loser() {
    let summary = calculate_summary(&[quote("ONLY", -1.5)]);
    assert_eq!(summary.top_gainer.unwrap().symbol, "ONLY");
    assert_eq!(summary.top_loser.unwrap().symbol, "ONLY");
    assert_eq!(summary.gainers, 0);
    assert_eq!(summary.losers, 1);
}

#[test]
fn of_equal_gains_the_last_is_on_top_and_of_equal_losses_the_first() {
    let quotes = vec![
        quote("G1", 4.0),
        quote("L1", -4.0),
        quote("G2", 4.0),
        quote("L2", -4.0),
        quote("MID", 1.0),
    ];
    let summary = calculate_summary(&quotes);
    assert_eq!(summary.top_gainer.unwrap().symbol, "G2");
    assert_eq!(summary.top_loser.unwrap().symbol, "L1");
}

#[test]
fn the_tops_agree_with_the_largest_and_the_smallest_number() {
    let changes = [0.5, -7.25, 3.0, -3.0, 12.0, 0.0, -0.5, 12.0, -7.25];
    let quotes: Vec<StockQuote> =
        changes.iter().enumerate().map(|(i, c)| quote(&format!("S{}", i), *c)).collect();
    let summary = calculate_summary(&quotes);
    let best = changes
        .iter()
        .enumerate()
        .max_by(|a, b| a.1.partial_cmp(b.1).unwrap())
        .unwrap();
    let worst = changes
        .iter()
        .enumerate()
        .min_by(|a, b| a.1.partial_cmp(b.1).unwrap())
        .unwrap();
    assert_eq!(summary.top_gainer.unwrap().symbol, format!("S{}", best.0));
    assert_eq!(summary.top_loser.unwrap().symbol, format!("S{}", worst.0));
    assert_eq!(summary.gainers, changes.iter().filter(|c| **c > 0.0).count());
    assert_eq!(summary.losers, changes.iter().filter(|c| **c < 0.0).count());
}

#[test]
fn zeros_of_either_sign_are_neither_gain_nor_loss() {
    let summary = calculate_summary(&[quote("P", 0.0), quote("N", -0.0)]);
    assert_eq!(summary.gainers, 0);
    assert_eq!(summary.losers, 0);
    assert_eq!(summary.top_gainer.unwrap().symbol, "N");
    assert_eq!(summary.top_loser.unwrap().symbol, "P");
}
