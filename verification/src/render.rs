//! The lines that are printed of a list of quotes: the rows of the table,
//! of the comma-separated list and of the compact list, and the summary
//! under the table. The digits of each figure come from the caller, written
//! with two decimals; everything around them is laid out here.

use crate::figure::Figure;
use crate::finnhub::StockQuote;
use crate::output::{
    arrow_text, change_text, format_change, has_day_range, spec_has_day_range, trend_arrow,
};
use crate::summary::Summary;
use crate::text::{
    align_left, align_right, decimal, left_aligned, right_aligned, write_decimal,
};
use vstd::prelude::*;

verus! {

/// The figures of a quote as they are written, each with two decimals.
#[derive(Debug, Clone)]
pub struct Written {
    pub price: String,
    pub prev_close: String,
    pub change_pct: String,
    pub high: String,
    pub low: String,
    pub open: String,
}

/// The width of the table.
pub const TABLE_WIDTH: usize = 75;

/// The line that frames the table.
pub open spec fn table_rule_text() -> Seq<char> {
    Seq::new(TABLE_WIDTH as nat, |i: int| '=')
}

/// The line that frames the table.
pub fn table_rule() -> (line: String)
    ensures
        line@ == table_rule_text(),
{
    let mut line = String::new();
    let mut drawn: usize = 0;
    while drawn < TABLE_WIDTH
        invariant
            drawn <= TABLE_WIDTH,
            line@ == Seq::new(drawn as nat, |i: int| '='),
        decreases TABLE_WIDTH - drawn,
    {
        line.push('=');
        drawn += 1;
        assert(line@ =~= Seq::new(drawn as nat, |i: int| '='));
    }
    line
}

/// The headings of the table: the symbol in a field of eight, then four
/// fields of twelve.
pub open spec fn table_header_text() -> Seq<char> {
    left_aligned("SYMBOL"@, 8) + " "@ + right_aligned("PRICE"@, 12) + " "@ + right_aligned(
        "PREV CLOSE"@,
        12,
    ) + " "@ + right_aligned("CHANGE"@, 12) + " "@ + right_aligned("DAY RANGE"@, 12)
}

/// The headings of the table.
pub fn table_header() -> (line: String)
    ensures
        line@ == table_header_text(),
{
    let mut line = align_left("SYMBOL", 8);
    line.append(" ");
    line.append(align_right("PRICE", 12).as_str());
    line.append(" ");
    line.append(align_right("PREV CLOSE", 12).as_str());
    line.append(" ");
    line.append(align_right("CHANGE", 12).as_str());
    line.append(" ");
    line.append(align_right("DAY RANGE", 12).as_str());
    line
}

/// The range of the day as it is shown: the low, a hyphen and the high, or
/// `N/A` where the quote has none.
pub open spec fn day_range_text(quote: &StockQuote, written: &Written) -> Seq<char> {
    if spec_has_day_range(quote) {
        written.low@ + "-"@ + written.high@
    } else {
        "N/A"@
    }
}

/// The range of the day as it is shown.
pub fn day_range(quote: &StockQuote, written: &Written) -> (range: String)
    ensures
        range@ == day_range_text(quote, written),
{
    if has_day_range(quote) {
        let mut range = String::from_str(written.low.as_str());
        range.append("-");
        range.append(written.high.as_str());
        range
    } else {
        String::from_str("N/A")
    }
}

/// A row of the table: the symbol in a field of eight, the price and the
/// previous close in fields of twelve, the change in its colour, and the
/// range of the day in a field of twelve.
pub open spec fn table_row_text(quote: &StockQuote, written: &Written) -> Seq<char> {
    left_aligned(quote.symbol@, 8) + " "@ + right_aligned(written.price@, 12) + " "@
        + right_aligned(written.prev_close@, 12) + " "@ + change_text(
        quote.change_pct,
        written.change_pct@,
    ) + " "@ + right_aligned(day_range_text(quote, written), 12)
}

/// The row of the table for a quote.
pub fn table_row(quote: &StockQuote, written: &Written) -> (line: String)
    ensures
        line@ == table_row_text(quote, written),
{
    let mut line = align_left(quote.symbol.as_str(), 8);
    line.append(" ");
    line.append(align_right(written.price.as_str(), 12).as_str());
    line.append(" ");
    line.append(align_right(written.prev_close.as_str(), 12).as_str());
    line.append(" ");
    line.append(format_change(quote.change_pct, written.change_pct.as_str()).as_str());
    line.append(" ");
    line.append(align_right(day_range(quote, written).as_str(), 12).as_str());
    line
}

/// The first line of the comma-separated list.
pub fn csv_header() -> (line: String)
    ensures
        line@ == "symbol,price,prev_close,change_pct,high,low,open"@,
{
    String::from_str("symbol,price,prev_close,change_pct,high,low,open")
}

/// A line of the comma-separated list: the symbol and the six figures.
pub open spec fn csv_row_text(quote: &StockQuote, written: &Written) -> Seq<char> {
    quote.symbol@ + ","@ + written.price@ + ","@ + written.prev_close@ + ","@
        + written.change_pct@ + ","@ + written.high@ + ","@ + written.low@ + ","@ + written.open@
}

/// The line of the comma-separated list for a quote.
pub fn csv_row(quote: &StockQuote, written: &Written) -> (line: String)
    ensures
        line@ == csv_row_text(quote, written),
{
    let mut line = String::from_str(quote.symbol.as_str());
    line.append(",");
    line.append(written.price.as_str());
    line.append(",");
    line.append(written.prev_close.as_str());
    line.append(",");
    line.append(written.change_pct.as_str());
    line.append(",");
    line.append(written.high.as_str());
    line.append(",");
    line.append(written.low.as_str());
    line.append(",");
    line.append(written.open.as_str());
    line
}

/// A line of the compact list: the symbol in a field of six, the price
/// after a dollar sign in a field of eight, the arrow and the change.
pub open spec fn compact_row_text(quote: &StockQuote, written: &Written) -> Seq<char> {
    left_aligned(quote.symbol@, 6) + " $"@ + right_aligned(written.price@, 8) + " "@ + arrow_text(
        quote.change_pct,
    ) + " "@ + change_text(quote.change_pct, written.change_pct@)
}

/// The line of the compact list for a quote.
pub fn compact_row(quote: &StockQuote, written: &Written) -> (line: String)
    ensures
        line@ == compact_row_text(quote, written),
{
    let mut line = align_left(quote.symbol.as_str(), 6);
    line.append(" $");
    line.append(align_right(written.price.as_str(), 8).as_str());
    line.append(" ");
    line.append(trend_arrow(quote.change_pct));
    line.append(" ");
    line.append(format_change(quote.change_pct, written.change_pct.as_str()).as_str());
    line
}

/// The lines that count the quotes, the gainers and the losers.
pub open spec fn counts_text(summary: &Summary) -> Seq<char> {
    "\n\u{1F4C8} Summary:\n   Total symbols: "@ + decimal(summary.total as nat)
        + "\n   Gainers: \x1b[32m"@ + decimal(summary.gainers as nat)
        + "\x1b[0m | Losers: \x1b[31m"@ + decimal(summary.losers as nat) + "\x1b[0m\n"@
}

/// The line that names a top gainer or a top loser, where there is one.
pub open spec fn top_text(
    label: Seq<char>,
    top: Option<crate::summary::TopStock>,
    written: Seq<char>,
) -> Seq<char> {
    match top {
        Some(stock) => label + stock.symbol@ + " ("@ + change_text(stock.change_pct, written)
            + ")\n"@,
        None => Seq::empty(),
    }
}

/// The summary under the table: the counts, the average change, the top
/// gainer and the top loser where there are any, and an empty line.
pub open spec fn summary_text(
    summary: &Summary,
    average: Figure,
    average_written: Seq<char>,
    gainer_written: Seq<char>,
    loser_written: Seq<char>,
) -> Seq<char> {
    counts_text(summary) + "   Average change: "@ + change_text(average, average_written) + "\n"@
        + top_text("   Top gainer: "@, summary.top_gainer, gainer_written) + top_text(
        "   Top loser: "@,
        summary.top_loser,
        loser_written,
    ) + "\n"@
}

/// The summary under the table. `average` is the mean of the changes; it
/// and the changes of the top gainer and of the top loser come with their
/// digits.
pub fn summary_block(
    summary: &Summary,
    average: Figure,
    average_written: &str,
    gainer_written: &str,
    loser_written: &str,
) -> (block: String)
    ensures
        block@ == summary_text(
            summary,
            average,
            average_written@,
            gainer_written@,
            loser_written@,
        ),
{
    let mut block = String::from_str("\n\u{1F4C8} Summary:\n   Total symbols: ");
    block.append(write_decimal(summary.total).as_str());
    block.append("\n   Gainers: \x1b[32m");
    block.append(write_decimal(summary.gainers).as_str());
    block.append("\x1b[0m | Losers: \x1b[31m");
    block.append(write_decimal(summary.losers).as_str());
    block.append("\x1b[0m\n");
    block.append("   Average change: ");
    block.append(format_change(average, average_written).as_str());
    block.append("\n");
    let ghost so_far = block@;
    match &summary.top_gainer {
        Some(stock) => {
            let mut line = String::from_str("   Top gainer: ");
            line.append(stock.symbol.as_str());
            line.append(" (");
            line.append(format_change(stock.change_pct, gainer_written).as_str());
            line.append(")\n");
            block.append(line.as_str());
        },
        None => {
            assert(block@ =~= so_far + Seq::<char>::empty());
        },
    }
    let ghost with_gainer = block@;
    match &summary.top_loser {
        Some(stock) => {
            let mut line = String::from_str("   Top loser: ");
            line.append(stock.symbol.as_str());
            line.append(" (");
            line.append(format_change(stock.change_pct, loser_written).as_str());
            line.append(")\n");
            block.append(line.as_str());
        },
        None => {
            assert(block@ =~= with_gainer + Seq::<char>::empty());
        },
    }
    block.append("\n");
    block
}

/// The summary as it is shown under the table: the block for a list that
/// holds quotes, and nothing for an empty list.
pub fn shown_summary(
    summary: &Summary,
    average: Figure,
    average_written: &str,
    gainer_written: &str,
    loser_written: &str,
) -> (shown: Option<String>)
    ensures
        summary.total == 0 ==> shown is None,
        summary.total > 0 ==> (shown matches Some(block) && block@ == summary_text(
            summary,
            average,
            average_written@,
            gainer_written@,
            loser_written@,
        )),
{
    if summary.total == 0 {
        None
    } else {
        Some(summary_block(summary, average, average_written, gainer_written, loser_written))
    }
}

} // verus!
