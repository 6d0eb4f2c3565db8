//! What is shown of a list of quotes: which quotes, in what order, and
//! what is said of them in summary.

use crate::figure::Figure;
use crate::finnhub::StockQuote;
use crate::text::{align_right, right_aligned};
use vstd::prelude::*;

verus! {

/// The formats in which quotes are printed.
#[derive(Debug, Clone, Copy, PartialEq, Eq, Structural)]
pub enum OutputFormat {
    /// A table with aligned columns and a summary.
    Table,
    /// JSON.
    Json,
    /// Comma-separated values.
    Csv,
    /// One short line for each quote.
    Compact,
}

impl Default for OutputFormat {
    /// The table.
    fn default() -> (format: OutputFormat)
        ensures
            format == OutputFormat::Table,
    {
        OutputFormat::Table
    }
}

/// Whether a quote passes the filter: gainers only, losers only, and a
/// least absolute change, each where it is asked for. Asking for gainers
/// only and for losers only at once lets nothing pass.
pub open spec fn passes(
    quote: StockQuote,
    gainers_only: bool,
    losers_only: bool,
    min_change: Option<Figure>,
) -> bool {
    &&& gainers_only ==> quote.change_pct.is_positive()
    &&& losers_only ==> quote.change_pct.is_negative()
    &&& min_change matches Some(floor) ==> quote.change_pct.abs_at_least(floor)
}

/// The filter as a predicate on quotes.
pub open spec fn passing(gainers_only: bool, losers_only: bool, min_change: Option<Figure>)
    -> spec_fn(StockQuote) -> bool {
    |quote: StockQuote| passes(quote, gainers_only, losers_only, min_change)
}

/// The quotes that pass the filter, in their order.
pub fn filter_quotes(
    quotes: Vec<StockQuote>,
    gainers_only: bool,
    losers_only: bool,
    min_change: Option<Figure>,
) -> (kept: Vec<StockQuote>)
    ensures
        kept@ == quotes@.filter(passing(gainers_only, losers_only, min_change)),
{
    let ghost all = quotes@;
    let ghost pred = passing(gainers_only, losers_only, min_change);
    let ghost mut seen: int = 0;
    let mut kept: Vec<StockQuote> = Vec::new();
    assert(all.take(0).filter(pred) =~= Seq::empty()) by {
        reveal(Seq::filter);
    }
    for quote in it: quotes
        invariant
            it.seq() == all,
            seen == it.index(),
            pred == passing(gainers_only, losers_only, min_change),
            kept@ == all.take(seen).filter(pred),
    {
        proof {
            all.take(seen).lemma_filter_push(quote, pred);
            assert(all.take(seen + 1) =~= all.take(seen).push(quote));
            seen = seen + 1;
        }
        let gain_ok = !gainers_only || quote.change_pct.is_positive();
        let loss_ok = !losers_only || quote.change_pct.is_negative();
        let floor_ok = match min_change {
            Some(floor) => quote.change_pct.abs_at_least(floor),
            None => true,
        };
        if gain_ok && loss_ok && floor_ok {
            kept.push(quote);
        }
    }
    assert(all.take(seen) =~= all);
    kept
}

/// The size of a quote's change, whatever its direction: the magnitude of
/// its figure. A change that is not a number ranks above every number.
pub open spec fn move_of(quote: StockQuote) -> int {
    quote.change_pct.spec_magnitude()
}

/// Where a quote goes into a ranking, looking from index `from` on: before
/// the first quote that moved less.
pub open spec fn slot_from(ranked: Seq<StockQuote>, quote: StockQuote, from: int) -> int
    decreases ranked.len() - from,
{
    if from < 0 || from >= ranked.len() || move_of(ranked[from]) < move_of(quote) {
        from
    } else {
        slot_from(ranked, quote, from + 1)
    }
}

/// The quotes by the size of their change, largest first. Each quote is
/// taken in its turn and placed behind every quote that moved as much or
/// more, so quotes that moved alike stay in the order they came in.
pub open spec fn ranking(quotes: Seq<StockQuote>) -> Seq<StockQuote>
    decreases quotes.len(),
{
    if quotes.len() == 0 {
        Seq::empty()
    } else {
        let earlier = ranking(quotes.drop_last());
        earlier.insert(slot_from(earlier, quotes.last(), 0), quotes.last())
    }
}

/// The quotes by the size of their change, largest first; quotes that
/// moved alike keep their order.
pub fn sort_by_change(quotes: Vec<StockQuote>) -> (ranked: Vec<StockQuote>)
    ensures
        ranked@ == ranking(quotes@),
        ranked@.len() == quotes@.len(),
        is_ranked(ranked@),
        forall|size: int| #[trigger]
            ranked@.filter(moved_by(size)) == quotes@.filter(moved_by(size)),
{
    let ghost all = quotes@;
    let ghost mut seen: int = 0;
    let mut ranked: Vec<StockQuote> = Vec::new();
    for quote in it: quotes
        invariant
            it.seq() == all,
            seen == it.index(),
            ranked@ == ranking(all.take(seen)),
    {
        let size = quote.change_pct.magnitude();
        let mut slot: usize = 0;
        while slot < ranked.len() && ranked[slot].change_pct.magnitude() >= size
            invariant
                slot <= ranked.len(),
                size == move_of(quote),
                slot_from(ranked@, quote, 0) == slot_from(ranked@, quote, slot as int),
            decreases ranked.len() - slot,
        {
            slot += 1;
        }
        proof {
            assert(all.take(seen + 1).drop_last() =~= all.take(seen));
            assert(all.take(seen + 1).last() == quote);
            seen = seen + 1;
        }
        ranked.insert(slot, quote);
    }
    proof {
        assert(all.take(seen) =~= all);
        lemma_ranking(all);
    }
    ranked
}

/// The quotes that moved by exactly `size`, as a predicate.
pub open spec fn moved_by(size: int) -> spec_fn(StockQuote) -> bool {
    |quote: StockQuote| move_of(quote) == size
}

/// Whether no quote moved less than one behind it.
pub open spec fn is_ranked(quotes: Seq<StockQuote>) -> bool {
    forall|i: int, j: int|
        0 <= i < j < quotes.len() ==> move_of(#[trigger] quotes[i]) >= move_of(#[trigger] quotes[j])
}

/// The slot found for a quote lies behind the quotes that moved as much or
/// more and before one that moved less.
proof fn lemma_slot(ranked: Seq<StockQuote>, quote: StockQuote, from: int)
    requires
        0 <= from <= ranked.len(),
    ensures
        from <= slot_from(ranked, quote, from) <= ranked.len(),
        forall|k: int|
            from <= k < slot_from(ranked, quote, from) ==> move_of(#[trigger] ranked[k]) >= move_of(
                quote,
            ),
        slot_from(ranked, quote, from) < ranked.len() ==> move_of(
            ranked[slot_from(ranked, quote, from)],
        ) < move_of(quote),
    decreases ranked.len() - from,
{
    if from < ranked.len() && move_of(ranked[from]) >= move_of(quote) {
        lemma_slot(ranked, quote, from + 1);
    }
}

/// Nothing of a sequence passes a filter that none of its items meets.
proof fn lemma_filter_none(quotes: Seq<StockQuote>, pred: spec_fn(StockQuote) -> bool)
    requires
        forall|i: int| 0 <= i < quotes.len() ==> !pred(#[trigger] quotes[i]),
    ensures
        quotes.filter(pred) == Seq::<StockQuote>::empty(),
    decreases quotes.len(),
{
    reveal(Seq::filter);
    if quotes.len() > 0 {
        let rest = quotes.drop_last();
        assert forall|i: int| 0 <= i < rest.len() implies !pred(#[trigger] rest[i]) by {
            assert(rest[i] == quotes[i]);
        }
        lemma_filter_none(rest, pred);
        assert(!pred(quotes[quotes.len() - 1]));
    }
}

/// A ranking is a stable sort: it is as long as the list it ranks; no
/// quote in it moved less than one behind it; and the quotes that moved by
/// any one size are the same in both, in the same order. So it holds the
/// quotes of the list and no others, and quotes that moved alike keep their
/// order.
pub proof fn lemma_ranking(quotes: Seq<StockQuote>)
    ensures
        ranking(quotes).len() == quotes.len(),
        is_ranked(ranking(quotes)),
        forall|size: int| #[trigger]
            ranking(quotes).filter(moved_by(size)) == quotes.filter(moved_by(size)),
        ranking(quotes).to_multiset() == quotes.to_multiset(),
    decreases quotes.len(),
{
    broadcast use vstd::seq_lib::group_seq_properties;

    if quotes.len() == 0 {
        assert(ranking(quotes) =~= quotes);
    } else {
        let rest = quotes.drop_last();
        let last = quotes.last();
        let earlier = ranking(rest);
        let slot = slot_from(earlier, last, 0);
        let out = ranking(quotes);
        lemma_ranking(rest);
        lemma_slot(earlier, last, 0);
        earlier.insert_ensures(slot, last);
        assert(quotes =~= rest.push(last));
        let head = earlier.subrange(0, slot);
        let tail = earlier.subrange(slot, earlier.len() as int);
        assert(earlier =~= head + tail);
        assert(out =~= head.push(last) + tail);
        assert forall|i: int, j: int| 0 <= i < j < out.len() implies move_of(#[trigger] out[i])
            >= move_of(#[trigger] out[j]) by {
            if j < slot {
                assert(out[i] == earlier[i] && out[j] == earlier[j]);
            } else if j == slot {
                assert(out[i] == earlier[i]);
            } else if i < slot {
                assert(out[i] == earlier[i] && out[j] == earlier[j - 1]);
                assert(move_of(earlier[j - 1]) <= move_of(earlier[slot]));
            } else if i == slot {
                assert(out[j] == earlier[j - 1]);
                assert(move_of(earlier[j - 1]) <= move_of(earlier[slot]));
            } else {
                assert(out[i] == earlier[i - 1] && out[j] == earlier[j - 1]);
            }
        }
        assert forall|size: int| #[trigger]
            out.filter(moved_by(size)) == quotes.filter(moved_by(size)) by {
            let pred = moved_by(size);
            assert(earlier.filter(pred) == rest.filter(pred));
            rest.lemma_filter_push(last, pred);
            head.lemma_filter_push(last, pred);
            assert(earlier.filter(pred) == head.filter(pred) + tail.filter(pred));
            assert(out.filter(pred) == head.push(last).filter(pred) + tail.filter(pred));
            if pred(last) {
                assert forall|i: int| 0 <= i < tail.len() implies !pred(#[trigger] tail[i]) by {
                    assert(tail[i] == earlier[slot + i]);
                    assert(move_of(earlier[slot + i]) <= move_of(earlier[slot]));
                }
                lemma_filter_none(tail, pred);
                assert(head.filter(pred) + tail.filter(pred) =~= head.filter(pred));
                assert(head.filter(pred).push(last) + tail.filter(pred) =~= head.filter(pred).push(
                    last,
                ));
            }
        }
        assert(out.to_multiset() =~= quotes.to_multiset()) by {
            vstd::seq_lib::lemma_multiset_commutative(head.push(last), tail);
            vstd::seq_lib::lemma_multiset_commutative(head, tail);
            assert(head.push(last).to_multiset() =~= head.to_multiset().insert(last));
            assert(rest.push(last).to_multiset() =~= rest.to_multiset().insert(last));
        }
    }
}

/// A change as it is printed. `written` is the change in digits, with two
/// decimals. A gain is green, with a plus sign before a field of seven; a
/// loss is red, in a field of eight; anything else is plain, in a field of
/// eight. A percent sign follows the field.
pub open spec fn change_text(change_pct: Figure, written: Seq<char>) -> Seq<char> {
    if change_pct.is_positive() {
        "\x1b[32m+"@ + right_aligned(written, 7) + "%\x1b[0m"@
    } else if change_pct.is_negative() {
        "\x1b[31m"@ + right_aligned(written, 8) + "%\x1b[0m"@
    } else {
        right_aligned(written, 8) + "%"@
    }
}

/// A change as it is printed, from the change and its digits.
pub fn format_change(change_pct: Figure, written: &str) -> (text: String)
    ensures
        text@ == change_text(change_pct, written@),
{
    if change_pct.is_positive() {
        let field = align_right(written, 7);
        let mut text = String::from_str("\x1b[32m+");
        text.append(field.as_str());
        text.append("%\x1b[0m");
        text
    } else if change_pct.is_negative() {
        let field = align_right(written, 8);
        let mut text = String::from_str("\x1b[31m");
        text.append(field.as_str());
        text.append("%\x1b[0m");
        text
    } else {
        let mut text = align_right(written, 8);
        text.append("%");
        text
    }
}

/// The arrow that shows where a change points: up for a gain, down for a
/// loss, to the right for anything else.
pub open spec fn arrow_text(change_pct: Figure) -> Seq<char> {
    if change_pct.is_positive() {
        "\u{2191}"@
    } else if change_pct.is_negative() {
        "\u{2193}"@
    } else {
        "\u{2192}"@
    }
}

/// The arrow for a change.
pub fn trend_arrow(change_pct: Figure) -> (arrow: &'static str)
    ensures
        arrow@ == arrow_text(change_pct),
{
    if change_pct.is_positive() {
        "\u{2191}"
    } else if change_pct.is_negative() {
        "\u{2193}"
    } else {
        "\u{2192}"
    }
}

/// Whether a quote has a range of the day to show. The service leaves the
/// high and the low at zero where it knows none.
pub open spec fn spec_has_day_range(quote: &StockQuote) -> bool {
    !(quote.high.is_zero() && quote.low.is_zero())
}

/// Whether a quote has a range of the day to show.
#[verifier::when_used_as_spec(spec_has_day_range)]
pub fn has_day_range(quote: &StockQuote) -> (shown: bool)
    ensures
        shown == spec_has_day_range(quote),
{
    !(quote.high.is_zero() && quote.low.is_zero())
}

} // verus!
