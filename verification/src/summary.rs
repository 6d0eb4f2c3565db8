//! What is said of a list of quotes in summary: how many gained, how many
//! lost, and which gained and which lost the most.

use crate::figure::Figure;
use crate::finnhub::StockQuote;
use vstd::prelude::*;

verus! {

/// A quote that stands out, by its symbol and its change.
#[derive(Debug, Clone)]
pub struct TopStock {
    pub symbol: String,
    pub change_pct: Figure,
}

/// The counts of a list of quotes, and the two quotes that stand out.
#[derive(Debug, Clone)]
pub struct Summary {
    /// How many quotes there are.
    pub total: usize,
    /// How many of them changed by more than zero.
    pub gainers: usize,
    /// How many of them changed by less than zero.
    pub losers: usize,
    /// The quote with the greatest change.
    pub top_gainer: Option<TopStock>,
    /// The quote with the least change.
    pub top_loser: Option<TopStock>,
}

/// The change of a quote as a signed integer. Where the changes are
/// numbers, they compare as these integers do.
pub open spec fn change_of(quote: StockQuote) -> int {
    quote.change_pct.spec_rank()
}

/// The quotes that gained, as a predicate.
pub open spec fn gained() -> spec_fn(StockQuote) -> bool {
    |quote: StockQuote| quote.change_pct.is_positive()
}

/// The quotes that lost, as a predicate.
pub open spec fn lost() -> spec_fn(StockQuote) -> bool {
    |quote: StockQuote| quote.change_pct.is_negative()
}

/// Whether every change is a number.
pub open spec fn all_numbers(quotes: Seq<StockQuote>) -> bool {
    forall|i: int| 0 <= i < quotes.len() ==> !(#[trigger] quotes[i]).change_pct.is_nan()
}

/// Whether the quote at `at` has the greatest change, and is the last of
/// those that have it.
pub open spec fn is_top_gainer(quotes: Seq<StockQuote>, at: int) -> bool {
    &&& 0 <= at < quotes.len()
    &&& forall|j: int| 0 <= j < quotes.len() ==> change_of(#[trigger] quotes[j]) <= change_of(quotes[at])
    &&& forall|j: int| at < j < quotes.len() ==> change_of(#[trigger] quotes[j]) < change_of(quotes[at])
}

/// Whether the quote at `at` has the least change, and is the first of
/// those that have it.
pub open spec fn is_top_loser(quotes: Seq<StockQuote>, at: int) -> bool {
    &&& 0 <= at < quotes.len()
    &&& forall|j: int| 0 <= j < quotes.len() ==> change_of(#[trigger] quotes[j]) >= change_of(quotes[at])
    &&& forall|j: int| 0 <= j < at ==> change_of(#[trigger] quotes[j]) > change_of(quotes[at])
}

/// Whether `top` names the quote at `at`.
pub open spec fn names(top: TopStock, quotes: Seq<StockQuote>, at: int) -> bool {
    top.symbol == quotes[at].symbol && top.change_pct == quotes[at].change_pct
}

/// The summary of a list of quotes. Where there are two quotes or more,
/// their changes must be numbers, for they are compared. Of several quotes
/// with the greatest change the last is the top gainer; of several with the
/// least change the first is the top loser.
pub fn calculate_summary(quotes: &[StockQuote]) -> (summary: Summary)
    requires
        quotes@.len() > 1 ==> all_numbers(quotes@),
    ensures
        summary.total == quotes@.len(),
        summary.gainers == quotes@.filter(gained()).len(),
        summary.losers == quotes@.filter(lost()).len(),
        quotes@.len() == 0 ==> summary.top_gainer is None && summary.top_loser is None,
        quotes@.len() > 0 ==> (summary.top_gainer matches Some(top) && exists|at: int|
            #[trigger] is_top_gainer(quotes@, at) && names(top, quotes@, at)),
        quotes@.len() > 0 ==> (summary.top_loser matches Some(top) && exists|at: int|
            #[trigger] is_top_loser(quotes@, at) && names(top, quotes@, at)),
{
    let total = quotes.len();
    let mut gainers: usize = 0;
    let mut losers: usize = 0;
    let mut best: usize = 0;
    let mut worst: usize = 0;
    let mut i: usize = 0;
    assert(quotes@.take(0).filter(gained()) =~= Seq::empty()) by {
        reveal(Seq::filter);
    }
    assert(quotes@.take(0).filter(lost()) =~= Seq::empty()) by {
        reveal(Seq::filter);
    }
    while i < total
        invariant
            total == quotes@.len(),
            i <= total,
            gainers == quotes@.take(i as int).filter(gained()).len(),
            losers == quotes@.take(i as int).filter(lost()).len(),
            gainers <= i,
            losers <= i,
            i > 0 ==> is_top_gainer(quotes@.take(i as int), best as int),
            i > 0 ==> is_top_loser(quotes@.take(i as int), worst as int),
            i == 0 ==> best == 0 && worst == 0,
        decreases total - i,
    {
        let ghost seen = quotes@.take(i as int);
        let ghost more = quotes@.take(i + 1);
        proof {
            assert(more =~= seen.push(quotes@[i as int]));
            seen.lemma_filter_push(quotes@[i as int], gained());
            seen.lemma_filter_push(quotes@[i as int], lost());
            assert forall|j: int| 0 <= j < seen.len() implies #[trigger] more[j] == seen[j] by {}
        }
        let change = quotes[i].change_pct;
        if change.is_positive() {
            gainers += 1;
        }
        if change.is_negative() {
            losers += 1;
        }
        if change.rank() >= quotes[best].change_pct.rank() {
            best = i;
        }
        if change.rank() < quotes[worst].change_pct.rank() {
            worst = i;
        }
        proof {
            assert(is_top_gainer(more, best as int)) by {
                assert forall|j: int| 0 <= j < more.len() implies change_of(#[trigger] more[j])
                    <= change_of(more[best as int]) by {
                    if j < seen.len() && i > 0 {
                        assert(more[j] == seen[j]);
                    }
                }
                assert forall|j: int| best < j < more.len() implies change_of(#[trigger] more[j])
                    < change_of(more[best as int]) by {
                    if j < seen.len() && i > 0 {
                        assert(more[j] == seen[j]);
                    }
                }
            }
            assert(is_top_loser(more, worst as int)) by {
                assert forall|j: int| 0 <= j < more.len() implies change_of(#[trigger] more[j])
                    >= change_of(more[worst as int]) by {
                    if j < seen.len() && i > 0 {
                        assert(more[j] == seen[j]);
                    }
                }
                assert forall|j: int| 0 <= j < worst implies change_of(#[trigger] more[j])
                    > change_of(more[worst as int]) by {
                    if j < seen.len() && i > 0 {
                        assert(more[j] == seen[j]);
                    }
                }
            }
        }
        i += 1;
    }
    assert(quotes@.take(total as int) =~= quotes@);
    if total == 0 {
        Summary { total, gainers, losers, top_gainer: None, top_loser: None }
    } else {
        let top_gainer = TopStock {
            symbol: quotes[best].symbol.clone(),
            change_pct: quotes[best].change_pct,
        };
        let top_loser = TopStock {
            symbol: quotes[worst].symbol.clone(),
            change_pct: quotes[worst].change_pct,
        };
        assert(is_top_gainer(quotes@, best as int) && names(top_gainer, quotes@, best as int));
        assert(is_top_loser(quotes@, worst as int) && names(top_loser, quotes@, worst as int));
        Summary { total, gainers, losers, top_gainer: Some(top_gainer), top_loser: Some(top_loser) }
    }
}

/// No list has two top gainers, nor two top losers.
pub proof fn lemma_top_is_unique(quotes: Seq<StockQuote>, first: int, second: int)
    ensures
        is_top_gainer(quotes, first) && is_top_gainer(quotes, second) ==> first == second,
        is_top_loser(quotes, first) && is_top_loser(quotes, second) ==> first == second,
{
    if is_top_gainer(quotes, first) && is_top_gainer(quotes, second) {
        if first < second {
            assert(change_of(quotes[second]) < change_of(quotes[first]));
            assert(change_of(quotes[first]) <= change_of(quotes[second]));
        } else if second < first {
            assert(change_of(quotes[first]) < change_of(quotes[second]));
            assert(change_of(quotes[second]) <= change_of(quotes[first]));
        }
    }
    if is_top_loser(quotes, first) && is_top_loser(quotes, second) {
        if first < second {
            assert(change_of(quotes[first]) > change_of(quotes[second]));
            assert(change_of(quotes[second]) >= change_of(quotes[first]));
        } else if second < first {
            assert(change_of(quotes[second]) > change_of(quotes[first]));
            assert(change_of(quotes[first]) >= change_of(quotes[second]));
        }
    }
}

} // verus!
