//! Quotes as the quote service gives them, and what decides whether a
//! reply is one.

use crate::errors::ScannerError;
use crate::figure::Figure;
use crate::text::joined;
use vstd::prelude::*;

verus! {

/// One reply of the quote service.
#[derive(Debug, Clone, Copy)]
pub struct Quote {
    /// The current price.
    pub c: Figure,
    /// The previous close.
    pub pc: Figure,
    /// The high of the day.
    pub h: Figure,
    /// The low of the day.
    pub l: Figure,
    /// The open of the day.
    pub o: Figure,
}

/// A quote under its symbol, with the change since the previous close.
#[derive(Debug, Clone)]
pub struct StockQuote {
    pub symbol: String,
    pub price: Figure,
    pub prev_close: Figure,
    pub change_pct: Figure,
    pub high: Figure,
    pub low: Figure,
    pub open: Figure,
}

impl Quote {
    /// Whether the reply holds data. The service answers an unknown symbol
    /// with a price and a previous close of zero.
    pub open spec fn spec_has_data(&self) -> bool {
        !(self.c.is_zero() && self.pc.is_zero())
    }

    /// Whether the reply holds data.
    #[verifier::when_used_as_spec(spec_has_data)]
    pub fn has_data(&self) -> (present: bool)
        ensures
            present == self.spec_has_data(),
    {
        !(self.c.is_zero() && self.pc.is_zero())
    }
}

impl StockQuote {
    /// The quote for `symbol`. `relative_change` is the change from the
    /// previous close to the price, in percent of the previous close; it is
    /// taken where the previous close is not zero, and the change is zero
    /// where it is.
    pub fn from_quote(symbol: String, quote: Quote, relative_change: Figure) -> (out: StockQuote)
        ensures
            out.symbol == symbol,
            out.price == quote.c,
            out.prev_close == quote.pc,
            out.high == quote.h,
            out.low == quote.l,
            out.open == quote.o,
            out.change_pct == if quote.pc.is_zero() {
                (Figure { bits: 0 })
            } else {
                relative_change
            },
    {
        let change_pct = if quote.pc.is_zero() {
            Figure::zero()
        } else {
            relative_change
        };
        StockQuote {
            symbol,
            price: quote.c,
            prev_close: quote.pc,
            change_pct,
            high: quote.h,
            low: quote.l,
            open: quote.o,
        }
    }
}

/// The address that answers with the quote of `symbol`.
pub open spec fn quote_url_text(symbol: Seq<char>, api_key: Seq<char>) -> Seq<char> {
    "https://finnhub.io/api/v1/quote?symbol="@ + symbol + "&token="@ + api_key
}

/// The address to ask for the quote of `symbol`.
pub fn quote_url(symbol: &str, api_key: &str) -> (url: String)
    ensures
        url@ == quote_url_text(symbol@, api_key@),
{
    let mut url = joined("https://finnhub.io/api/v1/quote?symbol=", symbol);
    url.append("&token=");
    url.append(api_key);
    url
}

/// Whether a status code reports success: one from 200 to 299.
pub open spec fn is_success(status: u16) -> bool {
    200 <= status < 300
}

/// Accepts a reply by its status. A status outside 200 to 299 is an API
/// error that reads the status as the service wrote it, then the symbol.
pub fn check_status(status: u16, status_text: &str, symbol: &str) -> (checked: Result<
    (),
    ScannerError,
>)
    ensures
        is_success(status) ==> checked is Ok,
        !is_success(status) ==> (checked matches Err(ScannerError::Api(msg)) && msg@ == "HTTP "@
            + status_text@ + ": "@ + symbol@),
{
    if 200 <= status && status < 300 {
        Ok(())
    } else {
        let mut msg = joined("HTTP ", status_text);
        msg.append(": ");
        msg.append(symbol);
        Err(ScannerError::Api(msg))
    }
}

/// Accepts a reply by its content. One without data is an API error that
/// names the symbol.
pub fn check_quote(quote: Quote, symbol: &str) -> (checked: Result<Quote, ScannerError>)
    ensures
        quote.has_data() ==> checked == Ok::<Quote, ScannerError>(quote),
        !quote.has_data() ==> (checked matches Err(ScannerError::Api(msg)) && msg@
            == "No data for "@ + symbol@),
{
    if quote.has_data() {
        Ok(quote)
    } else {
        Err(ScannerError::Api(joined("No data for ", symbol)))
    }
}

} // verus!
