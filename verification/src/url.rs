//! The two forms of quote URL that stooq.com serves, and the choice between
//! them.
//!
//! A symbol is a ticker, a dot and a market code. A quote is asked for either
//! as the latest snapshot or as a daily series between two dates. The ticker
//! and the dates go into the URL as they are: nothing is escaped, trimmed or
//! checked here.

use crate::market::Market;
use vstd::prelude::*;
use vstd::string::*;

verus! {

/// The symbol under which stooq.com lists `ticker` on `market`.
pub open spec fn symbol(ticker: Seq<char>, market: Market) -> Seq<char> {
    ticker + "."@ + market.code()
}

/// The URL of the latest quote, as CSV with a header line.
pub open spec fn latest_url(ticker: Seq<char>, market: Market) -> Seq<char> {
    "https://stooq.com/q/l/?s="@ + symbol(ticker, market) + "&f=sd2t2ohlcv&h&e=csv"@
}

/// The URL of the daily quotes from `start` to `end`.
pub open spec fn historical_url(
    ticker: Seq<char>,
    market: Market,
    start: Seq<char>,
    end: Seq<char>,
) -> Seq<char> {
    "https://stooq.com/q/d/l/?s="@ + symbol(ticker, market) + "&d1="@ + start + "&d2="@ + end
        + "&i=d"@
}

/// The URL for a request: the daily series where both dates are given, the
/// latest quote in every other case. A date given alone asks for no range.
pub open spec fn stooq_url(
    ticker: Seq<char>,
    market: Market,
    start: Option<Seq<char>>,
    end: Option<Seq<char>>,
) -> Seq<char> {
    match (start, end) {
        (Some(start), Some(end)) => historical_url(ticker, market, start, end),
        _ => latest_url(ticker, market),
    }
}

/// Builds the stooq.com URL for `ticker` on `market`.
pub fn build_stooq_url(
    ticker: &str,
    market: &Market,
    start_date: Option<&str>,
    end_date: Option<&str>,
) -> (url: String)
    ensures
        url@ == stooq_url(ticker@, *market, start_date.deep_view(), end_date.deep_view()),
        start_date is Some && end_date is Some ==> url@ == historical_url(
            ticker@,
            *market,
            start_date.unwrap()@,
            end_date.unwrap()@,
        ),
        start_date is None || end_date is None ==> url@ == latest_url(ticker@, *market),
{
    let market_str = market.as_str();
    match (start_date, end_date) {
        (Some(start), Some(end)) => {
            let mut url = String::from_str("https://stooq.com/q/d/l/?s=");
            url.append(ticker);
            url.append(".");
            url.append(market_str);
            url.append("&d1=");
            url.append(start);
            url.append("&d2=");
            url.append(end);
            url.append("&i=d");
            assert(url@ =~= historical_url(ticker@, *market, start@, end@));
            url
        },
        _ => {
            let mut url = String::from_str("https://stooq.com/q/l/?s=");
            url.append(ticker);
            url.append(".");
            url.append(market_str);
            url.append("&f=sd2t2ohlcv&h&e=csv");
            assert(url@ =~= latest_url(ticker@, *market));
            url
        },
    }
}

/// With no date given, the URL is the latest-quote form, whatever the ticker
/// and the market.
pub proof fn no_dates_give_latest(ticker: Seq<char>, market: Market)
    ensures
        stooq_url(ticker, market, None, None) == "https://stooq.com/q/l/?s="@ + ticker + "."@
            + market.code() + "&f=sd2t2ohlcv&h&e=csv"@,
{
    assert(stooq_url(ticker, market, None, None) =~= "https://stooq.com/q/l/?s="@ + ticker + "."@
        + market.code() + "&f=sd2t2ohlcv&h&e=csv"@);
}

/// A date given alone is ignored: the URL is the one that no date gives.
pub proof fn lone_date_is_ignored(ticker: Seq<char>, market: Market, date: Seq<char>)
    ensures
        stooq_url(ticker, market, Some(date), None) == stooq_url(ticker, market, None, None),
        stooq_url(ticker, market, None, Some(date)) == stooq_url(ticker, market, None, None),
{
}

/// The two forms never coincide, so the URL tells which form was asked for.
pub proof fn forms_differ(
    ticker: Seq<char>,
    market: Market,
    start: Seq<char>,
    end: Seq<char>,
    other_ticker: Seq<char>,
    other_market: Market,
)
    ensures
        historical_url(ticker, market, start, end) != latest_url(other_ticker, other_market),
{
    reveal_strlit("https://stooq.com/q/d/l/?s=");
    reveal_strlit("https://stooq.com/q/l/?s=");
    let historical = historical_url(ticker, market, start, end);
    let latest = latest_url(other_ticker, other_market);
    assert(historical[20] == 'd');
    assert(latest[20] == 'l');
}

} // verus!
