//! The parameters of one quote request, and what makes them well formed.

use crate::market::Market;
use crate::url::{build_stooq_url, historical_url, latest_url, stooq_url};
use vstd::prelude::*;
use vstd::string::*;

verus! {

/// Whether `c` is one of the digits `0` to `9`.
pub open spec fn is_digit(c: char) -> bool {
    '0' <= c <= '9'
}

/// Whether `s` has the shape of a date, YYYYMMDD: eight digits and nothing
/// else. The shape is all that is asked: the digits need not name a day of
/// the calendar.
pub open spec fn is_date(s: Seq<char>) -> bool {
    &&& s.len() == 8
    &&& forall|i: int| 0 <= i < 8 ==> is_digit(#[trigger] s[i])
}

/// Tells whether `s` has the shape of a date.
pub fn is_valid_date(s: &str) -> (ok: bool)
    ensures
        ok == is_date(s@),
{
    if s.unicode_len() != 8 {
        return false;
    }
    let mut i: usize = 0;
    while i < 8
        invariant
            i <= 8,
            s@.len() == 8,
            forall|j: int| 0 <= j < i ==> is_digit(#[trigger] s@[j]),
        decreases 8 - i,
    {
        let c = s.get_char(i);
        if !('0' <= c && c <= '9') {
            assert(!is_digit(s@[i as int]));
            return false;
        }
        i += 1;
    }
    true
}

/// The parameters of one quote request.
#[derive(Debug)]
pub struct StockParams {
    /// The ticker, as stooq.com spells it.
    pub ticker: String,
    /// The market on which the ticker is listed.
    pub market: Market,
    /// First day of the range, YYYYMMDD.
    pub start_date: Option<String>,
    /// Last day of the range, YYYYMMDD.
    pub end_date: Option<String>,
}

/// A request as a value of mathematics: what [`StockParams`] stands for.
pub struct StockParamsView {
    pub ticker: Seq<char>,
    pub market: Market,
    pub start_date: Option<Seq<char>>,
    pub end_date: Option<Seq<char>>,
}

impl View for StockParams {
    type V = StockParamsView;

    open spec fn view(&self) -> StockParamsView {
        StockParamsView {
            ticker: self.ticker@,
            market: self.market,
            start_date: self.start_date.deep_view(),
            end_date: self.end_date.deep_view(),
        }
    }
}

impl StockParamsView {
    /// The ticker is not empty, and each date that is given has the shape of
    /// a date. Nothing is asked of the two dates together: the first may
    /// come after the second.
    pub open spec fn well_formed(self) -> bool {
        &&& self.ticker.len() > 0
        &&& self.start_date matches Some(start) ==> is_date(start)
        &&& self.end_date matches Some(end) ==> is_date(end)
    }

    /// Whether the request asks for a range of days: both dates are given.
    pub open spec fn is_historical(self) -> bool {
        self.start_date is Some && self.end_date is Some
    }

    /// The URL that answers the request.
    pub open spec fn url(self) -> Seq<char> {
        stooq_url(self.ticker, self.market, self.start_date, self.end_date)
    }
}

impl StockParams {
    /// Tells whether the parameters are well formed.
    pub fn is_well_formed(&self) -> (ok: bool)
        ensures
            ok == self@.well_formed(),
    {
        if self.ticker.as_str().unicode_len() == 0 {
            return false;
        }
        let start_ok = match &self.start_date {
            Some(start) => is_valid_date(start.as_str()),
            None => true,
        };
        let end_ok = match &self.end_date {
            Some(end) => is_valid_date(end.as_str()),
            None => true,
        };
        start_ok && end_ok
    }

    /// Builds the URL that answers this request. The parameters need not be
    /// well formed: what they hold goes into the URL as it is.
    pub fn request_url(&self) -> (url: String)
        ensures
            url@ == self@.url(),
    {
        let start = match &self.start_date {
            Some(start) => Some(start.as_str()),
            None => None,
        };
        let end = match &self.end_date {
            Some(end) => Some(end.as_str()),
            None => None,
        };
        build_stooq_url(self.ticker.as_str(), &self.market, start, end)
    }
}

/// A request that is not for a range is answered by the latest quote, and
/// one for a range by the daily series between its two dates.
pub proof fn url_follows_the_dates(query: StockParamsView)
    ensures
        !query.is_historical() ==> query.url() == latest_url(query.ticker, query.market),
        query.is_historical() ==> query.url() == historical_url(
            query.ticker,
            query.market,
            query.start_date.unwrap(),
            query.end_date.unwrap(),
        ),
{
}

} // verus!
