//! Pure helpers around the Polygon market-data API: turning an interval code
//! into the API's granularity pair, shaping a currency pair into the API's
//! ticker convention, and assembling the candles request URL.

use vstd::prelude::*;
use crate::text::{
    str_eq, upper_of, uppercase, push_char, dec_str, int_str, u64_to_dec_string,
    i32_to_dec_string,
};

verus! {

pub const MINUTE_MS: u64 = 60000;

pub const HOUR_MS: u64 = 3600000;

pub const DAY_MS: u64 = 86400000;

/// A candle bucket width as the API expects it: a time unit and a multiplier.
pub struct Granularity {
    pub period: String,
    pub multiplier: i32,
}

/// The time unit for an interval code: the six recognized codes map to their
/// documented unit, anything else falls back to one day.
pub open spec fn spec_granularity_period(s: Seq<char>) -> Seq<char> {
    if s == "1m"@ || s == "5m"@ || s == "15m"@ || s == "30m"@ {
        "minute"@
    } else if s == "1h"@ {
        "hour"@
    } else {
        "day"@
    }
}

/// The multiplier for an interval code, 1 for anything unrecognized.
pub open spec fn spec_granularity_multiplier(s: Seq<char>) -> int {
    if s == "1m"@ {
        1
    } else if s == "5m"@ {
        5
    } else if s == "15m"@ {
        15
    } else if s == "30m"@ {
        30
    } else {
        1
    }
}

/// Maps a short interval code onto the granularity the API expects. Total:
/// the six recognized codes give their documented pair, every other string
/// gives the one-day default.
pub fn granularity_converter(granularity: &str) -> (g: Granularity)
    ensures
        g.period@ == spec_granularity_period(granularity@),
        g.multiplier as int == spec_granularity_multiplier(granularity@),
{
    if str_eq(granularity, "1m") {
        Granularity { period: "minute".to_owned(), multiplier: 1 }
    } else if str_eq(granularity, "5m") {
        Granularity { period: "minute".to_owned(), multiplier: 5 }
    } else if str_eq(granularity, "15m") {
        Granularity { period: "minute".to_owned(), multiplier: 15 }
    } else if str_eq(granularity, "30m") {
        Granularity { period: "minute".to_owned(), multiplier: 30 }
    } else if str_eq(granularity, "1h") {
        Granularity { period: "hour".to_owned(), multiplier: 1 }
    } else if str_eq(granularity, "1d") {
        Granularity { period: "day".to_owned(), multiplier: 1 }
    } else {
        Granularity { period: "day".to_owned(), multiplier: 1 }
    }
}

/// A market pair with its hyphens removed, the characters kept in order.
pub open spec fn strip_hyphens(s: Seq<char>) -> Seq<char>
    decreases s.len(),
{
    if s.len() == 0 {
        Seq::empty()
    } else if s.last() == '-' {
        strip_hyphens(s.drop_last())
    } else {
        strip_hyphens(s.drop_last()).push(s.last())
    }
}

/// A market pair with its hyphens removed and the rest upper-cased.
pub open spec fn normalized_pair(s: Seq<char>) -> Seq<char> {
    upper_of(strip_hyphens(s))
}

/// The ticker the API expects for a currency pair: the normalized pair behind
/// the fixed "X:" marker.
pub open spec fn spec_currency_ticker(s: Seq<char>) -> Seq<char> {
    "X:"@ + normalized_pair(s)
}

/// Removes every hyphen from the pair, keeping the other characters in order.
pub fn strip_hyphens_from_pair(pair: &str) -> (r: String)
    ensures
        r@ == strip_hyphens(pair@),
{
    let mut out = String::new();
    let n = pair.unicode_len();
    proof {
        assert(pair@.subrange(0, 0) =~= Seq::<char>::empty());
    }
    let mut i: usize = 0;
    while i < n
        invariant
            n == pair@.len(),
            0 <= i <= n,
            out@ == strip_hyphens(pair@.subrange(0, i as int)),
        decreases n - i,
    {
        let c = pair.get_char(i);
        if c != '-' {
            push_char(&mut out, c);
        }
        i += 1;
        proof {
            let longer = pair@.subrange(0, i as int);
            assert(longer.drop_last() =~= pair@.subrange(0, i - 1));
            assert(longer.last() == pair@[i - 1]);
        }
    }
    proof {
        assert(pair@.subrange(0, n as int) =~= pair@);
    }
    out
}

/// Strips hyphens from the pair, upper-cases it, and prefixes the "X:" marker.
pub fn format_currency_ticker_for_polygon(currency: &str) -> (r: String)
    ensures
        r@ == spec_currency_ticker(currency@),
{
    let stripped = strip_hyphens_from_pair(currency);
    let upped = uppercase(stripped.as_str());
    let mut out = "X:".to_owned();
    out.append(upped.as_str());
    out
}

/// The aggregates (candles) request URL for a ticker, a granularity, a
/// millisecond time window and a candle limit.
pub open spec fn spec_candles_url(
    ticker: Seq<char>,
    multiplier: int,
    period: Seq<char>,
    from_ms: nat,
    to_ms: nat,
    limit: int,
) -> Seq<char> {
    "https://api.polygon.io/v2/aggs/ticker/"@ + ticker + "/range/"@ + int_str(multiplier)
        + "/"@ + period + "/"@ + dec_str(from_ms) + "/"@ + dec_str(to_ms)
        + "?adjusted=true&sort=asc&limit="@ + int_str(limit)
}

/// Assembles the candles request URL exactly as the API expects it.
pub fn format_candles_url(
    ticker: &str,
    multiplier: i32,
    period: &str,
    from_ms: u64,
    to_ms: u64,
    limit: i32,
) -> (r: String)
    ensures
        r@ == spec_candles_url(
            ticker@,
            multiplier as int,
            period@,
            from_ms as nat,
            to_ms as nat,
            limit as int,
        ),
{
    let mut url = "https://api.polygon.io/v2/aggs/ticker/".to_owned();
    url.append(ticker);
    url.append("/range/");
    let mult = i32_to_dec_string(multiplier);
    url.append(mult.as_str());
    url.append("/");
    url.append(period);
    url.append("/");
    let from_digits = u64_to_dec_string(from_ms);
    url.append(from_digits.as_str());
    url.append("/");
    let to_digits = u64_to_dec_string(to_ms);
    url.append(to_digits.as_str());
    url.append("?adjusted=true&sort=asc&limit=");
    let limit_digits = i32_to_dec_string(limit);
    url.append(limit_digits.as_str());
    proof {
        assert(url@ =~= spec_candles_url(
            ticker@,
            multiplier as int,
            period@,
            from_ms as nat,
            to_ms as nat,
            limit as int,
        ));
    }
    url
}

proof fn lemma_strip_hyphens_hyphen_free(s: Seq<char>)
    requires
        forall|i: int| 0 <= i < s.len() ==> s[i] != '-',
    ensures
        strip_hyphens(s) == s,
    decreases s.len(),
{
    if s.len() == 0 {
        assert(strip_hyphens(s) =~= s);
    } else {
        lemma_strip_hyphens_hyphen_free(s.drop_last());
        assert(s[s.len() - 1] == s.last());
        assert(strip_hyphens(s) =~= s);
    }
}

/// Law: a pair whose hyphens are already gone is only upper-cased by
/// normalizing, and one that is also already upper-case is left exactly as it
/// is.
pub proof fn lemma_normalized_pair_fixed(s: Seq<char>)
    requires
        forall|i: int| 0 <= i < s.len() ==> s[i] != '-',
    ensures
        normalized_pair(s) == upper_of(s),
        upper_of(s) == s ==> normalized_pair(s) == s,
{
    lemma_strip_hyphens_hyphen_free(s);
}

/// The start of the candle window: thirty days before its end.
pub fn candle_range_start(to_ms: u64) -> (r: u64)
    requires
        to_ms >= 30 * DAY_MS,
    ensures
        r == to_ms - 30 * DAY_MS,
{
    to_ms - 30 * DAY_MS
}

} // verus!
