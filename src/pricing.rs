//! Prices for callers: one ticker through the price cache, and the refresh
//! of many tickers, which tolerates the failure of any of them.
use crate::cache::TtlCache;
use crate::money::Money;
use crate::quote::{provider_named, route_quote, MarketError, PriceQuote, Provider, QuoteRequest};
use vstd::prelude::*;

verus! {

/// The request that `route_quote` makes for a ticker with this catalog
/// record, or `None` where the record names an unsupported provider.
pub open spec fn routed(
    ticker: Seq<char>,
    provider_symbol: Option<String>,
    provider_id: Option<String>,
) -> Option<(Provider, Seq<char>)> {
    match provider_id {
        None => Some((Provider::EquityQuote, ticker)),
        Some(id) => match provider_named(id@) {
            Some(p) => Some(
                (
                    p,
                    match provider_symbol {
                        Some(s) => s@,
                        None => ticker,
                    },
                ),
            ),
            None => None,
        },
    }
}

/// The current price of a ticker: the cached one where there is one, else
/// the price that the ticker's configured provider quotes (`fetch` makes
/// that one upstream call), stored only if it was had. An unsupported
/// provider fails without any call, and nothing is stored. Every failure is
/// either that one or the fetch's own, passed on unchanged: there is no
/// fallback to another provider.
pub fn get_price<F>(
    prices: &mut TtlCache,
    ticker: &str,
    provider_symbol: Option<String>,
    provider_id: Option<String>,
    fetch: F,
) -> (r: Result<Money, MarketError>)
    where
        F: FnOnce(&QuoteRequest) -> Result<PriceQuote, MarketError>,
    requires
        forall|q: &QuoteRequest| fetch.requires((q,)),
    ensures
        r matches Ok(v) ==> final(prices)@ == old(prices)@.insert(ticker@, v),
        r is Err ==> final(prices)@ == old(prices)@,
        r matches Ok(v) ==> (old(prices)@.contains_key(ticker@) && old(prices)@[ticker@] == v)
            || exists|q: &QuoteRequest, quote: PriceQuote|
            {
                &&& routed(ticker@, provider_symbol, provider_id) == Some((q.provider, q.symbol@))
                &&& fetch.ensures((q,), Ok::<PriceQuote, MarketError>(quote))
                &&& quote.price == v
            },
        r matches Err(e) ==> (routed(ticker@, provider_symbol, provider_id) is None
            && e is UnsupportedProvider) || exists|q: &QuoteRequest|
            {
                &&& routed(ticker@, provider_symbol, provider_id) == Some((q.provider, q.symbol@))
                &&& fetch.ensures((q,), Err::<PriceQuote, MarketError>(e))
            },
        routed(ticker@, provider_symbol, provider_id) is None ==> (r matches Err(
            MarketError::UnsupportedProvider { .. },
        ) || (r matches Ok(v) && old(prices)@.contains_key(ticker@) && old(prices)@[ticker@] == v)),
{
    if let Some(v) = prices.lookup(ticker) {
        proof {
            assert(old(prices)@.insert(ticker@, v) =~= old(prices)@);
        }
        return Ok(v);
    }
    let request = match route_quote(ticker, provider_symbol, provider_id) {
        Ok(q) => q,
        Err(e) => return Err(e),
    };
    let fetched = match fetch(&request) {
        Ok(quote) => {
            let price = quote.price;
            proof {
                assert(fetch.ensures((&request,), Ok::<PriceQuote, MarketError>(quote)));
            }
            Ok(price)
        },
        Err(e) => {
            proof {
                assert(fetch.ensures((&request,), Err::<PriceQuote, MarketError>(e)));
            }
            Err(e)
        },
    };
    prices.complete(ticker, fetched)
}

/// Some entry of `r` is the ticker `t`.
pub open spec fn lists(r: Seq<String>, t: Seq<char>) -> bool {
    exists|k: int| 0 <= k < r.len() && r[k]@ == t
}

/// `r` holds the tickers of `tickers`, each once.
pub open spec fn is_distinct_listing(r: Seq<String>, tickers: Seq<String>) -> bool {
    &&& forall|i: int, j: int| 0 <= i < j < r.len() ==> r[i]@ != r[j]@
    &&& forall|i: int| 0 <= i < tickers.len() ==> lists(r, #[trigger] tickers[i]@)
    &&& forall|k: int| 0 <= k < r.len() ==> lists(tickers, #[trigger] r[k]@)
}

/// Whether the list holds the ticker.
fn contains_ticker(list: &Vec<String>, t: &String) -> (r: bool)
    ensures
        r == lists(list@, t@),
{
    let mut j: usize = 0;
    while j < list.len()
        invariant
            j <= list@.len(),
            forall|k: int| 0 <= k < j ==> list@[k]@ != t@,
        decreases list@.len() - j,
    {
        if list[j] == *t {
            return true;
        }
        j = j + 1;
    }
    false
}

/// Each ticker of the list once.
pub fn distinct_tickers(tickers: &Vec<String>) -> (r: Vec<String>)
    ensures
        is_distinct_listing(r@, tickers@),
{
    let mut out: Vec<String> = Vec::new();
    let n = tickers.len();
    let mut i: usize = 0;
    while i < n
        invariant
            n == tickers@.len(),
            i <= n,
            forall|a: int, b: int| 0 <= a < b < out@.len() ==> out@[a]@ != out@[b]@,
            forall|a: int| 0 <= a < i ==> lists(out@, #[trigger] tickers@[a]@),
            forall|k: int| 0 <= k < out@.len() ==> lists(tickers@, #[trigger] out@[k]@),
        decreases n - i,
    {
        let t = &tickers[i];
        if !contains_ticker(&out, t) {
            let ghost before = out@;
            out.push(t.clone());
            proof {
                assert(out@[before.len() as int] == *t);
                assert forall|a: int| 0 <= a < i + 1 implies lists(out@, #[trigger] tickers@[a]@) by {
                    if a < i {
                        let k = choose|k: int| 0 <= k < before.len() && before[k]@ == tickers@[a]@;
                        assert(out@[k] == before[k]);
                    } else {
                        assert(out@[before.len() as int]@ == tickers@[a]@);
                    }
                }
                assert forall|k: int| 0 <= k < out@.len() implies lists(tickers@, #[trigger] out@[k]@) by {
                    if k < before.len() {
                        assert(out@[k] == before[k]);
                    } else {
                        assert(tickers@[i as int]@ == out@[k]@);
                    }
                }
            }
        } else {
            proof {
                assert forall|a: int| 0 <= a < i + 1 implies lists(out@, #[trigger] tickers@[a]@) by {
                }
            }
        }
        i = i + 1;
    }
    out
}

/// The tickers whose refresh failed, in order.
pub open spec fn failed_tickers(
    tickers: Seq<String>,
    outcomes: Seq<Result<Money, MarketError>>,
) -> Seq<Seq<char>>
    decreases tickers.len(),
{
    if tickers.len() == 0 || outcomes.len() != tickers.len() {
        Seq::empty()
    } else {
        let rest = failed_tickers(tickers.drop_last(), outcomes.drop_last());
        if outcomes.last() is Err {
            rest.push(tickers.last()@)
        } else {
            rest
        }
    }
}

/// The result of a refresh: how many tickers were attempted, and which of
/// them failed.
pub struct RefreshReport {
    pub attempted: usize,
    pub failed: Vec<String>,
}

/// The report of a refresh of `tickers` whose attempts ended in `outcomes`
/// (one for each ticker, in order). Every ticker counts as attempted,
/// whether it succeeded or failed; failures are listed, never raised.
pub fn summarize_refresh(tickers: &Vec<String>, outcomes: &Vec<Result<Money, MarketError>>) -> (r:
    RefreshReport)
    requires
        tickers@.len() == outcomes@.len(),
    ensures
        r.attempted == tickers@.len(),
        r.failed@.len() == failed_tickers(tickers@, outcomes@).len(),
        forall|k: int|
            0 <= k < r.failed@.len() ==> #[trigger] r.failed@[k]@ == failed_tickers(
                tickers@,
                outcomes@,
            )[k],
{
    let mut failed: Vec<String> = Vec::new();
    let n = tickers.len();
    let mut i: usize = 0;
    while i < n
        invariant
            n == tickers@.len(),
            n == outcomes@.len(),
            i <= n,
            failed@.len() == failed_tickers(tickers@.take(i as int), outcomes@.take(i as int)).len(),
            forall|k: int|
                0 <= k < failed@.len() ==> #[trigger] failed@[k]@ == failed_tickers(
                    tickers@.take(i as int),
                    outcomes@.take(i as int),
                )[k],
        decreases n - i,
    {
        proof {
            assert(tickers@.take(i + 1).drop_last() =~= tickers@.take(i as int));
            assert(outcomes@.take(i + 1).drop_last() =~= outcomes@.take(i as int));
            assert(tickers@.take(i + 1).last() == tickers@[i as int]);
            assert(outcomes@.take(i + 1).last() == outcomes@[i as int]);
        }
        if outcomes[i].is_err() {
            failed.push(tickers[i].clone());
        }
        i = i + 1;
    }
    proof {
        assert(tickers@.take(n as int) =~= tickers@);
        assert(outcomes@.take(n as int) =~= outcomes@);
    }
    RefreshReport { attempted: n, failed }
}

} // verus!
