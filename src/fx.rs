//! Exchange rates: a rate between a currency and itself is one by
//! definition; any other comes from a single FX service, through the rate
//! cache.
use crate::cache::TtlCache;
use crate::money::Money;
use crate::quote::{is_success, status_ok, FailureCause, Fetched, MarketError};
use vstd::prelude::*;

verus! {

/// One rate of the FX service's payload, where it is a decimal.
pub struct RateEntry {
    pub currency: String,
    pub rate: Option<Money>,
}

/// The key under which the rate from `from` to `to` is cached.
pub open spec fn rate_key_of(from: Seq<char>, to: Seq<char>) -> Seq<char> {
    from + "->"@ + to
}

/// The address of the FX service's rate from `from` to `to`.
pub open spec fn rate_url_of(from: Seq<char>, to: Seq<char>) -> Seq<char> {
    "https://api.frankfurter.app/latest?from="@ + from + "&to="@ + to
}

/// The rate listed first for `currency`: `None` where none is listed,
/// `Some(None)` where it is not a decimal.
pub open spec fn listed_rate(entries: Seq<RateEntry>, currency: Seq<char>) -> Option<Option<Money>>
    decreases entries.len(),
{
    if entries.len() == 0 {
        None
    } else if entries[0].currency@ == currency {
        Some(entries[0].rate)
    } else {
        listed_rate(entries.drop_first(), currency)
    }
}

/// What the FX service's answer says about the rate into `to`: `None`
/// where it holds one, else why it does not.
pub open spec fn rate_failure(fetched: Fetched<Vec<RateEntry>>, to: Seq<char>) -> Option<FailureCause> {
    match fetched {
        Fetched::Unreachable => Some(FailureCause::Unreachable),
        Fetched::Received { status, payload } => if !is_success(status) {
            Some(FailureCause::HttpStatus { status })
        } else {
            match payload {
                None => Some(FailureCause::MalformedPayload),
                Some(entries) => match listed_rate(entries@, to) {
                    None => Some(FailureCause::NoData),
                    Some(None) => Some(FailureCause::UnparsableNumber),
                    Some(Some(m)) => if m@.0 > 0 {
                        None
                    } else {
                        Some(FailureCause::NotPositive)
                    },
                },
            }
        },
    }
}

/// `r` is the failure to get the rate from `from` to `to` for `cause`.
pub open spec fn is_rate_failure(
    r: Result<Money, MarketError>,
    from: Seq<char>,
    to: Seq<char>,
    cause: FailureCause,
) -> bool {
    r matches Err(MarketError::RateUnavailable { from: f, to: t, cause: c }) && f@ == from && t@
        == to && c == cause
}

/// The key under which the rate from `from` to `to` is cached.
pub fn rate_key(from: &str, to: &str) -> (r: String)
    ensures
        r@ == rate_key_of(from@, to@),
{
    let mut key = from.to_owned();
    key.append("->");
    key.append(to);
    key
}

/// The address to fetch the rate from `from` to `to`.
pub fn rate_url(from: &str, to: &str) -> (r: String)
    ensures
        r@ == rate_url_of(from@, to@),
{
    let mut url = "https://api.frankfurter.app/latest?from=".to_owned();
    url.append(from);
    url.append("&to=");
    url.append(to);
    url
}

fn find_rate(entries: &Vec<RateEntry>, currency: &str) -> (r: Option<Option<Money>>)
    ensures
        r == listed_rate(entries@, currency@),
{
    let wanted = currency.to_owned();
    let mut i: usize = 0;
    let n = entries.len();
    assert(entries@.subrange(0, n as int) =~= entries@);
    while i < n
        invariant
            n == entries@.len(),
            i <= n,
            wanted@ == currency@,
            listed_rate(entries@.subrange(i as int, n as int), currency@) == listed_rate(
                entries@,
                currency@,
            ),
        decreases n - i,
    {
        assert(entries@.subrange(i as int, n as int).drop_first() =~= entries@.subrange(
            i + 1,
            n as int,
        ));
        if entries[i].currency == wanted {
            return Some(entries[i].rate);
        }
        i = i + 1;
    }
    None
}

fn rate_failed(from: &str, to: &str, cause: FailureCause) -> (r: Result<Money, MarketError>)
    ensures
        is_rate_failure(r, from@, to@, cause),
{
    Err(MarketError::RateUnavailable { from: from.to_owned(), to: to.to_owned(), cause })
}

/// The rate from `from` into `to` in an answer of the FX service. A missing
/// rate for `to` is a failure, not a default, and so is one that is not a
/// positive multiplier.
pub fn rate_from_reply(from: &str, to: &str, fetched: Fetched<Vec<RateEntry>>) -> (r: Result<
    Money,
    MarketError,
>)
    ensures
        rate_failure(fetched, to@) matches Some(c) ==> is_rate_failure(r, from@, to@, c),
        rate_failure(fetched, to@) is None ==> (r matches Ok(m) && Some(Some(m)) == listed_rate(
            fetched->Received_payload->Some_0@,
            to@,
        )),
        r matches Ok(m) ==> m@.0 > 0,
{
    let (status, payload) = match fetched {
        Fetched::Unreachable => return rate_failed(from, to, FailureCause::Unreachable),
        Fetched::Received { status, payload } => (status, payload),
    };
    if !status_ok(status) {
        return rate_failed(from, to, FailureCause::HttpStatus { status });
    }
    let entries = match payload {
        None => return rate_failed(from, to, FailureCause::MalformedPayload),
        Some(p) => p,
    };
    match find_rate(&entries, to) {
        None => rate_failed(from, to, FailureCause::NoData),
        Some(None) => rate_failed(from, to, FailureCause::UnparsableNumber),
        Some(Some(rate)) => if rate.is_positive() {
            Ok(rate)
        } else {
            rate_failed(from, to, FailureCause::NotPositive)
        },
    }
}

/// Whether converting from `from` into `to` needs a rate from the FX
/// service: not when the two are the same currency.
pub fn needs_rate(from: &str, to: &str) -> (r: bool)
    ensures
        r == (from@ != to@),
{
    from.to_owned() != to.to_owned()
}

/// The rate converting `from` into `to`: one, with no fetch, when the two
/// are the same currency; else the cached rate, or what `fetch` (one call
/// to the FX service) returns, stored only if it succeeded.
pub fn get_rate<F>(rates: &mut TtlCache, from: &str, to: &str, fetch: F) -> (r: Result<
    Money,
    MarketError,
>)
    where
        F: FnOnce() -> Result<Money, MarketError>,
    requires
        from@ != to@ ==> fetch.requires(()),
    ensures
        from@ == to@ ==> (r matches Ok(m) && m@ == (1int, 0nat) && final(rates)@ == old(rates)@),
        from@ != to@ ==> {
            &&& r matches Ok(v) ==> final(rates)@ == old(rates)@.insert(rate_key_of(from@, to@), v)
            &&& r is Err ==> final(rates)@ == old(rates)@ && fetch.ensures((), r)
            &&& r matches Ok(v) ==> (old(rates)@.contains_key(rate_key_of(from@, to@)) && old(
                rates,
            )@[rate_key_of(from@, to@)] == v) || fetch.ensures((), r)
        },
{
    if !needs_rate(from, to) {
        return Ok(Money::one());
    }
    let key = rate_key(from, to);
    rates.get_or_fetch(key.as_str(), fetch)
}

} // verus!
