//! Quote providers: which upstream answers for an asset, what is asked of
//! it, and how its decoded reply becomes a price or a typed failure.
//!
//! The network call and the JSON decoding happen outside; each adapter here
//! takes what came back (no answer at all, or an HTTP status and the payload
//! if it could be decoded) and decides. An adapter never retries and never
//! falls back to another provider.
use crate::money::{decimal_parse, Money};
use crate::valuation::default_currency;
use vstd::prelude::*;

verus! {

/// Why an upstream gave no usable price or rate.
#[derive(Debug)]
pub enum FailureCause {
    /// The upstream could not be reached, or did not answer in time.
    Unreachable,
    /// The upstream answered with a status outside 200..=299.
    HttpStatus { status: u16 },
    /// The payload could not be decoded.
    MalformedPayload,
    /// The upstream reported an error of its own.
    UpstreamError { code: String, description: String },
    /// The payload held no result for what was asked.
    NoData,
    /// The number in the payload is not a decimal.
    UnparsableNumber,
    /// The rate in the payload is zero or negative.
    NotPositive,
}

/// The failures of price and rate acquisition.
#[derive(Debug)]
pub enum MarketError {
    /// The configured provider is not one of the supported ones.
    UnsupportedProvider { provider_id: String },
    /// No price could be had for a ticker.
    QuoteUnavailable { ticker: String, cause: FailureCause },
    /// No exchange rate could be had for a currency pair.
    RateUnavailable { from: String, to: String, cause: FailureCause },
}

/// A price and the currency it is quoted in.
#[derive(Debug)]
pub struct PriceQuote {
    pub price: Money,
    pub currency: String,
}

/// What came back from one upstream call.
pub enum Fetched<T> {
    /// No answer: the connection failed or timed out.
    Unreachable,
    /// An answer, with its payload where it could be decoded.
    Received { status: u16, payload: Option<T> },
}

/// The supported upstream sources of prices.
#[derive(Clone, Copy, Debug, PartialEq, Eq, Structural)]
pub enum Provider {
    /// The equity and FX quote service.
    EquityQuote,
    /// The crypto-exchange ticker service.
    CryptoExchange,
    /// The crypto-aggregator service.
    CryptoAggregator,
}

/// The provider to ask and the symbol to ask it for.
pub struct QuoteRequest {
    pub provider: Provider,
    pub symbol: String,
}

/// The error reported by the equity quote service.
pub struct ChartError {
    pub code: String,
    pub description: String,
}

/// One result of the equity quote service: its regular market price, where
/// that is a decimal, and the instrument's currency, where given.
pub struct ChartMeta {
    pub price: Option<Money>,
    pub currency: Option<String>,
}

/// The decoded payload of the equity quote service.
pub struct ChartReply {
    pub error: Option<ChartError>,
    pub results: Option<Vec<ChartMeta>>,
}

/// The decoded payload of the crypto-exchange service: the price as text.
pub struct TickerReply {
    pub symbol: String,
    pub price: String,
}

/// One coin of the crypto-aggregator's payload, with its USD price where
/// that is a decimal.
pub struct CoinPrice {
    pub id: String,
    pub usd: Option<Money>,
}

/// The provider an identifier names.
pub open spec fn provider_named(id: Seq<char>) -> Option<Provider> {
    if id == "YAHOO"@ {
        Some(Provider::EquityQuote)
    } else if id == "BINANCE"@ {
        Some(Provider::CryptoExchange)
    } else if id == "COINGECKO"@ {
        Some(Provider::CryptoAggregator)
    } else {
        None
    }
}

/// A status that reports success.
pub open spec fn is_success(status: u16) -> bool {
    200 <= status <= 299
}

/// `r` is the failure to price `ticker` for `cause`.
pub open spec fn is_quote_failure(r: Result<PriceQuote, MarketError>, ticker: Seq<char>, cause: FailureCause) -> bool {
    r matches Err(MarketError::QuoteUnavailable { ticker: t, cause: c }) && t@ == ticker && c == cause
}

/// What the equity quote service's answer says: `None` where it holds a
/// price, else why it does not.
pub open spec fn chart_failure(fetched: Fetched<ChartReply>) -> Option<FailureCause> {
    match fetched {
        Fetched::Unreachable => Some(FailureCause::Unreachable),
        Fetched::Received { status, payload } => if !is_success(status) {
            Some(FailureCause::HttpStatus { status })
        } else {
            match payload {
                None => Some(FailureCause::MalformedPayload),
                Some(p) => match p.error {
                    Some(e) => Some(
                        FailureCause::UpstreamError { code: e.code, description: e.description },
                    ),
                    None => match p.results {
                        None => Some(FailureCause::NoData),
                        Some(v) => if v@.len() == 0 {
                            Some(FailureCause::NoData)
                        } else if v@[0].price is None {
                            Some(FailureCause::UnparsableNumber)
                        } else {
                            None
                        },
                    },
                },
            }
        },
    }
}

/// The first result of a successful answer of the equity quote service.
pub open spec fn chart_first(fetched: Fetched<ChartReply>) -> ChartMeta {
    fetched->Received_payload->Some_0.results->Some_0@[0]
}

/// What the crypto-exchange service's answer says.
pub open spec fn ticker_failure(fetched: Fetched<TickerReply>) -> Option<FailureCause> {
    match fetched {
        Fetched::Unreachable => Some(FailureCause::Unreachable),
        Fetched::Received { status, payload } => if !is_success(status) {
            Some(FailureCause::HttpStatus { status })
        } else {
            match payload {
                None => Some(FailureCause::MalformedPayload),
                Some(p) => if decimal_parse(p.price@) is None {
                    Some(FailureCause::UnparsableNumber)
                } else {
                    None
                },
            }
        },
    }
}

/// The USD price of the first coin with identifier `id`: `None` where no
/// coin has it, `Some(None)` where its price is not a decimal.
pub open spec fn coin_price(coins: Seq<CoinPrice>, id: Seq<char>) -> Option<Option<Money>>
    decreases coins.len(),
{
    if coins.len() == 0 {
        None
    } else if coins[0].id@ == id {
        Some(coins[0].usd)
    } else {
        coin_price(coins.drop_first(), id)
    }
}

/// What the crypto-aggregator's answer says about coin `id`.
pub open spec fn coin_failure(fetched: Fetched<Vec<CoinPrice>>, id: Seq<char>) -> Option<FailureCause> {
    match fetched {
        Fetched::Unreachable => Some(FailureCause::Unreachable),
        Fetched::Received { status, payload } => if !is_success(status) {
            Some(FailureCause::HttpStatus { status })
        } else {
            match payload {
                None => Some(FailureCause::MalformedPayload),
                Some(coins) => match coin_price(coins@, id) {
                    None => Some(FailureCause::NoData),
                    Some(None) => Some(FailureCause::UnparsableNumber),
                    Some(Some(_)) => None,
                },
            }
        },
    }
}

/// Whether `status` reports success.
pub fn status_ok(status: u16) -> (r: bool)
    ensures
        r == is_success(status),
{
    200 <= status && status <= 299
}

/// The upstream request for a ticker. An asset with a configured provider
/// is asked of that provider alone, for its provider symbol (the ticker
/// where the catalog has none); an asset with no provider on record is
/// asked of the equity quote service for the raw ticker. A provider that is
/// not supported is a configuration error.
pub fn route_quote(
    ticker: &str,
    provider_symbol: Option<String>,
    provider_id: Option<String>,
) -> (r: Result<QuoteRequest, MarketError>)
    ensures
        provider_id is None ==> (r matches Ok(q) && q.provider == Provider::EquityQuote
            && q.symbol@ == ticker@),
        provider_id matches Some(id) ==> match provider_named(id@) {
            Some(p) => r matches Ok(q) && q.provider == p && q.symbol@ == (match provider_symbol {
                Some(s) => s@,
                None => ticker@,
            }),
            None => r matches Err(MarketError::UnsupportedProvider { provider_id: pid }) && pid@
                == id@,
        },
{
    match provider_id {
        None => Ok(QuoteRequest { provider: Provider::EquityQuote, symbol: ticker.to_owned() }),
        Some(id) => {
            let provider = if id == "YAHOO".to_owned() {
                Provider::EquityQuote
            } else if id == "BINANCE".to_owned() {
                Provider::CryptoExchange
            } else if id == "COINGECKO".to_owned() {
                Provider::CryptoAggregator
            } else {
                return Err(MarketError::UnsupportedProvider { provider_id: id });
            };
            let symbol = match provider_symbol {
                Some(s) => s,
                None => ticker.to_owned(),
            };
            Ok(QuoteRequest { provider, symbol })
        },
    }
}

/// What `str::to_uppercase` returns on a text.
pub uninterp spec fn uppercase_of(s: Seq<char>) -> Seq<char>;

/// Relies on `str::to_uppercase`: the result depends on the characters alone.
#[verifier::external_body]
fn to_uppercase(s: &str) -> (r: String)
    ensures
        r@ == uppercase_of(s@),
{
    s.to_uppercase()
}

/// The crypto-exchange's address for a symbol, which the exchange expects
/// in upper case.
pub open spec fn exchange_url_of(upper_symbol: Seq<char>) -> Seq<char> {
    "https://api.binance.com/api/v3/ticker/price?symbol="@ + upper_symbol
}

/// The crypto-exchange's address for a symbol already in upper case.
pub fn exchange_url(upper_symbol: &str) -> (r: String)
    ensures
        r@ == exchange_url_of(upper_symbol@),
{
    let mut url = "https://api.binance.com/api/v3/ticker/price?symbol=".to_owned();
    url.append(upper_symbol);
    url
}

/// The address of the upstream request for a price.
pub open spec fn quote_url_of(provider: Provider, symbol: Seq<char>) -> Seq<char> {
    match provider {
        Provider::EquityQuote => "https://query1.finance.yahoo.com/v8/finance/chart/"@ + symbol
            + "?interval=1d&range=1m"@,
        Provider::CryptoExchange => exchange_url_of(uppercase_of(symbol)),
        Provider::CryptoAggregator => "https://api.coingecko.com/api/v3/simple/price?ids="@ + symbol
            + "&vs_currencies=usd"@,
    }
}

/// The address to fetch a price from.
pub fn quote_url(request: &QuoteRequest) -> (r: String)
    ensures
        r@ == quote_url_of(request.provider, request.symbol@),
{
    match request.provider {
        Provider::EquityQuote => {
            let mut url = "https://query1.finance.yahoo.com/v8/finance/chart/".to_owned();
            url.append(request.symbol.as_str());
            url.append("?interval=1d&range=1m");
            url
        },
        Provider::CryptoExchange => {
            let upper = to_uppercase(request.symbol.as_str());
            exchange_url(upper.as_str())
        },
        Provider::CryptoAggregator => {
            let mut url = "https://api.coingecko.com/api/v3/simple/price?ids=".to_owned();
            url.append(request.symbol.as_str());
            url.append("&vs_currencies=usd");
            url
        },
    }
}

fn quote_failure(ticker: &str, cause: FailureCause) -> (r: Result<PriceQuote, MarketError>)
    ensures
        is_quote_failure(r, ticker@, cause),
{
    Err(MarketError::QuoteUnavailable { ticker: ticker.to_owned(), cause })
}

/// The price in an answer of the equity quote service, in the instrument's
/// currency (USD where the payload names none).
pub fn equity_quote(ticker: &str, fetched: Fetched<ChartReply>) -> (r: Result<PriceQuote, MarketError>)
    ensures
        chart_failure(fetched) matches Some(c) ==> is_quote_failure(r, ticker@, c),
        chart_failure(fetched) is None ==> (r matches Ok(q) && Some(q.price) == chart_first(
            fetched,
        ).price && q.currency@ == (match chart_first(fetched).currency {
            Some(c) => c@,
            None => default_currency(),
        })),
{
    let (status, payload) = match fetched {
        Fetched::Unreachable => return quote_failure(ticker, FailureCause::Unreachable),
        Fetched::Received { status, payload } => (status, payload),
    };
    if !status_ok(status) {
        return quote_failure(ticker, FailureCause::HttpStatus { status });
    }
    let reply = match payload {
        None => return quote_failure(ticker, FailureCause::MalformedPayload),
        Some(p) => p,
    };
    let ChartReply { error, results } = reply;
    if let Some(e) = error {
        let ChartError { code, description } = e;
        return quote_failure(ticker, FailureCause::UpstreamError { code, description });
    }
    let mut results = match results {
        None => return quote_failure(ticker, FailureCause::NoData),
        Some(v) => v,
    };
    if results.len() == 0 {
        return quote_failure(ticker, FailureCause::NoData);
    }
    let first = results.remove(0);
    let ChartMeta { price, currency } = first;
    let price = match price {
        None => return quote_failure(ticker, FailureCause::UnparsableNumber),
        Some(p) => p,
    };
    let currency = match currency {
        Some(c) => c,
        None => "USD".to_owned(),
    };
    proof {
        reveal_strlit("USD");
    }
    Ok(PriceQuote { price, currency })
}

/// The price in an answer of the crypto-exchange service, in USD.
pub fn exchange_quote(ticker: &str, fetched: Fetched<TickerReply>) -> (r: Result<PriceQuote, MarketError>)
    ensures
        ticker_failure(fetched) matches Some(c) ==> is_quote_failure(r, ticker@, c),
        ticker_failure(fetched) is None ==> (r matches Ok(q) && Some(q.price) == decimal_parse(
            fetched->Received_payload->Some_0.price@,
        ) && q.currency@ == default_currency()),
{
    let (status, payload) = match fetched {
        Fetched::Unreachable => return quote_failure(ticker, FailureCause::Unreachable),
        Fetched::Received { status, payload } => (status, payload),
    };
    if !status_ok(status) {
        return quote_failure(ticker, FailureCause::HttpStatus { status });
    }
    let reply = match payload {
        None => return quote_failure(ticker, FailureCause::MalformedPayload),
        Some(p) => p,
    };
    let price = match Money::parse(reply.price.as_str()) {
        None => return quote_failure(ticker, FailureCause::UnparsableNumber),
        Some(p) => p,
    };
    let currency = "USD".to_owned();
    proof {
        reveal_strlit("USD");
    }
    Ok(PriceQuote { price, currency })
}

/// The USD price of the first coin with identifier `id`.
fn find_coin(coins: &Vec<CoinPrice>, id: &String) -> (r: Option<Option<Money>>)
    ensures
        r == coin_price(coins@, id@),
{
    let mut i: usize = 0;
    let n = coins.len();
    assert(coins@.subrange(0, n as int) =~= coins@);
    while i < n
        invariant
            n == coins@.len(),
            i <= n,
            coin_price(coins@.subrange(i as int, n as int), id@) == coin_price(coins@, id@),
        decreases n - i,
    {
        assert(coins@.subrange(i as int, n as int).drop_first() =~= coins@.subrange(
            i + 1,
            n as int,
        ));
        if coins[i].id == *id {
            return Some(coins[i].usd);
        }
        i = i + 1;
    }
    None
}

/// The price of coin `coin_id` in an answer of the crypto-aggregator, in USD.
pub fn aggregator_quote(ticker: &str, coin_id: &String, fetched: Fetched<Vec<CoinPrice>>) -> (r:
    Result<PriceQuote, MarketError>)
    ensures
        coin_failure(fetched, coin_id@) matches Some(c) ==> is_quote_failure(r, ticker@, c),
        coin_failure(fetched, coin_id@) is None ==> (r matches Ok(q) && Some(Some(q.price))
            == coin_price(fetched->Received_payload->Some_0@, coin_id@) && q.currency@
            == default_currency()),
{
    let (status, payload) = match fetched {
        Fetched::Unreachable => return quote_failure(ticker, FailureCause::Unreachable),
        Fetched::Received { status, payload } => (status, payload),
    };
    if !status_ok(status) {
        return quote_failure(ticker, FailureCause::HttpStatus { status });
    }
    let coins = match payload {
        None => return quote_failure(ticker, FailureCause::MalformedPayload),
        Some(p) => p,
    };
    let price = match find_coin(&coins, coin_id) {
        None => return quote_failure(ticker, FailureCause::NoData),
        Some(None) => return quote_failure(ticker, FailureCause::UnparsableNumber),
        Some(Some(p)) => p,
    };
    let currency = "USD".to_owned();
    proof {
        reveal_strlit("USD");
    }
    Ok(PriceQuote { price, currency })
}

} // verus!
