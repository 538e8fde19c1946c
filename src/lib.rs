//! Price acquisition, caching and portfolio valuation.
//!
//! - `money`: exact decimal amounts, computed by `rust_decimal`.
//! - `quote`: provider routing and the quote adapters' decisions.
//! - `fx`: exchange rates, one by definition between a currency and itself.
//! - `cache`: time-bounded caches of prices and rates.
//! - `pricing`: a price through the cache, and the refresh of many tickers.
//! - `valuation`: holdings to summaries and totals in the base currency.
//! - `api`: reply envelopes, request records, net worth.
pub mod api;
pub mod cache;
pub mod fx;
pub mod money;
pub mod pricing;
pub mod quote;
pub mod valuation;
