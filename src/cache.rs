//! Time-bounded caches of prices and exchange rates, keyed by text.
//!
//! The store is a `moka` cache whose entries expire a fixed time after they
//! were inserted; expiry is decided by `moka` on access. What this module
//! knows of the store is the value last stored for each key: a lookup
//! returns that value or nothing (once it has expired). A failed fetch is
//! never stored.
use crate::money::Money;
use crate::quote::MarketError;
use vstd::prelude::*;

verus! {

/// How long a price stays cached, in milliseconds.
pub const PRICE_TTL_MS: u64 = 3000;

/// How long an exchange rate stays cached, in milliseconds.
pub const FX_TTL_MS: u64 = 60000;

/// The longest time to live a cache accepts, in milliseconds (about 31
/// years; `moka` refuses more than 1000 years).
pub const MAX_TTL_MS: u64 = 1000000000000;

#[verifier::external_type_specification]
#[verifier::external_body]
#[verifier::reject_recursive_types(K)]
#[verifier::reject_recursive_types(V)]
#[verifier::reject_recursive_types(S)]
pub struct ExMokaCache<K, V, S>(moka::sync::Cache<K, V, S>);

/// The value last inserted for each key of a `moka` cache (an entry may
/// have expired since).
pub uninterp spec fn stored_values(store: moka::sync::Cache<String, Money>) -> Map<Seq<char>, Money>;

/// No value for any key.
pub open spec fn nothing_stored() -> Map<Seq<char>, Money> {
    Map::empty()
}

/// Relies on `moka::sync::Cache::builder`, `CacheBuilder::time_to_live` and
/// `CacheBuilder::build`: a new cache holds nothing; `build` panics only for
/// a time to live above 1000 years.
#[verifier::external_body]
fn new_store(ttl_ms: u64) -> (r: moka::sync::Cache<String, Money>)
    requires
        ttl_ms <= MAX_TTL_MS,
    ensures
        stored_values(r) == nothing_stored(),
{
    moka::sync::Cache::builder().time_to_live(std::time::Duration::from_millis(ttl_ms)).build()
}

/// Relies on `moka::sync::Cache::get`: a clone of the value inserted last
/// for the key, or `None` where there is none or it has expired.
#[verifier::external_body]
fn store_get(store: &moka::sync::Cache<String, Money>, key: &str) -> (r: Option<Money>)
    ensures
        r matches Some(v) ==> stored_values(*store).contains_key(key@) && stored_values(
            *store,
        )[key@] == v,
{
    store.get(key)
}

/// Relies on `moka::sync::Cache::insert`: the value replaces whatever the
/// key held.
#[verifier::external_body]
fn store_insert(store: &mut moka::sync::Cache<String, Money>, key: &str, value: Money)
    ensures
        stored_values(*final(store)) == stored_values(*old(store)).insert(key@, value),
{
    store.insert(key.to_owned(), value)
}

/// A cache of amounts keyed by text, whose entries expire a fixed time after
/// they were stored. It is created once and shared by reference; nothing
/// but expiry removes an entry.
pub struct TtlCache {
    store: moka::sync::Cache<String, Money>,
}

impl View for TtlCache {
    /// The value last stored for each key.
    type V = Map<Seq<char>, Money>;

    closed spec fn view(&self) -> Map<Seq<char>, Money> {
        stored_values(self.store)
    }
}

impl TtlCache {
    /// An empty cache whose entries live `ttl_ms` milliseconds.
    pub fn new(ttl_ms: u64) -> (r: TtlCache)
        requires
            ttl_ms <= MAX_TTL_MS,
        ensures
            r@ == Map::<Seq<char>, Money>::empty(),
    {
        TtlCache { store: new_store(ttl_ms) }
    }

    /// The cache of prices.
    pub fn for_prices() -> (r: TtlCache)
        ensures
            r@ == Map::<Seq<char>, Money>::empty(),
    {
        TtlCache::new(PRICE_TTL_MS)
    }

    /// The cache of exchange rates.
    pub fn for_rates() -> (r: TtlCache)
        ensures
            r@ == Map::<Seq<char>, Money>::empty(),
    {
        TtlCache::new(FX_TTL_MS)
    }

    /// The cached value of a key, if it is there and has not expired. A hit
    /// is always the value last stored for the key.
    pub fn lookup(&self, key: &str) -> (r: Option<Money>)
        ensures
            r matches Some(v) ==> self@.contains_key(key@) && self@[key@] == v,
    {
        store_get(&self.store, key)
    }

    /// Finishes a fetch made after a miss: a fetched value is stored and
    /// returned; a failure is returned and leaves the cache as it was, so the
    /// next caller fetches again.
    pub fn complete(&mut self, key: &str, fetched: Result<Money, MarketError>) -> (r: Result<
        Money,
        MarketError,
    >)
        ensures
            r == fetched,
            fetched matches Ok(v) ==> final(self)@ == old(self)@.insert(key@, v),
            fetched is Err ==> final(self)@ == old(self)@,
    {
        match fetched {
            Ok(v) => {
                store_insert(&mut self.store, key, v);
                Ok(v)
            },
            Err(e) => Err(e),
        }
    }

    /// The value of a key: the cached one where there is one (and `fetch` is
    /// not called), else what `fetch` returns, stored only if it succeeded.
    pub fn get_or_fetch<F>(&mut self, key: &str, fetch: F) -> (r: Result<Money, MarketError>)
        where
            F: FnOnce() -> Result<Money, MarketError>,
        requires
            fetch.requires(()),
        ensures
            r matches Ok(v) ==> final(self)@ == old(self)@.insert(key@, v),
            r is Err ==> final(self)@ == old(self)@ && fetch.ensures((), r),
            r matches Ok(v) ==> (old(self)@.contains_key(key@) && old(self)@[key@] == v)
                || fetch.ensures((), r),
    {
        match self.lookup(key) {
            Some(v) => {
                proof {
                    assert(old(self)@.insert(key@, v) =~= old(self)@);
                }
                Ok(v)
            },
            None => {
                let fetched = fetch();
                self.complete(key, fetched)
            },
        }
    }
}

} // verus!
