//! The valuation engine: from holdings, their current prices and a table of
//! exchange rates to per-holding summaries and portfolio totals in the base
//! currency. Pure computation, no I/O.
use crate::money::{
    decimal_difference, decimal_product, decimal_quotient, decimal_sum, same_number, Money,
};
use vstd::prelude::*;

verus! {

/// A holding joined with its asset's catalog record: the ticker, how much of
/// it is held at what average buying price, its current native price, and
/// the currency that price is quoted in (when the catalog has one).
pub struct PortfolioJoinedRow {
    pub ticker: String,
    pub name: String,
    pub quantity: Money,
    pub avg_buy_price: Money,
    pub current_price: Money,
    pub source: Option<String>,
    pub api_ticker: Option<String>,
    pub currency: Option<String>,
    pub icon_url: Option<String>,
}

/// One holding's figures, native and converted into the base currency.
pub struct InvestmentSummary {
    pub ticker: String,
    pub name: String,
    pub quantity: Money,
    pub avg_buy_price: Money,
    pub avg_buy_price_converted: Money,
    pub current_price: Money,
    pub current_price_converted: Money,
    pub total_value: Money,
    pub total_value_converted: Money,
    pub change_pct: Money,
    /// The base currency.
    pub currency: String,
    /// The currency the asset is quoted in.
    pub asset_currency: String,
    pub icon_url: Option<String>,
}

/// The summaries of all holdings, with the cost and the change of the whole
/// portfolio in the base currency.
pub struct PortfolioResponse {
    pub investments: Vec<InvestmentSummary>,
    pub total_cost: Money,
    pub absolute_change: Money,
}

/// Exchange rates into the base currency, keyed by currency code.
pub struct RateTable {
    entries: Vec<(String, Money)>,
}

/// The rate most recently recorded for a currency in a list of entries.
pub open spec fn latest_rate(entries: Seq<(String, Money)>, currency: Seq<char>) -> Option<Money>
    decreases entries.len(),
{
    if entries.len() == 0 {
        None
    } else if entries.last().0@ == currency {
        Some(entries.last().1)
    } else {
        latest_rate(entries.drop_last(), currency)
    }
}

impl View for RateTable {
    type V = Map<Seq<char>, Money>;

    closed spec fn view(&self) -> Map<Seq<char>, Money> {
        Map::new(
            |c: Seq<char>| latest_rate(self.entries@, c) is Some,
            |c: Seq<char>| latest_rate(self.entries@, c)->Some_0,
        )
    }
}

impl RateTable {
    /// A table with no rates.
    pub fn new() -> (r: RateTable)
        ensures
            r@ == Map::<Seq<char>, Money>::empty(),
    {
        let r = RateTable { entries: Vec::new() };
        assert(r@ =~= Map::<Seq<char>, Money>::empty());
        r
    }

    /// Records the rate of a currency, replacing any earlier one.
    pub fn insert(&mut self, currency: String, rate: Money)
        ensures
            final(self)@ == old(self)@.insert(currency@, rate),
    {
        let ghost key = currency@;
        self.entries.push((currency, rate));
        proof {
            assert(self.entries@.drop_last() =~= old(self).entries@);
        }
        assert(self@ =~= old(self)@.insert(key, rate));
    }

    /// The rate of a currency, if the table has one.
    pub fn get(&self, currency: &String) -> (r: Option<Money>)
        ensures
            r == (if self@.contains_key(currency@) {
                Some(self@[currency@])
            } else {
                None
            }),
    {
        let mut i: usize = self.entries.len();
        assert(self.entries@.take(i as int) =~= self.entries@);
        while i > 0
            invariant
                i <= self.entries@.len(),
                latest_rate(self.entries@.take(i as int), currency@) == latest_rate(
                    self.entries@,
                    currency@,
                ),
            decreases i,
        {
            assert(self.entries@.take(i as int).drop_last() =~= self.entries@.take(i - 1));
            if self.entries[i - 1].0 == *currency {
                return Some(self.entries[i - 1].1);
            }
            i = i - 1;
        }
        None
    }
}

/// The currency taken for an asset whose catalog record names none.
pub open spec fn default_currency() -> Seq<char> {
    seq!['U', 'S', 'D']
}

/// The currency an asset is quoted in.
pub open spec fn asset_currency_of(currency: Option<String>) -> Seq<char> {
    match currency {
        Some(c) => c@,
        None => default_currency(),
    }
}

/// The rate that converts amounts in `from` into `to`: one when the two
/// currencies are the same, else the table's rate, and one where the table
/// has none.
pub open spec fn rate_between(from: Seq<char>, to: Seq<char>, rates: Map<Seq<char>, Money>) -> Money {
    if from == to {
        Money::from_parts(1, 0)
    } else if rates.contains_key(from) {
        rates[from]
    } else {
        Money::from_parts(1, 0)
    }
}

/// The percentage change from `base` to `current`,
/// `(current - base) / base * 100`, and zero where `base` is not positive.
pub open spec fn change_percent(current: Money, base: Money) -> Option<Money> {
    if base@.0 > 0 {
        match decimal_difference(current, base) {
            Some(d) => match decimal_quotient(d, base) {
                Some(q) => decimal_product(q, Money::from_parts(100, 0)),
                None => None,
            },
            None => None,
        }
    } else {
        Some(Money::from_parts(0, 0))
    }
}

/// Every product that the summary of `item` at `rate` needs is defined.
pub open spec fn summary_computable(item: PortfolioJoinedRow, rate: Money) -> bool {
    &&& decimal_product(item.avg_buy_price, rate) is Some
    &&& (decimal_product(item.current_price, rate) matches Some(c) && decimal_product(
        item.quantity,
        c,
    ) is Some)
    &&& decimal_product(item.quantity, item.current_price) is Some
    &&& change_percent(item.current_price, item.avg_buy_price) is Some
}

/// `s` is the summary of `item` at `rate` in the currency `base`.
pub open spec fn summary_matches(
    s: InvestmentSummary,
    item: PortfolioJoinedRow,
    rate: Money,
    base: Seq<char>,
) -> bool {
    &&& s.ticker@ == item.ticker@
    &&& s.name@ == item.name@
    &&& s.quantity == item.quantity
    &&& s.avg_buy_price == item.avg_buy_price
    &&& s.current_price == item.current_price
    &&& decimal_product(item.avg_buy_price, rate) == Some(s.avg_buy_price_converted)
    &&& decimal_product(item.current_price, rate) == Some(s.current_price_converted)
    &&& decimal_product(item.quantity, item.current_price) == Some(s.total_value)
    &&& decimal_product(item.quantity, s.current_price_converted) == Some(s.total_value_converted)
    &&& change_percent(item.current_price, item.avg_buy_price) == Some(s.change_pct)
    &&& s.currency@ == base
    &&& s.asset_currency@ == asset_currency_of(item.currency)
    &&& s.icon_url == item.icon_url
}

/// The native figures of a holding and its percentage change do not depend
/// on the rate or the base currency: two summaries of the same holding agree
/// on them, whatever rates and currencies they were made with.
pub proof fn lemma_native_figures_ignore_rate(
    item: PortfolioJoinedRow,
    first: InvestmentSummary,
    first_rate: Money,
    first_base: Seq<char>,
    second: InvestmentSummary,
    second_rate: Money,
    second_base: Seq<char>,
)
    requires
        summary_matches(first, item, first_rate, first_base),
        summary_matches(second, item, second_rate, second_base),
    ensures
        first.change_pct == second.change_pct,
        first.quantity == second.quantity,
        first.avg_buy_price == second.avg_buy_price,
        first.current_price == second.current_price,
        first.total_value == second.total_value,
        first.asset_currency@ == second.asset_currency@,
{
}

/// One holding's contribution added to the running totals `(cost, change)`:
/// cost `quantity * avg * rate`, value `quantity * current * rate`, change
/// `value - cost`.
pub open spec fn accumulate(
    totals: (Money, Money),
    quantity: Money,
    avg: Money,
    current: Money,
    rate: Money,
) -> Option<(Money, Money)> {
    match decimal_product(quantity, avg) {
        None => None,
        Some(qa) => match decimal_product(qa, rate) {
            None => None,
            Some(cost) => match decimal_product(quantity, current) {
                None => None,
                Some(qc) => match decimal_product(qc, rate) {
                    None => None,
                    Some(value) => match decimal_difference(value, cost) {
                        None => None,
                        Some(change) => match decimal_sum(totals.0, cost) {
                            None => None,
                            Some(cost_total) => match decimal_sum(totals.1, change) {
                                None => None,
                                Some(change_total) => Some((cost_total, change_total)),
                            },
                        },
                    },
                },
            },
        },
    }
}

/// The rate that converts a holding's prices into the base currency.
pub open spec fn row_rate(item: PortfolioJoinedRow, rates: Map<Seq<char>, Money>, base: Seq<char>) -> Money {
    rate_between(asset_currency_of(item.currency), base, rates)
}

/// Portfolio totals `(total_cost, absolute_change)` over holdings, summed in
/// order from zero.
pub open spec fn response_totals(
    items: Seq<PortfolioJoinedRow>,
    rates: Map<Seq<char>, Money>,
    base: Seq<char>,
) -> Option<(Money, Money)>
    decreases items.len(),
{
    if items.len() == 0 {
        Some((Money::from_parts(0, 0), Money::from_parts(0, 0)))
    } else {
        match response_totals(items.drop_last(), rates, base) {
            None => None,
            Some(t) => {
                let it = items.last();
                accumulate(t, it.quantity, it.avg_buy_price, it.current_price, row_rate(it, rates, base))
            },
        }
    }
}

/// Portfolio totals `(total_cost, absolute_change)` over summaries, each
/// converted by the rate of its asset currency.
pub open spec fn summary_totals(
    summaries: Seq<InvestmentSummary>,
    rates: Map<Seq<char>, Money>,
    base: Seq<char>,
) -> Option<(Money, Money)>
    decreases summaries.len(),
{
    if summaries.len() == 0 {
        Some((Money::from_parts(0, 0), Money::from_parts(0, 0)))
    } else {
        match summary_totals(summaries.drop_last(), rates, base) {
            None => None,
            Some(t) => {
                let s = summaries.last();
                accumulate(
                    t,
                    s.quantity,
                    s.avg_buy_price,
                    s.current_price,
                    rate_between(s.asset_currency@, base, rates),
                )
            },
        }
    }
}

/// Once the totals of a prefix are undefined, so are those of every longer
/// list.
proof fn lemma_response_totals_none(
    items: Seq<PortfolioJoinedRow>,
    k: int,
    rates: Map<Seq<char>, Money>,
    base: Seq<char>,
)
    requires
        0 <= k <= items.len(),
        response_totals(items.take(k), rates, base) is None,
    ensures
        response_totals(items, rates, base) is None,
    decreases items.len() - k,
{
    if k < items.len() {
        assert(items.take(k + 1).drop_last() =~= items.take(k));
        lemma_response_totals_none(items, k + 1, rates, base);
    } else {
        assert(items.take(k) =~= items);
    }
}

proof fn lemma_summary_totals_none(
    summaries: Seq<InvestmentSummary>,
    k: int,
    rates: Map<Seq<char>, Money>,
    base: Seq<char>,
)
    requires
        0 <= k <= summaries.len(),
        summary_totals(summaries.take(k), rates, base) is None,
    ensures
        summary_totals(summaries, rates, base) is None,
    decreases summaries.len() - k,
{
    if k < summaries.len() {
        assert(summaries.take(k + 1).drop_last() =~= summaries.take(k));
        lemma_summary_totals_none(summaries, k + 1, rates, base);
    } else {
        assert(summaries.take(k) =~= summaries);
    }
}

/// The percentage change from `base_price` to `current_price`; exactly zero
/// where `base_price` is not positive. `None` where the decimal arithmetic
/// overflows.
pub fn calculate_change_percent(current_price: Money, base_price: Money) -> (r: Option<Money>)
    ensures
        r == change_percent(current_price, base_price),
        !base_price.is_positive_spec() ==> (r matches Some(z) && z@ == (0int, 0nat)),
{
    if base_price.is_positive() {
        let diff = match current_price.checked_sub(&base_price) {
            Some(d) => d,
            None => return None,
        };
        let ratio = match diff.checked_div(&base_price) {
            Some(q) => q,
            None => return None,
        };
        ratio.checked_mul(&Money::from_int(100))
    } else {
        Some(Money::zero())
    }
}

/// The rate converting amounts in `from_currency` into `to_currency`.
pub fn get_exchange_rate(from_currency: &String, to_currency: &String, rates: &RateTable) -> (r: Money)
    ensures
        r == rate_between(from_currency@, to_currency@, rates@),
{
    if *from_currency == *to_currency {
        Money::one()
    } else {
        match rates.get(from_currency) {
            Some(rate) => rate,
            None => Money::one(),
        }
    }
}

/// The summary of one holding, its prices converted by `exchange_rate` into
/// `base_currency`. The change percentage is taken from the native prices.
/// `None` where the decimal arithmetic overflows.
pub fn calculate_investment_summary(
    item: PortfolioJoinedRow,
    exchange_rate: Money,
    base_currency: &str,
) -> (r: Option<InvestmentSummary>)
    ensures
        r is Some <==> summary_computable(item, exchange_rate),
        r matches Some(s) ==> summary_matches(s, item, exchange_rate, base_currency@),
        r matches Some(s) ==> (!item.avg_buy_price.is_positive_spec() ==> s.change_pct@ == (
            0int,
            0nat,
        )),
        r matches Some(s) ==> (exchange_rate@ == (1int, 0nat) ==> (same_number(
            s.current_price_converted@,
            item.current_price@,
        ) && same_number(s.avg_buy_price_converted@, item.avg_buy_price@)
            && s.total_value_converted == s.total_value)),
{
    let ghost old_item = item;
    let PortfolioJoinedRow {
        ticker,
        name,
        quantity,
        avg_buy_price,
        current_price,
        source: _,
        api_ticker: _,
        currency,
        icon_url,
    } = item;
    let asset_currency = match currency {
        Some(c) => c,
        None => "USD".to_owned(),
    };
    proof {
        reveal_strlit("USD");
        assert(asset_currency@ =~= asset_currency_of(old_item.currency));
    }
    let total_value = match quantity.checked_mul(&current_price) {
        Some(v) => v,
        None => return None,
    };
    let current_price_converted = match current_price.checked_mul(&exchange_rate) {
        Some(v) => v,
        None => return None,
    };
    let avg_buy_price_converted = match avg_buy_price.checked_mul(&exchange_rate) {
        Some(v) => v,
        None => return None,
    };
    let total_value_converted = match quantity.checked_mul(&current_price_converted) {
        Some(v) => v,
        None => return None,
    };
    let change_pct = match calculate_change_percent(current_price, avg_buy_price) {
        Some(v) => v,
        None => return None,
    };
    proof {
        if exchange_rate@ == (1int, 0nat) {
            if current_price@.0 != 0 {
                Money::lemma_view_injective(current_price_converted, current_price);
            } else {
                Money::lemma_view_injective(total_value_converted, total_value);
            }
        }
    }
    Some(
        InvestmentSummary {
            ticker,
            name,
            quantity,
            avg_buy_price,
            avg_buy_price_converted,
            current_price,
            current_price_converted,
            total_value,
            total_value_converted,
            change_pct,
            currency: base_currency.to_owned(),
            asset_currency,
            icon_url,
        },
    )
}

/// Adds one holding's cost and change, in the base currency, to the running
/// totals.
fn accumulate_holding(
    cost_total: Money,
    change_total: Money,
    quantity: Money,
    avg: Money,
    current: Money,
    rate: Money,
) -> (r: Option<(Money, Money)>)
    ensures
        r == accumulate((cost_total, change_total), quantity, avg, current, rate),
{
    let qa = match quantity.checked_mul(&avg) {
        Some(v) => v,
        None => return None,
    };
    let cost = match qa.checked_mul(&rate) {
        Some(v) => v,
        None => return None,
    };
    let qc = match quantity.checked_mul(&current) {
        Some(v) => v,
        None => return None,
    };
    let value = match qc.checked_mul(&rate) {
        Some(v) => v,
        None => return None,
    };
    let change = match value.checked_sub(&cost) {
        Some(v) => v,
        None => return None,
    };
    let new_cost = match cost_total.checked_add(&cost) {
        Some(v) => v,
        None => return None,
    };
    let new_change = match change_total.checked_add(&change) {
        Some(v) => v,
        None => return None,
    };
    Some((new_cost, new_change))
}

/// The portfolio report: each holding summarised at the rate of its asset
/// currency into `base_currency` (one when the currencies agree, one where
/// the table has no rate), and the totals of cost and change in the base
/// currency. `None` where the decimal arithmetic overflows.
pub fn build_portfolio_response(
    items: Vec<PortfolioJoinedRow>,
    exchange_rates: &RateTable,
    base_currency: &str,
) -> (r: Option<PortfolioResponse>)
    ensures
        r is Some <==> (response_totals(items@, exchange_rates@, base_currency@) is Some && forall|
            j: int,
        |
            0 <= j < items@.len() ==> summary_computable(
                #[trigger] items@[j],
                row_rate(items@[j], exchange_rates@, base_currency@),
            )),
        r matches Some(resp) ==> {
            &&& resp.investments@.len() == items@.len()
            &&& forall|j: int|
                0 <= j < items@.len() ==> summary_matches(
                    #[trigger] resp.investments@[j],
                    items@[j],
                    row_rate(items@[j], exchange_rates@, base_currency@),
                    base_currency@,
                )
            &&& response_totals(items@, exchange_rates@, base_currency@) == Some(
                (resp.total_cost, resp.absolute_change),
            )
        },
        r matches Some(resp) ==> forall|j: int|
            0 <= j < items@.len() && asset_currency_of(items@[j].currency) == base_currency@
                ==> same_number(
                (#[trigger] resp.investments@[j]).current_price_converted@,
                items@[j].current_price@,
            ) && same_number(resp.investments@[j].avg_buy_price_converted@, items@[j].avg_buy_price@)
                && resp.investments@[j].total_value_converted == resp.investments@[j].total_value,
{
    let ghost rows = items@;
    let ghost rates = exchange_rates@;
    let base = base_currency.to_owned();
    let mut remaining = items;
    let mut summary_list: Vec<InvestmentSummary> = Vec::new();
    let mut total_cost = Money::zero();
    let mut absolute_change = Money::zero();
    let n = remaining.len();
    let mut i: usize = 0;
    proof {
        assert(rows.take(0) =~= Seq::<PortfolioJoinedRow>::empty());
        Money::lemma_from_parts(1, 0);
    }
    while i < n
        invariant
            n == rows.len(),
            i <= n,
            remaining@ == rows.subrange(i as int, n as int),
            rows == items@,
            base@ == base_currency@,
            rates == exchange_rates@,
            Money::from_parts(1, 0)@ == (1int, 0nat),
            summary_list@.len() == i,
            response_totals(rows.take(i as int), rates, base@) == Some(
                (total_cost, absolute_change),
            ),
            forall|j: int|
                0 <= j < i ==> summary_computable(#[trigger] rows[j], row_rate(rows[j], rates, base@)),
            forall|j: int|
                0 <= j < i ==> summary_matches(
                    #[trigger] summary_list@[j],
                    rows[j],
                    row_rate(rows[j], rates, base@),
                    base@,
                ),
            forall|j: int|
                0 <= j < i && asset_currency_of(rows[j].currency) == base@ ==> same_number(
                    (#[trigger] summary_list@[j]).current_price_converted@,
                    rows[j].current_price@,
                ) && same_number(summary_list@[j].avg_buy_price_converted@, rows[j].avg_buy_price@)
                    && summary_list@[j].total_value_converted == summary_list@[j].total_value,
        decreases n - i,
    {
        let item = remaining.remove(0);
        assert(item == rows[i as int]);
        let asset_currency = match &item.currency {
            Some(c) => c.clone(),
            None => "USD".to_owned(),
        };
        proof {
            reveal_strlit("USD");
            assert(asset_currency@ =~= asset_currency_of(item.currency));
            assert(rows.take(i + 1).drop_last() =~= rows.take(i as int));
        }
        let rate = get_exchange_rate(&asset_currency, &base, exchange_rates);
        match accumulate_holding(
            total_cost,
            absolute_change,
            item.quantity,
            item.avg_buy_price,
            item.current_price,
            rate,
        ) {
            Some((c, a)) => {
                total_cost = c;
                absolute_change = a;
            },
            None => {
                proof {
                    assert(rows.take(i + 1).last() == rows[i as int]);
                    assert(response_totals(rows.take(i + 1), rates, base@) is None);
                    lemma_response_totals_none(rows, i + 1, rates, base@);
                }
                return None;
            },
        }
        proof {
            assert(rows.take(i + 1).last() == rows[i as int]);
        }
        let summary = match calculate_investment_summary(item, rate, base_currency) {
            Some(s) => s,
            None => {
                proof {
                    assert(!summary_computable(rows[i as int], row_rate(rows[i as int], rates, base@)));
                }
                return None;
            },
        };
        summary_list.push(summary);
        i = i + 1;
    }
    proof {
        assert(rows.take(n as int) =~= rows);
    }
    Some(PortfolioResponse { investments: summary_list, total_cost, absolute_change })
}

/// The totals `(total_cost, absolute_change)` of a list of summaries, each
/// converted by the rate of its asset currency into `base_currency`. `None`
/// where the decimal arithmetic overflows.
pub fn calculate_portfolio_totals(
    summaries: &Vec<InvestmentSummary>,
    exchange_rates: &RateTable,
    base_currency: &str,
) -> (r: Option<(Money, Money)>)
    ensures
        r == summary_totals(summaries@, exchange_rates@, base_currency@),
{
    let base = base_currency.to_owned();
    let mut total_cost = Money::zero();
    let mut absolute_change = Money::zero();
    let n = summaries.len();
    let mut i: usize = 0;
    proof {
        assert(summaries@.take(0) =~= Seq::<InvestmentSummary>::empty());
    }
    while i < n
        invariant
            n == summaries@.len(),
            i <= n,
            base@ == base_currency@,
            summary_totals(summaries@.take(i as int), exchange_rates@, base@) == Some(
                (total_cost, absolute_change),
            ),
        decreases n - i,
    {
        let summary = &summaries[i];
        proof {
            assert(summaries@.take(i + 1).drop_last() =~= summaries@.take(i as int));
        }
        let rate = get_exchange_rate(&summary.asset_currency, &base, exchange_rates);
        proof {
            assert(summaries@.take(i + 1).last() == summaries@[i as int]);
        }
        match accumulate_holding(
            total_cost,
            absolute_change,
            summary.quantity,
            summary.avg_buy_price,
            summary.current_price,
            rate,
        ) {
            Some((c, a)) => {
                total_cost = c;
                absolute_change = a;
            },
            None => {
                proof {
                    assert(summaries@.take(i + 1).last() == summaries@[i as int]);
                    lemma_summary_totals_none(summaries@, i + 1, exchange_rates@, base@);
                }
                return None;
            },
        }
        i = i + 1;
    }
    proof {
        assert(summaries@.take(n as int) =~= summaries@);
    }
    Some((total_cost, absolute_change))
}

} // verus!
