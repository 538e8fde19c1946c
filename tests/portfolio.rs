use phoebudget::money::Money;
use phoebudget::valuation::{
    build_portfolio_response, calculate_investment_summary, calculate_portfolio_totals,
    InvestmentSummary, PortfolioJoinedRow, RateTable,
};

fn dec(text: &str) -> Money {
    Money::parse(text).unwrap()
}

fn make_test_item(
    ticker: &str,
    quantity: Money,
    avg_buy_price: Money,
    current_price: Money,
    currency: Option<&str>,
) -> PortfolioJoinedRow {
    PortfolioJoinedRow {
        ticker: ticker.to_string(),
        name: format!("{} Inc", ticker),
        quantity,
        avg_buy_price,
        current_price,
        source: Some("YAHOO".to_string()),
        api_ticker: Some(ticker.to_string()),
        currency: currency.map(|s| s.to_string()),
        icon_url: None,
    }
}

fn make_test_summary(
    ticker: &str,
    name: &str,
    quantity: Money,
    avg_buy_price: Money,
    current_price: Money,
    asset_currency: &str,
) -> InvestmentSummary {
    let total_value = quantity.checked_mul(&current_price).unwrap();
    let change_pct = if avg_buy_price.is_positive() {
        current_price
            .checked_sub(&avg_buy_price)
            .unwrap()
            .checked_div(&avg_buy_price)
            .unwrap()
            .checked_mul(&dec("100"))
            .unwrap()
    } else {
        Money::zero()
    };
    InvestmentSummary {
        ticker: ticker.to_string(),
        name: name.to_string(),
        quantity,
        avg_buy_price,
        avg_buy_price_converted: avg_buy_price,
        current_price,
        current_price_converted: current_price,
        total_value,
        total_value_converted: total_value,
        change_pct,
        currency: "USD".to_string(),
        asset_currency: asset_currency.to_string(),
        icon_url: None,
    }
}

// ---- single holding summaries ----

#[test]
fn test_calculate_investment_summary_same_currency() {
    let item = make_test_item("AAPL", dec("10"), dec("150.00"), dec("180.00"), Some("USD"));
    let summary = calculate_investment_summary(item, Money::one(), "USD").unwrap();
    assert_eq!(summary.ticker, "AAPL");
    assert_eq!(summary.quantity, dec("10"));
    assert_eq!(summary.avg_buy_price, dec("150.00"));
    assert_eq!(summary.avg_buy_price_converted, dec("150.00"));
    assert_eq!(summary.current_price, dec("180.00"));
    assert_eq!(summary.current_price_converted, dec("180.00"));
    assert_eq!(summary.total_value, dec("1800.00"));
    assert_eq!(summary.total_value_converted, dec("1800.00"));
    assert_eq!(summary.change_pct, dec("20"));
    assert_eq!(summary.currency, "USD");
    assert_eq!(summary.asset_currency, "USD");
}

#[test]
fn test_calculate_investment_summary_with_currency_conversion() {
    let item = make_test_item("AAPL", dec("10"), dec("150.00"), dec("180.00"), Some("USD"));
    let summary = calculate_investment_summary(item, dec("1.35"), "SGD").unwrap();
    assert_eq!(summary.avg_buy_price, dec("150.00"));
    assert_eq!(summary.avg_buy_price_converted, dec("202.50"));
    assert_eq!(summary.current_price, dec("180.00"));
    assert_eq!(summary.current_price_converted, dec("243.00"));
    assert_eq!(summary.total_value, dec("1800.00"));
    assert_eq!(summary.total_value_converted, dec("2430.00"));
    assert_eq!(summary.change_pct, dec("20"));
    assert_eq!(summary.currency, "SGD");
    assert_eq!(summary.asset_currency, "USD");
}

#[test]
fn test_calculate_investment_summary_negative_change() {
    let item = make_test_item("TSLA", dec("5"), dec("100.00"), dec("80.00"), Some("USD"));
    let summary = calculate_investment_summary(item, Money::one(), "USD").unwrap();
    assert_eq!(summary.change_pct, dec("-20"));
    assert_eq!(summary.total_value, dec("400.00"));
}

#[test]
fn test_calculate_investment_summary_zero_avg_buy_price() {
    let item = make_test_item("FREE", dec("100"), dec("0"), dec("10.00"), Some("USD"));
    let summary = calculate_investment_summary(item, Money::one(), "USD").unwrap();
    assert_eq!(summary.change_pct, Money::zero());
    assert_eq!(summary.total_value, dec("1000.00"));
}

#[test]
fn test_calculate_investment_summary_default_currency() {
    let item = make_test_item("BTC", dec("1"), dec("40000.00"), dec("45000.00"), None);
    let summary = calculate_investment_summary(item, Money::one(), "USD").unwrap();
    assert_eq!(summary.asset_currency, "USD");
}

// ---- portfolio totals ----

#[test]
fn test_calculate_portfolio_totals_single_item() {
    let summaries = vec![make_test_summary(
        "AAPL",
        "Apple",
        dec("10"),
        dec("100.00"),
        dec("120.00"),
        "USD",
    )];
    let rates = RateTable::new();
    let (total_cost, absolute_change) =
        calculate_portfolio_totals(&summaries, &rates, "USD").unwrap();
    assert_eq!(total_cost, dec("1000.00"));
    assert_eq!(absolute_change, dec("200.00"));
}

#[test]
fn test_calculate_portfolio_totals_multiple_items() {
    let summaries = vec![
        make_test_summary("AAPL", "Apple", dec("10"), dec("100.00"), dec("120.00"), "USD"),
        make_test_summary("GOOGL", "Google", dec("5"), dec("200.00"), dec("180.00"), "USD"),
    ];
    let rates = RateTable::new();
    let (total_cost, absolute_change) =
        calculate_portfolio_totals(&summaries, &rates, "USD").unwrap();
    assert_eq!(total_cost, dec("2000.00"));
    assert_eq!(absolute_change, dec("100.00"));
}

// ---- full portfolio responses ----

#[test]
fn test_build_portfolio_response_empty() {
    let rates = RateTable::new();
    let response = build_portfolio_response(vec![], &rates, "USD").unwrap();
    assert!(response.investments.is_empty());
    assert_eq!(response.total_cost, Money::zero());
    assert_eq!(response.absolute_change, Money::zero());
}

#[test]
fn test_build_portfolio_response_with_items() {
    let items = vec![
        make_test_item("AAPL", dec("10"), dec("100.00"), dec("120.00"), Some("USD")),
        make_test_item("GOOGL", dec("5"), dec("200.00"), dec("180.00"), Some("USD")),
    ];
    let rates = RateTable::new();
    let response = build_portfolio_response(items, &rates, "USD").unwrap();
    assert_eq!(response.investments.len(), 2);
    assert_eq!(response.total_cost, dec("2000.00"));
    assert_eq!(response.absolute_change, dec("100.00"));
}

#[test]
fn test_build_portfolio_response_with_currency_conversion() {
    let items = vec![make_test_item(
        "AAPL",
        dec("10"),
        dec("100.00"),
        dec("120.00"),
        Some("USD"),
    )];
    let mut rates = RateTable::new();
    rates.insert("USD".to_string(), dec("1.35"));
    let response = build_portfolio_response(items, &rates, "SGD").unwrap();
    assert_eq!(response.total_cost, dec("1350.00"));
    assert_eq!(response.absolute_change, dec("270.00"));
    let inv = &response.investments[0];
    assert_eq!(inv.avg_buy_price_converted, dec("135.00"));
    assert_eq!(inv.current_price_converted, dec("162.00"));
    assert_eq!(inv.total_value_converted, dec("1620.00"));
}

#[test]
fn same_currency_no_conversion() {
    let item = make_test_item("AAPL", dec("10"), dec("150.00"), dec("180.00"), Some("USD"));
    let summary = calculate_investment_summary(item, Money::one(), "USD").unwrap();
    assert_eq!(summary.ticker, "AAPL");
    assert_eq!(summary.quantity, dec("10"));
    assert_eq!(summary.avg_buy_price, dec("150.00"));
    assert_eq!(summary.avg_buy_price_converted, dec("150.00"));
    assert_eq!(summary.current_price, dec("180.00"));
    assert_eq!(summary.current_price_converted, dec("180.00"));
    assert_eq!(summary.total_value, dec("1800.00"));
    assert_eq!(summary.total_value_converted, dec("1800.00"));
    assert_eq!(summary.change_pct, dec("20"));
    assert_eq!(summary.currency, "USD");
    assert_eq!(summary.asset_currency, "USD");
}

#[test]
fn with_currency_conversion() {
    let item = make_test_item("AAPL", dec("10"), dec("150.00"), dec("180.00"), Some("USD"));
    let rate = dec("1.35");
    let summary = calculate_investment_summary(item, rate, "SGD").unwrap();
    assert_eq!(summary.avg_buy_price, dec("150.00"));
    assert_eq!(summary.avg_buy_price_converted, dec("202.50"));
    assert_eq!(summary.current_price, dec("180.00"));
    assert_eq!(summary.current_price_converted, dec("243.00"));
    assert_eq!(summary.total_value, dec("1800.00"));
    assert_eq!(summary.total_value_converted, dec("2430.00"));
    assert_eq!(summary.change_pct, dec("20"));
    assert_eq!(summary.currency, "SGD");
    assert_eq!(summary.asset_currency, "USD");
}

#[test]
fn negative_change() {
    let item = make_test_item("TSLA", dec("5"), dec("100.00"), dec("80.00"), Some("USD"));
    let summary = calculate_investment_summary(item, Money::one(), "USD").unwrap();
    assert_eq!(summary.change_pct, dec("-20"));
    assert_eq!(summary.total_value, dec("400.00"));
}

#[test]
fn zero_avg_buy_price_no_divide_by_zero() {
    let item = make_test_item("FREE", dec("100"), dec("0"), dec("10.00"), Some("USD"));
    let summary = calculate_investment_summary(item, Money::one(), "USD").unwrap();
    assert_eq!(summary.change_pct, Money::zero());
    assert_eq!(summary.total_value, dec("1000.00"));
}

#[test]
fn default_currency_when_none() {
    let item = make_test_item("BTC", dec("1"), dec("40000.00"), dec("45000.00"), None);
    let summary = calculate_investment_summary(item, Money::one(), "USD").unwrap();
    assert_eq!(summary.asset_currency, "USD");
}

#[test]
fn single_item() {
    let summaries = vec![make_test_summary(
        "AAPL",
        "AAPL Inc",
        dec("10"),
        dec("100.00"),
        dec("120.00"),
        "USD",
    )];
    let (total_cost, absolute_change) =
        calculate_portfolio_totals(&summaries, &RateTable::new(), "USD").unwrap();
    assert_eq!(total_cost, dec("1000.00"));
    assert_eq!(absolute_change, dec("200.00"));
}

#[test]
fn multiple_items_mixed_performance() {
    let summaries = vec![
        make_test_summary("AAPL", "AAPL Inc", dec("10"), dec("100.00"), dec("120.00"), "USD"),
        make_test_summary("GOOGL", "GOOGL Inc", dec("5"), dec("200.00"), dec("180.00"), "USD"),
    ];
    let (total_cost, absolute_change) =
        calculate_portfolio_totals(&summaries, &RateTable::new(), "USD").unwrap();
    assert_eq!(total_cost, dec("2000.00"));
    assert_eq!(absolute_change, dec("100.00"));
}

#[test]
fn empty_portfolio() {
    let response = build_portfolio_response(vec![], &RateTable::new(), "USD").unwrap();
    assert!(response.investments.is_empty());
    assert_eq!(response.total_cost, Money::zero());
    assert_eq!(response.absolute_change, Money::zero());
}

#[test]
fn with_multiple_items() {
    let items = vec![
        make_test_item("AAPL", dec("10"), dec("100.00"), dec("120.00"), Some("USD")),
        make_test_item("GOOGL", dec("5"), dec("200.00"), dec("180.00"), Some("USD")),
    ];
    let response = build_portfolio_response(items, &RateTable::new(), "USD").unwrap();
    assert_eq!(response.investments.len(), 2);
    assert_eq!(response.total_cost, dec("2000.00"));
    assert_eq!(response.absolute_change, dec("100.00"));
}

#[test]
fn tests_with_currency_conversion() {
    let items = vec![make_test_item(
        "AAPL",
        dec("10"),
        dec("100.00"),
        dec("120.00"),
        Some("USD"),
    )];
    let mut rates = RateTable::new();
    rates.insert("USD".to_string(), dec("1.35"));
    let response = build_portfolio_response(items, &rates, "SGD").unwrap();
    assert_eq!(response.total_cost, dec("1350.00"));
    assert_eq!(response.absolute_change, dec("270.00"));
    let inv = &response.investments[0];
    assert_eq!(inv.avg_buy_price_converted, dec("135.00"));
    assert_eq!(inv.current_price_converted, dec("162.00"));
    assert_eq!(inv.total_value_converted, dec("1620.00"));
}
