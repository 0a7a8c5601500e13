use oracle_consumer::msgs::{query, QueryMsg, SourceCall};
use oracle_consumer::pair::CurrencyPair;

fn price_call(base: &str, quote: &str) -> (String, String) {
    match query(QueryMsg::Price { base: base.to_string(), quote: quote.to_string() }) {
        SourceCall::Price { base, quote } => (base, quote),
        other => panic!("unexpected read {:?}", other),
    }
}

fn market_call(base: &str, quote: &str) -> (String, String) {
    let pair = CurrencyPair::new(base.to_string(), quote.to_string());
    match query(QueryMsg::Market { currency_pair: pair }) {
        SourceCall::Market { base, quote } => (base, quote),
        other => panic!("unexpected read {:?}", other),
    }
}

#[test]
fn price_lookup_ignores_case() {
    assert_eq!(price_call("eth", "usd"), ("ETH".to_string(), "USD".to_string()));
    assert_eq!(price_call("eth", "usd"), price_call("ETH", "USD"));
    assert_eq!(price_call("Atom", "uSd"), ("ATOM".to_string(), "USD".to_string()));
}

#[test]
fn market_lookup_ignores_case() {
    assert_eq!(market_call("eth", "usd"), ("ETH".to_string(), "USD".to_string()));
    assert_eq!(market_call("eth", "usd"), market_call("ETH", "USD"));
}

#[test]
fn normalize_upper_cases_both_legs() {
    let p = CurrencyPair::new("btc".to_string(), "usdt".to_string()).normalize();
    assert_eq!(p.base, "BTC");
    assert_eq!(p.quote, "USDT");
    let e = CurrencyPair::new(String::new(), String::new()).normalize();
    assert_eq!(e.base, "");
    assert_eq!(e.quote, "");
}

#[test]
fn prices_are_read_in_one_request() {
    let ids = vec!["ETH/USD".to_string(), "unknownpair".to_string()];
    match query(QueryMsg::Prices { currency_pair_ids: ids.clone() }) {
        SourceCall::Prices { ids: asked } => assert_eq!(asked, ids),
        other => panic!("unexpected read {:?}", other),
    }
}

#[test]
fn each_kind_has_its_own_read() {
    assert!(matches!(query(QueryMsg::CurrencyPairs {}), SourceCall::AllCurrencyPairs));
    assert!(matches!(query(QueryMsg::Params {}), SourceCall::Params));
    assert!(matches!(query(QueryMsg::LastUpdated {}), SourceCall::LastUpdated));
    assert!(matches!(query(QueryMsg::MarketMap {}), SourceCall::MarketMap));
}

#[test]
fn same_request_twice_asks_the_same() {
    assert_eq!(price_call("atom", "usd"), price_call("atom", "usd"));
    assert_eq!(market_call("atom", "usd"), market_call("atom", "usd"));
}
