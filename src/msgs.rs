use vstd::prelude::*;
use crate::pair::{CurrencyPair, normalized, upper_of};

verus! {

/// A read request, one of a closed set of kinds.
#[derive(Clone, Debug)]
pub enum QueryMsg {
    Price { base: String, quote: String },
    Prices { currency_pair_ids: Vec<String> },
    CurrencyPairs {},
    Params {},
    LastUpdated {},
    MarketMap {},
    Market { currency_pair: CurrencyPair },
}

/// The read that answers a request, as the price source is asked for it.
#[derive(Clone, Debug)]
pub enum SourceCall {
    Price { base: String, quote: String },
    Prices { ids: Vec<String> },
    AllCurrencyPairs,
    Params,
    LastUpdated,
    MarketMap,
    Market { base: String, quote: String },
}

/// A request, over its characters.
pub enum QueryView {
    Price(Seq<char>, Seq<char>),
    Prices(Seq<Seq<char>>),
    CurrencyPairs,
    Params,
    LastUpdated,
    MarketMap,
    Market((Seq<char>, Seq<char>)),
}

/// A read of the price source, over its characters.
pub enum CallView {
    Price(Seq<char>, Seq<char>),
    Prices(Seq<Seq<char>>),
    AllCurrencyPairs,
    Params,
    LastUpdated,
    MarketMap,
    Market(Seq<char>, Seq<char>),
}

pub open spec fn ids_view(ids: Seq<String>) -> Seq<Seq<char>> {
    ids.map_values(|s: String| s@)
}

impl View for QueryMsg {
    type V = QueryView;

    open spec fn view(&self) -> QueryView {
        match self {
            QueryMsg::Price { base, quote } => QueryView::Price(base@, quote@),
            QueryMsg::Prices { currency_pair_ids } => QueryView::Prices(ids_view(currency_pair_ids@)),
            QueryMsg::CurrencyPairs {  } => QueryView::CurrencyPairs,
            QueryMsg::Params {  } => QueryView::Params,
            QueryMsg::LastUpdated {  } => QueryView::LastUpdated,
            QueryMsg::MarketMap {  } => QueryView::MarketMap,
            QueryMsg::Market { currency_pair } => QueryView::Market(currency_pair@),
        }
    }
}

impl View for SourceCall {
    type V = CallView;

    open spec fn view(&self) -> CallView {
        match self {
            SourceCall::Price { base, quote } => CallView::Price(base@, quote@),
            SourceCall::Prices { ids } => CallView::Prices(ids_view(ids@)),
            SourceCall::AllCurrencyPairs => CallView::AllCurrencyPairs,
            SourceCall::Params => CallView::Params,
            SourceCall::LastUpdated => CallView::LastUpdated,
            SourceCall::MarketMap => CallView::MarketMap,
            SourceCall::Market { base, quote } => CallView::Market(base@, quote@),
        }
    }
}

/// The read that answers a request: each kind maps to its own read, pairs
/// are looked up in normal form, and a list of identifiers is passed on as
/// one read, so that one unknown identifier fails the whole request.
pub open spec fn route(m: QueryView) -> CallView {
    match m {
        QueryView::Price(b, q) => CallView::Price(upper_of(b), upper_of(q)),
        QueryView::Prices(ids) => CallView::Prices(ids),
        QueryView::CurrencyPairs => CallView::AllCurrencyPairs,
        QueryView::Params => CallView::Params,
        QueryView::LastUpdated => CallView::LastUpdated,
        QueryView::MarketMap => CallView::MarketMap,
        QueryView::Market(p) => CallView::Market(normalized(p).0, normalized(p).1),
    }
}

/// Dispatches a request to the read of the price source that answers it.
pub fn query(msg: QueryMsg) -> (r: SourceCall)
    ensures
        r@ == route(msg@),
{
    match msg {
        QueryMsg::Price { base, quote } => {
            let p = CurrencyPair::new(base, quote).normalize();
            SourceCall::Price { base: p.base, quote: p.quote }
        },
        QueryMsg::Prices { currency_pair_ids } => SourceCall::Prices { ids: currency_pair_ids },
        QueryMsg::CurrencyPairs {  } => SourceCall::AllCurrencyPairs,
        QueryMsg::Params {  } => SourceCall::Params,
        QueryMsg::LastUpdated {  } => SourceCall::LastUpdated,
        QueryMsg::MarketMap {  } => SourceCall::MarketMap,
        QueryMsg::Market { currency_pair } => {
            let p = currency_pair.normalize();
            SourceCall::Market { base: p.base, quote: p.quote }
        },
    }
}

/// Pairs that agree once upper-cased are looked up identically, by a price
/// request and by a market request alike.
pub proof fn lemma_lookup_ignores_case(
    b1: Seq<char>,
    q1: Seq<char>,
    b2: Seq<char>,
    q2: Seq<char>,
)
    requires
        upper_of(b1) == upper_of(b2),
        upper_of(q1) == upper_of(q2),
    ensures
        route(QueryView::Price(b1, q1)) == route(QueryView::Price(b2, q2)),
        route(QueryView::Market((b1, q1))) == route(QueryView::Market((b2, q2))),
        route(QueryView::Price(b1, q1)) == CallView::Price(upper_of(b1), upper_of(q1)),
        route(QueryView::Market((b1, q1))) == CallView::Market(upper_of(b1), upper_of(q1)),
{
}

/// Dispatch keeps no state: the same request always asks for the same read.
pub proof fn lemma_query_repeatable(m1: QueryMsg, m2: QueryMsg, c1: SourceCall, c2: SourceCall)
    requires
        m1@ == m2@,
        c1@ == route(m1@),
        c2@ == route(m2@),
    ensures
        c1@ == c2@,
{
}

} // verus!
