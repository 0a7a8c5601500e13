use vstd::prelude::*;

verus! {

/// What `str::to_uppercase` makes of a sequence of characters.
pub uninterp spec fn upper_of(s: Seq<char>) -> Seq<char>;

/// Relies on `str::to_uppercase`: the result depends on the characters alone,
/// and the empty string stays empty.
#[verifier::external_body]
fn uppercase(s: &str) -> (r: String)
    ensures
        r@ == upper_of(s@),
        s@.len() == 0 ==> r@.len() == 0,
{
    s.to_uppercase()
}

/// A currency pair: a base symbol quoted in a quote symbol.
#[derive(Clone, Debug)]
pub struct CurrencyPair {
    pub base: String,
    pub quote: String,
}

impl View for CurrencyPair {
    type V = (Seq<char>, Seq<char>);

    open spec fn view(&self) -> (Seq<char>, Seq<char>) {
        (self.base@, self.quote@)
    }
}

/// The normal form of a pair: both legs upper-cased.
pub open spec fn normalized(p: (Seq<char>, Seq<char>)) -> (Seq<char>, Seq<char>) {
    (upper_of(p.0), upper_of(p.1))
}

impl CurrencyPair {
    pub fn new(base: String, quote: String) -> (r: CurrencyPair)
        ensures
            r@ == (base@, quote@),
    {
        CurrencyPair { base, quote }
    }

    /// The pair with both legs upper-cased; pairs that differ only in case
    /// have the same normal form.
    pub fn normalize(&self) -> (r: CurrencyPair)
        ensures
            r@ == normalized(self@),
    {
        CurrencyPair { base: uppercase(self.base.as_str()), quote: uppercase(self.quote.as_str()) }
    }
}

} // verus!
