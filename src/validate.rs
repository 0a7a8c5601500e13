use vstd::prelude::*;

verus! {

/// How many blocks old a price may be and still be used, unless a validator
/// is configured otherwise.
pub const DEFAULT_MAX_PRICE_AGE: u64 = 3;

/// What the market registry says of a pair.
#[derive(Clone, Copy, Debug, PartialEq, Eq, Structural)]
pub struct MarketEntry {
    pub enabled: bool,
}

/// The oracle's current price for a pair.
#[derive(Clone, Copy, Debug, PartialEq, Eq, Structural)]
pub struct PriceObservation {
    pub price: i128,
    /// Counts the updates of the price; zero means it was never set.
    pub nonce: u64,
    /// The block at which the price was last updated, if recorded.
    pub block_height: Option<u64>,
}

/// Why a price was refused.
#[derive(Clone, Copy, Debug, PartialEq, Eq, Structural)]
pub enum Rejection {
    MarketDisabled,
    NeverUpdated,
    MissingHeight,
    Stale,
}

/// A price that passed every check. Only a `PriceValidator` makes one.
#[derive(Clone, Copy, Debug, PartialEq, Eq)]
pub struct ValidatedPrice {
    value: i128,
}

impl View for ValidatedPrice {
    type V = i128;

    closed spec fn view(&self) -> i128 {
        self.value
    }
}

impl ValidatedPrice {
    pub fn value(&self) -> (r: i128)
        ensures
            r == self@,
    {
        self.value
    }
}

/// The price was last updated more than `max_age` blocks before `current_height`.
/// A height in the future is not stale.
pub open spec fn is_stale(block_height: u64, current_height: u64, max_age: u64) -> bool {
    current_height - block_height > max_age
}

/// The verdict on an observation of an enabled market.
pub open spec fn observation_verdict(
    obs: PriceObservation,
    current_height: u64,
    max_age: u64,
) -> Result<i128, Rejection> {
    if obs.nonce == 0 {
        Err(Rejection::NeverUpdated)
    } else {
        match obs.block_height {
            None => Err(Rejection::MissingHeight),
            Some(h) => if is_stale(h, current_height, max_age) {
                Err(Rejection::Stale)
            } else {
                Ok(obs.price)
            },
        }
    }
}

/// The verdict on a price: the market first, then the observation.
pub open spec fn verdict(
    market: MarketEntry,
    obs: PriceObservation,
    current_height: u64,
    max_age: u64,
) -> Result<i128, Rejection> {
    if !market.enabled {
        Err(Rejection::MarketDisabled)
    } else {
        observation_verdict(obs, current_height, max_age)
    }
}

/// The price carried by a result, or its rejection.
pub open spec fn verdict_of(r: Result<ValidatedPrice, Rejection>) -> Result<i128, Rejection> {
    match r {
        Ok(v) => Ok(v@),
        Err(e) => Err(e),
    }
}

/// Decides whether prices are fit to act on, given how many blocks old they
/// may be.
#[derive(Clone, Copy, Debug)]
pub struct PriceValidator {
    pub max_price_age: u64,
}

impl PriceValidator {
    pub fn new(max_price_age: u64) -> (r: PriceValidator)
        ensures
            r.max_price_age == max_price_age,
    {
        PriceValidator { max_price_age }
    }

    /// A validator with the default freshness bound.
    pub fn standard() -> (r: PriceValidator)
        ensures
            r.max_price_age == DEFAULT_MAX_PRICE_AGE,
    {
        PriceValidator { max_price_age: DEFAULT_MAX_PRICE_AGE }
    }

    /// The first stage: a disabled market is refused, whatever its price.
    pub fn check_market(&self, market: &MarketEntry) -> (r: Result<(), Rejection>)
        ensures
            r is Ok <==> market.enabled,
            r is Err ==> r == Err::<(), Rejection>(Rejection::MarketDisabled),
    {
        if market.enabled {
            Ok(())
        } else {
            Err(Rejection::MarketDisabled)
        }
    }

    /// The later stages, on the price of an enabled market: it must have been
    /// set, its height recorded, and it must not be stale.
    pub fn check_observation(&self, obs: &PriceObservation, current_height: u64) -> (r: Result<
        ValidatedPrice,
        Rejection,
    >)
        ensures
            verdict_of(r) == observation_verdict(*obs, current_height, self.max_price_age),
    {
        if obs.nonce == 0 {
            return Err(Rejection::NeverUpdated);
        }
        match obs.block_height {
            None => Err(Rejection::MissingHeight),
            Some(h) => {
                if h <= current_height && current_height - h > self.max_price_age {
                    Err(Rejection::Stale)
                } else {
                    Ok(ValidatedPrice { value: obs.price })
                }
            },
        }
    }

    /// All stages in order; the first that fails gives the rejection.
    pub fn validate(&self, market: &MarketEntry, obs: &PriceObservation, current_height: u64) -> (r:
        Result<ValidatedPrice, Rejection>)
        ensures
            verdict_of(r) == verdict(*market, *obs, current_height, self.max_price_age),
    {
        match self.check_market(market) {
            Err(e) => Err(e),
            Ok(()) => self.check_observation(obs, current_height),
        }
    }
}

/// A disabled market is refused, whatever the nonce and the age of its price.
pub proof fn lemma_disabled_market_refused(
    market: MarketEntry,
    obs: PriceObservation,
    current_height: u64,
    max_age: u64,
)
    requires
        !market.enabled,
    ensures
        verdict(market, obs, current_height, max_age) == Err::<i128, Rejection>(
            Rejection::MarketDisabled,
        ),
{
}

/// A price that was never updated yields no value; on an enabled market it is
/// refused as never updated.
pub proof fn lemma_never_updated_refused(
    market: MarketEntry,
    obs: PriceObservation,
    current_height: u64,
    max_age: u64,
)
    requires
        obs.nonce == 0,
    ensures
        verdict(market, obs, current_height, max_age) is Err,
        market.enabled ==> verdict(market, obs, current_height, max_age) == Err::<i128, Rejection>(
            Rejection::NeverUpdated,
        ),
{
}

/// On an enabled market with a price that was set at a recorded height, the
/// price is refused as stale exactly when its age exceeds the bound: an age
/// equal to the bound is accepted.
pub proof fn lemma_staleness_bound(
    market: MarketEntry,
    obs: PriceObservation,
    current_height: u64,
    max_age: u64,
)
    requires
        market.enabled,
        obs.nonce != 0,
        obs.block_height is Some,
    ensures
        current_height - obs.block_height->0 > max_age ==> verdict(
            market,
            obs,
            current_height,
            max_age,
        ) == Err::<i128, Rejection>(Rejection::Stale),
        current_height - obs.block_height->0 == max_age ==> verdict(
            market,
            obs,
            current_height,
            max_age,
        ) == Ok::<i128, Rejection>(obs.price),
{
}

/// Validating the same data twice gives the same verdict.
pub proof fn lemma_verdict_repeatable(
    market: MarketEntry,
    obs: PriceObservation,
    current_height: u64,
    max_age: u64,
    r1: Result<ValidatedPrice, Rejection>,
    r2: Result<ValidatedPrice, Rejection>,
)
    requires
        verdict_of(r1) == verdict(market, obs, current_height, max_age),
        verdict_of(r2) == verdict(market, obs, current_height, max_age),
    ensures
        verdict_of(r1) == verdict_of(r2),
{
}

} // verus!
