//! Competitor offers, price benchmarks, profit floors and repricing strategies.

use vstd::prelude::*;
use crate::foundation::clone_vec_exact;
use crate::dropship_profit::{DropshipProfitCosts, dropship_profit_costs_total, profit_costs_total_spec};
use crate::dropshipping::{DropshipOffer};
use crate::foundation::{CompetitorId, Currency, DomainResult, Duration, Money, Sku, Timestamp, ValidationError, add_result, checked_add, nat_sub, nat_sub_spec, profit_amount, timestamp_age};

verus! {

#[derive(Debug, PartialEq, Eq, Structural)]
pub struct CompetitorOffer {
    pub(crate) competitor_id: CompetitorId,
    pub(crate) sku: Sku,
    pub(crate) price: Money,
    pub(crate) currency: Currency,
    pub(crate) active: bool,
    pub(crate) in_stock: bool,
    pub(crate) observed_at: Timestamp,
}

impl CompetitorOffer {
    pub open(crate) spec fn spec_competitor_id(&self) -> CompetitorId {
        self.competitor_id
    }

    pub open(crate) spec fn spec_sku(&self) -> Sku {
        self.sku
    }

    pub open(crate) spec fn spec_price(&self) -> Money {
        self.price
    }

    pub open(crate) spec fn spec_currency(&self) -> Currency {
        self.currency
    }

    pub open(crate) spec fn spec_active(&self) -> bool {
        self.active
    }

    pub open(crate) spec fn spec_in_stock(&self) -> bool {
        self.in_stock
    }

    pub open(crate) spec fn spec_observed_at(&self) -> Timestamp {
        self.observed_at
    }

    pub open(crate) spec fn spec_new(competitor_id: CompetitorId, sku: Sku, price: Money, currency: Currency, active: bool, in_stock: bool, observed_at: Timestamp) -> Self {
        CompetitorOffer { competitor_id, sku, price, currency, active, in_stock, observed_at }
    }
}

/// The accessors of a `CompetitorOffer` built by `spec_new` give back its parts.
pub broadcast proof fn lemma_competitor_offer_fields(competitor_id: CompetitorId, sku: Sku, price: Money, currency: Currency, active: bool, in_stock: bool, observed_at: Timestamp)
    ensures
        #[trigger] CompetitorOffer::spec_new(competitor_id, sku, price, currency, active, in_stock, observed_at).spec_competitor_id() == competitor_id
            && CompetitorOffer::spec_new(competitor_id, sku, price, currency, active, in_stock, observed_at).spec_sku() == sku
            && CompetitorOffer::spec_new(competitor_id, sku, price, currency, active, in_stock, observed_at).spec_price() == price
            && CompetitorOffer::spec_new(competitor_id, sku, price, currency, active, in_stock, observed_at).spec_currency() == currency
            && CompetitorOffer::spec_new(competitor_id, sku, price, currency, active, in_stock, observed_at).spec_active() == active
            && CompetitorOffer::spec_new(competitor_id, sku, price, currency, active, in_stock, observed_at).spec_in_stock() == in_stock
            && CompetitorOffer::spec_new(competitor_id, sku, price, currency, active, in_stock, observed_at).spec_observed_at() == observed_at,
{
}

impl Clone for CompetitorOffer {
    fn clone(&self) -> (r: Self)
        ensures
            r == *self,
    {
        CompetitorOffer { competitor_id: self.competitor_id, sku: self.sku, price: self.price, currency: self.currency, active: self.active, in_stock: self.in_stock, observed_at: self.observed_at }
    }
}

impl CompetitorOffer {
    pub fn new(competitor_id: CompetitorId, sku: Sku, price: Money, currency: Currency, active: bool, in_stock: bool, observed_at: Timestamp) -> (r: Self)
        ensures
            r == (CompetitorOffer::spec_new(competitor_id, sku, price, currency, active, in_stock, observed_at)),
    {
        CompetitorOffer { competitor_id, sku, price, currency, active, in_stock, observed_at }
    }

    pub fn try_new(competitor_id: CompetitorId, sku: Sku, price: Money, currency: Currency, active: bool, in_stock: bool, observed_at: Timestamp) -> (r: DomainResult<Self>)
        ensures
            r == Ok::<Self, ValidationError>(CompetitorOffer::spec_new(competitor_id, sku, price, currency, active, in_stock, observed_at)),
    {
        Ok(Self::new(competitor_id, sku, price, currency, active, in_stock, observed_at))
    }

    pub fn competitor_id(&self) -> (r: CompetitorId)
        ensures
            r == self.spec_competitor_id(),
    {
        self.competitor_id
    }

    pub fn sku(&self) -> (r: Sku)
        ensures
            r == self.spec_sku(),
    {
        self.sku
    }

    pub fn price(&self) -> (r: Money)
        ensures
            r == self.spec_price(),
    {
        self.price
    }

    pub fn currency(&self) -> (r: Currency)
        ensures
            r == self.spec_currency(),
    {
        self.currency
    }

    pub fn active(&self) -> (r: bool)
        ensures
            r == self.spec_active(),
    {
        self.active
    }

    pub fn in_stock(&self) -> (r: bool)
        ensures
            r == self.spec_in_stock(),
    {
        self.in_stock
    }

    pub fn observed_at(&self) -> (r: Timestamp)
        ensures
            r == self.spec_observed_at(),
    {
        self.observed_at
    }
}

#[derive(Clone, Copy, Debug, PartialEq, Eq, Structural)]
pub enum TrustLevel {
    Low,
    Medium,
    High,
}

#[derive(Debug, PartialEq, Eq)]
pub struct CompetitorPriceBenchmark {
    pub(crate) sku: Sku,
    pub(crate) currency: Currency,
    pub(crate) offers: Vec<CompetitorOffer>,
    pub(crate) best_offer: CompetitorOffer,
}

impl CompetitorPriceBenchmark {
    /// Equal fields, and equal contents for the vectors it holds.
    pub open spec fn same_content(self, other: Self) -> bool {
        self.spec_sku() == other.spec_sku()
            && self.spec_currency() == other.spec_currency()
            && self.spec_offers()@ == other.spec_offers()@
            && self.spec_best_offer() == other.spec_best_offer()
    }

    /// Every value satisfies what `try_new` checks.
    #[verifier::type_invariant]
    pub open spec fn valid(self) -> bool {
        benchmark_error(self.spec_sku(), self.spec_currency(), self.spec_offers()@, self.spec_best_offer()) is None
    }

    pub open(crate) spec fn spec_sku(&self) -> Sku {
        self.sku
    }

    pub open(crate) spec fn spec_currency(&self) -> Currency {
        self.currency
    }

    pub open(crate) spec fn spec_offers(&self) -> Vec<CompetitorOffer> {
        self.offers
    }

    pub open(crate) spec fn spec_best_offer(&self) -> CompetitorOffer {
        self.best_offer
    }

    pub open(crate) spec fn spec_new(sku: Sku, currency: Currency, offers: Vec<CompetitorOffer>, best_offer: CompetitorOffer) -> Self {
        CompetitorPriceBenchmark { sku, currency, offers, best_offer }
    }
}

/// The accessors of a `CompetitorPriceBenchmark` built by `spec_new` give back its parts.
pub broadcast proof fn lemma_competitor_price_benchmark_fields(sku: Sku, currency: Currency, offers: Vec<CompetitorOffer>, best_offer: CompetitorOffer)
    ensures
        #[trigger] CompetitorPriceBenchmark::spec_new(sku, currency, offers, best_offer).spec_sku() == sku
            && CompetitorPriceBenchmark::spec_new(sku, currency, offers, best_offer).spec_currency() == currency
            && CompetitorPriceBenchmark::spec_new(sku, currency, offers, best_offer).spec_offers() == offers
            && CompetitorPriceBenchmark::spec_new(sku, currency, offers, best_offer).spec_best_offer() == best_offer,
{
}

impl Clone for CompetitorPriceBenchmark {
    fn clone(&self) -> (r: Self)
        ensures
            r.same_content(*self),
    {
        proof {
            use_type_invariant(self);
        }
        CompetitorPriceBenchmark { sku: self.sku.clone(), currency: self.currency.clone(), offers: clone_vec_exact(&self.offers), best_offer: self.best_offer.clone() }
    }
}

#[derive(Clone, Copy, Debug, PartialEq, Eq, Structural)]
pub enum CompetitivePricingStrategy {
    Match,
    Undercut(Money),
    Premium(Money),
}

#[derive(Debug, PartialEq, Eq)]
pub struct CompetitorAwareDropshipOffer {
    pub(crate) offer: DropshipOffer,
    pub(crate) benchmark: CompetitorPriceBenchmark,
    pub(crate) discount: Money,
    pub(crate) costs: DropshipProfitCosts,
    pub(crate) min_profit: Money,
}

impl CompetitorAwareDropshipOffer {
    /// Equal fields, and equal contents for the vectors it holds.
    pub open spec fn same_content(self, other: Self) -> bool {
        self.spec_offer() == other.spec_offer()
            && self.spec_benchmark().same_content(other.spec_benchmark())
            && self.spec_discount() == other.spec_discount()
            && self.spec_costs() == other.spec_costs()
            && self.spec_min_profit() == other.spec_min_profit()
    }

    /// Every value satisfies what `try_new` checks.
    #[verifier::type_invariant]
    pub open spec fn valid(self) -> bool {
        competitor_aware_offer_error(self.spec_offer(), self.spec_benchmark(), self.spec_discount(), self.spec_costs(), self.spec_min_profit()) is None
    }

    pub open(crate) spec fn spec_offer(&self) -> DropshipOffer {
        self.offer
    }

    pub open(crate) spec fn spec_benchmark(&self) -> CompetitorPriceBenchmark {
        self.benchmark
    }

    pub open(crate) spec fn spec_discount(&self) -> Money {
        self.discount
    }

    pub open(crate) spec fn spec_costs(&self) -> DropshipProfitCosts {
        self.costs
    }

    pub open(crate) spec fn spec_min_profit(&self) -> Money {
        self.min_profit
    }

    pub open(crate) spec fn spec_new(offer: DropshipOffer, benchmark: CompetitorPriceBenchmark, discount: Money, costs: DropshipProfitCosts, min_profit: Money) -> Self {
        CompetitorAwareDropshipOffer { offer, benchmark, discount, costs, min_profit }
    }
}

/// The accessors of a `CompetitorAwareDropshipOffer` built by `spec_new` give back its parts.
pub broadcast proof fn lemma_competitor_aware_dropshipoffer_fields(offer: DropshipOffer, benchmark: CompetitorPriceBenchmark, discount: Money, costs: DropshipProfitCosts, min_profit: Money)
    ensures
        #[trigger] CompetitorAwareDropshipOffer::spec_new(offer, benchmark, discount, costs, min_profit).spec_offer() == offer
            && CompetitorAwareDropshipOffer::spec_new(offer, benchmark, discount, costs, min_profit).spec_benchmark() == benchmark
            && CompetitorAwareDropshipOffer::spec_new(offer, benchmark, discount, costs, min_profit).spec_discount() == discount
            && CompetitorAwareDropshipOffer::spec_new(offer, benchmark, discount, costs, min_profit).spec_costs() == costs
            && CompetitorAwareDropshipOffer::spec_new(offer, benchmark, discount, costs, min_profit).spec_min_profit() == min_profit,
{
}

impl Clone for CompetitorAwareDropshipOffer {
    fn clone(&self) -> (r: Self)
        ensures
            r.same_content(*self),
    {
        proof {
            use_type_invariant(self);
        }
        CompetitorAwareDropshipOffer { offer: self.offer.clone(), benchmark: self.benchmark.clone(), discount: self.discount.clone(), costs: self.costs.clone(), min_profit: self.min_profit.clone() }
    }
}

impl CompetitorPriceBenchmark {
    pub fn sku(&self) -> (r: Sku)
        ensures
            r == self.spec_sku(),
    {
        self.sku
    }

    pub fn currency(&self) -> (r: Currency)
        ensures
            r == self.spec_currency(),
    {
        self.currency
    }

    pub fn offers(&self) -> (r: &[CompetitorOffer])
        ensures
            r@ == self.spec_offers()@,
    {
        self.offers.as_slice()
    }
}

impl CompetitorAwareDropshipOffer {
    pub fn offer(&self) -> (r: &DropshipOffer)
        ensures
            *r == self.spec_offer(),
    {
        &self.offer
    }

    pub fn benchmark(&self) -> (r: &CompetitorPriceBenchmark)
        ensures
            *r == self.spec_benchmark(),
    {
        &self.benchmark
    }

    pub fn discount(&self) -> (r: Money)
        ensures
            r == self.spec_discount(),
    {
        self.discount
    }

    pub fn costs(&self) -> (r: &DropshipProfitCosts)
        ensures
            *r == self.spec_costs(),
    {
        &self.costs
    }

    pub fn min_profit(&self) -> (r: Money)
        ensures
            r == self.spec_min_profit(),
    {
        self.min_profit
    }
}

pub open spec fn offer_relevant_spec(offer: CompetitorOffer, sku: Sku, currency: Currency) -> bool {
    offer.spec_sku() == sku && offer.spec_currency() == currency && offer.spec_active() && offer.spec_in_stock()
}

pub fn competitor_offer_relevant(offer: &CompetitorOffer, sku: Sku, currency: Currency) -> (r: bool)
    ensures
        r == offer_relevant_spec(*offer, sku, currency),
        r ==> offer.spec_active() && offer.spec_in_stock() && offer.spec_sku() == sku && offer.spec_currency() == currency,
{
    offer.sku == sku && offer.currency == currency && offer.active && offer.in_stock
}

pub open spec fn snapshot_fresh_spec(now: Timestamp, max_age: Duration, observed_at: Timestamp) -> bool {
    observed_at.spec_seconds() <= now.spec_seconds() && now.spec_seconds() - observed_at.spec_seconds() <= max_age.spec_seconds()
}

/// Observed no later than `now` and at most `max_age` ago.
pub fn price_snapshot_fresh(now: Timestamp, max_age: Duration, observed_at: Timestamp) -> (r: bool)
    ensures
        r == snapshot_fresh_spec(now, max_age, observed_at),
{
    observed_at.seconds <= now.seconds && timestamp_age(now, observed_at).seconds <= max_age.seconds
}

pub fn trust_allows_auto_repricing(trust: TrustLevel) -> (r: bool)
    ensures
        r == (trust == TrustLevel::Medium || trust == TrustLevel::High),
{
    match trust {
        TrustLevel::Medium | TrustLevel::High => true,
        TrustLevel::Low => false,
    }
}

/// `best_offer` occurs in `offers`, is relevant, and no relevant offer is cheaper.
pub open spec fn benchmark_error(sku: Sku, currency: Currency, offers: Seq<CompetitorOffer>, best_offer: CompetitorOffer) -> Option<ValidationError> {
    if !offers.contains(best_offer) {
        Some(ValidationError::Invariant("best offer must be in offers"))
    } else if !offer_relevant_spec(best_offer, sku, currency) {
        Some(ValidationError::Invariant("best offer must be relevant"))
    } else if exists|i: int| 0 <= i < offers.len() && offer_relevant_spec(offers[i], sku, currency) && best_offer.spec_price() > offers[i].spec_price() {
        Some(ValidationError::Invariant("best offer must be the lowest relevant offer"))
    } else {
        None
    }
}

fn offers_contain(offers: &Vec<CompetitorOffer>, offer: &CompetitorOffer) -> (r: bool)
    ensures
        r == offers@.contains(*offer),
{
    let mut i: usize = 0;
    while i < offers.len()
        invariant
            i <= offers.len(),
            forall|j: int| 0 <= j < i ==> offers@[j] != *offer,
        decreases offers.len() - i,
    {
        if offers[i] == *offer {
            return true;
        }
        i += 1;
    }
    false
}

impl CompetitorPriceBenchmark {
    pub fn try_new(sku: Sku, currency: Currency, offers: Vec<CompetitorOffer>, best_offer: CompetitorOffer) -> (r: DomainResult<Self>)
        ensures
            r == (match benchmark_error(sku, currency, offers@, best_offer) {
                Some(e) => Err(e),
                None => Ok(CompetitorPriceBenchmark::spec_new(sku, currency, offers, best_offer)),
            }),
    {
        if !offers_contain(&offers, &best_offer) {
            return Err(ValidationError::Invariant("best offer must be in offers"));
        }
        if !competitor_offer_relevant(&best_offer, sku, currency) {
            return Err(ValidationError::Invariant("best offer must be relevant"));
        }
        let mut i: usize = 0;
        while i < offers.len()
            invariant
                i <= offers.len(),
                offers@.contains(best_offer),
                offer_relevant_spec(best_offer, sku, currency),
                forall|j: int| 0 <= j < i ==> !(offer_relevant_spec(offers@[j], sku, currency) && best_offer.price > offers@[j].price),
            decreases offers.len() - i,
        {
            if competitor_offer_relevant(&offers[i], sku, currency) && best_offer.price > offers[i].price {
                proof {
                    assert(0 <= i < offers@.len() && offer_relevant_spec(offers@[i as int], sku, currency) && best_offer.price > offers@[i as int].price);
                }
                return Err(ValidationError::Invariant("best offer must be the lowest relevant offer"));
            }
            i += 1;
        }
        Ok(Self { sku, currency, offers, best_offer })
    }

    pub fn best_offer(&self) -> (r: &CompetitorOffer)
        ensures
            *r == self.spec_best_offer(),
    {
        &self.best_offer
    }
}

pub fn customer_net_at_offer_price(price: Money, discount: Money) -> (r: Money)
    ensures
        r == nat_sub_spec(price as int, discount as int),
{
    nat_sub(price, discount)
}

pub fn profit_at_offer_price(price: Money, discount: Money, costs: &DropshipProfitCosts) -> (r: DomainResult<Money>)
    ensures
        r == (match profit_costs_total_spec(*costs) {
            Err(e) => Err(e),
            Ok(total) => Ok(nat_sub_spec(nat_sub_spec(price as int, discount as int), total as int) as u128),
        }),
{
    match dropship_profit_costs_total(costs) {
        Err(e) => Err(e),
        Ok(total) => Ok(profit_amount(customer_net_at_offer_price(price, discount), total)),
    }
}

/// Costs plus minimum profit plus discount: the lowest price that keeps the profit.
pub open spec fn price_floor_spec(costs: DropshipProfitCosts, min_profit: u128, discount: u128) -> DomainResult<u128> {
    match profit_costs_total_spec(costs) {
        Err(e) => Err(e),
        Ok(total) => match add_result(total as int, min_profit as int, "profitable_price_floor profit") {
            Err(e) => Err(e),
            Ok(v) => add_result(v as int, discount as int, "profitable_price_floor discount"),
        },
    }
}

pub fn profitable_price_floor(costs: &DropshipProfitCosts, min_profit: Money, discount: Money) -> (r: DomainResult<Money>)
    ensures
        r == price_floor_spec(*costs, min_profit, discount),
{
    match dropship_profit_costs_total(costs) {
        Err(e) => Err(e),
        Ok(total) => match checked_add(total, min_profit, "profitable_price_floor profit") {
            Err(e) => Err(e),
            Ok(v) => checked_add(v, discount, "profitable_price_floor discount"),
        },
    }
}

pub open spec fn price_profitable_spec(price: u128, discount: u128, costs: DropshipProfitCosts, min_profit: u128) -> DomainResult<bool> {
    match price_floor_spec(costs, min_profit, discount) {
        Err(e) => Err(e),
        Ok(floor) => Ok(floor <= price),
    }
}

pub fn price_profitable_for_min_profit(price: Money, discount: Money, costs: &DropshipProfitCosts, min_profit: Money) -> (r: DomainResult<bool>)
    ensures
        r == price_profitable_spec(price, discount, *costs, min_profit),
{
    match profitable_price_floor(costs, min_profit, discount) {
        Err(e) => Err(e),
        Ok(floor) => Ok(floor <= price),
    }
}

pub fn price_at_or_below_competitor(own_price: Money, competitor_price: Money) -> (r: bool)
    ensures
        r == (own_price <= competitor_price),
{
    own_price <= competitor_price
}

pub fn undercut_price(competitor_price: Money, delta: Money) -> (r: Money)
    ensures
        r == nat_sub_spec(competitor_price as int, delta as int),
{
    nat_sub(competitor_price, delta)
}

pub fn target_price_from_strategy(strategy: CompetitivePricingStrategy, reference_price: Money) -> (r: DomainResult<Money>)
    ensures
        r == (match strategy {
            CompetitivePricingStrategy::Match => Ok(reference_price),
            CompetitivePricingStrategy::Undercut(delta) => Ok(nat_sub_spec(reference_price as int, delta as int) as u128),
            CompetitivePricingStrategy::Premium(premium) => add_result(reference_price as int, premium as int, "target_price_from_strategy"),
        }),
{
    match strategy {
        CompetitivePricingStrategy::Match => Ok(reference_price),
        CompetitivePricingStrategy::Undercut(delta) => Ok(undercut_price(reference_price, delta)),
        CompetitivePricingStrategy::Premium(premium) => checked_add(reference_price, premium, "target_price_from_strategy"),
    }
}

/// The first check a competitor-aware offer fails, if any.
pub open spec fn competitor_aware_offer_error(offer: DropshipOffer, benchmark: CompetitorPriceBenchmark, discount: u128, costs: DropshipProfitCosts, min_profit: u128) -> Option<ValidationError> {
    if benchmark.spec_sku() != offer.spec_sku() {
        Some(ValidationError::Invariant("benchmark SKU mismatch"))
    } else if benchmark.spec_currency() != offer.spec_currency() {
        Some(ValidationError::Invariant("benchmark currency mismatch"))
    } else {
        match price_profitable_spec(offer.spec_sale_unit_price(), discount, costs, min_profit) {
            Err(e) => Some(e),
            Ok(ok) => if !ok {
                Some(ValidationError::Invariant("offer price below profit floor"))
            } else if offer.spec_sale_unit_price() > benchmark.spec_best_offer().spec_price() {
                Some(ValidationError::Invariant("offer price exceeds best competitor price"))
            } else {
                None
            },
        }
    }
}

impl CompetitorAwareDropshipOffer {
    pub fn try_new(offer: DropshipOffer, benchmark: CompetitorPriceBenchmark, discount: Money, costs: DropshipProfitCosts, min_profit: Money) -> (r: DomainResult<Self>)
        ensures
            r == (match competitor_aware_offer_error(offer, benchmark, discount, costs, min_profit) {
                Some(e) => Err(e),
                None => Ok(CompetitorAwareDropshipOffer::spec_new(offer, benchmark, discount, costs, min_profit)),
            }),
    {
        if benchmark.sku != offer.sku() {
            return Err(ValidationError::Invariant("benchmark SKU mismatch"));
        }
        if benchmark.currency != offer.currency() {
            return Err(ValidationError::Invariant("benchmark currency mismatch"));
        }
        match price_profitable_for_min_profit(offer.sale_unit_price(), discount, &costs, min_profit) {
            Err(e) => return Err(e),
            Ok(ok) => if !ok {
                return Err(ValidationError::Invariant("offer price below profit floor"));
            },
        }
        if offer.sale_unit_price() > benchmark.best_offer.price {
            return Err(ValidationError::Invariant("offer price exceeds best competitor price"));
        }
        Ok(Self { offer, benchmark, discount, costs, min_profit })
    }
}

/// The accessor lemmas for the records of this module.
pub broadcast group group_competitor_pricing_record_fields {
    lemma_competitor_offer_fields,
    lemma_competitor_price_benchmark_fields,
    lemma_competitor_aware_dropshipoffer_fields,
}


/// Only live offers count: an offer is relevant to a SKU and currency exactly
/// when it is active, in stock, for that SKU and in that currency. So a
/// benchmark's best offer is live, and no live offer for its SKU and currency
/// is cheaper.
pub proof fn lemma_relevant_offers_are_live(offer: CompetitorOffer, sku: Sku, currency: Currency, benchmark: CompetitorPriceBenchmark)
    ensures
        offer_relevant_spec(offer, sku, currency) ==> offer.spec_active() && offer.spec_in_stock(),
        offer_relevant_spec(offer, sku, currency) ==> offer.spec_sku() == sku && offer.spec_currency() == currency,
        offer.spec_active() && offer.spec_in_stock() && offer.spec_sku() == sku && offer.spec_currency() == currency
            ==> offer_relevant_spec(offer, sku, currency),
        benchmark.valid() ==> {
            let best = benchmark.spec_best_offer();
            &&& best.spec_active() && best.spec_in_stock()
            &&& best.spec_sku() == benchmark.spec_sku() && best.spec_currency() == benchmark.spec_currency()
            &&& forall|i: int| #![trigger benchmark.spec_offers()@[i]] 0 <= i < benchmark.spec_offers()@.len()
                && benchmark.spec_offers()@[i].spec_active() && benchmark.spec_offers()@[i].spec_in_stock()
                && benchmark.spec_offers()@[i].spec_sku() == benchmark.spec_sku()
                && benchmark.spec_offers()@[i].spec_currency() == benchmark.spec_currency()
                ==> best.spec_price() <= benchmark.spec_offers()@[i].spec_price()
        },
{
    if benchmark.valid() {
        let offers = benchmark.spec_offers()@;
        let best = benchmark.spec_best_offer();
        assert forall|i: int| #![trigger offers[i]] 0 <= i < offers.len() && offers[i].spec_active() && offers[i].spec_in_stock()
            && offers[i].spec_sku() == benchmark.spec_sku() && offers[i].spec_currency() == benchmark.spec_currency()
            implies best.spec_price() <= offers[i].spec_price() by {
            assert(offer_relevant_spec(offers[i], benchmark.spec_sku(), benchmark.spec_currency()));
        }
    }
}


/// A snapshot is fresh exactly when it was observed no later than now and at
/// most `max_age` before; a larger allowed age keeps it fresh.
pub proof fn lemma_snapshot_freshness(now: Timestamp, max_age: Duration, longer: Duration, observed_at: Timestamp)
    ensures
        snapshot_fresh_spec(now, max_age, observed_at) ==> observed_at.spec_seconds() <= now.spec_seconds(),
        snapshot_fresh_spec(now, max_age, observed_at) ==> now.spec_seconds() - observed_at.spec_seconds() <= max_age.spec_seconds(),
        observed_at.spec_seconds() <= now.spec_seconds() && now.spec_seconds() - observed_at.spec_seconds() <= max_age.spec_seconds()
            ==> snapshot_fresh_spec(now, max_age, observed_at),
        snapshot_fresh_spec(now, max_age, observed_at) && max_age.spec_seconds() <= longer.spec_seconds()
            ==> snapshot_fresh_spec(now, longer, observed_at),
{
}

} // verus!
