//! Dropship opportunities sourced from distributors, and portfolios of them
//! bounded by an investment fund.

use vstd::prelude::*;
use crate::foundation::clone_vec_exact;
use crate::competitor_pricing::{price_profitable_for_min_profit, price_profitable_spec};
use crate::dropship_profit::{DropshipProfitCosts};
use crate::foundation::{Currency, DomainResult, Money, Nat, Quantity, Sku, SupplierId, ValidationError, checked_add, lemma_sum_nat_prefix_le, lemma_sum_nat_take_all, lemma_sum_nat_take_step, sum_nat, total_result};

verus! {

#[derive(Debug, PartialEq, Eq, Structural)]
pub struct DistributorProduct {
    pub(crate) distributor_id: SupplierId,
    pub(crate) sku: Sku,
    pub(crate) unit_cost: Money,
    pub(crate) supplier_shipping_per_unit: Money,
    pub(crate) available_qty: Quantity,
    pub(crate) min_order_qty: Quantity,
    pub(crate) currency: Currency,
    pub(crate) active: bool,
}

impl DistributorProduct {
    pub open(crate) spec fn spec_distributor_id(&self) -> SupplierId {
        self.distributor_id
    }

    pub open(crate) spec fn spec_sku(&self) -> Sku {
        self.sku
    }

    pub open(crate) spec fn spec_unit_cost(&self) -> Money {
        self.unit_cost
    }

    pub open(crate) spec fn spec_supplier_shipping_per_unit(&self) -> Money {
        self.supplier_shipping_per_unit
    }

    pub open(crate) spec fn spec_available_qty(&self) -> Quantity {
        self.available_qty
    }

    pub open(crate) spec fn spec_min_order_qty(&self) -> Quantity {
        self.min_order_qty
    }

    pub open(crate) spec fn spec_currency(&self) -> Currency {
        self.currency
    }

    pub open(crate) spec fn spec_active(&self) -> bool {
        self.active
    }

    pub open(crate) spec fn spec_new(distributor_id: SupplierId, sku: Sku, unit_cost: Money, supplier_shipping_per_unit: Money, available_qty: Quantity, min_order_qty: Quantity, currency: Currency, active: bool) -> Self {
        DistributorProduct { distributor_id, sku, unit_cost, supplier_shipping_per_unit, available_qty, min_order_qty, currency, active }
    }
}

/// The accessors of a `DistributorProduct` built by `spec_new` give back its parts.
pub broadcast proof fn lemma_distributor_product_fields(distributor_id: SupplierId, sku: Sku, unit_cost: Money, supplier_shipping_per_unit: Money, available_qty: Quantity, min_order_qty: Quantity, currency: Currency, active: bool)
    ensures
        #[trigger] DistributorProduct::spec_new(distributor_id, sku, unit_cost, supplier_shipping_per_unit, available_qty, min_order_qty, currency, active).spec_distributor_id() == distributor_id
            && DistributorProduct::spec_new(distributor_id, sku, unit_cost, supplier_shipping_per_unit, available_qty, min_order_qty, currency, active).spec_sku() == sku
            && DistributorProduct::spec_new(distributor_id, sku, unit_cost, supplier_shipping_per_unit, available_qty, min_order_qty, currency, active).spec_unit_cost() == unit_cost
            && DistributorProduct::spec_new(distributor_id, sku, unit_cost, supplier_shipping_per_unit, available_qty, min_order_qty, currency, active).spec_supplier_shipping_per_unit() == supplier_shipping_per_unit
            && DistributorProduct::spec_new(distributor_id, sku, unit_cost, supplier_shipping_per_unit, available_qty, min_order_qty, currency, active).spec_available_qty() == available_qty
            && DistributorProduct::spec_new(distributor_id, sku, unit_cost, supplier_shipping_per_unit, available_qty, min_order_qty, currency, active).spec_min_order_qty() == min_order_qty
            && DistributorProduct::spec_new(distributor_id, sku, unit_cost, supplier_shipping_per_unit, available_qty, min_order_qty, currency, active).spec_currency() == currency
            && DistributorProduct::spec_new(distributor_id, sku, unit_cost, supplier_shipping_per_unit, available_qty, min_order_qty, currency, active).spec_active() == active,
{
}

impl Clone for DistributorProduct {
    fn clone(&self) -> (r: Self)
        ensures
            r == *self,
    {
        DistributorProduct { distributor_id: self.distributor_id, sku: self.sku, unit_cost: self.unit_cost, supplier_shipping_per_unit: self.supplier_shipping_per_unit, available_qty: self.available_qty, min_order_qty: self.min_order_qty, currency: self.currency, active: self.active }
    }
}

impl DistributorProduct {
    pub fn new(distributor_id: SupplierId, sku: Sku, unit_cost: Money, supplier_shipping_per_unit: Money, available_qty: Quantity, min_order_qty: Quantity, currency: Currency, active: bool) -> (r: Self)
        ensures
            r == (DistributorProduct::spec_new(distributor_id, sku, unit_cost, supplier_shipping_per_unit, available_qty, min_order_qty, currency, active)),
    {
        DistributorProduct { distributor_id, sku, unit_cost, supplier_shipping_per_unit, available_qty, min_order_qty, currency, active }
    }

    pub fn try_new(distributor_id: SupplierId, sku: Sku, unit_cost: Money, supplier_shipping_per_unit: Money, available_qty: Quantity, min_order_qty: Quantity, currency: Currency, active: bool) -> (r: DomainResult<Self>)
        ensures
            r == Ok::<Self, ValidationError>(DistributorProduct::spec_new(distributor_id, sku, unit_cost, supplier_shipping_per_unit, available_qty, min_order_qty, currency, active)),
    {
        Ok(Self::new(distributor_id, sku, unit_cost, supplier_shipping_per_unit, available_qty, min_order_qty, currency, active))
    }

    pub fn distributor_id(&self) -> (r: SupplierId)
        ensures
            r == self.spec_distributor_id(),
    {
        self.distributor_id
    }

    pub fn sku(&self) -> (r: Sku)
        ensures
            r == self.spec_sku(),
    {
        self.sku
    }

    pub fn unit_cost(&self) -> (r: Money)
        ensures
            r == self.spec_unit_cost(),
    {
        self.unit_cost
    }

    pub fn supplier_shipping_per_unit(&self) -> (r: Money)
        ensures
            r == self.spec_supplier_shipping_per_unit(),
    {
        self.supplier_shipping_per_unit
    }

    pub fn available_qty(&self) -> (r: Quantity)
        ensures
            r == self.spec_available_qty(),
    {
        self.available_qty
    }

    pub fn min_order_qty(&self) -> (r: Quantity)
        ensures
            r == self.spec_min_order_qty(),
    {
        self.min_order_qty
    }

    pub fn currency(&self) -> (r: Currency)
        ensures
            r == self.spec_currency(),
    {
        self.currency
    }

    pub fn active(&self) -> (r: bool)
        ensures
            r == self.spec_active(),
    {
        self.active
    }
}

#[derive(Debug, PartialEq, Eq, Structural)]
pub struct DropshipOpportunityCandidate {
    pub(crate) sku: Sku,
    pub(crate) units: Quantity,
    pub(crate) target_price: Money,
    pub(crate) required_capital: Money,
    pub(crate) expected_profit: Money,
    pub(crate) min_profit: Money,
    pub(crate) competitor_price: Money,
    pub(crate) costs: DropshipProfitCosts,
}

impl DropshipOpportunityCandidate {
    /// Every value satisfies what `try_new` checks.
    #[verifier::type_invariant]
    pub open spec fn valid(self) -> bool {
        opportunity_candidate_error(self.spec_target_price(), self.spec_required_capital(), self.spec_expected_profit(), self.spec_min_profit(), self.spec_competitor_price(), self.spec_costs()) is None
    }

    pub open(crate) spec fn spec_sku(&self) -> Sku {
        self.sku
    }

    pub open(crate) spec fn spec_units(&self) -> Quantity {
        self.units
    }

    pub open(crate) spec fn spec_target_price(&self) -> Money {
        self.target_price
    }

    pub open(crate) spec fn spec_required_capital(&self) -> Money {
        self.required_capital
    }

    pub open(crate) spec fn spec_expected_profit(&self) -> Money {
        self.expected_profit
    }

    pub open(crate) spec fn spec_min_profit(&self) -> Money {
        self.min_profit
    }

    pub open(crate) spec fn spec_competitor_price(&self) -> Money {
        self.competitor_price
    }

    pub open(crate) spec fn spec_costs(&self) -> DropshipProfitCosts {
        self.costs
    }

    pub open(crate) spec fn spec_new(sku: Sku, units: Quantity, target_price: Money, required_capital: Money, expected_profit: Money, min_profit: Money, competitor_price: Money, costs: DropshipProfitCosts) -> Self {
        DropshipOpportunityCandidate { sku, units, target_price, required_capital, expected_profit, min_profit, competitor_price, costs }
    }
}

/// The accessors of a `DropshipOpportunityCandidate` built by `spec_new` give back its parts.
pub broadcast proof fn lemma_dropshipopportunity_candidate_fields(sku: Sku, units: Quantity, target_price: Money, required_capital: Money, expected_profit: Money, min_profit: Money, competitor_price: Money, costs: DropshipProfitCosts)
    ensures
        #[trigger] DropshipOpportunityCandidate::spec_new(sku, units, target_price, required_capital, expected_profit, min_profit, competitor_price, costs).spec_sku() == sku
            && DropshipOpportunityCandidate::spec_new(sku, units, target_price, required_capital, expected_profit, min_profit, competitor_price, costs).spec_units() == units
            && DropshipOpportunityCandidate::spec_new(sku, units, target_price, required_capital, expected_profit, min_profit, competitor_price, costs).spec_target_price() == target_price
            && DropshipOpportunityCandidate::spec_new(sku, units, target_price, required_capital, expected_profit, min_profit, competitor_price, costs).spec_required_capital() == required_capital
            && DropshipOpportunityCandidate::spec_new(sku, units, target_price, required_capital, expected_profit, min_profit, competitor_price, costs).spec_expected_profit() == expected_profit
            && DropshipOpportunityCandidate::spec_new(sku, units, target_price, required_capital, expected_profit, min_profit, competitor_price, costs).spec_min_profit() == min_profit
            && DropshipOpportunityCandidate::spec_new(sku, units, target_price, required_capital, expected_profit, min_profit, competitor_price, costs).spec_competitor_price() == competitor_price
            && DropshipOpportunityCandidate::spec_new(sku, units, target_price, required_capital, expected_profit, min_profit, competitor_price, costs).spec_costs() == costs,
{
}

impl Clone for DropshipOpportunityCandidate {
    fn clone(&self) -> (r: Self)
        ensures
            r == *self,
    {
        proof {
            use_type_invariant(self);
        }
        DropshipOpportunityCandidate { sku: self.sku, units: self.units, target_price: self.target_price, required_capital: self.required_capital, expected_profit: self.expected_profit, min_profit: self.min_profit, competitor_price: self.competitor_price, costs: self.costs.clone() }
    }
}

#[derive(Debug, PartialEq, Eq)]
pub struct DropshipOpportunityPortfolio {
    pub(crate) selected: Vec<DropshipOpportunityCandidate>,
    pub(crate) investment_fund: Money,
}

impl DropshipOpportunityPortfolio {
    /// Equal fields, and equal contents for the vectors it holds.
    pub open spec fn same_content(self, other: Self) -> bool {
        self.spec_selected()@ == other.spec_selected()@
            && self.spec_investment_fund() == other.spec_investment_fund()
    }

    /// Every value satisfies what `try_new` checks.
    #[verifier::type_invariant]
    pub open spec fn valid(self) -> bool {
        sum_nat(self.spec_selected()@, candidates_capital_total_value()) <= self.spec_investment_fund()
    }

    pub open(crate) spec fn spec_selected(&self) -> Vec<DropshipOpportunityCandidate> {
        self.selected
    }

    pub open(crate) spec fn spec_investment_fund(&self) -> Money {
        self.investment_fund
    }
}

impl Clone for DropshipOpportunityPortfolio {
    fn clone(&self) -> (r: Self)
        ensures
            r.same_content(*self),
    {
        proof {
            use_type_invariant(self);
        }
        DropshipOpportunityPortfolio { selected: clone_vec_exact(&self.selected), investment_fund: self.investment_fund.clone() }
    }
}

impl DropshipOpportunityCandidate {
    pub fn sku(&self) -> (r: Sku)
        ensures
            r == self.spec_sku(),
    {
        self.sku
    }

    pub fn units(&self) -> (r: Quantity)
        ensures
            r == self.spec_units(),
    {
        self.units
    }

    pub fn target_price(&self) -> (r: Money)
        ensures
            r == self.spec_target_price(),
    {
        self.target_price
    }

    pub fn required_capital(&self) -> (r: Money)
        ensures
            r == self.spec_required_capital(),
    {
        self.required_capital
    }

    pub fn competitor_price(&self) -> (r: Money)
        ensures
            r == self.spec_competitor_price(),
    {
        self.competitor_price
    }

    pub fn costs(&self) -> (r: &DropshipProfitCosts)
        ensures
            *r == self.spec_costs(),
    {
        &self.costs
    }
}

impl DropshipOpportunityPortfolio {
    pub fn selected(&self) -> (r: &[DropshipOpportunityCandidate])
        ensures
            r@ == self.spec_selected()@,
    {
        self.selected.as_slice()
    }

    pub fn investment_fund(&self) -> (r: Money)
        ensures
            r == self.spec_investment_fund(),
    {
        self.investment_fund
    }
}

/// The first check an opportunity fails, if any.
pub open spec fn opportunity_candidate_error(target_price: u128, required_capital: u128, expected_profit: u128, min_profit: u128, competitor_price: u128, costs: DropshipProfitCosts) -> Option<ValidationError> {
    if required_capital == 0 {
        Some(ValidationError::Invariant("opportunity required capital must be positive"))
    } else if expected_profit < min_profit {
        Some(ValidationError::Invariant("expected profit below minimum profit"))
    } else {
        match price_profitable_spec(target_price, 0, costs, min_profit) {
            Err(e) => Some(e),
            Ok(profitable) => if !profitable {
                Some(ValidationError::Invariant("target price below profit floor"))
            } else if target_price > competitor_price {
                Some(ValidationError::Invariant("target price exceeds competitor price"))
            } else {
                None
            },
        }
    }
}

impl DropshipOpportunityCandidate {
    pub fn try_new(sku: Sku, units: Quantity, target_price: Money, required_capital: Money, expected_profit: Money, min_profit: Money, competitor_price: Money, costs: DropshipProfitCosts) -> (r: DomainResult<Self>)
        ensures
            r == (match opportunity_candidate_error(target_price, required_capital, expected_profit, min_profit, competitor_price, costs) {
                Some(e) => Err(e),
                None => Ok(DropshipOpportunityCandidate::spec_new(sku, units, target_price, required_capital, expected_profit, min_profit, competitor_price, costs)),
            }),
    {
        if required_capital == 0 {
            return Err(ValidationError::Invariant("opportunity required capital must be positive"));
        }
        if expected_profit < min_profit {
            return Err(ValidationError::Invariant("expected profit below minimum profit"));
        }
        match price_profitable_for_min_profit(target_price, 0, &costs, min_profit) {
            Err(e) => return Err(e),
            Ok(profitable) => if !profitable {
                return Err(ValidationError::Invariant("target price below profit floor"));
            },
        }
        if target_price > competitor_price {
            return Err(ValidationError::Invariant("target price exceeds competitor price"));
        }
        Ok(Self { sku, units, target_price, required_capital, expected_profit, min_profit, competitor_price, costs })
    }

    pub fn expected_profit(&self) -> (r: Money)
        ensures
            r == self.spec_expected_profit(),
    {
        self.expected_profit
    }

    pub fn min_profit(&self) -> (r: Money)
        ensures
            r == self.spec_min_profit(),
    {
        self.min_profit
    }
}

pub open spec fn candidates_capital_total_value() -> spec_fn(DropshipOpportunityCandidate) -> nat {
    |x: DropshipOpportunityCandidate| (x.spec_required_capital()) as nat
}

/// Sum of the capital the candidates require.
pub fn candidates_capital_total(candidates: &[DropshipOpportunityCandidate]) -> (r: DomainResult<Nat>)
    ensures
        r == total_result(sum_nat(candidates@, candidates_capital_total_value()) as int, "candidates_capital_total"),
{
    let mut acc: Nat = 0;
    let mut i: usize = 0;
    while i < candidates.len()
        invariant
            i <= candidates.len(),
            acc == sum_nat(candidates@.take(i as int), candidates_capital_total_value()),
        decreases candidates.len() - i,
    {
        proof {
            lemma_sum_nat_take_step(candidates@, candidates_capital_total_value(), i as int);
        }
        let item: Nat = candidates[i].required_capital;
        match acc.checked_add(item) {
            Some(v) => {
                acc = v;
            },
            None => {
                proof {
                    lemma_sum_nat_prefix_le(candidates@, candidates_capital_total_value(), i + 1);
                }
                return Err(ValidationError::Overflow("candidates_capital_total"));
            },
        }
        i += 1;
    }
    proof {
        lemma_sum_nat_take_all(candidates@, candidates_capital_total_value());
    }
    Ok(acc)
}


pub open spec fn candidates_profit_total_value() -> spec_fn(DropshipOpportunityCandidate) -> nat {
    |x: DropshipOpportunityCandidate| (x.spec_expected_profit()) as nat
}

/// Sum of the candidates' expected profit.
pub fn candidates_profit_total(candidates: &[DropshipOpportunityCandidate]) -> (r: DomainResult<Nat>)
    ensures
        r == total_result(sum_nat(candidates@, candidates_profit_total_value()) as int, "candidates_profit_total"),
{
    let mut acc: Nat = 0;
    let mut i: usize = 0;
    while i < candidates.len()
        invariant
            i <= candidates.len(),
            acc == sum_nat(candidates@.take(i as int), candidates_profit_total_value()),
        decreases candidates.len() - i,
    {
        proof {
            lemma_sum_nat_take_step(candidates@, candidates_profit_total_value(), i as int);
        }
        let item: Nat = candidates[i].expected_profit;
        match acc.checked_add(item) {
            Some(v) => {
                acc = v;
            },
            None => {
                proof {
                    lemma_sum_nat_prefix_le(candidates@, candidates_profit_total_value(), i + 1);
                }
                return Err(ValidationError::Overflow("candidates_profit_total"));
            },
        }
        i += 1;
    }
    proof {
        lemma_sum_nat_take_all(candidates@, candidates_profit_total_value());
    }
    Ok(acc)
}


pub open spec fn candidates_min_profit_total_value() -> spec_fn(DropshipOpportunityCandidate) -> nat {
    |x: DropshipOpportunityCandidate| (x.spec_min_profit()) as nat
}

/// Sum of the candidates' minimum profit.
pub fn candidates_min_profit_total(candidates: &[DropshipOpportunityCandidate]) -> (r: DomainResult<Nat>)
    ensures
        r == total_result(sum_nat(candidates@, candidates_min_profit_total_value()) as int, "candidates_min_profit_total"),
{
    let mut acc: Nat = 0;
    let mut i: usize = 0;
    while i < candidates.len()
        invariant
            i <= candidates.len(),
            acc == sum_nat(candidates@.take(i as int), candidates_min_profit_total_value()),
        decreases candidates.len() - i,
    {
        proof {
            lemma_sum_nat_take_step(candidates@, candidates_min_profit_total_value(), i as int);
        }
        let item: Nat = candidates[i].min_profit;
        match acc.checked_add(item) {
            Some(v) => {
                acc = v;
            },
            None => {
                proof {
                    lemma_sum_nat_prefix_le(candidates@, candidates_min_profit_total_value(), i + 1);
                }
                return Err(ValidationError::Overflow("candidates_min_profit_total"));
            },
        }
        i += 1;
    }
    proof {
        lemma_sum_nat_take_all(candidates@, candidates_min_profit_total_value());
    }
    Ok(acc)
}


impl DropshipOpportunityPortfolio {
    /// A portfolio whose capital needs fit in the fund.
    pub fn try_new(selected: Vec<DropshipOpportunityCandidate>, investment_fund: Money) -> (r: DomainResult<Self>)
        ensures
            sum_nat(selected@, candidates_capital_total_value()) > u128::MAX
                ==> r == Err::<Self, ValidationError>(ValidationError::Overflow("candidates_capital_total")),
            sum_nat(selected@, candidates_capital_total_value()) <= u128::MAX && sum_nat(selected@, candidates_capital_total_value()) > investment_fund
                ==> r == Err::<Self, ValidationError>(ValidationError::Invariant("opportunity portfolio exceeds investment fund")),
            sum_nat(selected@, candidates_capital_total_value()) <= investment_fund
                ==> (r matches Ok(p) && p.spec_selected()@ == selected@ && p.spec_investment_fund() == investment_fund),
    {
        match candidates_capital_total(selected.as_slice()) {
            Err(e) => Err(e),
            Ok(total) => {
                if total > investment_fund {
                    Err(ValidationError::Invariant("opportunity portfolio exceeds investment fund"))
                } else {
                    Ok(Self { selected, investment_fund })
                }
            },
        }
    }
}

/// The accessor lemmas for the records of this module.
pub broadcast group group_opportunity_portfolio_record_fields {
    lemma_distributor_product_fields,
    lemma_dropshipopportunity_candidate_fields,
}

} // verus!
