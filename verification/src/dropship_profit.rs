//! Dropship cost breakdowns, profit floors and guaranteed-profit quotes.

use vstd::prelude::*;
use crate::foundation::{DomainResult, Money, Nat, SignedMoney, ValidationError, add_result, checked_add, checked_sum, nat_sub, nat_sub_spec, profit_amount, profit_loss_amount, profit_loss_spec, sum_nat, total_result};

verus! {

#[derive(Debug, PartialEq, Eq, Structural)]
pub struct DropshipProfitCosts {
    pub(crate) supplier_goods: Money,
    pub(crate) supplier_shipping: Money,
    pub(crate) marketplace_fee: Money,
    pub(crate) payment_fee: Money,
    pub(crate) ad_spend: Money,
    pub(crate) return_reserve: Money,
    pub(crate) tax: Money,
    pub(crate) other_costs: Money,
}

impl DropshipProfitCosts {
    pub open(crate) spec fn spec_supplier_goods(&self) -> Money {
        self.supplier_goods
    }

    pub open(crate) spec fn spec_supplier_shipping(&self) -> Money {
        self.supplier_shipping
    }

    pub open(crate) spec fn spec_marketplace_fee(&self) -> Money {
        self.marketplace_fee
    }

    pub open(crate) spec fn spec_payment_fee(&self) -> Money {
        self.payment_fee
    }

    pub open(crate) spec fn spec_ad_spend(&self) -> Money {
        self.ad_spend
    }

    pub open(crate) spec fn spec_return_reserve(&self) -> Money {
        self.return_reserve
    }

    pub open(crate) spec fn spec_tax(&self) -> Money {
        self.tax
    }

    pub open(crate) spec fn spec_other_costs(&self) -> Money {
        self.other_costs
    }

    pub open(crate) spec fn spec_new(supplier_goods: Money, supplier_shipping: Money, marketplace_fee: Money, payment_fee: Money, ad_spend: Money, return_reserve: Money, tax: Money, other_costs: Money) -> Self {
        DropshipProfitCosts { supplier_goods, supplier_shipping, marketplace_fee, payment_fee, ad_spend, return_reserve, tax, other_costs }
    }
}

/// The accessors of a `DropshipProfitCosts` built by `spec_new` give back its parts.
pub broadcast proof fn lemma_dropship_profit_costs_fields(supplier_goods: Money, supplier_shipping: Money, marketplace_fee: Money, payment_fee: Money, ad_spend: Money, return_reserve: Money, tax: Money, other_costs: Money)
    ensures
        #[trigger] DropshipProfitCosts::spec_new(supplier_goods, supplier_shipping, marketplace_fee, payment_fee, ad_spend, return_reserve, tax, other_costs).spec_supplier_goods() == supplier_goods
            && DropshipProfitCosts::spec_new(supplier_goods, supplier_shipping, marketplace_fee, payment_fee, ad_spend, return_reserve, tax, other_costs).spec_supplier_shipping() == supplier_shipping
            && DropshipProfitCosts::spec_new(supplier_goods, supplier_shipping, marketplace_fee, payment_fee, ad_spend, return_reserve, tax, other_costs).spec_marketplace_fee() == marketplace_fee
            && DropshipProfitCosts::spec_new(supplier_goods, supplier_shipping, marketplace_fee, payment_fee, ad_spend, return_reserve, tax, other_costs).spec_payment_fee() == payment_fee
            && DropshipProfitCosts::spec_new(supplier_goods, supplier_shipping, marketplace_fee, payment_fee, ad_spend, return_reserve, tax, other_costs).spec_ad_spend() == ad_spend
            && DropshipProfitCosts::spec_new(supplier_goods, supplier_shipping, marketplace_fee, payment_fee, ad_spend, return_reserve, tax, other_costs).spec_return_reserve() == return_reserve
            && DropshipProfitCosts::spec_new(supplier_goods, supplier_shipping, marketplace_fee, payment_fee, ad_spend, return_reserve, tax, other_costs).spec_tax() == tax
            && DropshipProfitCosts::spec_new(supplier_goods, supplier_shipping, marketplace_fee, payment_fee, ad_spend, return_reserve, tax, other_costs).spec_other_costs() == other_costs,
{
}

impl Clone for DropshipProfitCosts {
    fn clone(&self) -> (r: Self)
        ensures
            r == *self,
    {
        DropshipProfitCosts { supplier_goods: self.supplier_goods, supplier_shipping: self.supplier_shipping, marketplace_fee: self.marketplace_fee, payment_fee: self.payment_fee, ad_spend: self.ad_spend, return_reserve: self.return_reserve, tax: self.tax, other_costs: self.other_costs }
    }
}

impl DropshipProfitCosts {
    pub fn new(supplier_goods: Money, supplier_shipping: Money, marketplace_fee: Money, payment_fee: Money, ad_spend: Money, return_reserve: Money, tax: Money, other_costs: Money) -> (r: Self)
        ensures
            r == (DropshipProfitCosts::spec_new(supplier_goods, supplier_shipping, marketplace_fee, payment_fee, ad_spend, return_reserve, tax, other_costs)),
    {
        DropshipProfitCosts { supplier_goods, supplier_shipping, marketplace_fee, payment_fee, ad_spend, return_reserve, tax, other_costs }
    }

    pub fn try_new(supplier_goods: Money, supplier_shipping: Money, marketplace_fee: Money, payment_fee: Money, ad_spend: Money, return_reserve: Money, tax: Money, other_costs: Money) -> (r: DomainResult<Self>)
        ensures
            r == Ok::<Self, ValidationError>(DropshipProfitCosts::spec_new(supplier_goods, supplier_shipping, marketplace_fee, payment_fee, ad_spend, return_reserve, tax, other_costs)),
    {
        Ok(Self::new(supplier_goods, supplier_shipping, marketplace_fee, payment_fee, ad_spend, return_reserve, tax, other_costs))
    }

    pub fn supplier_goods(&self) -> (r: Money)
        ensures
            r == self.spec_supplier_goods(),
    {
        self.supplier_goods
    }

    pub fn supplier_shipping(&self) -> (r: Money)
        ensures
            r == self.spec_supplier_shipping(),
    {
        self.supplier_shipping
    }

    pub fn marketplace_fee(&self) -> (r: Money)
        ensures
            r == self.spec_marketplace_fee(),
    {
        self.marketplace_fee
    }

    pub fn payment_fee(&self) -> (r: Money)
        ensures
            r == self.spec_payment_fee(),
    {
        self.payment_fee
    }

    pub fn ad_spend(&self) -> (r: Money)
        ensures
            r == self.spec_ad_spend(),
    {
        self.ad_spend
    }

    pub fn return_reserve(&self) -> (r: Money)
        ensures
            r == self.spec_return_reserve(),
    {
        self.return_reserve
    }

    pub fn tax(&self) -> (r: Money)
        ensures
            r == self.spec_tax(),
    {
        self.tax
    }

    pub fn other_costs(&self) -> (r: Money)
        ensures
            r == self.spec_other_costs(),
    {
        self.other_costs
    }
}

#[derive(Debug, PartialEq, Eq, Structural)]
pub struct GuaranteedDropshipProfitQuote {
    pub(crate) revenue: Money,
    pub(crate) costs: DropshipProfitCosts,
    pub(crate) min_profit: Money,
    pub(crate) profit: Money,
    pub(crate) signed_profit: SignedMoney,
}

impl GuaranteedDropshipProfitQuote {
    /// Every value satisfies what `try_new` checks.
    #[verifier::type_invariant]
    pub open spec fn valid(self) -> bool {
        guaranteed_quote_error(self.spec_revenue(), self.spec_costs(), self.spec_min_profit(), self.spec_profit(), self.spec_signed_profit()) is None
    }

    pub open(crate) spec fn spec_revenue(&self) -> Money {
        self.revenue
    }

    pub open(crate) spec fn spec_costs(&self) -> DropshipProfitCosts {
        self.costs
    }

    pub open(crate) spec fn spec_min_profit(&self) -> Money {
        self.min_profit
    }

    pub open(crate) spec fn spec_profit(&self) -> Money {
        self.profit
    }

    pub open(crate) spec fn spec_signed_profit(&self) -> SignedMoney {
        self.signed_profit
    }

    pub open(crate) spec fn spec_new(revenue: Money, costs: DropshipProfitCosts, min_profit: Money, profit: Money, signed_profit: SignedMoney) -> Self {
        GuaranteedDropshipProfitQuote { revenue, costs, min_profit, profit, signed_profit }
    }
}

/// The accessors of a `GuaranteedDropshipProfitQuote` built by `spec_new` give back its parts.
pub broadcast proof fn lemma_guaranteed_dropship_profit_quote_fields(revenue: Money, costs: DropshipProfitCosts, min_profit: Money, profit: Money, signed_profit: SignedMoney)
    ensures
        #[trigger] GuaranteedDropshipProfitQuote::spec_new(revenue, costs, min_profit, profit, signed_profit).spec_revenue() == revenue
            && GuaranteedDropshipProfitQuote::spec_new(revenue, costs, min_profit, profit, signed_profit).spec_costs() == costs
            && GuaranteedDropshipProfitQuote::spec_new(revenue, costs, min_profit, profit, signed_profit).spec_min_profit() == min_profit
            && GuaranteedDropshipProfitQuote::spec_new(revenue, costs, min_profit, profit, signed_profit).spec_profit() == profit
            && GuaranteedDropshipProfitQuote::spec_new(revenue, costs, min_profit, profit, signed_profit).spec_signed_profit() == signed_profit,
{
}

impl Clone for GuaranteedDropshipProfitQuote {
    fn clone(&self) -> (r: Self)
        ensures
            r == *self,
    {
        proof {
            use_type_invariant(self);
        }
        GuaranteedDropshipProfitQuote { revenue: self.revenue, costs: self.costs.clone(), min_profit: self.min_profit, profit: self.profit, signed_profit: self.signed_profit }
    }
}

#[derive(Debug, PartialEq, Eq, Structural)]
pub struct DropshipCostUpperBounds {
    pub(crate) actual: DropshipProfitCosts,
    pub(crate) upper: DropshipProfitCosts,
}

impl DropshipCostUpperBounds {
    /// Every value satisfies what `try_new` checks.
    #[verifier::type_invariant]
    pub open spec fn valid(self) -> bool {
        costs_within_bounds(self.spec_actual(), self.spec_upper())
    }

    pub open(crate) spec fn spec_actual(&self) -> DropshipProfitCosts {
        self.actual
    }

    pub open(crate) spec fn spec_upper(&self) -> DropshipProfitCosts {
        self.upper
    }

    pub open(crate) spec fn spec_new(actual: DropshipProfitCosts, upper: DropshipProfitCosts) -> Self {
        DropshipCostUpperBounds { actual, upper }
    }
}

/// The accessors of a `DropshipCostUpperBounds` built by `spec_new` give back its parts.
pub broadcast proof fn lemma_dropship_cost_upper_bounds_fields(actual: DropshipProfitCosts, upper: DropshipProfitCosts)
    ensures
        #[trigger] DropshipCostUpperBounds::spec_new(actual, upper).spec_actual() == actual
            && DropshipCostUpperBounds::spec_new(actual, upper).spec_upper() == upper,
{
}

impl Clone for DropshipCostUpperBounds {
    fn clone(&self) -> (r: Self)
        ensures
            r == *self,
    {
        proof {
            use_type_invariant(self);
        }
        DropshipCostUpperBounds { actual: self.actual.clone(), upper: self.upper.clone() }
    }
}

impl GuaranteedDropshipProfitQuote {
    pub fn revenue(&self) -> (r: Money)
        ensures
            r == self.spec_revenue(),
    {
        self.revenue
    }

    pub fn costs(&self) -> (r: &DropshipProfitCosts)
        ensures
            *r == self.spec_costs(),
    {
        &self.costs
    }

    pub fn min_profit(&self) -> (r: Money)
        ensures
            r == self.spec_min_profit(),
    {
        self.min_profit
    }

    pub fn profit(&self) -> (r: Money)
        ensures
            r == self.spec_profit(),
    {
        self.profit
    }

    pub fn signed_profit(&self) -> (r: SignedMoney)
        ensures
            r == self.spec_signed_profit(),
    {
        self.signed_profit
    }
}

impl DropshipCostUpperBounds {
    pub fn actual(&self) -> (r: &DropshipProfitCosts)
        ensures
            *r == self.spec_actual(),
    {
        &self.actual
    }

    pub fn upper(&self) -> (r: &DropshipProfitCosts)
        ensures
            *r == self.spec_upper(),
    {
        &self.upper
    }
}

pub open spec fn profit_costs_sum(c: DropshipProfitCosts) -> int {
    c.spec_supplier_goods() + c.spec_supplier_shipping() + c.spec_marketplace_fee() + c.spec_payment_fee() + c.spec_ad_spend() + c.spec_return_reserve() + c.spec_tax() + c.spec_other_costs()
}

pub open spec fn profit_costs_total_spec(c: DropshipProfitCosts) -> DomainResult<u128> {
    total_result(profit_costs_sum(c), "dropship_profit_costs_total")
}

/// Sum of the eight cost components.
pub fn dropship_profit_costs_total(c: &DropshipProfitCosts) -> (r: DomainResult<Money>)
    ensures
        r == profit_costs_total_spec(*c),
{
    let mut parts: Vec<Nat> = Vec::new();
    parts.push(c.supplier_goods);
    parts.push(c.supplier_shipping);
    parts.push(c.marketplace_fee);
    parts.push(c.payment_fee);
    parts.push(c.ad_spend);
    parts.push(c.return_reserve);
    parts.push(c.tax);
    parts.push(c.other_costs);
    proof {
        reveal_with_fuel(sum_nat, 9);
        assert(parts@.drop_last().drop_last().drop_last().drop_last().drop_last().drop_last().drop_last().drop_last().len() == 0);
    }
    checked_sum(parts.as_slice(), "dropship_profit_costs_total")
}

pub fn revenue_after_discount(gross: Money, discount: Money) -> (r: Money)
    ensures
        r == nat_sub_spec(gross as int, discount as int),
{
    nat_sub(gross, discount)
}

pub fn required_revenue_for_profit(total_costs: Money, min_profit: Money) -> (r: DomainResult<Money>)
    ensures
        r == add_result(total_costs as int, min_profit as int, "required_revenue_for_profit"),
{
    checked_add(total_costs, min_profit, "required_revenue_for_profit")
}

pub fn required_gross_for_profit(total_costs: Money, min_profit: Money, discount: Money) -> (r: DomainResult<Money>)
    ensures
        total_costs + min_profit > u128::MAX ==> r == Err::<Money, ValidationError>(ValidationError::Overflow("required_revenue_for_profit")),
        total_costs + min_profit <= u128::MAX ==> r == add_result(total_costs + min_profit, discount as int, "required_gross_for_profit"),
{
    match required_revenue_for_profit(total_costs, min_profit) {
        Err(e) => Err(e),
        Ok(v) => checked_add(v, discount, "required_gross_for_profit"),
    }
}

/// The first check a guaranteed-profit quote fails, if any.
pub open spec fn guaranteed_quote_error(revenue: u128, costs: DropshipProfitCosts, min_profit: u128, profit: u128, signed_profit: i128) -> Option<ValidationError> {
    match profit_costs_total_spec(costs) {
        Err(e) => Some(e),
        Ok(total) => if profit != nat_sub_spec(revenue as int, total as int) {
            Some(ValidationError::Invariant("profit is incorrect"))
        } else {
            match profit_loss_spec(revenue, total) {
                Err(e) => Some(e),
                Ok(signed) => if signed_profit != signed {
                    Some(ValidationError::Invariant("signed profit is incorrect"))
                } else if total + min_profit > u128::MAX {
                    Some(ValidationError::Overflow("guaranteed quote"))
                } else if total + min_profit > revenue {
                    Some(ValidationError::Invariant("revenue does not cover costs plus minimum profit"))
                } else {
                    None
                },
            }
        },
    }
}

impl GuaranteedDropshipProfitQuote {
    pub fn try_new(revenue: Money, costs: DropshipProfitCosts, min_profit: Money, profit: Money, signed_profit: SignedMoney) -> (r: DomainResult<Self>)
        ensures
            r == (match guaranteed_quote_error(revenue, costs, min_profit, profit, signed_profit) {
                Some(e) => Err(e),
                None => Ok(GuaranteedDropshipProfitQuote::spec_new(revenue, costs, min_profit, profit, signed_profit)),
            }),
    {
        let costs_total = match dropship_profit_costs_total(&costs) {
            Ok(t) => t,
            Err(e) => return Err(e),
        };
        if profit != profit_amount(revenue, costs_total) {
            return Err(ValidationError::Invariant("profit is incorrect"));
        }
        match profit_loss_amount(revenue, costs_total) {
            Err(e) => return Err(e),
            Ok(signed) => if signed_profit != signed {
                return Err(ValidationError::Invariant("signed profit is incorrect"));
            },
        }
        match checked_add(costs_total, min_profit, "guaranteed quote") {
            Err(e) => return Err(e),
            Ok(required) => if required > revenue {
                return Err(ValidationError::Invariant("revenue does not cover costs plus minimum profit"));
            },
        }
        Ok(Self { revenue, costs, min_profit, profit, signed_profit })
    }
}

/// Every actual cost component is at most its upper bound.
pub open spec fn costs_within_bounds(actual: DropshipProfitCosts, upper: DropshipProfitCosts) -> bool {
    &&& actual.spec_supplier_goods() <= upper.spec_supplier_goods()
    &&& actual.spec_supplier_shipping() <= upper.spec_supplier_shipping()
    &&& actual.spec_marketplace_fee() <= upper.spec_marketplace_fee()
    &&& actual.spec_payment_fee() <= upper.spec_payment_fee()
    &&& actual.spec_ad_spend() <= upper.spec_ad_spend()
    &&& actual.spec_return_reserve() <= upper.spec_return_reserve()
    &&& actual.spec_tax() <= upper.spec_tax()
    &&& actual.spec_other_costs() <= upper.spec_other_costs()
}

impl DropshipCostUpperBounds {
    pub fn try_new(actual: DropshipProfitCosts, upper: DropshipProfitCosts) -> (r: DomainResult<Self>)
        ensures
            !costs_within_bounds(actual, upper) ==> r == Err::<Self, ValidationError>(ValidationError::Invariant("actual dropship cost exceeds upper bound")),
            costs_within_bounds(actual, upper) ==> r == Ok::<Self, ValidationError>(DropshipCostUpperBounds::spec_new(actual, upper)),
    {
        if actual.supplier_goods > upper.supplier_goods || actual.supplier_shipping > upper.supplier_shipping
            || actual.marketplace_fee > upper.marketplace_fee || actual.payment_fee > upper.payment_fee
            || actual.ad_spend > upper.ad_spend || actual.return_reserve > upper.return_reserve || actual.tax
            > upper.tax || actual.other_costs > upper.other_costs {
            return Err(ValidationError::Invariant("actual dropship cost exceeds upper bound"));
        }
        Ok(Self { actual, upper })
    }
}

/// Non-ad costs plus ad spend plus the minimum profit fit in the revenue.
pub fn ad_spend_safe_for_min_profit(revenue: Money, non_ad_costs: Money, ad_spend: Money, min_profit: Money) -> (r: bool)
    ensures
        r == (non_ad_costs + ad_spend + min_profit <= revenue),
{
    match non_ad_costs.checked_add(ad_spend) {
        None => false,
        Some(x) => match x.checked_add(min_profit) {
            None => false,
            Some(required) => required <= revenue,
        },
    }
}

pub fn profit_after_ad_spend(revenue: Money, non_ad_costs: Money, ad_spend: Money) -> (r: DomainResult<Money>)
    ensures
        non_ad_costs + ad_spend > u128::MAX ==> r == Err::<Money, ValidationError>(ValidationError::Overflow("profit_after_ad_spend")),
        non_ad_costs + ad_spend <= u128::MAX ==> r == Ok::<Money, ValidationError>(nat_sub_spec(revenue as int, non_ad_costs + ad_spend) as u128),
{
    match checked_add(non_ad_costs, ad_spend, "profit_after_ad_spend") {
        Err(e) => Err(e),
        Ok(costs) => Ok(profit_amount(revenue, costs)),
    }
}

pub fn profit_loss_int(revenue: Money, total_costs: Money) -> (r: DomainResult<i128>)
    ensures
        r == profit_loss_spec(revenue, total_costs),
{
    profit_loss_amount(revenue, total_costs)
}

/// The accessor lemmas for the records of this module.
pub broadcast group group_dropship_profit_record_fields {
    lemma_dropship_profit_costs_fields,
    lemma_guaranteed_dropship_profit_quote_fields,
    lemma_dropship_cost_upper_bounds_fields,
}

} // verus!
