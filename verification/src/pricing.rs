//! Cart lines, cart totals, coupons, shipping charges and order totals.

use vstd::prelude::*;
use crate::foundation::{DomainResult, Money, Nat, Quantity, Sku, ValidationError, Weight, add_result, checked_add, checked_mul, checked_sum, collect_results, collected_sum, lemma_collect_results_err_sticks, lemma_collect_results_ok, lemma_collect_results_sum_le, lemma_collect_results_take_step, lemma_sum_nat_prefix_le, lemma_sum_nat_take_all, lemma_sum_nat_take_step, mul_result, nat_sub, nat_sub_spec, sum_nat, total_result};

verus! {

#[derive(Debug, PartialEq, Eq, Structural)]
pub struct Coupon {
    pub(crate) amount: Money,
    pub(crate) min_subtotal: Money,
    pub(crate) max_uses: Nat,
}

impl Coupon {
    pub open(crate) spec fn spec_amount(&self) -> Money {
        self.amount
    }

    pub open(crate) spec fn spec_min_subtotal(&self) -> Money {
        self.min_subtotal
    }

    pub open(crate) spec fn spec_max_uses(&self) -> Nat {
        self.max_uses
    }

    pub open(crate) spec fn spec_new(amount: Money, min_subtotal: Money, max_uses: Nat) -> Self {
        Coupon { amount, min_subtotal, max_uses }
    }
}

/// The accessors of a `Coupon` built by `spec_new` give back its parts.
pub broadcast proof fn lemma_coupon_fields(amount: Money, min_subtotal: Money, max_uses: Nat)
    ensures
        #[trigger] Coupon::spec_new(amount, min_subtotal, max_uses).spec_amount() == amount
            && Coupon::spec_new(amount, min_subtotal, max_uses).spec_min_subtotal() == min_subtotal
            && Coupon::spec_new(amount, min_subtotal, max_uses).spec_max_uses() == max_uses,
{
}

impl Clone for Coupon {
    fn clone(&self) -> (r: Self)
        ensures
            r == *self,
    {
        Coupon { amount: self.amount, min_subtotal: self.min_subtotal, max_uses: self.max_uses }
    }
}

impl Coupon {
    pub fn new(amount: Money, min_subtotal: Money, max_uses: Nat) -> (r: Self)
        ensures
            r == (Coupon::spec_new(amount, min_subtotal, max_uses)),
    {
        Coupon { amount, min_subtotal, max_uses }
    }

    pub fn try_new(amount: Money, min_subtotal: Money, max_uses: Nat) -> (r: DomainResult<Self>)
        ensures
            r == Ok::<Self, ValidationError>(Coupon::spec_new(amount, min_subtotal, max_uses)),
    {
        Ok(Self::new(amount, min_subtotal, max_uses))
    }

    pub fn amount(&self) -> (r: Money)
        ensures
            r == self.spec_amount(),
    {
        self.amount
    }

    pub fn min_subtotal(&self) -> (r: Money)
        ensures
            r == self.spec_min_subtotal(),
    {
        self.min_subtotal
    }

    pub fn max_uses(&self) -> (r: Nat)
        ensures
            r == self.spec_max_uses(),
    {
        self.max_uses
    }
}

#[derive(Debug, PartialEq, Eq, Structural)]
pub struct ShippingMethod {
    pub(crate) price: Money,
    pub(crate) free_threshold: Money,
    pub(crate) max_weight: Weight,
}

impl ShippingMethod {
    pub open(crate) spec fn spec_price(&self) -> Money {
        self.price
    }

    pub open(crate) spec fn spec_free_threshold(&self) -> Money {
        self.free_threshold
    }

    pub open(crate) spec fn spec_max_weight(&self) -> Weight {
        self.max_weight
    }

    pub open(crate) spec fn spec_new(price: Money, free_threshold: Money, max_weight: Weight) -> Self {
        ShippingMethod { price, free_threshold, max_weight }
    }
}

/// The accessors of a `ShippingMethod` built by `spec_new` give back its parts.
pub broadcast proof fn lemma_shipping_method_fields(price: Money, free_threshold: Money, max_weight: Weight)
    ensures
        #[trigger] ShippingMethod::spec_new(price, free_threshold, max_weight).spec_price() == price
            && ShippingMethod::spec_new(price, free_threshold, max_weight).spec_free_threshold() == free_threshold
            && ShippingMethod::spec_new(price, free_threshold, max_weight).spec_max_weight() == max_weight,
{
}

impl Clone for ShippingMethod {
    fn clone(&self) -> (r: Self)
        ensures
            r == *self,
    {
        ShippingMethod { price: self.price, free_threshold: self.free_threshold, max_weight: self.max_weight }
    }
}

impl ShippingMethod {
    pub fn new(price: Money, free_threshold: Money, max_weight: Weight) -> (r: Self)
        ensures
            r == (ShippingMethod::spec_new(price, free_threshold, max_weight)),
    {
        ShippingMethod { price, free_threshold, max_weight }
    }

    pub fn try_new(price: Money, free_threshold: Money, max_weight: Weight) -> (r: DomainResult<Self>)
        ensures
            r == Ok::<Self, ValidationError>(ShippingMethod::spec_new(price, free_threshold, max_weight)),
    {
        Ok(Self::new(price, free_threshold, max_weight))
    }

    pub fn price(&self) -> (r: Money)
        ensures
            r == self.spec_price(),
    {
        self.price
    }

    pub fn free_threshold(&self) -> (r: Money)
        ensures
            r == self.spec_free_threshold(),
    {
        self.free_threshold
    }

    pub fn max_weight(&self) -> (r: Weight)
        ensures
            r == self.spec_max_weight(),
    {
        self.max_weight
    }
}

#[derive(Debug, PartialEq, Eq, Structural)]
pub struct CartLine {
    pub(crate) sku: Sku,
    pub(crate) price: Money,
    pub(crate) cost: Money,
    pub(crate) quantity: Quantity,
    pub(crate) discount: Money,
    pub(crate) weight: Weight,
}

impl CartLine {
    pub open(crate) spec fn spec_sku(&self) -> Sku {
        self.sku
    }

    pub open(crate) spec fn spec_price(&self) -> Money {
        self.price
    }

    pub open(crate) spec fn spec_cost(&self) -> Money {
        self.cost
    }

    pub open(crate) spec fn spec_quantity(&self) -> Quantity {
        self.quantity
    }

    pub open(crate) spec fn spec_discount(&self) -> Money {
        self.discount
    }

    pub open(crate) spec fn spec_weight(&self) -> Weight {
        self.weight
    }

    pub open(crate) spec fn spec_new(sku: Sku, price: Money, cost: Money, quantity: Quantity, discount: Money, weight: Weight) -> Self {
        CartLine { sku, price, cost, quantity, discount, weight }
    }
}

/// The accessors of a `CartLine` built by `spec_new` give back its parts.
pub broadcast proof fn lemma_cart_line_fields(sku: Sku, price: Money, cost: Money, quantity: Quantity, discount: Money, weight: Weight)
    ensures
        #[trigger] CartLine::spec_new(sku, price, cost, quantity, discount, weight).spec_sku() == sku
            && CartLine::spec_new(sku, price, cost, quantity, discount, weight).spec_price() == price
            && CartLine::spec_new(sku, price, cost, quantity, discount, weight).spec_cost() == cost
            && CartLine::spec_new(sku, price, cost, quantity, discount, weight).spec_quantity() == quantity
            && CartLine::spec_new(sku, price, cost, quantity, discount, weight).spec_discount() == discount
            && CartLine::spec_new(sku, price, cost, quantity, discount, weight).spec_weight() == weight,
{
}

impl Clone for CartLine {
    fn clone(&self) -> (r: Self)
        ensures
            r == *self,
    {
        proof {
            use_type_invariant(self);
        }
        CartLine { sku: self.sku, price: self.price, cost: self.cost, quantity: self.quantity, discount: self.discount, weight: self.weight }
    }
}

impl CartLine {
    pub fn sku(&self) -> (r: Sku)
        ensures
            r == self.spec_sku(),
    {
        self.sku
    }

    pub fn price(&self) -> (r: Money)
        ensures
            r == self.spec_price(),
    {
        self.price
    }

    pub fn cost(&self) -> (r: Money)
        ensures
            r == self.spec_cost(),
    {
        self.cost
    }

    pub fn discount(&self) -> (r: Money)
        ensures
            r == self.spec_discount(),
    {
        self.discount
    }

    pub fn weight(&self) -> (r: Weight)
        ensures
            r == self.spec_weight(),
    {
        self.weight
    }
}

impl CartLine {
    /// The line's `price * quantity` must fit and cover its discount.
    #[verifier::type_invariant]
    pub open spec fn valid(self) -> bool {
        self.spec_price() * self.spec_quantity() <= u128::MAX && self.spec_discount() <= self.spec_price() * self.spec_quantity()
    }

    pub fn try_new(sku: Sku, price: Money, cost: Money, quantity: Quantity, discount: Money, weight: Weight) -> (r: DomainResult<Self>)
        ensures
            price * quantity > u128::MAX ==> r == Err::<Self, ValidationError>(ValidationError::Overflow("CartLine gross")),
            price * quantity <= u128::MAX && discount > price * quantity ==> r == Err::<Self, ValidationError>(
                ValidationError::Invariant("line discount exceeds gross"),
            ),
            price * quantity <= u128::MAX && discount <= price * quantity ==> r == Ok::<Self, ValidationError>(
                CartLine::spec_new(sku, price, cost, quantity, discount, weight),
            ),
            r is Ok ==> r->Ok_0.valid(),
    {
        let gross = match checked_mul(price, quantity, "CartLine gross") {
            Ok(g) => g,
            Err(e) => return Err(e),
        };
        if discount > gross {
            return Err(ValidationError::Invariant("line discount exceeds gross"));
        }
        Ok(Self { sku, price, cost, quantity, discount, weight })
    }

    pub fn quantity(&self) -> (r: Quantity)
        ensures
            r == self.spec_quantity(),
    {
        self.quantity
    }
}

pub open spec fn line_gross_spec(line: CartLine) -> DomainResult<u128> {
    mul_result(line.spec_price() as int, line.spec_quantity() as int, "line_gross_total")
}

pub open spec fn line_gross_fn() -> spec_fn(CartLine) -> DomainResult<u128> {
    |line: CartLine| line_gross_spec(line)
}

pub open spec fn line_cost_spec(line: CartLine) -> DomainResult<u128> {
    mul_result(line.spec_cost() as int, line.spec_quantity() as int, "line_cost_total")
}

/// Gross minus discount, floored at zero.
pub open spec fn line_net_spec(line: CartLine) -> DomainResult<u128> {
    match line_gross_spec(line) {
        Err(e) => Err(e),
        Ok(g) => Ok(nat_sub_spec(g as int, line.spec_discount() as int) as u128),
    }
}

pub open spec fn line_net_fn() -> spec_fn(CartLine) -> DomainResult<u128> {
    |line: CartLine| line_net_spec(line)
}

pub open spec fn line_weight_spec(line: CartLine) -> DomainResult<u128> {
    mul_result(line.spec_weight() as int, line.spec_quantity() as int, "line_weight_total")
}

pub open spec fn line_weight_fn() -> spec_fn(CartLine) -> DomainResult<u128> {
    |line: CartLine| line_weight_spec(line)
}

pub fn line_gross_total(line: &CartLine) -> (r: DomainResult<Money>)
    ensures
        r == line_gross_spec(*line),
{
    checked_mul(line.price, line.quantity, "line_gross_total")
}

pub fn line_cost_total(line: &CartLine) -> (r: DomainResult<Money>)
    ensures
        r == line_cost_spec(*line),
{
    checked_mul(line.cost, line.quantity, "line_cost_total")
}

pub fn line_net_total(line: &CartLine) -> (r: DomainResult<Money>)
    ensures
        r == line_net_spec(*line),
{
    match line_gross_total(line) {
        Ok(g) => Ok(nat_sub(g, line.discount)),
        Err(e) => Err(e),
    }
}

pub fn line_weight_total(line: &CartLine) -> (r: DomainResult<Weight>)
    ensures
        r == line_weight_spec(*line),
{
    checked_mul(line.weight, line.quantity, "line_weight_total")
}

/// Sum of line gross totals; a line overflow is reported first.
pub fn cart_gross_total(items: &[CartLine]) -> (r: DomainResult<Nat>)
    ensures
        r == collected_sum(items@, line_gross_fn(), "cart_gross_total"),
{
    let mut vals: Vec<Nat> = Vec::new();
    let mut i: usize = 0;
    while i < items.len()
        invariant
            i <= items.len(),
            collect_results(items@.take(i as int), line_gross_fn()) == Ok::<Seq<u128>, ValidationError>(vals@),
        decreases items.len() - i,
    {
        proof {
            lemma_collect_results_take_step(items@, line_gross_fn(), i as int);
        }
        match line_gross_total(&items[i]) {
            Ok(v) => {
                vals.push(v);
            },
            Err(e) => {
                proof {
                    lemma_collect_results_err_sticks(items@, line_gross_fn(), i + 1);
                }
                return Err(e);
            },
        }
        i += 1;
    }
    proof {
        assert(items@.take(items.len() as int) =~= items@);
    }
    checked_sum(vals.as_slice(), "cart_gross_total")
}


/// Sum of line net totals; a line overflow is reported first.
pub fn cart_net_total(items: &[CartLine]) -> (r: DomainResult<Nat>)
    ensures
        r == collected_sum(items@, line_net_fn(), "cart_net_total"),
{
    let mut vals: Vec<Nat> = Vec::new();
    let mut i: usize = 0;
    while i < items.len()
        invariant
            i <= items.len(),
            collect_results(items@.take(i as int), line_net_fn()) == Ok::<Seq<u128>, ValidationError>(vals@),
        decreases items.len() - i,
    {
        proof {
            lemma_collect_results_take_step(items@, line_net_fn(), i as int);
        }
        match line_net_total(&items[i]) {
            Ok(v) => {
                vals.push(v);
            },
            Err(e) => {
                proof {
                    lemma_collect_results_err_sticks(items@, line_net_fn(), i + 1);
                }
                return Err(e);
            },
        }
        i += 1;
    }
    proof {
        assert(items@.take(items.len() as int) =~= items@);
    }
    checked_sum(vals.as_slice(), "cart_net_total")
}


pub open spec fn cart_discount_total_value() -> spec_fn(CartLine) -> nat {
    |x: CartLine| (x.spec_discount()) as nat
}

/// Sum of line discounts.
pub fn cart_discount_total(items: &[CartLine]) -> (r: DomainResult<Nat>)
    ensures
        r == total_result(sum_nat(items@, cart_discount_total_value()) as int, "cart_discount_total"),
{
    let mut acc: Nat = 0;
    let mut i: usize = 0;
    while i < items.len()
        invariant
            i <= items.len(),
            acc == sum_nat(items@.take(i as int), cart_discount_total_value()),
        decreases items.len() - i,
    {
        proof {
            lemma_sum_nat_take_step(items@, cart_discount_total_value(), i as int);
        }
        let item: Nat = items[i].discount;
        match acc.checked_add(item) {
            Some(v) => {
                acc = v;
            },
            None => {
                proof {
                    lemma_sum_nat_prefix_le(items@, cart_discount_total_value(), i + 1);
                }
                return Err(ValidationError::Overflow("cart_discount_total"));
            },
        }
        i += 1;
    }
    proof {
        lemma_sum_nat_take_all(items@, cart_discount_total_value());
    }
    Ok(acc)
}


/// Sum of line weights; a line overflow is reported first.
pub fn cart_weight_total(items: &[CartLine]) -> (r: DomainResult<Nat>)
    ensures
        r == collected_sum(items@, line_weight_fn(), "cart_weight_total"),
{
    let mut vals: Vec<Nat> = Vec::new();
    let mut i: usize = 0;
    while i < items.len()
        invariant
            i <= items.len(),
            collect_results(items@.take(i as int), line_weight_fn()) == Ok::<Seq<u128>, ValidationError>(vals@),
        decreases items.len() - i,
    {
        proof {
            lemma_collect_results_take_step(items@, line_weight_fn(), i as int);
        }
        match line_weight_total(&items[i]) {
            Ok(v) => {
                vals.push(v);
            },
            Err(e) => {
                proof {
                    lemma_collect_results_err_sticks(items@, line_weight_fn(), i + 1);
                }
                return Err(e);
            },
        }
        i += 1;
    }
    proof {
        assert(items@.take(items.len() as int) =~= items@);
    }
    checked_sum(vals.as_slice(), "cart_weight_total")
}


pub open spec fn cart_quantity_total_value() -> spec_fn(CartLine) -> nat {
    |x: CartLine| (x.spec_quantity()) as nat
}

/// Sum of line quantities.
pub fn cart_quantity_total(items: &[CartLine]) -> (r: DomainResult<Nat>)
    ensures
        r == total_result(sum_nat(items@, cart_quantity_total_value()) as int, "cart_quantity_total"),
{
    let mut acc: Nat = 0;
    let mut i: usize = 0;
    while i < items.len()
        invariant
            i <= items.len(),
            acc == sum_nat(items@.take(i as int), cart_quantity_total_value()),
        decreases items.len() - i,
    {
        proof {
            lemma_sum_nat_take_step(items@, cart_quantity_total_value(), i as int);
        }
        let item: Nat = items[i].quantity;
        match acc.checked_add(item) {
            Some(v) => {
                acc = v;
            },
            None => {
                proof {
                    lemma_sum_nat_prefix_le(items@, cart_quantity_total_value(), i + 1);
                }
                return Err(ValidationError::Overflow("cart_quantity_total"));
            },
        }
        i += 1;
    }
    proof {
        lemma_sum_nat_take_all(items@, cart_quantity_total_value());
    }
    Ok(acc)
}


pub fn coupon_can_be_applied(coupon: &Coupon, subtotal: Money, uses_before: Nat) -> (r: bool)
    ensures
        r == (coupon.spec_min_subtotal() <= subtotal && uses_before < coupon.spec_max_uses()),
{
    coupon.min_subtotal <= subtotal && uses_before < coupon.max_uses
}

pub fn subtotal_after_coupon_amount(subtotal: Money, coupon_amount: Money) -> (r: Money)
    ensures
        r == nat_sub_spec(subtotal as int, coupon_amount as int),
{
    nat_sub(subtotal, coupon_amount)
}

pub open spec fn order_subtotal_spec(items: Seq<CartLine>, coupon_amount: u128) -> DomainResult<u128> {
    match collected_sum(items, line_net_fn(), "cart_net_total") {
        Err(e) => Err(e),
        Ok(net) => Ok(nat_sub_spec(net as int, coupon_amount as int) as u128),
    }
}

pub fn order_subtotal(items: &[CartLine], coupon_amount: Money) -> (r: DomainResult<Money>)
    ensures
        r == order_subtotal_spec(items@, coupon_amount),
{
    match cart_net_total(items) {
        Ok(net) => Ok(subtotal_after_coupon_amount(net, coupon_amount)),
        Err(e) => Err(e),
    }
}

pub fn shipping_available(method: &ShippingMethod, weight: Weight) -> (r: bool)
    ensures
        r == (weight <= method.spec_max_weight()),
{
    weight <= method.max_weight
}

pub open spec fn shipping_charge_spec(method: ShippingMethod, subtotal: u128) -> u128 {
    if method.spec_free_threshold() <= subtotal {
        0
    } else {
        method.spec_price()
    }
}

pub fn shipping_charge(method: &ShippingMethod, subtotal: Money) -> (r: Money)
    ensures
        r == shipping_charge_spec(*method, subtotal),
{
    if method.free_threshold <= subtotal {
        0
    } else {
        method.price
    }
}

/// Subtotal after coupon, plus the shipping charge, plus tax.
pub open spec fn order_total_spec(method: ShippingMethod, coupon_amount: u128, tax: u128, items: Seq<CartLine>) -> DomainResult<u128> {
    match order_subtotal_spec(items, coupon_amount) {
        Err(e) => Err(e),
        Ok(subtotal) => match add_result(subtotal as int, shipping_charge_spec(method, subtotal) as int, "order_total shipping") {
            Err(e) => Err(e),
            Ok(with_shipping) => add_result(with_shipping as int, tax as int, "order_total tax"),
        },
    }
}

pub fn order_total(method: &ShippingMethod, coupon_amount: Money, tax: Money, items: &[CartLine]) -> (r: DomainResult<Money>)
    ensures
        r == order_total_spec(*method, coupon_amount, tax, items@),
{
    let subtotal = match order_subtotal(items, coupon_amount) {
        Ok(s) => s,
        Err(e) => return Err(e),
    };
    match checked_add(subtotal, shipping_charge(method, subtotal), "order_total shipping") {
        Ok(w) => checked_add(w, tax, "order_total tax"),
        Err(e) => Err(e),
    }
}

/// An order never charges more than the gross value of its lines plus the
/// full shipping price plus the tax: discounts and the coupon only lower the
/// subtotal, and shipping is either its price or free.
pub proof fn lemma_order_total_within_gross_shipping_tax(method: ShippingMethod, coupon_amount: u128, tax: u128, items: Seq<CartLine>)
    requires
        order_total_spec(method, coupon_amount, tax, items) is Ok,
        collected_sum(items, line_gross_fn(), "cart_gross_total") is Ok,
    ensures
        order_total_spec(method, coupon_amount, tax, items)->Ok_0
            <= collected_sum(items, line_gross_fn(), "cart_gross_total")->Ok_0 + method.spec_price() + tax,
{
    lemma_collect_results_ok(items, line_gross_fn());
    lemma_collect_results_ok(items, line_net_fn());
    assert forall|j: int| 0 <= j < items.len() implies (line_net_fn()(#[trigger] items[j]) is Ok && line_gross_fn()(items[j]) is Ok
        ==> line_net_fn()(items[j])->Ok_0 <= line_gross_fn()(items[j])->Ok_0) by {
    }
    lemma_collect_results_sum_le(items, line_net_fn(), line_gross_fn());
}

/// The accessor lemmas for the records of this module.
pub broadcast group group_pricing_record_fields {
    lemma_coupon_fields,
    lemma_shipping_method_fields,
    lemma_cart_line_fields,
}

} // verus!
