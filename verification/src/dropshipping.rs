//! Dropship suppliers, offers, reservations, lines, purchase orders,
//! fulfillment and returns.

use vstd::prelude::*;
use crate::foundation::clone_vec_exact;
use crate::foundation::{Currency, Days, DomainResult, Money, Nat, Quantity, Sku, SupplierId, ValidationError, Weight, checked_add, checked_mul, checked_result_sum, days, mul_result, nat_sub, nat_sub_spec, result_sum};
use crate::orders::{Order};

verus! {

#[derive(Debug, PartialEq, Eq)]
pub struct DropshipSupplier {
    pub(crate) id: SupplierId,
    pub(crate) name: String,
    pub(crate) currency: Currency,
    pub(crate) active: bool,
    pub(crate) suspended: bool,
    pub(crate) processing_days: Days,
    pub(crate) accepts_returns: bool,
    pub(crate) max_daily_orders: Nat,
}

impl DropshipSupplier {
    pub open(crate) spec fn spec_id(&self) -> SupplierId {
        self.id
    }

    pub open(crate) spec fn spec_name(&self) -> String {
        self.name
    }

    pub open(crate) spec fn spec_currency(&self) -> Currency {
        self.currency
    }

    pub open(crate) spec fn spec_active(&self) -> bool {
        self.active
    }

    pub open(crate) spec fn spec_suspended(&self) -> bool {
        self.suspended
    }

    pub open(crate) spec fn spec_processing_days(&self) -> Days {
        self.processing_days
    }

    pub open(crate) spec fn spec_accepts_returns(&self) -> bool {
        self.accepts_returns
    }

    pub open(crate) spec fn spec_max_daily_orders(&self) -> Nat {
        self.max_daily_orders
    }

    pub open(crate) spec fn spec_new(id: SupplierId, name: String, currency: Currency, active: bool, suspended: bool, processing_days: Days, accepts_returns: bool, max_daily_orders: Nat) -> Self {
        DropshipSupplier { id, name, currency, active, suspended, processing_days, accepts_returns, max_daily_orders }
    }
}

/// The accessors of a `DropshipSupplier` built by `spec_new` give back its parts.
pub broadcast proof fn lemma_dropship_supplier_fields(id: SupplierId, name: String, currency: Currency, active: bool, suspended: bool, processing_days: Days, accepts_returns: bool, max_daily_orders: Nat)
    ensures
        #[trigger] DropshipSupplier::spec_new(id, name, currency, active, suspended, processing_days, accepts_returns, max_daily_orders).spec_id() == id
            && DropshipSupplier::spec_new(id, name, currency, active, suspended, processing_days, accepts_returns, max_daily_orders).spec_name() == name
            && DropshipSupplier::spec_new(id, name, currency, active, suspended, processing_days, accepts_returns, max_daily_orders).spec_currency() == currency
            && DropshipSupplier::spec_new(id, name, currency, active, suspended, processing_days, accepts_returns, max_daily_orders).spec_active() == active
            && DropshipSupplier::spec_new(id, name, currency, active, suspended, processing_days, accepts_returns, max_daily_orders).spec_suspended() == suspended
            && DropshipSupplier::spec_new(id, name, currency, active, suspended, processing_days, accepts_returns, max_daily_orders).spec_processing_days() == processing_days
            && DropshipSupplier::spec_new(id, name, currency, active, suspended, processing_days, accepts_returns, max_daily_orders).spec_accepts_returns() == accepts_returns
            && DropshipSupplier::spec_new(id, name, currency, active, suspended, processing_days, accepts_returns, max_daily_orders).spec_max_daily_orders() == max_daily_orders,
{
}

impl Clone for DropshipSupplier {
    fn clone(&self) -> (r: Self)
        ensures
            r == *self,
    {
        DropshipSupplier { id: self.id, name: self.name.clone(), currency: self.currency, active: self.active, suspended: self.suspended, processing_days: self.processing_days, accepts_returns: self.accepts_returns, max_daily_orders: self.max_daily_orders }
    }
}

impl DropshipSupplier {
    pub fn new(id: SupplierId, name: String, currency: Currency, active: bool, suspended: bool, processing_days: Days, accepts_returns: bool, max_daily_orders: Nat) -> (r: Self)
        ensures
            r == (DropshipSupplier::spec_new(id, name, currency, active, suspended, processing_days, accepts_returns, max_daily_orders)),
    {
        DropshipSupplier { id, name, currency, active, suspended, processing_days, accepts_returns, max_daily_orders }
    }

    pub fn try_new(id: SupplierId, name: String, currency: Currency, active: bool, suspended: bool, processing_days: Days, accepts_returns: bool, max_daily_orders: Nat) -> (r: DomainResult<Self>)
        ensures
            r == Ok::<Self, ValidationError>(DropshipSupplier::spec_new(id, name, currency, active, suspended, processing_days, accepts_returns, max_daily_orders)),
    {
        Ok(Self::new(id, name, currency, active, suspended, processing_days, accepts_returns, max_daily_orders))
    }

    pub fn id(&self) -> (r: SupplierId)
        ensures
            r == self.spec_id(),
    {
        self.id
    }

    pub fn name(&self) -> (r: &str)
        ensures
            r@ == self.spec_name()@,
    {
        self.name.as_str()
    }

    pub fn currency(&self) -> (r: Currency)
        ensures
            r == self.spec_currency(),
    {
        self.currency
    }

    pub fn active(&self) -> (r: bool)
        ensures
            r == self.spec_active(),
    {
        self.active
    }

    pub fn suspended(&self) -> (r: bool)
        ensures
            r == self.spec_suspended(),
    {
        self.suspended
    }

    pub fn processing_days(&self) -> (r: Days)
        ensures
            r == self.spec_processing_days(),
    {
        self.processing_days
    }

    pub fn accepts_returns(&self) -> (r: bool)
        ensures
            r == self.spec_accepts_returns(),
    {
        self.accepts_returns
    }

    pub fn max_daily_orders(&self) -> (r: Nat)
        ensures
            r == self.spec_max_daily_orders(),
    {
        self.max_daily_orders
    }
}

#[derive(Debug, PartialEq, Eq, Structural)]
pub struct DropshipShippingQuote {
    pub(crate) supplier_id: SupplierId,
    pub(crate) price: Money,
    pub(crate) max_weight: Weight,
    pub(crate) carrier_days: Days,
}

impl DropshipShippingQuote {
    pub open(crate) spec fn spec_supplier_id(&self) -> SupplierId {
        self.supplier_id
    }

    pub open(crate) spec fn spec_price(&self) -> Money {
        self.price
    }

    pub open(crate) spec fn spec_max_weight(&self) -> Weight {
        self.max_weight
    }

    pub open(crate) spec fn spec_carrier_days(&self) -> Days {
        self.carrier_days
    }

    pub open(crate) spec fn spec_new(supplier_id: SupplierId, price: Money, max_weight: Weight, carrier_days: Days) -> Self {
        DropshipShippingQuote { supplier_id, price, max_weight, carrier_days }
    }
}

/// The accessors of a `DropshipShippingQuote` built by `spec_new` give back its parts.
pub broadcast proof fn lemma_dropship_shipping_quote_fields(supplier_id: SupplierId, price: Money, max_weight: Weight, carrier_days: Days)
    ensures
        #[trigger] DropshipShippingQuote::spec_new(supplier_id, price, max_weight, carrier_days).spec_supplier_id() == supplier_id
            && DropshipShippingQuote::spec_new(supplier_id, price, max_weight, carrier_days).spec_price() == price
            && DropshipShippingQuote::spec_new(supplier_id, price, max_weight, carrier_days).spec_max_weight() == max_weight
            && DropshipShippingQuote::spec_new(supplier_id, price, max_weight, carrier_days).spec_carrier_days() == carrier_days,
{
}

impl Clone for DropshipShippingQuote {
    fn clone(&self) -> (r: Self)
        ensures
            r == *self,
    {
        DropshipShippingQuote { supplier_id: self.supplier_id, price: self.price, max_weight: self.max_weight, carrier_days: self.carrier_days }
    }
}

impl DropshipShippingQuote {
    pub fn new(supplier_id: SupplierId, price: Money, max_weight: Weight, carrier_days: Days) -> (r: Self)
        ensures
            r == (DropshipShippingQuote::spec_new(supplier_id, price, max_weight, carrier_days)),
    {
        DropshipShippingQuote { supplier_id, price, max_weight, carrier_days }
    }

    pub fn try_new(supplier_id: SupplierId, price: Money, max_weight: Weight, carrier_days: Days) -> (r: DomainResult<Self>)
        ensures
            r == Ok::<Self, ValidationError>(DropshipShippingQuote::spec_new(supplier_id, price, max_weight, carrier_days)),
    {
        Ok(Self::new(supplier_id, price, max_weight, carrier_days))
    }

    pub fn supplier_id(&self) -> (r: SupplierId)
        ensures
            r == self.spec_supplier_id(),
    {
        self.supplier_id
    }

    pub fn price(&self) -> (r: Money)
        ensures
            r == self.spec_price(),
    {
        self.price
    }

    pub fn max_weight(&self) -> (r: Weight)
        ensures
            r == self.spec_max_weight(),
    {
        self.max_weight
    }

    pub fn carrier_days(&self) -> (r: Days)
        ensures
            r == self.spec_carrier_days(),
    {
        self.carrier_days
    }
}

#[derive(Debug, PartialEq, Eq)]
pub struct SupplierDailyCapacity {
    pub(crate) supplier: DropshipSupplier,
    pub(crate) daily_order_capacity: Nat,
    pub(crate) orders_accepted_today: Nat,
}

impl SupplierDailyCapacity {
    /// Every value satisfies what `try_new` checks.
    #[verifier::type_invariant]
    pub open spec fn valid(self) -> bool {
        self.spec_orders_accepted_today() <= self.spec_daily_order_capacity() <= self.spec_supplier().spec_max_daily_orders()
    }

    pub open(crate) spec fn spec_supplier(&self) -> DropshipSupplier {
        self.supplier
    }

    pub open(crate) spec fn spec_daily_order_capacity(&self) -> Nat {
        self.daily_order_capacity
    }

    pub open(crate) spec fn spec_orders_accepted_today(&self) -> Nat {
        self.orders_accepted_today
    }

    pub open(crate) spec fn spec_new(supplier: DropshipSupplier, daily_order_capacity: Nat, orders_accepted_today: Nat) -> Self {
        SupplierDailyCapacity { supplier, daily_order_capacity, orders_accepted_today }
    }
}

/// The accessors of a `SupplierDailyCapacity` built by `spec_new` give back its parts.
pub broadcast proof fn lemma_supplier_daily_capacity_fields(supplier: DropshipSupplier, daily_order_capacity: Nat, orders_accepted_today: Nat)
    ensures
        #[trigger] SupplierDailyCapacity::spec_new(supplier, daily_order_capacity, orders_accepted_today).spec_supplier() == supplier
            && SupplierDailyCapacity::spec_new(supplier, daily_order_capacity, orders_accepted_today).spec_daily_order_capacity() == daily_order_capacity
            && SupplierDailyCapacity::spec_new(supplier, daily_order_capacity, orders_accepted_today).spec_orders_accepted_today() == orders_accepted_today,
{
}

impl Clone for SupplierDailyCapacity {
    fn clone(&self) -> (r: Self)
        ensures
            r == *self,
    {
        proof {
            use_type_invariant(self);
        }
        SupplierDailyCapacity { supplier: self.supplier.clone(), daily_order_capacity: self.daily_order_capacity, orders_accepted_today: self.orders_accepted_today }
    }
}

#[derive(Debug, PartialEq, Eq)]
pub struct DropshipOffer {
    pub(crate) sku: Sku,
    pub(crate) supplier: DropshipSupplier,
    pub(crate) supplier_unit_cost: Money,
    pub(crate) sale_unit_price: Money,
    pub(crate) unit_weight: Weight,
    pub(crate) available_qty: Quantity,
    pub(crate) currency: Currency,
    pub(crate) active: bool,
}

impl DropshipOffer {
    /// Every value satisfies what `try_new` checks.
    #[verifier::type_invariant]
    pub open spec fn valid(self) -> bool {
        self.spec_supplier_unit_cost() <= self.spec_sale_unit_price() && self.spec_currency() == self.spec_supplier().spec_currency()
    }

    pub open(crate) spec fn spec_sku(&self) -> Sku {
        self.sku
    }

    pub open(crate) spec fn spec_supplier(&self) -> DropshipSupplier {
        self.supplier
    }

    pub open(crate) spec fn spec_supplier_unit_cost(&self) -> Money {
        self.supplier_unit_cost
    }

    pub open(crate) spec fn spec_sale_unit_price(&self) -> Money {
        self.sale_unit_price
    }

    pub open(crate) spec fn spec_unit_weight(&self) -> Weight {
        self.unit_weight
    }

    pub open(crate) spec fn spec_available_qty(&self) -> Quantity {
        self.available_qty
    }

    pub open(crate) spec fn spec_currency(&self) -> Currency {
        self.currency
    }

    pub open(crate) spec fn spec_active(&self) -> bool {
        self.active
    }

    pub open(crate) spec fn spec_new(sku: Sku, supplier: DropshipSupplier, supplier_unit_cost: Money, sale_unit_price: Money, unit_weight: Weight, available_qty: Quantity, currency: Currency, active: bool) -> Self {
        DropshipOffer { sku, supplier, supplier_unit_cost, sale_unit_price, unit_weight, available_qty, currency, active }
    }
}

/// The accessors of a `DropshipOffer` built by `spec_new` give back its parts.
pub broadcast proof fn lemma_dropshipoffer_fields(sku: Sku, supplier: DropshipSupplier, supplier_unit_cost: Money, sale_unit_price: Money, unit_weight: Weight, available_qty: Quantity, currency: Currency, active: bool)
    ensures
        #[trigger] DropshipOffer::spec_new(sku, supplier, supplier_unit_cost, sale_unit_price, unit_weight, available_qty, currency, active).spec_sku() == sku
            && DropshipOffer::spec_new(sku, supplier, supplier_unit_cost, sale_unit_price, unit_weight, available_qty, currency, active).spec_supplier() == supplier
            && DropshipOffer::spec_new(sku, supplier, supplier_unit_cost, sale_unit_price, unit_weight, available_qty, currency, active).spec_supplier_unit_cost() == supplier_unit_cost
            && DropshipOffer::spec_new(sku, supplier, supplier_unit_cost, sale_unit_price, unit_weight, available_qty, currency, active).spec_sale_unit_price() == sale_unit_price
            && DropshipOffer::spec_new(sku, supplier, supplier_unit_cost, sale_unit_price, unit_weight, available_qty, currency, active).spec_unit_weight() == unit_weight
            && DropshipOffer::spec_new(sku, supplier, supplier_unit_cost, sale_unit_price, unit_weight, available_qty, currency, active).spec_available_qty() == available_qty
            && DropshipOffer::spec_new(sku, supplier, supplier_unit_cost, sale_unit_price, unit_weight, available_qty, currency, active).spec_currency() == currency
            && DropshipOffer::spec_new(sku, supplier, supplier_unit_cost, sale_unit_price, unit_weight, available_qty, currency, active).spec_active() == active,
{
}

impl Clone for DropshipOffer {
    fn clone(&self) -> (r: Self)
        ensures
            r == *self,
    {
        proof {
            use_type_invariant(self);
        }
        DropshipOffer { sku: self.sku, supplier: self.supplier.clone(), supplier_unit_cost: self.supplier_unit_cost, sale_unit_price: self.sale_unit_price, unit_weight: self.unit_weight, available_qty: self.available_qty, currency: self.currency, active: self.active }
    }
}

#[derive(Clone, Copy, Debug, PartialEq, Eq, Structural)]
pub enum SupplierReservationStatus {
    Requested,
    Confirmed,
    Rejected,
    Expired,
}

#[derive(Debug, PartialEq, Eq)]
pub struct SupplierReservation {
    pub(crate) offer: DropshipOffer,
    pub(crate) supplier: DropshipSupplier,
    pub(crate) quantity: Quantity,
    pub(crate) status: SupplierReservationStatus,
}

impl SupplierReservation {
    /// Every value satisfies what `try_new` checks.
    #[verifier::type_invariant]
    pub open spec fn valid(self) -> bool {
        self.spec_offer().spec_supplier().spec_id() == self.spec_supplier().spec_id() && self.spec_quantity() <= self.spec_offer().spec_available_qty()
    }

    pub open(crate) spec fn spec_offer(&self) -> DropshipOffer {
        self.offer
    }

    pub open(crate) spec fn spec_supplier(&self) -> DropshipSupplier {
        self.supplier
    }

    pub open(crate) spec fn spec_quantity(&self) -> Quantity {
        self.quantity
    }

    pub open(crate) spec fn spec_status(&self) -> SupplierReservationStatus {
        self.status
    }

    pub open(crate) spec fn spec_new(offer: DropshipOffer, supplier: DropshipSupplier, quantity: Quantity, status: SupplierReservationStatus) -> Self {
        SupplierReservation { offer, supplier, quantity, status }
    }
}

/// The accessors of a `SupplierReservation` built by `spec_new` give back its parts.
pub broadcast proof fn lemma_supplier_reservation_fields(offer: DropshipOffer, supplier: DropshipSupplier, quantity: Quantity, status: SupplierReservationStatus)
    ensures
        #[trigger] SupplierReservation::spec_new(offer, supplier, quantity, status).spec_offer() == offer
            && SupplierReservation::spec_new(offer, supplier, quantity, status).spec_supplier() == supplier
            && SupplierReservation::spec_new(offer, supplier, quantity, status).spec_quantity() == quantity
            && SupplierReservation::spec_new(offer, supplier, quantity, status).spec_status() == status,
{
}

impl Clone for SupplierReservation {
    fn clone(&self) -> (r: Self)
        ensures
            r == *self,
    {
        proof {
            use_type_invariant(self);
        }
        SupplierReservation { offer: self.offer.clone(), supplier: self.supplier.clone(), quantity: self.quantity, status: self.status }
    }
}

#[derive(Debug, PartialEq, Eq)]
pub struct DropshipLine {
    pub(crate) offer: DropshipOffer,
    pub(crate) quantity: Quantity,
    pub(crate) discount: Money,
}

impl DropshipLine {
    /// Every value satisfies what `try_new` checks.
    #[verifier::type_invariant]
    pub open spec fn valid(self) -> bool {
        dropship_line_error(self.spec_offer(), self.spec_quantity(), self.spec_discount()) is None
    }

    pub open(crate) spec fn spec_offer(&self) -> DropshipOffer {
        self.offer
    }

    pub open(crate) spec fn spec_quantity(&self) -> Quantity {
        self.quantity
    }

    pub open(crate) spec fn spec_discount(&self) -> Money {
        self.discount
    }

    pub open(crate) spec fn spec_new(offer: DropshipOffer, quantity: Quantity, discount: Money) -> Self {
        DropshipLine { offer, quantity, discount }
    }
}

/// The accessors of a `DropshipLine` built by `spec_new` give back its parts.
pub broadcast proof fn lemma_dropship_line_fields(offer: DropshipOffer, quantity: Quantity, discount: Money)
    ensures
        #[trigger] DropshipLine::spec_new(offer, quantity, discount).spec_offer() == offer
            && DropshipLine::spec_new(offer, quantity, discount).spec_quantity() == quantity
            && DropshipLine::spec_new(offer, quantity, discount).spec_discount() == discount,
{
}

impl Clone for DropshipLine {
    fn clone(&self) -> (r: Self)
        ensures
            r == *self,
    {
        proof {
            use_type_invariant(self);
        }
        DropshipLine { offer: self.offer.clone(), quantity: self.quantity, discount: self.discount }
    }
}

#[derive(Debug, PartialEq, Eq)]
pub struct ReservedDropshipLine {
    pub(crate) line: DropshipLine,
    pub(crate) reservation: SupplierReservation,
}

impl ReservedDropshipLine {
    /// Every value satisfies what `try_new` checks.
    #[verifier::type_invariant]
    pub open spec fn valid(self) -> bool {
        same_offer(self.spec_reservation().spec_offer(), self.spec_line().spec_offer()) && self.spec_reservation().spec_quantity() == self.spec_line().spec_quantity() && self.spec_reservation().spec_status() == SupplierReservationStatus::Confirmed
    }

    pub open(crate) spec fn spec_line(&self) -> DropshipLine {
        self.line
    }

    pub open(crate) spec fn spec_reservation(&self) -> SupplierReservation {
        self.reservation
    }

    pub open(crate) spec fn spec_new(line: DropshipLine, reservation: SupplierReservation) -> Self {
        ReservedDropshipLine { line, reservation }
    }
}

/// The accessors of a `ReservedDropshipLine` built by `spec_new` give back its parts.
pub broadcast proof fn lemma_reserved_dropship_line_fields(line: DropshipLine, reservation: SupplierReservation)
    ensures
        #[trigger] ReservedDropshipLine::spec_new(line, reservation).spec_line() == line
            && ReservedDropshipLine::spec_new(line, reservation).spec_reservation() == reservation,
{
}

impl Clone for ReservedDropshipLine {
    fn clone(&self) -> (r: Self)
        ensures
            r == *self,
    {
        proof {
            use_type_invariant(self);
        }
        ReservedDropshipLine { line: self.line.clone(), reservation: self.reservation.clone() }
    }
}

#[derive(Clone, Copy, Debug, PartialEq, Eq, Structural)]
pub enum DropshipPOStatus {
    Created,
    Submitted,
    Accepted,
    Rejected,
    Shipped,
    Delivered,
    Cancelled,
}

#[derive(Debug, PartialEq, Eq)]
pub struct DropshipPurchaseOrder {
    pub(crate) supplier: DropshipSupplier,
    pub(crate) lines: Vec<DropshipLine>,
    pub(crate) quote: DropshipShippingQuote,
    pub(crate) status: DropshipPOStatus,
    pub(crate) total: Money,
}

impl DropshipPurchaseOrder {
    /// Equal fields, and equal contents for the vectors it holds.
    pub open spec fn same_content(self, other: Self) -> bool {
        self.spec_supplier() == other.spec_supplier()
            && self.spec_lines()@ == other.spec_lines()@
            && self.spec_quote() == other.spec_quote()
            && self.spec_status() == other.spec_status()
            && self.spec_total() == other.spec_total()
    }

    /// Every value satisfies what `try_new` checks.
    #[verifier::type_invariant]
    pub open spec fn valid(self) -> bool {
        dropship_po_error(self.spec_supplier(), self.spec_lines()@, self.spec_quote(), self.spec_total()) is None
    }

    pub open(crate) spec fn spec_supplier(&self) -> DropshipSupplier {
        self.supplier
    }

    pub open(crate) spec fn spec_lines(&self) -> Vec<DropshipLine> {
        self.lines
    }

    pub open(crate) spec fn spec_quote(&self) -> DropshipShippingQuote {
        self.quote
    }

    pub open(crate) spec fn spec_status(&self) -> DropshipPOStatus {
        self.status
    }

    pub open(crate) spec fn spec_total(&self) -> Money {
        self.total
    }

    pub open(crate) spec fn spec_new(supplier: DropshipSupplier, lines: Vec<DropshipLine>, quote: DropshipShippingQuote, status: DropshipPOStatus, total: Money) -> Self {
        DropshipPurchaseOrder { supplier, lines, quote, status, total }
    }
}

/// The accessors of a `DropshipPurchaseOrder` built by `spec_new` give back its parts.
pub broadcast proof fn lemma_dropship_purchase_order_fields(supplier: DropshipSupplier, lines: Vec<DropshipLine>, quote: DropshipShippingQuote, status: DropshipPOStatus, total: Money)
    ensures
        #[trigger] DropshipPurchaseOrder::spec_new(supplier, lines, quote, status, total).spec_supplier() == supplier
            && DropshipPurchaseOrder::spec_new(supplier, lines, quote, status, total).spec_lines() == lines
            && DropshipPurchaseOrder::spec_new(supplier, lines, quote, status, total).spec_quote() == quote
            && DropshipPurchaseOrder::spec_new(supplier, lines, quote, status, total).spec_status() == status
            && DropshipPurchaseOrder::spec_new(supplier, lines, quote, status, total).spec_total() == total,
{
}

impl Clone for DropshipPurchaseOrder {
    fn clone(&self) -> (r: Self)
        ensures
            r.same_content(*self),
    {
        proof {
            use_type_invariant(self);
        }
        DropshipPurchaseOrder { supplier: self.supplier.clone(), lines: clone_vec_exact(&self.lines), quote: self.quote.clone(), status: self.status.clone(), total: self.total.clone() }
    }
}

#[derive(Debug, PartialEq, Eq)]
pub struct DropshipFulfillment {
    pub(crate) customer_order: Order,
    pub(crate) purchase_order: DropshipPurchaseOrder,
    pub(crate) segment_revenue: Money,
}

impl DropshipFulfillment {
    /// Equal fields, and equal contents for the vectors it holds.
    pub open spec fn same_content(self, other: Self) -> bool {
        self.spec_customer_order().same_content(other.spec_customer_order())
            && self.spec_purchase_order().same_content(other.spec_purchase_order())
            && self.spec_segment_revenue() == other.spec_segment_revenue()
    }

    /// Every value satisfies what `try_new` checks.
    #[verifier::type_invariant]
    pub open spec fn valid(self) -> bool {
        result_sum(self.spec_purchase_order().spec_lines()@.map_values(dropship_customer_net_fn()), "dropship_sale_net_total") == Ok::<u128, ValidationError>(self.spec_segment_revenue())
            && self.spec_segment_revenue() <= self.spec_customer_order().spec_total()
    }

    pub open(crate) spec fn spec_customer_order(&self) -> Order {
        self.customer_order
    }

    pub open(crate) spec fn spec_purchase_order(&self) -> DropshipPurchaseOrder {
        self.purchase_order
    }

    pub open(crate) spec fn spec_segment_revenue(&self) -> Money {
        self.segment_revenue
    }

    pub open(crate) spec fn spec_new(customer_order: Order, purchase_order: DropshipPurchaseOrder, segment_revenue: Money) -> Self {
        DropshipFulfillment { customer_order, purchase_order, segment_revenue }
    }
}

/// The accessors of a `DropshipFulfillment` built by `spec_new` give back its parts.
pub broadcast proof fn lemma_dropship_fulfillment_fields(customer_order: Order, purchase_order: DropshipPurchaseOrder, segment_revenue: Money)
    ensures
        #[trigger] DropshipFulfillment::spec_new(customer_order, purchase_order, segment_revenue).spec_customer_order() == customer_order
            && DropshipFulfillment::spec_new(customer_order, purchase_order, segment_revenue).spec_purchase_order() == purchase_order
            && DropshipFulfillment::spec_new(customer_order, purchase_order, segment_revenue).spec_segment_revenue() == segment_revenue,
{
}

impl Clone for DropshipFulfillment {
    fn clone(&self) -> (r: Self)
        ensures
            r.same_content(*self),
    {
        proof {
            use_type_invariant(self);
        }
        DropshipFulfillment { customer_order: self.customer_order.clone(), purchase_order: self.purchase_order.clone(), segment_revenue: self.segment_revenue.clone() }
    }
}

#[derive(Debug, PartialEq, Eq)]
pub struct DropshipReturnRequest {
    pub(crate) line: DropshipLine,
    pub(crate) return_qty: Quantity,
    pub(crate) customer_refund: Money,
    pub(crate) supplier_credit: Money,
}

impl DropshipReturnRequest {
    /// Every value satisfies what `try_new` checks.
    #[verifier::type_invariant]
    pub open spec fn valid(self) -> bool {
        dropship_return_error(self.spec_line(), self.spec_return_qty(), self.spec_customer_refund(), self.spec_supplier_credit()) is None
    }

    pub open(crate) spec fn spec_line(&self) -> DropshipLine {
        self.line
    }

    pub open(crate) spec fn spec_return_qty(&self) -> Quantity {
        self.return_qty
    }

    pub open(crate) spec fn spec_customer_refund(&self) -> Money {
        self.customer_refund
    }

    pub open(crate) spec fn spec_supplier_credit(&self) -> Money {
        self.supplier_credit
    }

    pub open(crate) spec fn spec_new(line: DropshipLine, return_qty: Quantity, customer_refund: Money, supplier_credit: Money) -> Self {
        DropshipReturnRequest { line, return_qty, customer_refund, supplier_credit }
    }
}

/// The accessors of a `DropshipReturnRequest` built by `spec_new` give back its parts.
pub broadcast proof fn lemma_dropship_return_request_fields(line: DropshipLine, return_qty: Quantity, customer_refund: Money, supplier_credit: Money)
    ensures
        #[trigger] DropshipReturnRequest::spec_new(line, return_qty, customer_refund, supplier_credit).spec_line() == line
            && DropshipReturnRequest::spec_new(line, return_qty, customer_refund, supplier_credit).spec_return_qty() == return_qty
            && DropshipReturnRequest::spec_new(line, return_qty, customer_refund, supplier_credit).spec_customer_refund() == customer_refund
            && DropshipReturnRequest::spec_new(line, return_qty, customer_refund, supplier_credit).spec_supplier_credit() == supplier_credit,
{
}

impl Clone for DropshipReturnRequest {
    fn clone(&self) -> (r: Self)
        ensures
            r == *self,
    {
        proof {
            use_type_invariant(self);
        }
        DropshipReturnRequest { line: self.line.clone(), return_qty: self.return_qty, customer_refund: self.customer_refund, supplier_credit: self.supplier_credit }
    }
}

impl DropshipOffer {
    pub fn supplier(&self) -> (r: &DropshipSupplier)
        ensures
            *r == self.spec_supplier(),
    {
        &self.supplier
    }

    pub fn supplier_unit_cost(&self) -> (r: Money)
        ensures
            r == self.spec_supplier_unit_cost(),
    {
        self.supplier_unit_cost
    }

    pub fn unit_weight(&self) -> (r: Weight)
        ensures
            r == self.spec_unit_weight(),
    {
        self.unit_weight
    }

    pub fn available_qty(&self) -> (r: Quantity)
        ensures
            r == self.spec_available_qty(),
    {
        self.available_qty
    }

    pub fn active(&self) -> (r: bool)
        ensures
            r == self.spec_active(),
    {
        self.active
    }
}

impl SupplierDailyCapacity {
    pub fn supplier(&self) -> (r: &DropshipSupplier)
        ensures
            *r == self.spec_supplier(),
    {
        &self.supplier
    }

    pub fn daily_order_capacity(&self) -> (r: Nat)
        ensures
            r == self.spec_daily_order_capacity(),
    {
        self.daily_order_capacity
    }

    pub fn orders_accepted_today(&self) -> (r: Nat)
        ensures
            r == self.spec_orders_accepted_today(),
    {
        self.orders_accepted_today
    }
}

impl SupplierReservation {
    pub fn offer(&self) -> (r: &DropshipOffer)
        ensures
            *r == self.spec_offer(),
    {
        &self.offer
    }

    pub fn supplier(&self) -> (r: &DropshipSupplier)
        ensures
            *r == self.spec_supplier(),
    {
        &self.supplier
    }

    pub fn quantity(&self) -> (r: Quantity)
        ensures
            r == self.spec_quantity(),
    {
        self.quantity
    }

    pub fn status(&self) -> (r: SupplierReservationStatus)
        ensures
            r == self.spec_status(),
    {
        self.status
    }
}

impl DropshipLine {
    pub fn discount(&self) -> (r: Money)
        ensures
            r == self.spec_discount(),
    {
        self.discount
    }
}

impl ReservedDropshipLine {
    pub fn line(&self) -> (r: &DropshipLine)
        ensures
            *r == self.spec_line(),
    {
        &self.line
    }

    pub fn reservation(&self) -> (r: &SupplierReservation)
        ensures
            *r == self.spec_reservation(),
    {
        &self.reservation
    }
}

impl DropshipPurchaseOrder {
    pub fn supplier(&self) -> (r: &DropshipSupplier)
        ensures
            *r == self.spec_supplier(),
    {
        &self.supplier
    }

    pub fn quote(&self) -> (r: &DropshipShippingQuote)
        ensures
            *r == self.spec_quote(),
    {
        &self.quote
    }

    pub fn status(&self) -> (r: DropshipPOStatus)
        ensures
            r == self.spec_status(),
    {
        self.status
    }

    pub fn total(&self) -> (r: Money)
        ensures
            r == self.spec_total(),
    {
        self.total
    }
}

impl DropshipFulfillment {
    pub fn customer_order(&self) -> (r: &Order)
        ensures
            *r == self.spec_customer_order(),
    {
        &self.customer_order
    }

    pub fn purchase_order(&self) -> (r: &DropshipPurchaseOrder)
        ensures
            *r == self.spec_purchase_order(),
    {
        &self.purchase_order
    }

    pub fn segment_revenue(&self) -> (r: Money)
        ensures
            r == self.spec_segment_revenue(),
    {
        self.segment_revenue
    }
}

impl DropshipReturnRequest {
    pub fn line(&self) -> (r: &DropshipLine)
        ensures
            *r == self.spec_line(),
    {
        &self.line
    }

    pub fn return_qty(&self) -> (r: Quantity)
        ensures
            r == self.spec_return_qty(),
    {
        self.return_qty
    }

    pub fn customer_refund(&self) -> (r: Money)
        ensures
            r == self.spec_customer_refund(),
    {
        self.customer_refund
    }

    pub fn supplier_credit(&self) -> (r: Money)
        ensures
            r == self.spec_supplier_credit(),
    {
        self.supplier_credit
    }
}

pub open spec fn supplier_can_receive_orders_spec(supplier: DropshipSupplier) -> bool {
    supplier.spec_active() && !supplier.spec_suspended()
}

pub fn supplier_can_receive_orders(supplier: &DropshipSupplier) -> (r: bool)
    ensures
        r == supplier_can_receive_orders_spec(*supplier),
{
    supplier.active && !supplier.suspended
}

/// Two suppliers agree field by field (names by their text).
pub open spec fn same_supplier(a: DropshipSupplier, b: DropshipSupplier) -> bool {
    &&& a.spec_id() == b.spec_id()
    &&& a.spec_name()@ == b.spec_name()@
    &&& a.spec_currency() == b.spec_currency()
    &&& a.spec_active() == b.spec_active()
    &&& a.spec_suspended() == b.spec_suspended()
    &&& a.spec_processing_days() == b.spec_processing_days()
    &&& a.spec_accepts_returns() == b.spec_accepts_returns()
    &&& a.spec_max_daily_orders() == b.spec_max_daily_orders()
}

/// Two offers agree field by field.
pub open spec fn same_offer(a: DropshipOffer, b: DropshipOffer) -> bool {
    &&& a.spec_sku() == b.spec_sku()
    &&& same_supplier(a.spec_supplier(), b.spec_supplier())
    &&& a.spec_supplier_unit_cost() == b.spec_supplier_unit_cost()
    &&& a.spec_sale_unit_price() == b.spec_sale_unit_price()
    &&& a.spec_unit_weight() == b.spec_unit_weight()
    &&& a.spec_available_qty() == b.spec_available_qty()
    &&& a.spec_currency() == b.spec_currency()
    &&& a.spec_active() == b.spec_active()
}

fn suppliers_equal(a: &DropshipSupplier, b: &DropshipSupplier) -> (r: bool)
    ensures
        r == same_supplier(*a, *b),
{
    a.id == b.id && a.name == b.name && a.currency == b.currency && a.active == b.active && a.suspended == b.suspended
        && a.processing_days == b.processing_days && a.accepts_returns == b.accepts_returns && a.max_daily_orders
        == b.max_daily_orders
}

fn offers_equal(a: &DropshipOffer, b: &DropshipOffer) -> (r: bool)
    ensures
        r == same_offer(*a, *b),
{
    a.sku == b.sku && suppliers_equal(&a.supplier, &b.supplier) && a.supplier_unit_cost == b.supplier_unit_cost
        && a.sale_unit_price == b.sale_unit_price && a.unit_weight == b.unit_weight && a.available_qty
        == b.available_qty && a.currency == b.currency && a.active == b.active
}

impl SupplierDailyCapacity {
    pub fn try_new(supplier: DropshipSupplier, daily_order_capacity: Nat, orders_accepted_today: Nat) -> (r: DomainResult<Self>)
        ensures
            orders_accepted_today > daily_order_capacity ==> r == Err::<Self, ValidationError>(ValidationError::Invariant("accepted orders exceed capacity")),
            orders_accepted_today <= daily_order_capacity && daily_order_capacity > supplier.spec_max_daily_orders() ==> r == Err::<Self, ValidationError>(ValidationError::Invariant("daily capacity exceeds supplier maximum")),
            orders_accepted_today <= daily_order_capacity <= supplier.spec_max_daily_orders() ==> r == Ok::<Self, ValidationError>(
                SupplierDailyCapacity::spec_new(supplier, daily_order_capacity, orders_accepted_today),
            ),
    {
        if orders_accepted_today > daily_order_capacity {
            return Err(ValidationError::Invariant("accepted orders exceed capacity"));
        }
        if daily_order_capacity > supplier.max_daily_orders {
            return Err(ValidationError::Invariant("daily capacity exceeds supplier maximum"));
        }
        Ok(Self { supplier, daily_order_capacity, orders_accepted_today })
    }
}

pub fn can_add_supplier_orders(capacity: &SupplierDailyCapacity, new_orders: Nat) -> (r: bool)
    ensures
        r == (capacity.spec_orders_accepted_today() + new_orders <= capacity.spec_daily_order_capacity()),
{
    match capacity.orders_accepted_today.checked_add(new_orders) {
        Some(total) => total <= capacity.daily_order_capacity,
        None => false,
    }
}

impl DropshipOffer {
    pub fn try_new(sku: Sku, supplier: DropshipSupplier, supplier_unit_cost: Money, sale_unit_price: Money, unit_weight: Weight, available_qty: Quantity, currency: Currency, active: bool) -> (r: DomainResult<Self>)
        ensures
            supplier_unit_cost > sale_unit_price ==> r == Err::<Self, ValidationError>(ValidationError::Invariant("supplier unit cost exceeds sale price")),
            supplier_unit_cost <= sale_unit_price && currency != supplier.spec_currency() ==> r == Err::<Self, ValidationError>(ValidationError::Invariant("offer currency must match supplier currency")),
            supplier_unit_cost <= sale_unit_price && currency == supplier.spec_currency() ==> r == Ok::<Self, ValidationError>(
                DropshipOffer::spec_new(sku, supplier, supplier_unit_cost, sale_unit_price, unit_weight, available_qty, currency, active),
            ),
    {
        if supplier_unit_cost > sale_unit_price {
            return Err(ValidationError::Invariant("supplier unit cost exceeds sale price"));
        }
        if currency != supplier.currency {
            return Err(ValidationError::Invariant("offer currency must match supplier currency"));
        }
        Ok(Self { sku, supplier, supplier_unit_cost, sale_unit_price, unit_weight, available_qty, currency, active })
    }

    pub fn sku(&self) -> (r: Sku)
        ensures
            r == self.spec_sku(),
    {
        self.sku
    }

    pub fn sale_unit_price(&self) -> (r: Money)
        ensures
            r == self.spec_sale_unit_price(),
    {
        self.sale_unit_price
    }

    pub fn currency(&self) -> (r: Currency)
        ensures
            r == self.spec_currency(),
    {
        self.currency
    }
}

pub fn dropship_offer_can_be_sold(offer: &DropshipOffer) -> (r: bool)
    ensures
        r == (supplier_can_receive_orders_spec(offer.spec_supplier()) && offer.spec_active() && offer.spec_available_qty() > 0),
{
    supplier_can_receive_orders(&offer.supplier) && offer.active && offer.available_qty > 0
}

impl SupplierReservation {
    pub fn try_new(offer: DropshipOffer, supplier: DropshipSupplier, quantity: Quantity, status: SupplierReservationStatus) -> (r: DomainResult<Self>)
        ensures
            offer.spec_supplier().spec_id() != supplier.spec_id() ==> r == Err::<Self, ValidationError>(ValidationError::Invariant("reservation supplier mismatch")),
            offer.spec_supplier().spec_id() == supplier.spec_id() && quantity > offer.spec_available_qty() ==> r == Err::<Self, ValidationError>(ValidationError::Invariant("reservation quantity exceeds availability")),
            offer.spec_supplier().spec_id() == supplier.spec_id() && quantity <= offer.spec_available_qty() ==> r == Ok::<Self, ValidationError>(SupplierReservation::spec_new(offer, supplier, quantity, status)),
    {
        if offer.supplier.id != supplier.id {
            return Err(ValidationError::Invariant("reservation supplier mismatch"));
        }
        if quantity > offer.available_qty {
            return Err(ValidationError::Invariant("reservation quantity exceeds availability"));
        }
        Ok(Self { offer, supplier, quantity, status })
    }
}

pub fn reservation_confirmed(r: &SupplierReservation) -> (b: bool)
    ensures
        b == (r.spec_status() == SupplierReservationStatus::Confirmed),
{
    r.status == SupplierReservationStatus::Confirmed
}

/// The first check a dropship line fails, if any.
pub open spec fn dropship_line_error(offer: DropshipOffer, quantity: u128, discount: u128) -> Option<ValidationError> {
    if !supplier_can_receive_orders_spec(offer.spec_supplier()) {
        Some(ValidationError::Invariant("supplier cannot receive orders"))
    } else if !offer.spec_active() {
        Some(ValidationError::Invariant("dropship offer is inactive"))
    } else if quantity > offer.spec_available_qty() {
        Some(ValidationError::Invariant("line quantity exceeds offer availability"))
    } else if offer.spec_sale_unit_price() * quantity > u128::MAX {
        Some(ValidationError::Overflow("dropship sale gross"))
    } else if discount > offer.spec_sale_unit_price() * quantity {
        Some(ValidationError::Invariant("dropship discount exceeds gross"))
    } else if offer.spec_supplier_unit_cost() * quantity > u128::MAX {
        Some(ValidationError::Overflow("dropship supplier cost"))
    } else if offer.spec_supplier_unit_cost() * quantity + discount > u128::MAX {
        Some(ValidationError::Overflow("dropship margin"))
    } else if offer.spec_supplier_unit_cost() * quantity + discount > offer.spec_sale_unit_price() * quantity {
        Some(ValidationError::Invariant("dropship margin after discount is unsafe"))
    } else {
        None
    }
}

impl DropshipLine {
    pub fn try_new(offer: DropshipOffer, quantity: Quantity, discount: Money) -> (r: DomainResult<Self>)
        ensures
            r == (match dropship_line_error(offer, quantity, discount) {
                Some(e) => Err(e),
                None => Ok(DropshipLine::spec_new(offer, quantity, discount)),
            }),
    {
        if !supplier_can_receive_orders(&offer.supplier) {
            return Err(ValidationError::Invariant("supplier cannot receive orders"));
        }
        if !offer.active {
            return Err(ValidationError::Invariant("dropship offer is inactive"));
        }
        if quantity > offer.available_qty {
            return Err(ValidationError::Invariant("line quantity exceeds offer availability"));
        }
        let sale_gross = match checked_mul(offer.sale_unit_price, quantity, "dropship sale gross") {
            Ok(v) => v,
            Err(e) => return Err(e),
        };
        if discount > sale_gross {
            return Err(ValidationError::Invariant("dropship discount exceeds gross"));
        }
        let supplier_cost = match checked_mul(offer.supplier_unit_cost, quantity, "dropship supplier cost") {
            Ok(v) => v,
            Err(e) => return Err(e),
        };
        match checked_add(supplier_cost, discount, "dropship margin") {
            Err(e) => return Err(e),
            Ok(v) => if v > sale_gross {
                return Err(ValidationError::Invariant("dropship margin after discount is unsafe"));
            },
        }
        Ok(Self { offer, quantity, discount })
    }

    pub fn offer(&self) -> (r: &DropshipOffer)
        ensures
            *r == self.spec_offer(),
    {
        &self.offer
    }

    pub fn quantity(&self) -> (r: Quantity)
        ensures
            r == self.spec_quantity(),
    {
        self.quantity
    }
}

pub open spec fn dropship_sale_gross_spec(line: DropshipLine) -> DomainResult<u128> {
    mul_result(line.spec_offer().spec_sale_unit_price() as int, line.spec_quantity() as int, "dropship_line_sale_gross")
}

pub open spec fn dropship_customer_net_spec(line: DropshipLine) -> DomainResult<u128> {
    match dropship_sale_gross_spec(line) {
        Err(e) => Err(e),
        Ok(g) => Ok(nat_sub_spec(g as int, line.spec_discount() as int) as u128),
    }
}

pub open spec fn dropship_customer_net_fn() -> spec_fn(DropshipLine) -> DomainResult<u128> {
    |line: DropshipLine| dropship_customer_net_spec(line)
}

pub open spec fn dropship_supplier_cost_spec(line: DropshipLine) -> DomainResult<u128> {
    mul_result(line.spec_offer().spec_supplier_unit_cost() as int, line.spec_quantity() as int, "dropship_line_supplier_cost")
}

pub open spec fn dropship_supplier_cost_fn() -> spec_fn(DropshipLine) -> DomainResult<u128> {
    |line: DropshipLine| dropship_supplier_cost_spec(line)
}

pub open spec fn dropship_weight_spec(line: DropshipLine) -> DomainResult<u128> {
    mul_result(line.spec_offer().spec_unit_weight() as int, line.spec_quantity() as int, "dropship_line_weight")
}

pub open spec fn dropship_weight_fn() -> spec_fn(DropshipLine) -> DomainResult<u128> {
    |line: DropshipLine| dropship_weight_spec(line)
}

pub fn dropship_line_sale_gross(line: &DropshipLine) -> (r: DomainResult<Money>)
    ensures
        r == dropship_sale_gross_spec(*line),
{
    checked_mul(line.offer.sale_unit_price, line.quantity, "dropship_line_sale_gross")
}

pub fn dropship_line_customer_net(line: &DropshipLine) -> (r: DomainResult<Money>)
    ensures
        r == dropship_customer_net_spec(*line),
{
    match dropship_line_sale_gross(line) {
        Err(e) => Err(e),
        Ok(g) => Ok(nat_sub(g, line.discount)),
    }
}

pub fn dropship_line_supplier_cost(line: &DropshipLine) -> (r: DomainResult<Money>)
    ensures
        r == dropship_supplier_cost_spec(*line),
{
    checked_mul(line.offer.supplier_unit_cost, line.quantity, "dropship_line_supplier_cost")
}

pub fn dropship_line_weight(line: &DropshipLine) -> (r: DomainResult<Weight>)
    ensures
        r == dropship_weight_spec(*line),
{
    checked_mul(line.offer.unit_weight, line.quantity, "dropship_line_weight")
}

impl ReservedDropshipLine {
    pub fn try_new(line: DropshipLine, reservation: SupplierReservation) -> (r: DomainResult<Self>)
        ensures
            !same_offer(reservation.spec_offer(), line.spec_offer()) ==> r == Err::<Self, ValidationError>(ValidationError::Invariant("reservation offer mismatch")),
            same_offer(reservation.spec_offer(), line.spec_offer()) && reservation.spec_quantity() != line.spec_quantity() ==> r == Err::<Self, ValidationError>(ValidationError::Invariant("reservation quantity mismatch")),
            same_offer(reservation.spec_offer(), line.spec_offer()) && reservation.spec_quantity() == line.spec_quantity() && reservation.spec_status() != SupplierReservationStatus::Confirmed ==> r == Err::<Self, ValidationError>(ValidationError::Invariant("reservation must be confirmed")),
            same_offer(reservation.spec_offer(), line.spec_offer()) && reservation.spec_quantity() == line.spec_quantity() && reservation.spec_status() == SupplierReservationStatus::Confirmed ==> r == Ok::<Self, ValidationError>(
                ReservedDropshipLine::spec_new(line, reservation),
            ),
    {
        if !offers_equal(&reservation.offer, &line.offer) {
            return Err(ValidationError::Invariant("reservation offer mismatch"));
        }
        if reservation.quantity != line.quantity {
            return Err(ValidationError::Invariant("reservation quantity mismatch"));
        }
        if reservation.status != SupplierReservationStatus::Confirmed {
            return Err(ValidationError::Invariant("reservation must be confirmed"));
        }
        Ok(Self { line, reservation })
    }
}

/// Running sum of the lines' customer net, stopping at the first error.
pub fn dropship_sale_net_total(lines: &[DropshipLine]) -> (r: DomainResult<Nat>)
    ensures
        r == result_sum(lines@.map_values(dropship_customer_net_fn()), "dropship_sale_net_total"),
{
    let mut results: Vec<DomainResult<Nat>> = Vec::new();
    let mut i: usize = 0;
    while i < lines.len()
        invariant
            i <= lines.len(),
            results@.len() == i,
            forall|j: int| 0 <= j < i ==> results@[j] == (dropship_customer_net_fn())(lines@[j]),
        decreases lines.len() - i,
    {
        results.push(dropship_line_customer_net(&lines[i]));
        i += 1;
    }
    proof {
        assert(results@ =~= lines@.map_values(dropship_customer_net_fn()));
    }
    checked_result_sum(results.as_slice(), "dropship_sale_net_total")
}


/// Running sum of the lines' supplier cost, stopping at the first error.
pub fn dropship_supplier_cost_total(lines: &[DropshipLine]) -> (r: DomainResult<Nat>)
    ensures
        r == result_sum(lines@.map_values(dropship_supplier_cost_fn()), "dropship_supplier_cost_total"),
{
    let mut results: Vec<DomainResult<Nat>> = Vec::new();
    let mut i: usize = 0;
    while i < lines.len()
        invariant
            i <= lines.len(),
            results@.len() == i,
            forall|j: int| 0 <= j < i ==> results@[j] == (dropship_supplier_cost_fn())(lines@[j]),
        decreases lines.len() - i,
    {
        results.push(dropship_line_supplier_cost(&lines[i]));
        i += 1;
    }
    proof {
        assert(results@ =~= lines@.map_values(dropship_supplier_cost_fn()));
    }
    checked_result_sum(results.as_slice(), "dropship_supplier_cost_total")
}


/// Running sum of the lines' weight, stopping at the first error.
pub fn dropship_weight_total(lines: &[DropshipLine]) -> (r: DomainResult<Nat>)
    ensures
        r == result_sum(lines@.map_values(dropship_weight_fn()), "dropship_weight_total"),
{
    let mut results: Vec<DomainResult<Nat>> = Vec::new();
    let mut i: usize = 0;
    while i < lines.len()
        invariant
            i <= lines.len(),
            results@.len() == i,
            forall|j: int| 0 <= j < i ==> results@[j] == (dropship_weight_fn())(lines@[j]),
        decreases lines.len() - i,
    {
        results.push(dropship_line_weight(&lines[i]));
        i += 1;
    }
    proof {
        assert(results@ =~= lines@.map_values(dropship_weight_fn()));
    }
    checked_result_sum(results.as_slice(), "dropship_weight_total")
}


pub fn dropship_shipping_quote_can_ship(quote: &DropshipShippingQuote, weight: Weight) -> (r: bool)
    ensures
        r == (weight <= quote.spec_max_weight()),
{
    weight <= quote.max_weight
}

/// The first check a purchase order fails, if any.
pub open spec fn dropship_po_error(supplier: DropshipSupplier, lines: Seq<DropshipLine>, quote: DropshipShippingQuote, total: u128) -> Option<ValidationError> {
    let weight = result_sum(lines.map_values(dropship_weight_fn()), "dropship_weight_total");
    let cost = result_sum(lines.map_values(dropship_supplier_cost_fn()), "dropship_supplier_cost_total");
    if quote.spec_supplier_id() != supplier.spec_id() {
        Some(ValidationError::Invariant("quote supplier mismatch"))
    } else if weight is Err {
        Some(weight->Err_0)
    } else if weight->Ok_0 > quote.spec_max_weight() {
        Some(ValidationError::Invariant("dropship PO weight exceeds quote"))
    } else if cost is Err {
        Some(cost->Err_0)
    } else if cost->Ok_0 + quote.spec_price() > u128::MAX {
        Some(ValidationError::Overflow("dropship purchase order total"))
    } else if total != cost->Ok_0 + quote.spec_price() {
        Some(ValidationError::Invariant("dropship PO total is incorrect"))
    } else {
        None
    }
}

impl DropshipPurchaseOrder {
    pub fn try_new(supplier: DropshipSupplier, lines: Vec<DropshipLine>, quote: DropshipShippingQuote, status: DropshipPOStatus, total: Money) -> (r: DomainResult<Self>)
        ensures
            r == (match dropship_po_error(supplier, lines@, quote, total) {
                Some(e) => Err(e),
                None => Ok(DropshipPurchaseOrder::spec_new(supplier, lines, quote, status, total)),
            }),
    {
        if quote.supplier_id != supplier.id {
            return Err(ValidationError::Invariant("quote supplier mismatch"));
        }
        match dropship_weight_total(lines.as_slice()) {
            Err(e) => return Err(e),
            Ok(w) => if w > quote.max_weight {
                return Err(ValidationError::Invariant("dropship PO weight exceeds quote"));
            },
        }
        let cost = match dropship_supplier_cost_total(lines.as_slice()) {
            Ok(c) => c,
            Err(e) => return Err(e),
        };
        let expected = match checked_add(cost, quote.price, "dropship purchase order total") {
            Ok(v) => v,
            Err(e) => return Err(e),
        };
        if total != expected {
            return Err(ValidationError::Invariant("dropship PO total is incorrect"));
        }
        Ok(Self { supplier, lines, quote, status, total })
    }

    pub fn lines(&self) -> (r: &[DropshipLine])
        ensures
            r@ == self.spec_lines()@,
    {
        self.lines.as_slice()
    }
}

pub open spec fn dropship_po_transition_allowed(source: DropshipPOStatus, target: DropshipPOStatus) -> bool {
    match (source, target) {
        (DropshipPOStatus::Created, DropshipPOStatus::Submitted) | (DropshipPOStatus::Created, DropshipPOStatus::Cancelled) => true,
        (DropshipPOStatus::Submitted, DropshipPOStatus::Accepted) | (DropshipPOStatus::Submitted, DropshipPOStatus::Rejected) | (DropshipPOStatus::Submitted, DropshipPOStatus::Cancelled) => true,
        (DropshipPOStatus::Accepted, DropshipPOStatus::Shipped) | (DropshipPOStatus::Accepted, DropshipPOStatus::Cancelled) => true,
        (DropshipPOStatus::Shipped, DropshipPOStatus::Delivered) => true,
        _ => false,
    }
}

pub fn can_dropship_po_transition(source: DropshipPOStatus, target: DropshipPOStatus) -> (r: bool)
    ensures
        r == dropship_po_transition_allowed(source, target),
{
    match (source, target) {
        (DropshipPOStatus::Created, DropshipPOStatus::Submitted) | (DropshipPOStatus::Created, DropshipPOStatus::Cancelled) => true,
        (DropshipPOStatus::Submitted, DropshipPOStatus::Accepted) | (DropshipPOStatus::Submitted, DropshipPOStatus::Rejected) | (DropshipPOStatus::Submitted, DropshipPOStatus::Cancelled) => true,
        (DropshipPOStatus::Accepted, DropshipPOStatus::Shipped) | (DropshipPOStatus::Accepted, DropshipPOStatus::Cancelled) => true,
        (DropshipPOStatus::Shipped, DropshipPOStatus::Delivered) => true,
        _ => false,
    }
}

/// Processing plus carrier time fits the promise (and the sum does not overflow).
pub fn dropship_sla_safe(supplier: &DropshipSupplier, quote: &DropshipShippingQuote, promised_days: Days) -> (r: bool)
    ensures
        r == (i64::MIN <= supplier.spec_processing_days().spec_seconds() + quote.spec_carrier_days().spec_seconds() <= i64::MAX
            && supplier.spec_processing_days().spec_seconds() + quote.spec_carrier_days().spec_seconds() <= promised_days.spec_seconds()),
{
    match supplier.processing_days.checked_add(quote.carrier_days) {
        Some(days) => days.seconds <= promised_days.seconds,
        None => false,
    }
}

impl DropshipFulfillment {
    pub fn try_new(customer_order: Order, purchase_order: DropshipPurchaseOrder, segment_revenue: Money) -> (r: DomainResult<Self>)
        ensures
            ({
                let net = result_sum(purchase_order.spec_lines()@.map_values(dropship_customer_net_fn()), "dropship_sale_net_total");
                &&& net is Err ==> r == Err::<Self, ValidationError>(net->Err_0)
                &&& net is Ok && segment_revenue != net->Ok_0 ==> r == Err::<Self, ValidationError>(ValidationError::Invariant("segment revenue must match dropship sale net total"))
                &&& net == Ok::<u128, ValidationError>(segment_revenue) && segment_revenue > customer_order.spec_total() ==> r == Err::<Self, ValidationError>(ValidationError::Invariant("segment revenue exceeds customer order total"))
                &&& net == Ok::<u128, ValidationError>(segment_revenue) && segment_revenue <= customer_order.spec_total() ==> r == Ok::<Self, ValidationError>(
                    DropshipFulfillment::spec_new(customer_order, purchase_order, segment_revenue),
                )
            }),
    {
        match dropship_sale_net_total(purchase_order.lines.as_slice()) {
            Err(e) => return Err(e),
            Ok(net) => if segment_revenue != net {
                return Err(ValidationError::Invariant("segment revenue must match dropship sale net total"));
            },
        }
        if segment_revenue > customer_order.total() {
            return Err(ValidationError::Invariant("segment revenue exceeds customer order total"));
        }
        Ok(Self { customer_order, purchase_order, segment_revenue })
    }
}

/// The first check a dropship return fails, if any.
pub open spec fn dropship_return_error(line: DropshipLine, return_qty: u128, customer_refund: u128, supplier_credit: u128) -> Option<ValidationError> {
    if !line.spec_offer().spec_supplier().spec_accepts_returns() {
        Some(ValidationError::Invariant("supplier must accept returns"))
    } else if return_qty > line.spec_quantity() {
        Some(ValidationError::Invariant("return quantity exceeds sold quantity"))
    } else if dropship_customer_net_spec(line) is Err {
        Some(dropship_customer_net_spec(line)->Err_0)
    } else if customer_refund > dropship_customer_net_spec(line)->Ok_0 {
        Some(ValidationError::Invariant("customer refund exceeds customer net"))
    } else if dropship_supplier_cost_spec(line) is Err {
        Some(dropship_supplier_cost_spec(line)->Err_0)
    } else if supplier_credit > dropship_supplier_cost_spec(line)->Ok_0 {
        Some(ValidationError::Invariant("supplier credit exceeds supplier cost"))
    } else {
        None
    }
}

impl DropshipReturnRequest {
    pub fn try_new(line: DropshipLine, return_qty: Quantity, customer_refund: Money, supplier_credit: Money) -> (r: DomainResult<Self>)
        ensures
            r == (match dropship_return_error(line, return_qty, customer_refund, supplier_credit) {
                Some(e) => Err(e),
                None => Ok(DropshipReturnRequest::spec_new(line, return_qty, customer_refund, supplier_credit)),
            }),
    {
        if !line.offer.supplier.accepts_returns {
            return Err(ValidationError::Invariant("supplier must accept returns"));
        }
        if return_qty > line.quantity {
            return Err(ValidationError::Invariant("return quantity exceeds sold quantity"));
        }
        match dropship_line_customer_net(&line) {
            Err(e) => return Err(e),
            Ok(net) => if customer_refund > net {
                return Err(ValidationError::Invariant("customer refund exceeds customer net"));
            },
        }
        match dropship_line_supplier_cost(&line) {
            Err(e) => return Err(e),
            Ok(cost) => if supplier_credit > cost {
                return Err(ValidationError::Invariant("supplier credit exceeds supplier cost"));
            },
        }
        Ok(Self { line, return_qty, customer_refund, supplier_credit })
    }
}

/// On an accepted dropship line the supplier's cost never exceeds what the
/// customer pays after the discount.
pub proof fn lemma_dropship_line_cost_within_net(offer: DropshipOffer, quantity: u128, discount: u128)
    requires
        dropship_line_error(offer, quantity, discount) is None,
    ensures
        dropship_supplier_cost_spec(DropshipLine::spec_new(offer, quantity, discount)) is Ok,
        dropship_customer_net_spec(DropshipLine::spec_new(offer, quantity, discount)) is Ok,
        dropship_supplier_cost_spec(DropshipLine::spec_new(offer, quantity, discount))->Ok_0
            <= dropship_customer_net_spec(DropshipLine::spec_new(offer, quantity, discount))->Ok_0,
{
}

/// The accessor lemmas for the records of this module.
pub broadcast group group_dropshipping_record_fields {
    lemma_dropship_supplier_fields,
    lemma_dropship_shipping_quote_fields,
    lemma_supplier_daily_capacity_fields,
    lemma_dropshipoffer_fields,
    lemma_supplier_reservation_fields,
    lemma_dropship_line_fields,
    lemma_reserved_dropship_line_fields,
    lemma_dropship_purchase_order_fields,
    lemma_dropship_fulfillment_fields,
    lemma_dropship_return_request_fields,
}


/// The purchase-order lifecycle: Created, Submitted, Accepted, Shipped,
/// Delivered step by step; the supplier rejects only a submitted order;
/// cancellation is possible until shipment; rejected, delivered and cancelled
/// orders never move.
pub proof fn lemma_dropship_po_lifecycle(source: DropshipPOStatus, target: DropshipPOStatus)
    ensures
        dropship_po_transition_allowed(DropshipPOStatus::Created, DropshipPOStatus::Submitted),
        dropship_po_transition_allowed(DropshipPOStatus::Submitted, DropshipPOStatus::Accepted),
        dropship_po_transition_allowed(DropshipPOStatus::Accepted, DropshipPOStatus::Shipped),
        dropship_po_transition_allowed(DropshipPOStatus::Shipped, DropshipPOStatus::Delivered),
        dropship_po_transition_allowed(source, DropshipPOStatus::Rejected) <==> source == DropshipPOStatus::Submitted,
        dropship_po_transition_allowed(source, DropshipPOStatus::Cancelled) <==> (source == DropshipPOStatus::Created
            || source == DropshipPOStatus::Submitted || source == DropshipPOStatus::Accepted),
        source == DropshipPOStatus::Rejected || source == DropshipPOStatus::Delivered || source == DropshipPOStatus::Cancelled
            ==> !dropship_po_transition_allowed(source, target),
{
}

} // verus!
