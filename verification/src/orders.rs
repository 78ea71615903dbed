//! Orders, order status transitions, typed payment states and the payment ledger.

use core::marker::PhantomData;
use vstd::prelude::*;
use crate::foundation::clone_vec_exact;
use crate::foundation::{Currency, DomainResult, Money, OrderId, PaymentId, ValidationError, checked_add, collected_sum, nat_sub, nat_sub_spec};
use crate::pricing::{CartLine, ShippingMethod, cart_net_total, cart_weight_total, line_net_fn, line_weight_fn, order_total, order_total_spec, shipping_available};

verus! {

#[derive(Debug, PartialEq, Eq, Structural)]
pub struct CapturedPayment {
    pub(crate) order_id: OrderId,
    pub(crate) amount: Money,
    pub(crate) currency: Currency,
}

impl CapturedPayment {
    pub open(crate) spec fn spec_order_id(&self) -> OrderId {
        self.order_id
    }

    pub open(crate) spec fn spec_amount(&self) -> Money {
        self.amount
    }

    pub open(crate) spec fn spec_currency(&self) -> Currency {
        self.currency
    }

    pub open(crate) spec fn spec_new(order_id: OrderId, amount: Money, currency: Currency) -> Self {
        CapturedPayment { order_id, amount, currency }
    }
}

/// The accessors of a `CapturedPayment` built by `spec_new` give back its parts.
pub broadcast proof fn lemma_captured_payment_fields(order_id: OrderId, amount: Money, currency: Currency)
    ensures
        #[trigger] CapturedPayment::spec_new(order_id, amount, currency).spec_order_id() == order_id
            && CapturedPayment::spec_new(order_id, amount, currency).spec_amount() == amount
            && CapturedPayment::spec_new(order_id, amount, currency).spec_currency() == currency,
{
}

impl Clone for CapturedPayment {
    fn clone(&self) -> (r: Self)
        ensures
            r == *self,
    {
        CapturedPayment { order_id: self.order_id, amount: self.amount, currency: self.currency }
    }
}

impl CapturedPayment {
    pub fn new(order_id: OrderId, amount: Money, currency: Currency) -> (r: Self)
        ensures
            r == (CapturedPayment::spec_new(order_id, amount, currency)),
    {
        CapturedPayment { order_id, amount, currency }
    }

    pub fn try_new(order_id: OrderId, amount: Money, currency: Currency) -> (r: DomainResult<Self>)
        ensures
            r == Ok::<Self, ValidationError>(CapturedPayment::spec_new(order_id, amount, currency)),
    {
        Ok(Self::new(order_id, amount, currency))
    }

    pub fn order_id(&self) -> (r: OrderId)
        ensures
            r == self.spec_order_id(),
    {
        self.order_id
    }

    pub fn amount(&self) -> (r: Money)
        ensures
            r == self.spec_amount(),
    {
        self.amount
    }

    pub fn currency(&self) -> (r: Currency)
        ensures
            r == self.spec_currency(),
    {
        self.currency
    }
}

#[derive(Clone, Copy, Debug, PartialEq, Eq, Structural)]
pub enum OrderStatus {
    New,
    Paid,
    Packed,
    Shipped,
    Delivered,
    Cancelled,
    Refunded,
    Backordered,
}

#[derive(Debug, PartialEq, Eq)]
pub struct Order {
    pub(crate) id: OrderId,
    pub(crate) items: Vec<CartLine>,
    pub(crate) coupon_amount: Money,
    pub(crate) shipping_method: ShippingMethod,
    pub(crate) tax: Money,
    pub(crate) currency: Currency,
    pub(crate) status: OrderStatus,
    pub(crate) total: Money,
}

impl Order {
    /// Equal fields, and equal contents for the vectors it holds.
    pub open spec fn same_content(self, other: Self) -> bool {
        self.spec_id() == other.spec_id()
            && self.spec_items()@ == other.spec_items()@
            && self.spec_coupon_amount() == other.spec_coupon_amount()
            && self.spec_shipping_method() == other.spec_shipping_method()
            && self.spec_tax() == other.spec_tax()
            && self.spec_currency() == other.spec_currency()
            && self.spec_status() == other.spec_status()
            && self.spec_total() == other.spec_total()
    }

    pub open(crate) spec fn spec_id(&self) -> OrderId {
        self.id
    }

    pub open(crate) spec fn spec_items(&self) -> Vec<CartLine> {
        self.items
    }

    pub open(crate) spec fn spec_coupon_amount(&self) -> Money {
        self.coupon_amount
    }

    pub open(crate) spec fn spec_shipping_method(&self) -> ShippingMethod {
        self.shipping_method
    }

    pub open(crate) spec fn spec_tax(&self) -> Money {
        self.tax
    }

    pub open(crate) spec fn spec_currency(&self) -> Currency {
        self.currency
    }

    pub open(crate) spec fn spec_status(&self) -> OrderStatus {
        self.status
    }

    pub open(crate) spec fn spec_total(&self) -> Money {
        self.total
    }

    pub open(crate) spec fn spec_new(id: OrderId, items: Vec<CartLine>, coupon_amount: Money, shipping_method: ShippingMethod, tax: Money, currency: Currency, status: OrderStatus, total: Money) -> Self {
        Order { id, items, coupon_amount, shipping_method, tax, currency, status, total }
    }
}

/// The accessors of a `Order` built by `spec_new` give back its parts.
pub broadcast proof fn lemma_order_fields(id: OrderId, items: Vec<CartLine>, coupon_amount: Money, shipping_method: ShippingMethod, tax: Money, currency: Currency, status: OrderStatus, total: Money)
    ensures
        #[trigger] Order::spec_new(id, items, coupon_amount, shipping_method, tax, currency, status, total).spec_id() == id
            && Order::spec_new(id, items, coupon_amount, shipping_method, tax, currency, status, total).spec_items() == items
            && Order::spec_new(id, items, coupon_amount, shipping_method, tax, currency, status, total).spec_coupon_amount() == coupon_amount
            && Order::spec_new(id, items, coupon_amount, shipping_method, tax, currency, status, total).spec_shipping_method() == shipping_method
            && Order::spec_new(id, items, coupon_amount, shipping_method, tax, currency, status, total).spec_tax() == tax
            && Order::spec_new(id, items, coupon_amount, shipping_method, tax, currency, status, total).spec_currency() == currency
            && Order::spec_new(id, items, coupon_amount, shipping_method, tax, currency, status, total).spec_status() == status
            && Order::spec_new(id, items, coupon_amount, shipping_method, tax, currency, status, total).spec_total() == total,
{
}

impl Clone for Order {
    fn clone(&self) -> (r: Self)
        ensures
            r.same_content(*self),
    {
        proof {
            use_type_invariant(self);
        }
        Order { id: self.id.clone(), items: clone_vec_exact(&self.items), coupon_amount: self.coupon_amount.clone(), shipping_method: self.shipping_method.clone(), tax: self.tax.clone(), currency: self.currency.clone(), status: self.status.clone(), total: self.total.clone() }
    }
}

#[derive(Clone, Copy, Debug, PartialEq, Eq, Structural)]
pub enum CanOrderTransition {
    NewPaid,
    NewCancelled,
    NewBackordered,
    PaidPacked,
    PaidRefunded,
    PackedShipped,
    ShippedDelivered,
    DeliveredRefunded,
    BackorderedPaid,
    BackorderedCancelled,
}

#[derive(Clone, Copy, Debug, PartialEq, Eq, Structural)]
pub enum PaymentState {
    Created,
    Authorized,
    Captured,
    Failed,
    Voided,
    Refunded,
}

#[derive(Debug, PartialEq, Eq, Structural)]
pub struct PaymentLedger {
    pub(crate) captured: Money,
    pub(crate) refunded: Money,
}

impl PaymentLedger {
    pub open(crate) spec fn spec_captured(&self) -> Money {
        self.captured
    }

    pub open(crate) spec fn spec_refunded(&self) -> Money {
        self.refunded
    }

    pub open(crate) spec fn spec_new(captured: Money, refunded: Money) -> Self {
        PaymentLedger { captured, refunded }
    }
}

/// The accessors of a `PaymentLedger` built by `spec_new` give back its parts.
pub broadcast proof fn lemma_payment_ledger_fields(captured: Money, refunded: Money)
    ensures
        #[trigger] PaymentLedger::spec_new(captured, refunded).spec_captured() == captured
            && PaymentLedger::spec_new(captured, refunded).spec_refunded() == refunded,
{
}

impl Clone for PaymentLedger {
    fn clone(&self) -> (r: Self)
        ensures
            r == *self,
    {
        proof {
            use_type_invariant(self);
        }
        PaymentLedger { captured: self.captured, refunded: self.refunded }
    }
}

impl Order {
    pub fn coupon_amount(&self) -> (r: Money)
        ensures
            r == self.spec_coupon_amount(),
    {
        self.coupon_amount
    }

    pub fn status(&self) -> (r: OrderStatus)
        ensures
            r == self.spec_status(),
    {
        self.status
    }
}

/// The first check that a stored order fails, if any.
pub open spec fn order_error(items: Seq<CartLine>, coupon_amount: u128, shipping_method: ShippingMethod, tax: u128, total: u128) -> Option<ValidationError> {
    match collected_sum(items, line_net_fn(), "cart_net_total") {
        Err(e) => Some(e),
        Ok(net) => if coupon_amount > net {
            Some(ValidationError::CouponExceedsSubtotal)
        } else {
            match collected_sum(items, line_weight_fn(), "cart_weight_total") {
                Err(e) => Some(e),
                Ok(weight) => if weight > shipping_method.spec_max_weight() {
                    Some(ValidationError::Invariant("shipping method cannot carry cart"))
                } else {
                    match order_total_spec(shipping_method, coupon_amount, tax, items) {
                        Err(e) => Some(e),
                        Ok(expected) => if total != expected {
                            Some(ValidationError::Invariant("stored order total is incorrect"))
                        } else {
                            None
                        },
                    }
                },
            }
        },
    }
}

impl Order {
    #[verifier::type_invariant]
    pub open spec fn valid(self) -> bool {
        order_error(self.spec_items()@, self.spec_coupon_amount(), self.spec_shipping_method(), self.spec_tax(), self.spec_total()) is None
    }

    pub fn try_new(id: OrderId, items: Vec<CartLine>, coupon_amount: Money, shipping_method: ShippingMethod, tax: Money, currency: Currency, status: OrderStatus, total: Money) -> (r: DomainResult<Self>)
        ensures
            r == (match order_error(items@, coupon_amount, shipping_method, tax, total) {
                Some(e) => Err(e),
                None => Ok(Order::spec_new(id, items, coupon_amount, shipping_method, tax, currency, status, total)),
            }),
    {
        let net = match cart_net_total(items.as_slice()) {
            Ok(n) => n,
            Err(e) => return Err(e),
        };
        if coupon_amount > net {
            return Err(ValidationError::CouponExceedsSubtotal);
        }
        let weight = match cart_weight_total(items.as_slice()) {
            Ok(w) => w,
            Err(e) => return Err(e),
        };
        if !shipping_available(&shipping_method, weight) {
            return Err(ValidationError::Invariant("shipping method cannot carry cart"));
        }
        let expected_total = match order_total(&shipping_method, coupon_amount, tax, items.as_slice()) {
            Ok(t) => t,
            Err(e) => return Err(e),
        };
        if total != expected_total {
            return Err(ValidationError::Invariant("stored order total is incorrect"));
        }
        Ok(Self { id, items, coupon_amount, shipping_method, tax, currency, status, total })
    }

    pub fn id(&self) -> (r: OrderId)
        ensures
            r == self.spec_id(),
    {
        self.id
    }

    pub fn items(&self) -> (r: &[CartLine])
        ensures
            r@ == self.spec_items()@,
    {
        self.items.as_slice()
    }

    pub fn total(&self) -> (r: Money)
        ensures
            r == self.spec_total(),
    {
        self.total
    }

    pub fn currency(&self) -> (r: Currency)
        ensures
            r == self.spec_currency(),
    {
        self.currency
    }

    pub fn shipping_method(&self) -> (r: &ShippingMethod)
        ensures
            *r == self.spec_shipping_method(),
    {
        &self.shipping_method
    }

    pub fn tax(&self) -> (r: Money)
        ensures
            r == self.spec_tax(),
    {
        self.tax
    }
}

/// The order lifecycle's allowed status changes.
pub open spec fn order_transition_allowed(source: OrderStatus, target: OrderStatus) -> bool {
    match (source, target) {
        (OrderStatus::New, OrderStatus::Paid) | (OrderStatus::New, OrderStatus::Cancelled) | (OrderStatus::New, OrderStatus::Backordered) => true,
        (OrderStatus::Backordered, OrderStatus::Paid) | (OrderStatus::Backordered, OrderStatus::Cancelled) => true,
        (OrderStatus::Paid, OrderStatus::Packed) | (OrderStatus::Paid, OrderStatus::Refunded) => true,
        (OrderStatus::Packed, OrderStatus::Shipped) => true,
        (OrderStatus::Shipped, OrderStatus::Delivered) => true,
        (OrderStatus::Delivered, OrderStatus::Refunded) => true,
        _ => false,
    }
}

pub fn can_order_transition(source: OrderStatus, target: OrderStatus) -> (r: bool)
    ensures
        r == order_transition_allowed(source, target),
{
    match (source, target) {
        (OrderStatus::New, OrderStatus::Paid) | (OrderStatus::New, OrderStatus::Cancelled) | (OrderStatus::New, OrderStatus::Backordered) => true,
        (OrderStatus::Backordered, OrderStatus::Paid) | (OrderStatus::Backordered, OrderStatus::Cancelled) => true,
        (OrderStatus::Paid, OrderStatus::Packed) | (OrderStatus::Paid, OrderStatus::Refunded) => true,
        (OrderStatus::Packed, OrderStatus::Shipped) => true,
        (OrderStatus::Shipped, OrderStatus::Delivered) => true,
        (OrderStatus::Delivered, OrderStatus::Refunded) => true,
        _ => false,
    }
}

impl CanOrderTransition {
    pub open spec fn source_spec(self) -> OrderStatus {
        match self {
            CanOrderTransition::NewPaid | CanOrderTransition::NewCancelled | CanOrderTransition::NewBackordered => OrderStatus::New,
            CanOrderTransition::PaidPacked | CanOrderTransition::PaidRefunded => OrderStatus::Paid,
            CanOrderTransition::PackedShipped => OrderStatus::Packed,
            CanOrderTransition::ShippedDelivered => OrderStatus::Shipped,
            CanOrderTransition::DeliveredRefunded => OrderStatus::Delivered,
            CanOrderTransition::BackorderedPaid | CanOrderTransition::BackorderedCancelled => OrderStatus::Backordered,
        }
    }

    pub open spec fn target_spec(self) -> OrderStatus {
        match self {
            CanOrderTransition::NewPaid | CanOrderTransition::BackorderedPaid => OrderStatus::Paid,
            CanOrderTransition::NewCancelled | CanOrderTransition::BackorderedCancelled => OrderStatus::Cancelled,
            CanOrderTransition::NewBackordered => OrderStatus::Backordered,
            CanOrderTransition::PaidPacked => OrderStatus::Packed,
            CanOrderTransition::PaidRefunded | CanOrderTransition::DeliveredRefunded => OrderStatus::Refunded,
            CanOrderTransition::PackedShipped => OrderStatus::Shipped,
            CanOrderTransition::ShippedDelivered => OrderStatus::Delivered,
        }
    }

    pub fn source(self) -> (r: OrderStatus)
        ensures
            r == self.source_spec(),
    {
        match self {
            Self::NewPaid | Self::NewCancelled | Self::NewBackordered => OrderStatus::New,
            Self::PaidPacked | Self::PaidRefunded => OrderStatus::Paid,
            Self::PackedShipped => OrderStatus::Packed,
            Self::ShippedDelivered => OrderStatus::Shipped,
            Self::DeliveredRefunded => OrderStatus::Delivered,
            Self::BackorderedPaid | Self::BackorderedCancelled => OrderStatus::Backordered,
        }
    }

    pub fn target(self) -> (r: OrderStatus)
        ensures
            r == self.target_spec(),
    {
        match self {
            Self::NewPaid | Self::BackorderedPaid => OrderStatus::Paid,
            Self::NewCancelled | Self::BackorderedCancelled => OrderStatus::Cancelled,
            Self::NewBackordered => OrderStatus::Backordered,
            Self::PaidPacked => OrderStatus::Packed,
            Self::PaidRefunded | Self::DeliveredRefunded => OrderStatus::Refunded,
            Self::PackedShipped => OrderStatus::Shipped,
            Self::ShippedDelivered => OrderStatus::Delivered,
        }
    }

    /// The witness of an allowed transition: it exists exactly for the allowed
    /// pairs and connects the given statuses.
    pub fn from_statuses(source: OrderStatus, target: OrderStatus) -> (r: Option<Self>)
        ensures
            r is Some <==> order_transition_allowed(source, target),
            r matches Some(t) ==> t.source_spec() == source && t.target_spec() == target,
    {
        match (source, target) {
            (OrderStatus::New, OrderStatus::Paid) => Some(Self::NewPaid),
            (OrderStatus::New, OrderStatus::Cancelled) => Some(Self::NewCancelled),
            (OrderStatus::New, OrderStatus::Backordered) => Some(Self::NewBackordered),
            (OrderStatus::Paid, OrderStatus::Packed) => Some(Self::PaidPacked),
            (OrderStatus::Paid, OrderStatus::Refunded) => Some(Self::PaidRefunded),
            (OrderStatus::Packed, OrderStatus::Shipped) => Some(Self::PackedShipped),
            (OrderStatus::Shipped, OrderStatus::Delivered) => Some(Self::ShippedDelivered),
            (OrderStatus::Delivered, OrderStatus::Refunded) => Some(Self::DeliveredRefunded),
            (OrderStatus::Backordered, OrderStatus::Paid) => Some(Self::BackorderedPaid),
            (OrderStatus::Backordered, OrderStatus::Cancelled) => Some(Self::BackorderedCancelled),
            _ => None,
        }
    }
}

pub trait OrderStatusMarker: Clone + Copy + core::fmt::Debug + PartialEq + Eq {
    const STATUS: OrderStatus;
}

#[derive(Clone, Copy, Debug, PartialEq, Eq)]
pub struct NewOrder;

impl OrderStatusMarker for NewOrder {
    const STATUS: OrderStatus = OrderStatus::New;
}

#[derive(Clone, Copy, Debug, PartialEq, Eq)]
pub struct PaidOrder;

impl OrderStatusMarker for PaidOrder {
    const STATUS: OrderStatus = OrderStatus::Paid;
}

#[derive(Clone, Copy, Debug, PartialEq, Eq)]
pub struct PackedOrder;

impl OrderStatusMarker for PackedOrder {
    const STATUS: OrderStatus = OrderStatus::Packed;
}

#[derive(Clone, Copy, Debug, PartialEq, Eq)]
pub struct ShippedOrder;

impl OrderStatusMarker for ShippedOrder {
    const STATUS: OrderStatus = OrderStatus::Shipped;
}

#[derive(Clone, Copy, Debug, PartialEq, Eq)]
pub struct DeliveredOrder;

impl OrderStatusMarker for DeliveredOrder {
    const STATUS: OrderStatus = OrderStatus::Delivered;
}

#[derive(Clone, Copy, Debug, PartialEq, Eq)]
pub struct CancelledOrder;

impl OrderStatusMarker for CancelledOrder {
    const STATUS: OrderStatus = OrderStatus::Cancelled;
}

#[derive(Clone, Copy, Debug, PartialEq, Eq)]
pub struct RefundedOrder;

impl OrderStatusMarker for RefundedOrder {
    const STATUS: OrderStatus = OrderStatus::Refunded;
}

#[derive(Clone, Copy, Debug, PartialEq, Eq)]
pub struct BackorderedOrder;

impl OrderStatusMarker for BackorderedOrder {
    const STATUS: OrderStatus = OrderStatus::Backordered;
}

/// An order whose status is fixed by the type parameter; its total is positive.
#[derive(Copy, Debug, PartialEq, Eq)]
pub struct TypedOrder<S: OrderStatusMarker> {
    pub(crate) id: OrderId,
    pub(crate) total: Money,
    pub(crate) currency: Currency,
    pub(crate) _state: PhantomData<S>,
}

impl<S: OrderStatusMarker> TypedOrder<S> {
    /// Every value satisfies what `try_new` checks.
    #[verifier::type_invariant]
    pub open spec fn valid(self) -> bool {
        self.spec_total() != 0
    }

    pub open(crate) spec fn spec_id(&self) -> OrderId {
        self.id
    }

    pub open(crate) spec fn spec_total(&self) -> Money {
        self.total
    }

    pub open(crate) spec fn spec_currency(&self) -> Currency {
        self.currency
    }

    pub open(crate) spec fn spec__state(&self) -> PhantomData<S> {
        self._state
    }
}

impl<S: OrderStatusMarker> Clone for TypedOrder<S> {
    fn clone(&self) -> (r: Self)
        ensures
            r == *self,
    {
        *self
    }
}

impl<S: OrderStatusMarker> TypedOrder<S> {
    pub fn try_new(id: OrderId, total: Money, currency: Currency) -> (r: DomainResult<Self>)
        ensures
            total == 0 ==> r == Err::<Self, ValidationError>(ValidationError::Invariant("typed order total must be positive")),
            total != 0 ==> r is Ok && r->Ok_0.spec_id() == id && r->Ok_0.spec_total() == total && r->Ok_0.spec_currency() == currency,
    {
        if total == 0 {
            return Err(ValidationError::Invariant("typed order total must be positive"));
        }
        Ok(Self { id, total, currency, _state: PhantomData })
    }

    pub fn id(&self) -> (r: OrderId)
        ensures
            r == self.spec_id(),
    {
        self.id
    }

    pub fn total(&self) -> (r: Money)
        ensures
            r == self.spec_total(),
    {
        self.total
    }

    pub fn currency(&self) -> (r: Currency)
        ensures
            r == self.spec_currency(),
    {
        self.currency
    }
}

pub trait PaymentStateMarker: Clone + Copy + core::fmt::Debug + PartialEq + Eq {
    const STATE: PaymentState;
}

#[derive(Clone, Copy, Debug, PartialEq, Eq)]
pub struct CreatedPayment;

impl PaymentStateMarker for CreatedPayment {
    const STATE: PaymentState = PaymentState::Created;
}

#[derive(Clone, Copy, Debug, PartialEq, Eq)]
pub struct AuthorizedPayment;

impl PaymentStateMarker for AuthorizedPayment {
    const STATE: PaymentState = PaymentState::Authorized;
}

#[derive(Clone, Copy, Debug, PartialEq, Eq)]
pub struct CapturedPaymentState;

impl PaymentStateMarker for CapturedPaymentState {
    const STATE: PaymentState = PaymentState::Captured;
}

#[derive(Clone, Copy, Debug, PartialEq, Eq)]
pub struct FailedPayment;

impl PaymentStateMarker for FailedPayment {
    const STATE: PaymentState = PaymentState::Failed;
}

#[derive(Clone, Copy, Debug, PartialEq, Eq)]
pub struct VoidedPayment;

impl PaymentStateMarker for VoidedPayment {
    const STATE: PaymentState = PaymentState::Voided;
}

#[derive(Clone, Copy, Debug, PartialEq, Eq)]
pub struct RefundedPayment;

impl PaymentStateMarker for RefundedPayment {
    const STATE: PaymentState = PaymentState::Refunded;
}

/// A payment whose state is fixed by the type parameter; its amount is positive.
#[derive(Copy, Debug, PartialEq, Eq)]
pub struct TypedPayment<S: PaymentStateMarker> {
    pub(crate) id: PaymentId,
    pub(crate) order_id: OrderId,
    pub(crate) amount: Money,
    pub(crate) currency: Currency,
    pub(crate) _state: PhantomData<S>,
}

impl<S: PaymentStateMarker> TypedPayment<S> {
    /// Every value satisfies what `try_new` checks.
    #[verifier::type_invariant]
    pub open spec fn valid(self) -> bool {
        self.spec_amount() != 0
    }

    pub open(crate) spec fn spec_id(&self) -> PaymentId {
        self.id
    }

    pub open(crate) spec fn spec_order_id(&self) -> OrderId {
        self.order_id
    }

    pub open(crate) spec fn spec_amount(&self) -> Money {
        self.amount
    }

    pub open(crate) spec fn spec_currency(&self) -> Currency {
        self.currency
    }

    pub open(crate) spec fn spec__state(&self) -> PhantomData<S> {
        self._state
    }
}

impl<S: PaymentStateMarker> Clone for TypedPayment<S> {
    fn clone(&self) -> (r: Self)
        ensures
            r == *self,
    {
        *self
    }
}

impl<S: PaymentStateMarker> TypedPayment<S> {
    pub fn try_new(id: PaymentId, order_id: OrderId, amount: Money, currency: Currency) -> (r: DomainResult<Self>)
        ensures
            amount == 0 ==> r == Err::<Self, ValidationError>(ValidationError::Invariant("payment amount must be positive")),
            amount != 0 ==> r is Ok && r->Ok_0.spec_id() == id && r->Ok_0.spec_order_id() == order_id && r->Ok_0.spec_amount() == amount && r->Ok_0.spec_currency() == currency,
    {
        if amount == 0 {
            return Err(ValidationError::Invariant("payment amount must be positive"));
        }
        Ok(Self { id, order_id, amount, currency, _state: PhantomData })
    }
}

/// Authorization keeps every field of the payment.
pub fn authorize_payment(p: TypedPayment<CreatedPayment>) -> (r: TypedPayment<AuthorizedPayment>)
    ensures
        r.spec_id() == p.spec_id() && r.spec_order_id() == p.spec_order_id() && r.spec_amount() == p.spec_amount() && r.spec_currency() == p.spec_currency(),
{
    proof {
        use_type_invariant(&p);
    }
    TypedPayment { id: p.id, order_id: p.order_id, amount: p.amount, currency: p.currency, _state: PhantomData }
}

/// Capture keeps every field and issues a receipt for the same order, amount and currency.
pub fn capture_payment(p: TypedPayment<AuthorizedPayment>) -> (r: (TypedPayment<CapturedPaymentState>, CapturedPayment))
    ensures
        r.0.spec_id() == p.spec_id() && r.0.spec_order_id() == p.spec_order_id() && r.0.spec_amount() == p.spec_amount() && r.0.spec_currency() == p.spec_currency(),
        r.1 == (CapturedPayment::spec_new(p.spec_order_id(), p.spec_amount(), p.spec_currency())),
{
    let receipt = CapturedPayment::new(p.order_id, p.amount, p.currency);
    proof {
        use_type_invariant(&p);
    }
    (TypedPayment { id: p.id, order_id: p.order_id, amount: p.amount, currency: p.currency, _state: PhantomData }, receipt)
}

/// A new order becomes paid only with a receipt for its id, total and currency.
pub fn mark_paid(order: TypedOrder<NewOrder>, payment: &CapturedPayment) -> (r: DomainResult<TypedOrder<PaidOrder>>)
    ensures
        payment.spec_order_id() != order.spec_id() ==> r == Err::<TypedOrder<PaidOrder>, ValidationError>(ValidationError::Invariant("payment order id mismatch")),
        payment.spec_order_id() == order.spec_id() && payment.spec_amount() != order.spec_total() ==> r == Err::<TypedOrder<PaidOrder>, ValidationError>(ValidationError::Invariant("payment amount mismatch")),
        payment.spec_order_id() == order.spec_id() && payment.spec_amount() == order.spec_total() && payment.spec_currency() != order.spec_currency() ==> r == Err::<TypedOrder<PaidOrder>, ValidationError>(ValidationError::Invariant("payment currency mismatch")),
        payment.spec_order_id() == order.spec_id() && payment.spec_amount() == order.spec_total() && payment.spec_currency() == order.spec_currency() ==> r is Ok && r->Ok_0.spec_id() == order.spec_id() && r->Ok_0.spec_total() == order.spec_total() && r->Ok_0.spec_currency() == order.spec_currency(),
{
    if payment.order_id != order.id {
        return Err(ValidationError::Invariant("payment order id mismatch"));
    }
    if payment.amount != order.total {
        return Err(ValidationError::Invariant("payment amount mismatch"));
    }
    if payment.currency != order.currency {
        return Err(ValidationError::Invariant("payment currency mismatch"));
    }
    proof {
        use_type_invariant(&order);
    }
    Ok(TypedOrder { id: order.id, total: order.total, currency: order.currency, _state: PhantomData })
}

impl PaymentLedger {
    #[verifier::type_invariant]
    pub open spec fn valid(self) -> bool {
        self.spec_refunded() <= self.spec_captured()
    }

    pub fn try_new(captured: Money, refunded: Money) -> (r: DomainResult<Self>)
        ensures
            refunded > captured ==> r == Err::<Self, ValidationError>(ValidationError::Invariant("refunded exceeds captured")),
            refunded <= captured ==> r == Ok::<Self, ValidationError>(PaymentLedger::spec_new(captured, refunded)),
    {
        if refunded > captured {
            return Err(ValidationError::Invariant("refunded exceeds captured"));
        }
        Ok(Self { captured, refunded })
    }

    pub fn captured(&self) -> (r: Money)
        ensures
            r == self.spec_captured(),
    {
        self.captured
    }

    pub fn refunded(&self) -> (r: Money)
        ensures
            r == self.spec_refunded(),
    {
        self.refunded
    }
}

pub fn remaining_refund_amount(ledger: &PaymentLedger) -> (r: Money)
    ensures
        r == nat_sub_spec(ledger.spec_captured() as int, ledger.spec_refunded() as int),
{
    nat_sub(ledger.captured, ledger.refunded)
}

pub open spec fn can_refund_spec(ledger: PaymentLedger, amount: u128) -> bool {
    ledger.spec_refunded() + amount <= ledger.spec_captured()
}

pub fn can_refund(ledger: &PaymentLedger, amount: Money) -> (r: bool)
    ensures
        r == can_refund_spec(*ledger, amount),
{
    match ledger.refunded.checked_add(amount) {
        Some(total) => total <= ledger.captured,
        None => false,
    }
}

/// Refunding `amount` more; never past the captured amount.
pub open spec fn issue_refund_spec(ledger: PaymentLedger, amount: u128) -> DomainResult<PaymentLedger> {
    if can_refund_spec(ledger, amount) {
        Ok(PaymentLedger::spec_new(ledger.spec_captured(), (ledger.spec_refunded() + amount) as u128))
    } else {
        Err(ValidationError::Invariant("refund exceeds captured amount"))
    }
}

pub fn issue_refund(ledger: &PaymentLedger, amount: Money) -> (r: DomainResult<PaymentLedger>)
    ensures
        r == issue_refund_spec(*ledger, amount),
{
    if !can_refund(ledger, amount) {
        return Err(ValidationError::Invariant("refund exceeds captured amount"));
    }
    match checked_add(ledger.refunded, amount, "issue_refund") {
        Ok(refunded) => PaymentLedger::try_new(ledger.captured, refunded),
        Err(e) => Err(e),
    }
}

/// A refund on a consistent ledger succeeds exactly up to the amount still
/// refundable, keeps the ledger consistent, leaves the captured amount alone
/// and lowers what remains refundable by the refund.
pub proof fn lemma_refund_keeps_ledger_valid(ledger: PaymentLedger, amount: u128)
    requires
        ledger.valid(),
    ensures
        issue_refund_spec(ledger, amount) is Ok <==> amount <= ledger.spec_captured() - ledger.spec_refunded(),
        issue_refund_spec(ledger, amount) matches Ok(next) ==> {
            &&& next.valid()
            &&& next.spec_captured() == ledger.spec_captured()
            &&& next.spec_captured() - next.spec_refunded() == ledger.spec_captured() - ledger.spec_refunded() - amount
        },
{
}

/// The accessor lemmas for the records of this module.
pub broadcast group group_orders_record_fields {
    lemma_captured_payment_fields,
    lemma_order_fields,
    lemma_payment_ledger_fields,
}


/// The order lifecycle: New, Paid, Packed, Shipped, Delivered step by step,
/// with backorders paid later; only new or backordered orders are cancelled;
/// refunds follow payment or delivery only; nothing returns to New, and no
/// order ships before it is packed.
pub proof fn lemma_order_lifecycle(source: OrderStatus)
    ensures
        order_transition_allowed(OrderStatus::New, OrderStatus::Paid),
        order_transition_allowed(OrderStatus::Paid, OrderStatus::Packed),
        order_transition_allowed(OrderStatus::Packed, OrderStatus::Shipped),
        order_transition_allowed(OrderStatus::Shipped, OrderStatus::Delivered),
        order_transition_allowed(OrderStatus::New, OrderStatus::Backordered),
        order_transition_allowed(OrderStatus::Backordered, OrderStatus::Paid),
        order_transition_allowed(source, OrderStatus::Cancelled) <==> (source == OrderStatus::New || source == OrderStatus::Backordered),
        order_transition_allowed(source, OrderStatus::Refunded) <==> (source == OrderStatus::Paid || source == OrderStatus::Delivered),
        order_transition_allowed(source, OrderStatus::Shipped) <==> source == OrderStatus::Packed,
        !order_transition_allowed(source, OrderStatus::New),
{
}

} // verus!
