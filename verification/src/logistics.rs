//! Shipment plans and lifecycles, carrier hand-offs, tracking histories,
//! delivery promises, warehouse transfers and returns.

use vstd::prelude::*;
use crate::foundation::clone_vec_exact;
use crate::crm::{SupportCase};
use crate::foundation::{DomainResult, Id, Money, Nat, Quantity, ReturnAuthorizationId, ShipmentId, Sku, Timestamp, TrackingEventId, TransferId, ValidationError, checked_add, collected_sum, lemma_sum_nat_prefix_le, lemma_sum_nat_take_all, lemma_sum_nat_take_step, sum_nat, total_result, unix_epoch_timestamp};
use crate::fulfillment_finance::{CarrierQuote, CarrierService, Package, ShippingZone};
use crate::inventory::{Allocation, DistinctFulfillmentPlan, StockState, Warehouse, available_stock, available_stock_spec};
use crate::orders::{Order, OrderStatus, PaymentLedger, can_refund, can_refund_spec};
use crate::pricing::{CartLine, cart_quantity_total, cart_quantity_total_value, cart_weight_total, line_weight_fn};

verus! {

#[derive(Debug, PartialEq, Eq)]
pub struct ShippingDestination {
    pub(crate) id: Id,
    pub(crate) zone: ShippingZone,
    pub(crate) postal_code: Nat,
}

impl ShippingDestination {
    pub open(crate) spec fn spec_id(&self) -> Id {
        self.id
    }

    pub open(crate) spec fn spec_zone(&self) -> ShippingZone {
        self.zone
    }

    pub open(crate) spec fn spec_postal_code(&self) -> Nat {
        self.postal_code
    }

    pub open(crate) spec fn spec_new(id: Id, zone: ShippingZone, postal_code: Nat) -> Self {
        ShippingDestination { id, zone, postal_code }
    }
}

/// The accessors of a `ShippingDestination` built by `spec_new` give back its parts.
pub broadcast proof fn lemma_shipping_destination_fields(id: Id, zone: ShippingZone, postal_code: Nat)
    ensures
        #[trigger] ShippingDestination::spec_new(id, zone, postal_code).spec_id() == id
            && ShippingDestination::spec_new(id, zone, postal_code).spec_zone() == zone
            && ShippingDestination::spec_new(id, zone, postal_code).spec_postal_code() == postal_code,
{
}

impl Clone for ShippingDestination {
    fn clone(&self) -> (r: Self)
        ensures
            r == *self,
    {
        ShippingDestination { id: self.id, zone: self.zone.clone(), postal_code: self.postal_code }
    }
}

impl ShippingDestination {
    pub fn new(id: Id, zone: ShippingZone, postal_code: Nat) -> (r: Self)
        ensures
            r == (ShippingDestination::spec_new(id, zone, postal_code)),
    {
        ShippingDestination { id, zone, postal_code }
    }

    pub fn try_new(id: Id, zone: ShippingZone, postal_code: Nat) -> (r: DomainResult<Self>)
        ensures
            r == Ok::<Self, ValidationError>(ShippingDestination::spec_new(id, zone, postal_code)),
    {
        Ok(Self::new(id, zone, postal_code))
    }

    pub fn id(&self) -> (r: Id)
        ensures
            r == self.spec_id(),
    {
        self.id
    }

    pub fn zone(&self) -> (r: &ShippingZone)
        ensures
            *r == self.spec_zone(),
    {
        &self.zone
    }

    pub fn postal_code(&self) -> (r: Nat)
        ensures
            r == self.spec_postal_code(),
    {
        self.postal_code
    }
}

#[derive(Debug, PartialEq, Eq, Structural)]
pub struct TrackingEvent {
    pub(crate) id: TrackingEventId,
    pub(crate) shipment_id: ShipmentId,
    pub(crate) carrier_id: Id,
    pub(crate) tracking_number: Id,
    pub(crate) kind: TrackingEventKind,
    pub(crate) occurred_at: Timestamp,
}

impl TrackingEvent {
    pub open(crate) spec fn spec_id(&self) -> TrackingEventId {
        self.id
    }

    pub open(crate) spec fn spec_shipment_id(&self) -> ShipmentId {
        self.shipment_id
    }

    pub open(crate) spec fn spec_carrier_id(&self) -> Id {
        self.carrier_id
    }

    pub open(crate) spec fn spec_tracking_number(&self) -> Id {
        self.tracking_number
    }

    pub open(crate) spec fn spec_kind(&self) -> TrackingEventKind {
        self.kind
    }

    pub open(crate) spec fn spec_occurred_at(&self) -> Timestamp {
        self.occurred_at
    }

    pub open(crate) spec fn spec_new(id: TrackingEventId, shipment_id: ShipmentId, carrier_id: Id, tracking_number: Id, kind: TrackingEventKind, occurred_at: Timestamp) -> Self {
        TrackingEvent { id, shipment_id, carrier_id, tracking_number, kind, occurred_at }
    }
}

/// The accessors of a `TrackingEvent` built by `spec_new` give back its parts.
pub broadcast proof fn lemma_tracking_event_fields(id: TrackingEventId, shipment_id: ShipmentId, carrier_id: Id, tracking_number: Id, kind: TrackingEventKind, occurred_at: Timestamp)
    ensures
        #[trigger] TrackingEvent::spec_new(id, shipment_id, carrier_id, tracking_number, kind, occurred_at).spec_id() == id
            && TrackingEvent::spec_new(id, shipment_id, carrier_id, tracking_number, kind, occurred_at).spec_shipment_id() == shipment_id
            && TrackingEvent::spec_new(id, shipment_id, carrier_id, tracking_number, kind, occurred_at).spec_carrier_id() == carrier_id
            && TrackingEvent::spec_new(id, shipment_id, carrier_id, tracking_number, kind, occurred_at).spec_tracking_number() == tracking_number
            && TrackingEvent::spec_new(id, shipment_id, carrier_id, tracking_number, kind, occurred_at).spec_kind() == kind
            && TrackingEvent::spec_new(id, shipment_id, carrier_id, tracking_number, kind, occurred_at).spec_occurred_at() == occurred_at,
{
}

impl Clone for TrackingEvent {
    fn clone(&self) -> (r: Self)
        ensures
            r == *self,
    {
        TrackingEvent { id: self.id, shipment_id: self.shipment_id, carrier_id: self.carrier_id, tracking_number: self.tracking_number, kind: self.kind, occurred_at: self.occurred_at }
    }
}

impl TrackingEvent {
    pub fn new(id: TrackingEventId, shipment_id: ShipmentId, carrier_id: Id, tracking_number: Id, kind: TrackingEventKind, occurred_at: Timestamp) -> (r: Self)
        ensures
            r == (TrackingEvent::spec_new(id, shipment_id, carrier_id, tracking_number, kind, occurred_at)),
    {
        TrackingEvent { id, shipment_id, carrier_id, tracking_number, kind, occurred_at }
    }

    pub fn try_new(id: TrackingEventId, shipment_id: ShipmentId, carrier_id: Id, tracking_number: Id, kind: TrackingEventKind, occurred_at: Timestamp) -> (r: DomainResult<Self>)
        ensures
            r == Ok::<Self, ValidationError>(TrackingEvent::spec_new(id, shipment_id, carrier_id, tracking_number, kind, occurred_at)),
    {
        Ok(Self::new(id, shipment_id, carrier_id, tracking_number, kind, occurred_at))
    }

    pub fn id(&self) -> (r: TrackingEventId)
        ensures
            r == self.spec_id(),
    {
        self.id
    }

    pub fn shipment_id(&self) -> (r: ShipmentId)
        ensures
            r == self.spec_shipment_id(),
    {
        self.shipment_id
    }

    pub fn carrier_id(&self) -> (r: Id)
        ensures
            r == self.spec_carrier_id(),
    {
        self.carrier_id
    }

    pub fn tracking_number(&self) -> (r: Id)
        ensures
            r == self.spec_tracking_number(),
    {
        self.tracking_number
    }

    pub fn kind(&self) -> (r: TrackingEventKind)
        ensures
            r == self.spec_kind(),
    {
        self.kind
    }

    pub fn occurred_at(&self) -> (r: Timestamp)
        ensures
            r == self.spec_occurred_at(),
    {
        self.occurred_at
    }
}

#[derive(Debug, PartialEq, Eq, Structural)]
pub struct LogisticsException {
    pub(crate) shipment_id: ShipmentId,
    pub(crate) kind: LogisticsExceptionKind,
    pub(crate) raised_at: Timestamp,
    pub(crate) customer_visible: bool,
}

impl LogisticsException {
    pub open(crate) spec fn spec_shipment_id(&self) -> ShipmentId {
        self.shipment_id
    }

    pub open(crate) spec fn spec_kind(&self) -> LogisticsExceptionKind {
        self.kind
    }

    pub open(crate) spec fn spec_raised_at(&self) -> Timestamp {
        self.raised_at
    }

    pub open(crate) spec fn spec_customer_visible(&self) -> bool {
        self.customer_visible
    }

    pub open(crate) spec fn spec_new(shipment_id: ShipmentId, kind: LogisticsExceptionKind, raised_at: Timestamp, customer_visible: bool) -> Self {
        LogisticsException { shipment_id, kind, raised_at, customer_visible }
    }
}

/// The accessors of a `LogisticsException` built by `spec_new` give back its parts.
pub broadcast proof fn lemma_logistics_exception_fields(shipment_id: ShipmentId, kind: LogisticsExceptionKind, raised_at: Timestamp, customer_visible: bool)
    ensures
        #[trigger] LogisticsException::spec_new(shipment_id, kind, raised_at, customer_visible).spec_shipment_id() == shipment_id
            && LogisticsException::spec_new(shipment_id, kind, raised_at, customer_visible).spec_kind() == kind
            && LogisticsException::spec_new(shipment_id, kind, raised_at, customer_visible).spec_raised_at() == raised_at
            && LogisticsException::spec_new(shipment_id, kind, raised_at, customer_visible).spec_customer_visible() == customer_visible,
{
}

impl Clone for LogisticsException {
    fn clone(&self) -> (r: Self)
        ensures
            r == *self,
    {
        LogisticsException { shipment_id: self.shipment_id, kind: self.kind, raised_at: self.raised_at, customer_visible: self.customer_visible }
    }
}

impl LogisticsException {
    pub fn new(shipment_id: ShipmentId, kind: LogisticsExceptionKind, raised_at: Timestamp, customer_visible: bool) -> (r: Self)
        ensures
            r == (LogisticsException::spec_new(shipment_id, kind, raised_at, customer_visible)),
    {
        LogisticsException { shipment_id, kind, raised_at, customer_visible }
    }

    pub fn try_new(shipment_id: ShipmentId, kind: LogisticsExceptionKind, raised_at: Timestamp, customer_visible: bool) -> (r: DomainResult<Self>)
        ensures
            r == Ok::<Self, ValidationError>(LogisticsException::spec_new(shipment_id, kind, raised_at, customer_visible)),
    {
        Ok(Self::new(shipment_id, kind, raised_at, customer_visible))
    }

    pub fn shipment_id(&self) -> (r: ShipmentId)
        ensures
            r == self.spec_shipment_id(),
    {
        self.shipment_id
    }

    pub fn kind(&self) -> (r: LogisticsExceptionKind)
        ensures
            r == self.spec_kind(),
    {
        self.kind
    }

    pub fn raised_at(&self) -> (r: Timestamp)
        ensures
            r == self.spec_raised_at(),
    {
        self.raised_at
    }

    pub fn customer_visible(&self) -> (r: bool)
        ensures
            r == self.spec_customer_visible(),
    {
        self.customer_visible
    }
}

#[derive(Debug, PartialEq, Eq, Structural)]
pub struct ReturnLine {
    pub(crate) sku: Sku,
    pub(crate) quantity: Quantity,
    pub(crate) refund_amount: Money,
}

impl ReturnLine {
    pub open(crate) spec fn spec_sku(&self) -> Sku {
        self.sku
    }

    pub open(crate) spec fn spec_quantity(&self) -> Quantity {
        self.quantity
    }

    pub open(crate) spec fn spec_refund_amount(&self) -> Money {
        self.refund_amount
    }

    pub open(crate) spec fn spec_new(sku: Sku, quantity: Quantity, refund_amount: Money) -> Self {
        ReturnLine { sku, quantity, refund_amount }
    }
}

/// The accessors of a `ReturnLine` built by `spec_new` give back its parts.
pub broadcast proof fn lemma_return_line_fields(sku: Sku, quantity: Quantity, refund_amount: Money)
    ensures
        #[trigger] ReturnLine::spec_new(sku, quantity, refund_amount).spec_sku() == sku
            && ReturnLine::spec_new(sku, quantity, refund_amount).spec_quantity() == quantity
            && ReturnLine::spec_new(sku, quantity, refund_amount).spec_refund_amount() == refund_amount,
{
}

impl Clone for ReturnLine {
    fn clone(&self) -> (r: Self)
        ensures
            r == *self,
    {
        ReturnLine { sku: self.sku, quantity: self.quantity, refund_amount: self.refund_amount }
    }
}

impl ReturnLine {
    pub fn new(sku: Sku, quantity: Quantity, refund_amount: Money) -> (r: Self)
        ensures
            r == (ReturnLine::spec_new(sku, quantity, refund_amount)),
    {
        ReturnLine { sku, quantity, refund_amount }
    }

    pub fn try_new(sku: Sku, quantity: Quantity, refund_amount: Money) -> (r: DomainResult<Self>)
        ensures
            r == Ok::<Self, ValidationError>(ReturnLine::spec_new(sku, quantity, refund_amount)),
    {
        Ok(Self::new(sku, quantity, refund_amount))
    }

    pub fn sku(&self) -> (r: Sku)
        ensures
            r == self.spec_sku(),
    {
        self.sku
    }

    pub fn quantity(&self) -> (r: Quantity)
        ensures
            r == self.spec_quantity(),
    {
        self.quantity
    }

    pub fn refund_amount(&self) -> (r: Money)
        ensures
            r == self.spec_refund_amount(),
    {
        self.refund_amount
    }
}

#[derive(Clone, Copy, Debug, PartialEq, Eq, Structural)]
pub enum ShipmentStatus {
    Planned,
    Allocated,
    Packed,
    InTransit,
    OutForDelivery,
    Delivered,
    Exception,
    Returned,
    Cancelled,
}

#[derive(Debug, PartialEq, Eq)]
pub struct LogisticsShipmentPlan {
    pub(crate) id: ShipmentId,
    pub(crate) order: Order,
    pub(crate) fulfillment: DistinctFulfillmentPlan,
    pub(crate) package: Package,
    pub(crate) quote: CarrierQuote,
    pub(crate) warehouse: Warehouse,
    pub(crate) destination: ShippingDestination,
    pub(crate) planned_ship_at: Timestamp,
    pub(crate) promised_delivery_at: Timestamp,
}

impl LogisticsShipmentPlan {
    /// Equal fields, and equal contents for the vectors it holds.
    pub open spec fn same_content(self, other: Self) -> bool {
        self.spec_id() == other.spec_id()
            && self.spec_order().same_content(other.spec_order())
            && self.spec_fulfillment().same_content(other.spec_fulfillment())
            && self.spec_package() == other.spec_package()
            && self.spec_quote() == other.spec_quote()
            && self.spec_warehouse() == other.spec_warehouse()
            && self.spec_destination() == other.spec_destination()
            && self.spec_planned_ship_at() == other.spec_planned_ship_at()
            && self.spec_promised_delivery_at() == other.spec_promised_delivery_at()
    }

    /// Every value satisfies what `try_new` checks.
    #[verifier::type_invariant]
    pub open spec fn valid(self) -> bool {
        logistics_plan_error(self.spec_order(), self.spec_fulfillment(), self.spec_package(), self.spec_quote(), self.spec_warehouse(), self.spec_destination(), self.spec_planned_ship_at(), self.spec_promised_delivery_at()) is None
    }

    pub open(crate) spec fn spec_id(&self) -> ShipmentId {
        self.id
    }

    pub open(crate) spec fn spec_order(&self) -> Order {
        self.order
    }

    pub open(crate) spec fn spec_fulfillment(&self) -> DistinctFulfillmentPlan {
        self.fulfillment
    }

    pub open(crate) spec fn spec_package(&self) -> Package {
        self.package
    }

    pub open(crate) spec fn spec_quote(&self) -> CarrierQuote {
        self.quote
    }

    pub open(crate) spec fn spec_warehouse(&self) -> Warehouse {
        self.warehouse
    }

    pub open(crate) spec fn spec_destination(&self) -> ShippingDestination {
        self.destination
    }

    pub open(crate) spec fn spec_planned_ship_at(&self) -> Timestamp {
        self.planned_ship_at
    }

    pub open(crate) spec fn spec_promised_delivery_at(&self) -> Timestamp {
        self.promised_delivery_at
    }

    pub open(crate) spec fn spec_new(id: ShipmentId, order: Order, fulfillment: DistinctFulfillmentPlan, package: Package, quote: CarrierQuote, warehouse: Warehouse, destination: ShippingDestination, planned_ship_at: Timestamp, promised_delivery_at: Timestamp) -> Self {
        LogisticsShipmentPlan { id, order, fulfillment, package, quote, warehouse, destination, planned_ship_at, promised_delivery_at }
    }
}

/// The accessors of a `LogisticsShipmentPlan` built by `spec_new` give back its parts.
pub broadcast proof fn lemma_logistics_shipment_plan_fields(id: ShipmentId, order: Order, fulfillment: DistinctFulfillmentPlan, package: Package, quote: CarrierQuote, warehouse: Warehouse, destination: ShippingDestination, planned_ship_at: Timestamp, promised_delivery_at: Timestamp)
    ensures
        #[trigger] LogisticsShipmentPlan::spec_new(id, order, fulfillment, package, quote, warehouse, destination, planned_ship_at, promised_delivery_at).spec_id() == id
            && LogisticsShipmentPlan::spec_new(id, order, fulfillment, package, quote, warehouse, destination, planned_ship_at, promised_delivery_at).spec_order() == order
            && LogisticsShipmentPlan::spec_new(id, order, fulfillment, package, quote, warehouse, destination, planned_ship_at, promised_delivery_at).spec_fulfillment() == fulfillment
            && LogisticsShipmentPlan::spec_new(id, order, fulfillment, package, quote, warehouse, destination, planned_ship_at, promised_delivery_at).spec_package() == package
            && LogisticsShipmentPlan::spec_new(id, order, fulfillment, package, quote, warehouse, destination, planned_ship_at, promised_delivery_at).spec_quote() == quote
            && LogisticsShipmentPlan::spec_new(id, order, fulfillment, package, quote, warehouse, destination, planned_ship_at, promised_delivery_at).spec_warehouse() == warehouse
            && LogisticsShipmentPlan::spec_new(id, order, fulfillment, package, quote, warehouse, destination, planned_ship_at, promised_delivery_at).spec_destination() == destination
            && LogisticsShipmentPlan::spec_new(id, order, fulfillment, package, quote, warehouse, destination, planned_ship_at, promised_delivery_at).spec_planned_ship_at() == planned_ship_at
            && LogisticsShipmentPlan::spec_new(id, order, fulfillment, package, quote, warehouse, destination, planned_ship_at, promised_delivery_at).spec_promised_delivery_at() == promised_delivery_at,
{
}

impl Clone for LogisticsShipmentPlan {
    fn clone(&self) -> (r: Self)
        ensures
            r.same_content(*self),
    {
        proof {
            use_type_invariant(self);
        }
        LogisticsShipmentPlan { id: self.id.clone(), order: self.order.clone(), fulfillment: self.fulfillment.clone(), package: self.package.clone(), quote: self.quote.clone(), warehouse: self.warehouse.clone(), destination: self.destination.clone(), planned_ship_at: self.planned_ship_at.clone(), promised_delivery_at: self.promised_delivery_at.clone() }
    }
}

#[derive(Debug, PartialEq, Eq)]
pub struct LogisticsShipment {
    pub(crate) id: ShipmentId,
    pub(crate) plan: LogisticsShipmentPlan,
    pub(crate) status: ShipmentStatus,
    pub(crate) created_at: Timestamp,
    pub(crate) updated_at: Timestamp,
}

impl LogisticsShipment {
    /// Equal fields, and equal contents for the vectors it holds.
    pub open spec fn same_content(self, other: Self) -> bool {
        self.spec_id() == other.spec_id()
            && self.spec_plan().same_content(other.spec_plan())
            && self.spec_status() == other.spec_status()
            && self.spec_created_at() == other.spec_created_at()
            && self.spec_updated_at() == other.spec_updated_at()
    }

    /// Every value satisfies what `try_new` checks.
    #[verifier::type_invariant]
    pub open spec fn valid(self) -> bool {
        (self.spec_id() == self.spec_plan().spec_id() && self.spec_updated_at().spec_seconds() >= self.spec_created_at().spec_seconds())
    }

    pub open(crate) spec fn spec_id(&self) -> ShipmentId {
        self.id
    }

    pub open(crate) spec fn spec_plan(&self) -> LogisticsShipmentPlan {
        self.plan
    }

    pub open(crate) spec fn spec_status(&self) -> ShipmentStatus {
        self.status
    }

    pub open(crate) spec fn spec_created_at(&self) -> Timestamp {
        self.created_at
    }

    pub open(crate) spec fn spec_updated_at(&self) -> Timestamp {
        self.updated_at
    }

    pub open(crate) spec fn spec_new(id: ShipmentId, plan: LogisticsShipmentPlan, status: ShipmentStatus, created_at: Timestamp, updated_at: Timestamp) -> Self {
        LogisticsShipment { id, plan, status, created_at, updated_at }
    }
}

/// The accessors of a `LogisticsShipment` built by `spec_new` give back its parts.
pub broadcast proof fn lemma_logistics_shipment_fields(id: ShipmentId, plan: LogisticsShipmentPlan, status: ShipmentStatus, created_at: Timestamp, updated_at: Timestamp)
    ensures
        #[trigger] LogisticsShipment::spec_new(id, plan, status, created_at, updated_at).spec_id() == id
            && LogisticsShipment::spec_new(id, plan, status, created_at, updated_at).spec_plan() == plan
            && LogisticsShipment::spec_new(id, plan, status, created_at, updated_at).spec_status() == status
            && LogisticsShipment::spec_new(id, plan, status, created_at, updated_at).spec_created_at() == created_at
            && LogisticsShipment::spec_new(id, plan, status, created_at, updated_at).spec_updated_at() == updated_at,
{
}

impl Clone for LogisticsShipment {
    fn clone(&self) -> (r: Self)
        ensures
            r.same_content(*self),
    {
        proof {
            use_type_invariant(self);
        }
        LogisticsShipment { id: self.id.clone(), plan: self.plan.clone(), status: self.status.clone(), created_at: self.created_at.clone(), updated_at: self.updated_at.clone() }
    }
}

#[derive(Debug, PartialEq, Eq)]
pub struct CarrierHandoff {
    pub(crate) plan: LogisticsShipmentPlan,
    pub(crate) service: CarrierService,
    pub(crate) tracking_number: Id,
    pub(crate) handed_off_at: Timestamp,
    pub(crate) acceptance_scan_at: Timestamp,
}

impl CarrierHandoff {
    /// Equal fields, and equal contents for the vectors it holds.
    pub open spec fn same_content(self, other: Self) -> bool {
        self.spec_plan().same_content(other.spec_plan())
            && self.spec_service() == other.spec_service()
            && self.spec_tracking_number() == other.spec_tracking_number()
            && self.spec_handed_off_at() == other.spec_handed_off_at()
            && self.spec_acceptance_scan_at() == other.spec_acceptance_scan_at()
    }

    /// Every value satisfies what `try_new` checks.
    #[verifier::type_invariant]
    pub open spec fn valid(self) -> bool {
        (same_service(self.spec_service(), self.spec_plan().spec_quote().spec_service()) && self.spec_handed_off_at().spec_seconds() >= self.spec_plan().spec_planned_ship_at().spec_seconds() && self.spec_acceptance_scan_at().spec_seconds() >= self.spec_handed_off_at().spec_seconds())
    }

    pub open(crate) spec fn spec_plan(&self) -> LogisticsShipmentPlan {
        self.plan
    }

    pub open(crate) spec fn spec_service(&self) -> CarrierService {
        self.service
    }

    pub open(crate) spec fn spec_tracking_number(&self) -> Id {
        self.tracking_number
    }

    pub open(crate) spec fn spec_handed_off_at(&self) -> Timestamp {
        self.handed_off_at
    }

    pub open(crate) spec fn spec_acceptance_scan_at(&self) -> Timestamp {
        self.acceptance_scan_at
    }

    pub open(crate) spec fn spec_new(plan: LogisticsShipmentPlan, service: CarrierService, tracking_number: Id, handed_off_at: Timestamp, acceptance_scan_at: Timestamp) -> Self {
        CarrierHandoff { plan, service, tracking_number, handed_off_at, acceptance_scan_at }
    }
}

/// The accessors of a `CarrierHandoff` built by `spec_new` give back its parts.
pub broadcast proof fn lemma_carrier_handoff_fields(plan: LogisticsShipmentPlan, service: CarrierService, tracking_number: Id, handed_off_at: Timestamp, acceptance_scan_at: Timestamp)
    ensures
        #[trigger] CarrierHandoff::spec_new(plan, service, tracking_number, handed_off_at, acceptance_scan_at).spec_plan() == plan
            && CarrierHandoff::spec_new(plan, service, tracking_number, handed_off_at, acceptance_scan_at).spec_service() == service
            && CarrierHandoff::spec_new(plan, service, tracking_number, handed_off_at, acceptance_scan_at).spec_tracking_number() == tracking_number
            && CarrierHandoff::spec_new(plan, service, tracking_number, handed_off_at, acceptance_scan_at).spec_handed_off_at() == handed_off_at
            && CarrierHandoff::spec_new(plan, service, tracking_number, handed_off_at, acceptance_scan_at).spec_acceptance_scan_at() == acceptance_scan_at,
{
}

impl Clone for CarrierHandoff {
    fn clone(&self) -> (r: Self)
        ensures
            r.same_content(*self),
    {
        proof {
            use_type_invariant(self);
        }
        CarrierHandoff { plan: self.plan.clone(), service: self.service.clone(), tracking_number: self.tracking_number.clone(), handed_off_at: self.handed_off_at.clone(), acceptance_scan_at: self.acceptance_scan_at.clone() }
    }
}

#[derive(Clone, Copy, Debug, PartialEq, Eq, Structural)]
pub enum TrackingEventKind {
    LabelCreated,
    PickupScan,
    InTransitScan,
    OutForDeliveryScan,
    DeliveredScan,
    ExceptionScan,
    ReturnScan,
}

#[derive(Debug, PartialEq, Eq)]
pub struct TrackingHistory {
    pub(crate) shipment_id: ShipmentId,
    pub(crate) carrier_id: Id,
    pub(crate) tracking_number: Id,
    pub(crate) events: Vec<TrackingEvent>,
    pub(crate) last_observed_at: Timestamp,
}

impl TrackingHistory {
    /// Equal fields, and equal contents for the vectors it holds.
    pub open spec fn same_content(self, other: Self) -> bool {
        self.spec_shipment_id() == other.spec_shipment_id()
            && self.spec_carrier_id() == other.spec_carrier_id()
            && self.spec_tracking_number() == other.spec_tracking_number()
            && self.spec_events()@ == other.spec_events()@
            && self.spec_last_observed_at() == other.spec_last_observed_at()
    }

    /// Every value satisfies what `try_new` checks.
    #[verifier::type_invariant]
    pub open spec fn valid(self) -> bool {
        tracking_history_ok(self.spec_shipment_id(), self.spec_carrier_id(), self.spec_tracking_number(), self.spec_events()@, self.spec_last_observed_at())
    }

    pub open(crate) spec fn spec_shipment_id(&self) -> ShipmentId {
        self.shipment_id
    }

    pub open(crate) spec fn spec_carrier_id(&self) -> Id {
        self.carrier_id
    }

    pub open(crate) spec fn spec_tracking_number(&self) -> Id {
        self.tracking_number
    }

    pub open(crate) spec fn spec_events(&self) -> Vec<TrackingEvent> {
        self.events
    }

    pub open(crate) spec fn spec_last_observed_at(&self) -> Timestamp {
        self.last_observed_at
    }
}

impl Clone for TrackingHistory {
    fn clone(&self) -> (r: Self)
        ensures
            r.same_content(*self),
    {
        proof {
            use_type_invariant(self);
        }
        let events = clone_vec_exact(&self.events);
        TrackingHistory { shipment_id: self.shipment_id, carrier_id: self.carrier_id, tracking_number: self.tracking_number, events, last_observed_at: self.last_observed_at }
    }
}

#[derive(Debug, PartialEq, Eq)]
pub struct DeliveryPromise {
    pub(crate) plan: LogisticsShipmentPlan,
    pub(crate) promised_by: Timestamp,
}

impl DeliveryPromise {
    /// Equal fields, and equal contents for the vectors it holds.
    pub open spec fn same_content(self, other: Self) -> bool {
        self.spec_plan().same_content(other.spec_plan())
            && self.spec_promised_by() == other.spec_promised_by()
    }

    /// Every value satisfies what `try_new` checks.
    #[verifier::type_invariant]
    pub open spec fn valid(self) -> bool {
        self.spec_promised_by() == self.spec_plan().spec_promised_delivery_at()
    }

    pub open(crate) spec fn spec_plan(&self) -> LogisticsShipmentPlan {
        self.plan
    }

    pub open(crate) spec fn spec_promised_by(&self) -> Timestamp {
        self.promised_by
    }

    pub open(crate) spec fn spec_new(plan: LogisticsShipmentPlan, promised_by: Timestamp) -> Self {
        DeliveryPromise { plan, promised_by }
    }
}

/// The accessors of a `DeliveryPromise` built by `spec_new` give back its parts.
pub broadcast proof fn lemma_delivery_promise_fields(plan: LogisticsShipmentPlan, promised_by: Timestamp)
    ensures
        #[trigger] DeliveryPromise::spec_new(plan, promised_by).spec_plan() == plan
            && DeliveryPromise::spec_new(plan, promised_by).spec_promised_by() == promised_by,
{
}

impl Clone for DeliveryPromise {
    fn clone(&self) -> (r: Self)
        ensures
            r.same_content(*self),
    {
        proof {
            use_type_invariant(self);
        }
        DeliveryPromise { plan: self.plan.clone(), promised_by: self.promised_by.clone() }
    }
}

#[derive(Debug, PartialEq, Eq)]
pub struct DeliveredShipment {
    pub(crate) promise: DeliveryPromise,
    pub(crate) history: TrackingHistory,
    pub(crate) delivery_event: TrackingEvent,
    pub(crate) delivered_at: Timestamp,
}

impl DeliveredShipment {
    /// Equal fields, and equal contents for the vectors it holds.
    pub open spec fn same_content(self, other: Self) -> bool {
        self.spec_promise().same_content(other.spec_promise())
            && self.spec_history().same_content(other.spec_history())
            && self.spec_delivery_event() == other.spec_delivery_event()
            && self.spec_delivered_at() == other.spec_delivered_at()
    }

    /// Every value satisfies what `try_new` checks.
    #[verifier::type_invariant]
    pub open spec fn valid(self) -> bool {
        delivered_shipment_ok(self.spec_promise(), self.spec_history(), self.spec_delivery_event(), self.spec_delivered_at())
    }

    pub open(crate) spec fn spec_promise(&self) -> DeliveryPromise {
        self.promise
    }

    pub open(crate) spec fn spec_history(&self) -> TrackingHistory {
        self.history
    }

    pub open(crate) spec fn spec_delivery_event(&self) -> TrackingEvent {
        self.delivery_event
    }

    pub open(crate) spec fn spec_delivered_at(&self) -> Timestamp {
        self.delivered_at
    }

    pub open(crate) spec fn spec_new(promise: DeliveryPromise, history: TrackingHistory, delivery_event: TrackingEvent, delivered_at: Timestamp) -> Self {
        DeliveredShipment { promise, history, delivery_event, delivered_at }
    }
}

/// The accessors of a `DeliveredShipment` built by `spec_new` give back its parts.
pub broadcast proof fn lemma_delivered_shipment_fields(promise: DeliveryPromise, history: TrackingHistory, delivery_event: TrackingEvent, delivered_at: Timestamp)
    ensures
        #[trigger] DeliveredShipment::spec_new(promise, history, delivery_event, delivered_at).spec_promise() == promise
            && DeliveredShipment::spec_new(promise, history, delivery_event, delivered_at).spec_history() == history
            && DeliveredShipment::spec_new(promise, history, delivery_event, delivered_at).spec_delivery_event() == delivery_event
            && DeliveredShipment::spec_new(promise, history, delivery_event, delivered_at).spec_delivered_at() == delivered_at,
{
}

impl Clone for DeliveredShipment {
    fn clone(&self) -> (r: Self)
        ensures
            r.same_content(*self),
    {
        proof {
            use_type_invariant(self);
        }
        DeliveredShipment { promise: self.promise.clone(), history: self.history.clone(), delivery_event: self.delivery_event.clone(), delivered_at: self.delivered_at.clone() }
    }
}

#[derive(Clone, Copy, Debug, PartialEq, Eq, Structural)]
pub enum LogisticsExceptionKind {
    CarrierDelay,
    WeatherDelay,
    AddressIssue,
    LostPackage,
    DamagedPackage,
    CustomerUnavailable,
}

#[derive(Debug, PartialEq, Eq)]
pub struct WarehouseTransfer {
    pub(crate) id: TransferId,
    pub(crate) sku: Sku,
    pub(crate) from_warehouse: Warehouse,
    pub(crate) to_warehouse: Warehouse,
    pub(crate) source_stock: StockState,
    pub(crate) requested: Quantity,
    pub(crate) in_transit: Quantity,
    pub(crate) received: Quantity,
}

impl WarehouseTransfer {
    /// Every value satisfies what `try_new` checks.
    #[verifier::type_invariant]
    pub open spec fn valid(self) -> bool {
        (self.spec_source_stock().spec_sku() == self.spec_sku() && self.spec_from_warehouse().spec_id() != self.spec_to_warehouse().spec_id() && self.spec_requested() <= available_stock_spec(self.spec_source_stock())
            && self.spec_in_transit() <= self.spec_requested() && self.spec_received() <= self.spec_in_transit())
    }

    pub open(crate) spec fn spec_id(&self) -> TransferId {
        self.id
    }

    pub open(crate) spec fn spec_sku(&self) -> Sku {
        self.sku
    }

    pub open(crate) spec fn spec_from_warehouse(&self) -> Warehouse {
        self.from_warehouse
    }

    pub open(crate) spec fn spec_to_warehouse(&self) -> Warehouse {
        self.to_warehouse
    }

    pub open(crate) spec fn spec_source_stock(&self) -> StockState {
        self.source_stock
    }

    pub open(crate) spec fn spec_requested(&self) -> Quantity {
        self.requested
    }

    pub open(crate) spec fn spec_in_transit(&self) -> Quantity {
        self.in_transit
    }

    pub open(crate) spec fn spec_received(&self) -> Quantity {
        self.received
    }

    pub open(crate) spec fn spec_new(id: TransferId, sku: Sku, from_warehouse: Warehouse, to_warehouse: Warehouse, source_stock: StockState, requested: Quantity, in_transit: Quantity, received: Quantity) -> Self {
        WarehouseTransfer { id, sku, from_warehouse, to_warehouse, source_stock, requested, in_transit, received }
    }
}

/// The accessors of a `WarehouseTransfer` built by `spec_new` give back its parts.
pub broadcast proof fn lemma_warehouse_transfer_fields(id: TransferId, sku: Sku, from_warehouse: Warehouse, to_warehouse: Warehouse, source_stock: StockState, requested: Quantity, in_transit: Quantity, received: Quantity)
    ensures
        #[trigger] WarehouseTransfer::spec_new(id, sku, from_warehouse, to_warehouse, source_stock, requested, in_transit, received).spec_id() == id
            && WarehouseTransfer::spec_new(id, sku, from_warehouse, to_warehouse, source_stock, requested, in_transit, received).spec_sku() == sku
            && WarehouseTransfer::spec_new(id, sku, from_warehouse, to_warehouse, source_stock, requested, in_transit, received).spec_from_warehouse() == from_warehouse
            && WarehouseTransfer::spec_new(id, sku, from_warehouse, to_warehouse, source_stock, requested, in_transit, received).spec_to_warehouse() == to_warehouse
            && WarehouseTransfer::spec_new(id, sku, from_warehouse, to_warehouse, source_stock, requested, in_transit, received).spec_source_stock() == source_stock
            && WarehouseTransfer::spec_new(id, sku, from_warehouse, to_warehouse, source_stock, requested, in_transit, received).spec_requested() == requested
            && WarehouseTransfer::spec_new(id, sku, from_warehouse, to_warehouse, source_stock, requested, in_transit, received).spec_in_transit() == in_transit
            && WarehouseTransfer::spec_new(id, sku, from_warehouse, to_warehouse, source_stock, requested, in_transit, received).spec_received() == received,
{
}

impl Clone for WarehouseTransfer {
    fn clone(&self) -> (r: Self)
        ensures
            r == *self,
    {
        proof {
            use_type_invariant(self);
        }
        WarehouseTransfer { id: self.id, sku: self.sku, from_warehouse: self.from_warehouse.clone(), to_warehouse: self.to_warehouse.clone(), source_stock: self.source_stock, requested: self.requested, in_transit: self.in_transit, received: self.received }
    }
}

#[derive(Clone, Copy, Debug, PartialEq, Eq, Structural)]
pub enum ReturnAuthorizationStatus {
    Requested,
    Approved,
    Rejected,
    Received,
    Refunded,
    Closed,
}

#[derive(Debug, PartialEq, Eq)]
pub struct ReturnAuthorization {
    pub(crate) id: ReturnAuthorizationId,
    pub(crate) support_case: SupportCase,
    pub(crate) order: Order,
    pub(crate) ledger: PaymentLedger,
    pub(crate) status: ReturnAuthorizationStatus,
    pub(crate) lines: Vec<ReturnLine>,
    pub(crate) quantity: Quantity,
    pub(crate) refund_amount: Money,
    pub(crate) requested_at: Timestamp,
    pub(crate) decided_at: Timestamp,
}

impl ReturnAuthorization {
    /// Equal fields, and equal contents for the vectors it holds.
    pub open spec fn same_content(self, other: Self) -> bool {
        self.spec_id() == other.spec_id()
            && self.spec_support_case() == other.spec_support_case()
            && self.spec_order().same_content(other.spec_order())
            && self.spec_ledger() == other.spec_ledger()
            && self.spec_status() == other.spec_status()
            && self.spec_lines()@ == other.spec_lines()@
            && self.spec_quantity() == other.spec_quantity()
            && self.spec_refund_amount() == other.spec_refund_amount()
            && self.spec_requested_at() == other.spec_requested_at()
            && self.spec_decided_at() == other.spec_decided_at()
    }

    /// Every value satisfies what `try_new` checks.
    #[verifier::type_invariant]
    pub open spec fn valid(self) -> bool {
        return_authorization_error(self.spec_support_case(), self.spec_order(), self.spec_ledger(), self.spec_lines()@, self.spec_quantity(), self.spec_refund_amount(), self.spec_requested_at(), self.spec_decided_at()) is None
    }

    pub open(crate) spec fn spec_id(&self) -> ReturnAuthorizationId {
        self.id
    }

    pub open(crate) spec fn spec_support_case(&self) -> SupportCase {
        self.support_case
    }

    pub open(crate) spec fn spec_order(&self) -> Order {
        self.order
    }

    pub open(crate) spec fn spec_ledger(&self) -> PaymentLedger {
        self.ledger
    }

    pub open(crate) spec fn spec_status(&self) -> ReturnAuthorizationStatus {
        self.status
    }

    pub open(crate) spec fn spec_lines(&self) -> Vec<ReturnLine> {
        self.lines
    }

    pub open(crate) spec fn spec_quantity(&self) -> Quantity {
        self.quantity
    }

    pub open(crate) spec fn spec_refund_amount(&self) -> Money {
        self.refund_amount
    }

    pub open(crate) spec fn spec_requested_at(&self) -> Timestamp {
        self.requested_at
    }

    pub open(crate) spec fn spec_decided_at(&self) -> Timestamp {
        self.decided_at
    }

    pub open(crate) spec fn spec_new(id: ReturnAuthorizationId, support_case: SupportCase, order: Order, ledger: PaymentLedger, status: ReturnAuthorizationStatus, lines: Vec<ReturnLine>, quantity: Quantity, refund_amount: Money, requested_at: Timestamp, decided_at: Timestamp) -> Self {
        ReturnAuthorization { id, support_case, order, ledger, status, lines, quantity, refund_amount, requested_at, decided_at }
    }
}

/// The accessors of a `ReturnAuthorization` built by `spec_new` give back its parts.
pub broadcast proof fn lemma_return_authorization_fields(id: ReturnAuthorizationId, support_case: SupportCase, order: Order, ledger: PaymentLedger, status: ReturnAuthorizationStatus, lines: Vec<ReturnLine>, quantity: Quantity, refund_amount: Money, requested_at: Timestamp, decided_at: Timestamp)
    ensures
        #[trigger] ReturnAuthorization::spec_new(id, support_case, order, ledger, status, lines, quantity, refund_amount, requested_at, decided_at).spec_id() == id
            && ReturnAuthorization::spec_new(id, support_case, order, ledger, status, lines, quantity, refund_amount, requested_at, decided_at).spec_support_case() == support_case
            && ReturnAuthorization::spec_new(id, support_case, order, ledger, status, lines, quantity, refund_amount, requested_at, decided_at).spec_order() == order
            && ReturnAuthorization::spec_new(id, support_case, order, ledger, status, lines, quantity, refund_amount, requested_at, decided_at).spec_ledger() == ledger
            && ReturnAuthorization::spec_new(id, support_case, order, ledger, status, lines, quantity, refund_amount, requested_at, decided_at).spec_status() == status
            && ReturnAuthorization::spec_new(id, support_case, order, ledger, status, lines, quantity, refund_amount, requested_at, decided_at).spec_lines() == lines
            && ReturnAuthorization::spec_new(id, support_case, order, ledger, status, lines, quantity, refund_amount, requested_at, decided_at).spec_quantity() == quantity
            && ReturnAuthorization::spec_new(id, support_case, order, ledger, status, lines, quantity, refund_amount, requested_at, decided_at).spec_refund_amount() == refund_amount
            && ReturnAuthorization::spec_new(id, support_case, order, ledger, status, lines, quantity, refund_amount, requested_at, decided_at).spec_requested_at() == requested_at
            && ReturnAuthorization::spec_new(id, support_case, order, ledger, status, lines, quantity, refund_amount, requested_at, decided_at).spec_decided_at() == decided_at,
{
}

impl Clone for ReturnAuthorization {
    fn clone(&self) -> (r: Self)
        ensures
            r.same_content(*self),
    {
        proof {
            use_type_invariant(self);
        }
        ReturnAuthorization { id: self.id.clone(), support_case: self.support_case.clone(), order: self.order.clone(), ledger: self.ledger.clone(), status: self.status.clone(), lines: clone_vec_exact(&self.lines), quantity: self.quantity.clone(), refund_amount: self.refund_amount.clone(), requested_at: self.requested_at.clone(), decided_at: self.decided_at.clone() }
    }
}

#[derive(Debug, PartialEq, Eq)]
pub struct ReturnReceipt {
    pub(crate) authorization: ReturnAuthorization,
    pub(crate) received_quantity: Quantity,
    pub(crate) refund_issued: Money,
    pub(crate) received_at: Timestamp,
}

impl ReturnReceipt {
    /// Equal fields, and equal contents for the vectors it holds.
    pub open spec fn same_content(self, other: Self) -> bool {
        self.spec_authorization().same_content(other.spec_authorization())
            && self.spec_received_quantity() == other.spec_received_quantity()
            && self.spec_refund_issued() == other.spec_refund_issued()
            && self.spec_received_at() == other.spec_received_at()
    }

    /// Every value satisfies what `try_new` checks.
    #[verifier::type_invariant]
    pub open spec fn valid(self) -> bool {
        (self.spec_authorization().spec_status() == ReturnAuthorizationStatus::Approved && self.spec_received_quantity() <= self.spec_authorization().spec_quantity()
            && self.spec_refund_issued() <= self.spec_authorization().spec_refund_amount() && self.spec_received_at().spec_seconds() >= self.spec_authorization().spec_decided_at().spec_seconds())
    }

    pub open(crate) spec fn spec_authorization(&self) -> ReturnAuthorization {
        self.authorization
    }

    pub open(crate) spec fn spec_received_quantity(&self) -> Quantity {
        self.received_quantity
    }

    pub open(crate) spec fn spec_refund_issued(&self) -> Money {
        self.refund_issued
    }

    pub open(crate) spec fn spec_received_at(&self) -> Timestamp {
        self.received_at
    }

    pub open(crate) spec fn spec_new(authorization: ReturnAuthorization, received_quantity: Quantity, refund_issued: Money, received_at: Timestamp) -> Self {
        ReturnReceipt { authorization, received_quantity, refund_issued, received_at }
    }
}

/// The accessors of a `ReturnReceipt` built by `spec_new` give back its parts.
pub broadcast proof fn lemma_return_receipt_fields(authorization: ReturnAuthorization, received_quantity: Quantity, refund_issued: Money, received_at: Timestamp)
    ensures
        #[trigger] ReturnReceipt::spec_new(authorization, received_quantity, refund_issued, received_at).spec_authorization() == authorization
            && ReturnReceipt::spec_new(authorization, received_quantity, refund_issued, received_at).spec_received_quantity() == received_quantity
            && ReturnReceipt::spec_new(authorization, received_quantity, refund_issued, received_at).spec_refund_issued() == refund_issued
            && ReturnReceipt::spec_new(authorization, received_quantity, refund_issued, received_at).spec_received_at() == received_at,
{
}

impl Clone for ReturnReceipt {
    fn clone(&self) -> (r: Self)
        ensures
            r.same_content(*self),
    {
        proof {
            use_type_invariant(self);
        }
        ReturnReceipt { authorization: self.authorization.clone(), received_quantity: self.received_quantity.clone(), refund_issued: self.refund_issued.clone(), received_at: self.received_at.clone() }
    }
}

impl LogisticsShipmentPlan {
    pub fn id(&self) -> (r: ShipmentId)
        ensures
            r == self.spec_id(),
    {
        self.id
    }

    pub fn order(&self) -> (r: &Order)
        ensures
            *r == self.spec_order(),
    {
        &self.order
    }

    pub fn fulfillment(&self) -> (r: &DistinctFulfillmentPlan)
        ensures
            *r == self.spec_fulfillment(),
    {
        &self.fulfillment
    }

    pub fn package(&self) -> (r: &Package)
        ensures
            *r == self.spec_package(),
    {
        &self.package
    }

    pub fn quote(&self) -> (r: &CarrierQuote)
        ensures
            *r == self.spec_quote(),
    {
        &self.quote
    }

    pub fn warehouse(&self) -> (r: &Warehouse)
        ensures
            *r == self.spec_warehouse(),
    {
        &self.warehouse
    }

    pub fn destination(&self) -> (r: &ShippingDestination)
        ensures
            *r == self.spec_destination(),
    {
        &self.destination
    }

    pub fn planned_ship_at(&self) -> (r: Timestamp)
        ensures
            r == self.spec_planned_ship_at(),
    {
        self.planned_ship_at
    }

    pub fn promised_delivery_at(&self) -> (r: Timestamp)
        ensures
            r == self.spec_promised_delivery_at(),
    {
        self.promised_delivery_at
    }
}

impl LogisticsShipment {
    pub fn id(&self) -> (r: ShipmentId)
        ensures
            r == self.spec_id(),
    {
        self.id
    }

    pub fn plan(&self) -> (r: &LogisticsShipmentPlan)
        ensures
            *r == self.spec_plan(),
    {
        &self.plan
    }

    pub fn status(&self) -> (r: ShipmentStatus)
        ensures
            r == self.spec_status(),
    {
        self.status
    }

    pub fn created_at(&self) -> (r: Timestamp)
        ensures
            r == self.spec_created_at(),
    {
        self.created_at
    }

    pub fn updated_at(&self) -> (r: Timestamp)
        ensures
            r == self.spec_updated_at(),
    {
        self.updated_at
    }
}

impl CarrierHandoff {
    pub fn plan(&self) -> (r: &LogisticsShipmentPlan)
        ensures
            *r == self.spec_plan(),
    {
        &self.plan
    }

    pub fn service(&self) -> (r: &CarrierService)
        ensures
            *r == self.spec_service(),
    {
        &self.service
    }

    pub fn tracking_number(&self) -> (r: Id)
        ensures
            r == self.spec_tracking_number(),
    {
        self.tracking_number
    }

    pub fn handed_off_at(&self) -> (r: Timestamp)
        ensures
            r == self.spec_handed_off_at(),
    {
        self.handed_off_at
    }

    pub fn acceptance_scan_at(&self) -> (r: Timestamp)
        ensures
            r == self.spec_acceptance_scan_at(),
    {
        self.acceptance_scan_at
    }
}

impl TrackingHistory {
    pub fn shipment_id(&self) -> (r: ShipmentId)
        ensures
            r == self.spec_shipment_id(),
    {
        self.shipment_id
    }

    pub fn carrier_id(&self) -> (r: Id)
        ensures
            r == self.spec_carrier_id(),
    {
        self.carrier_id
    }

    pub fn tracking_number(&self) -> (r: Id)
        ensures
            r == self.spec_tracking_number(),
    {
        self.tracking_number
    }

    pub fn events(&self) -> (r: &[TrackingEvent])
        ensures
            r@ == self.spec_events()@,
    {
        self.events.as_slice()
    }

    pub fn last_observed_at(&self) -> (r: Timestamp)
        ensures
            r == self.spec_last_observed_at(),
    {
        self.last_observed_at
    }
}

impl DeliveryPromise {
    pub fn plan(&self) -> (r: &LogisticsShipmentPlan)
        ensures
            *r == self.spec_plan(),
    {
        &self.plan
    }

    pub fn promised_by(&self) -> (r: Timestamp)
        ensures
            r == self.spec_promised_by(),
    {
        self.promised_by
    }
}

impl DeliveredShipment {
    pub fn promise(&self) -> (r: &DeliveryPromise)
        ensures
            *r == self.spec_promise(),
    {
        &self.promise
    }

    pub fn history(&self) -> (r: &TrackingHistory)
        ensures
            *r == self.spec_history(),
    {
        &self.history
    }

    pub fn delivery_event(&self) -> (r: &TrackingEvent)
        ensures
            *r == self.spec_delivery_event(),
    {
        &self.delivery_event
    }

    pub fn delivered_at(&self) -> (r: Timestamp)
        ensures
            r == self.spec_delivered_at(),
    {
        self.delivered_at
    }
}

impl WarehouseTransfer {
    pub fn id(&self) -> (r: TransferId)
        ensures
            r == self.spec_id(),
    {
        self.id
    }

    pub fn sku(&self) -> (r: Sku)
        ensures
            r == self.spec_sku(),
    {
        self.sku
    }

    pub fn from_warehouse(&self) -> (r: &Warehouse)
        ensures
            *r == self.spec_from_warehouse(),
    {
        &self.from_warehouse
    }

    pub fn to_warehouse(&self) -> (r: &Warehouse)
        ensures
            *r == self.spec_to_warehouse(),
    {
        &self.to_warehouse
    }

    pub fn source_stock(&self) -> (r: StockState)
        ensures
            r == self.spec_source_stock(),
    {
        self.source_stock
    }

    pub fn requested(&self) -> (r: Quantity)
        ensures
            r == self.spec_requested(),
    {
        self.requested
    }

    pub fn in_transit(&self) -> (r: Quantity)
        ensures
            r == self.spec_in_transit(),
    {
        self.in_transit
    }

    pub fn received(&self) -> (r: Quantity)
        ensures
            r == self.spec_received(),
    {
        self.received
    }
}

impl ReturnAuthorization {
    pub fn id(&self) -> (r: ReturnAuthorizationId)
        ensures
            r == self.spec_id(),
    {
        self.id
    }

    pub fn support_case(&self) -> (r: &SupportCase)
        ensures
            *r == self.spec_support_case(),
    {
        &self.support_case
    }

    pub fn order(&self) -> (r: &Order)
        ensures
            *r == self.spec_order(),
    {
        &self.order
    }

    pub fn ledger(&self) -> (r: &PaymentLedger)
        ensures
            *r == self.spec_ledger(),
    {
        &self.ledger
    }

    pub fn status(&self) -> (r: ReturnAuthorizationStatus)
        ensures
            r == self.spec_status(),
    {
        self.status
    }

    pub fn lines(&self) -> (r: &[ReturnLine])
        ensures
            r@ == self.spec_lines()@,
    {
        self.lines.as_slice()
    }

    pub fn quantity(&self) -> (r: Quantity)
        ensures
            r == self.spec_quantity(),
    {
        self.quantity
    }

    pub fn refund_amount(&self) -> (r: Money)
        ensures
            r == self.spec_refund_amount(),
    {
        self.refund_amount
    }

    pub fn requested_at(&self) -> (r: Timestamp)
        ensures
            r == self.spec_requested_at(),
    {
        self.requested_at
    }

    pub fn decided_at(&self) -> (r: Timestamp)
        ensures
            r == self.spec_decided_at(),
    {
        self.decided_at
    }
}

impl ReturnReceipt {
    pub fn authorization(&self) -> (r: &ReturnAuthorization)
        ensures
            *r == self.spec_authorization(),
    {
        &self.authorization
    }

    pub fn received_quantity(&self) -> (r: Quantity)
        ensures
            r == self.spec_received_quantity(),
    {
        self.received_quantity
    }

    pub fn refund_issued(&self) -> (r: Money)
        ensures
            r == self.spec_refund_issued(),
    {
        self.refund_issued
    }

    pub fn received_at(&self) -> (r: Timestamp)
        ensures
            r == self.spec_received_at(),
    {
        self.received_at
    }
}

pub open spec fn can_shipment_transition_spec(source: ShipmentStatus, target: ShipmentStatus) -> bool {
    match (source, target) {
        (ShipmentStatus::Planned, ShipmentStatus::Allocated) | (ShipmentStatus::Planned, ShipmentStatus::Cancelled)
        | (ShipmentStatus::Allocated, ShipmentStatus::Packed) | (ShipmentStatus::Allocated, ShipmentStatus::Cancelled)
        | (ShipmentStatus::Packed, ShipmentStatus::InTransit) | (ShipmentStatus::InTransit, ShipmentStatus::OutForDelivery)
        | (ShipmentStatus::InTransit, ShipmentStatus::Exception) | (ShipmentStatus::OutForDelivery, ShipmentStatus::Delivered)
        | (ShipmentStatus::OutForDelivery, ShipmentStatus::Exception) | (ShipmentStatus::Exception, ShipmentStatus::InTransit)
        | (ShipmentStatus::Exception, ShipmentStatus::Returned) => true,
        _ => false,
    }
}

pub fn can_shipment_transition(source: ShipmentStatus, target: ShipmentStatus) -> (r: bool)
    ensures
        r == can_shipment_transition_spec(source, target),
{
    match (source, target) {
        (ShipmentStatus::Planned, ShipmentStatus::Allocated) | (ShipmentStatus::Planned, ShipmentStatus::Cancelled)
        | (ShipmentStatus::Allocated, ShipmentStatus::Packed) | (ShipmentStatus::Allocated, ShipmentStatus::Cancelled)
        | (ShipmentStatus::Packed, ShipmentStatus::InTransit) | (ShipmentStatus::InTransit, ShipmentStatus::OutForDelivery)
        | (ShipmentStatus::InTransit, ShipmentStatus::Exception) | (ShipmentStatus::OutForDelivery, ShipmentStatus::Delivered)
        | (ShipmentStatus::OutForDelivery, ShipmentStatus::Exception) | (ShipmentStatus::Exception, ShipmentStatus::InTransit)
        | (ShipmentStatus::Exception, ShipmentStatus::Returned) => true,
        _ => false,
    }
}

pub open spec fn order_eligible_for_logistics_spec(order: Order) -> bool {
    order.spec_status() == OrderStatus::Paid || order.spec_status() == OrderStatus::Packed
}

pub fn order_eligible_for_logistics(order: &Order) -> (r: bool)
    ensures
        r == order_eligible_for_logistics_spec(*order),
{
    order.status == OrderStatus::Paid || order.status == OrderStatus::Packed
}

pub open spec fn cart_contains_sku_spec(sku: Sku, items: Seq<CartLine>) -> bool {
    exists|i: int| #![trigger items[i]] 0 <= i < items.len() && items[i].spec_sku() == sku
}

pub fn cart_contains_sku(sku: Sku, items: &[CartLine]) -> (r: bool)
    ensures
        r == cart_contains_sku_spec(sku, items@),
{
    let mut i: usize = 0;
    while i < items.len()
        invariant
            i <= items.len(),
            forall|j: int| 0 <= j < i ==> #[trigger] items@[j].sku != sku,
        decreases items.len() - i,
    {
        if items[i].sku == sku {
            return true;
        }
        i += 1;
    }
    false
}

pub open spec fn allocations_match_cart_skus_spec(items: Seq<CartLine>, allocations: Seq<Allocation>) -> bool {
    forall|i: int| #![trigger allocations[i]] 0 <= i < allocations.len() ==> cart_contains_sku_spec(allocations[i].spec_node().spec_stock().spec_sku(), items)
}

pub fn allocations_match_cart_skus(items: &[CartLine], allocations: &[Allocation]) -> (r: bool)
    ensures
        r == allocations_match_cart_skus_spec(items@, allocations@),
{
    let mut i: usize = 0;
    while i < allocations.len()
        invariant
            i <= allocations.len(),
            forall|j: int| 0 <= j < i ==> cart_contains_sku_spec(#[trigger] allocations@[j].node.stock.sku, items@),
        decreases allocations.len() - i,
    {
        if !cart_contains_sku(allocations[i].node.stock.sku, items) {
            return false;
        }
        i += 1;
    }
    true
}

pub open spec fn allocations_use_warehouse_spec(warehouse_id: u128, allocations: Seq<Allocation>) -> bool {
    forall|i: int| #![trigger allocations[i]] 0 <= i < allocations.len() ==> allocations[i].spec_node().spec_warehouse().spec_id() == warehouse_id
}

pub fn allocations_use_warehouse(warehouse: &Warehouse, allocations: &[Allocation]) -> (r: bool)
    ensures
        r == allocations_use_warehouse_spec(warehouse.spec_id(), allocations@),
{
    let mut i: usize = 0;
    while i < allocations.len()
        invariant
            i <= allocations.len(),
            forall|j: int| 0 <= j < i ==> #[trigger] allocations@[j].node.warehouse.id == warehouse.id,
        decreases allocations.len() - i,
    {
        if allocations[i].node.warehouse.id != warehouse.id {
            return false;
        }
        i += 1;
    }
    true
}

/// The quantity a cart line contributes to `sku`'s total.
pub open spec fn cart_sku_quantity_value(sku: Sku) -> spec_fn(CartLine) -> nat {
    |l: CartLine| if l.spec_sku() == sku { l.spec_quantity() as nat } else { 0 }
}

/// The quantity an allocation contributes to `sku`'s total.
pub open spec fn allocation_sku_quantity_value(sku: Sku) -> spec_fn(Allocation) -> nat {
    |a: Allocation| if a.spec_node().spec_stock().spec_sku() == sku { a.spec_quantity() as nat } else { 0 }
}

/// Sum of the quantities the cart orders of `sku`.
pub fn cart_sku_quantity_total(sku: Sku, items: &[CartLine]) -> (r: DomainResult<Quantity>)
    ensures
        r == total_result(sum_nat(items@, cart_sku_quantity_value(sku)) as int, "cart_sku_quantity_total"),
{
    let mut acc: Quantity = 0;
    let mut i: usize = 0;
    while i < items.len()
        invariant
            i <= items.len(),
            acc == sum_nat(items@.take(i as int), cart_sku_quantity_value(sku)),
        decreases items.len() - i,
    {
        proof {
            lemma_sum_nat_take_step(items@, cart_sku_quantity_value(sku), i as int);
        }
        let item: Quantity = if items[i].sku == sku { items[i].quantity } else { 0 };
        match acc.checked_add(item) {
            Some(v) => {
                acc = v;
            },
            None => {
                proof {
                    lemma_sum_nat_prefix_le(items@, cart_sku_quantity_value(sku), i + 1);
                }
                return Err(ValidationError::Overflow("cart_sku_quantity_total"));
            },
        }
        i += 1;
    }
    proof {
        lemma_sum_nat_take_all(items@, cart_sku_quantity_value(sku));
    }
    Ok(acc)
}

/// Sum of the quantities allocated from stock of `sku`.
pub fn allocation_sku_quantity_total(sku: Sku, allocations: &[Allocation]) -> (r: DomainResult<Quantity>)
    ensures
        r == total_result(sum_nat(allocations@, allocation_sku_quantity_value(sku)) as int, "allocation_sku_quantity_total"),
{
    let mut acc: Quantity = 0;
    let mut i: usize = 0;
    while i < allocations.len()
        invariant
            i <= allocations.len(),
            acc == sum_nat(allocations@.take(i as int), allocation_sku_quantity_value(sku)),
        decreases allocations.len() - i,
    {
        proof {
            lemma_sum_nat_take_step(allocations@, allocation_sku_quantity_value(sku), i as int);
        }
        let item: Quantity = if allocations[i].node.stock.sku == sku { allocations[i].quantity } else { 0 };
        match acc.checked_add(item) {
            Some(v) => {
                acc = v;
            },
            None => {
                proof {
                    lemma_sum_nat_prefix_le(allocations@, allocation_sku_quantity_value(sku), i + 1);
                }
                return Err(ValidationError::Overflow("allocation_sku_quantity_total"));
            },
        }
        i += 1;
    }
    proof {
        lemma_sum_nat_take_all(allocations@, allocation_sku_quantity_value(sku));
    }
    Ok(acc)
}

/// For one SKU: whether the cart and the allocations carry the same quantity.
pub open spec fn sku_quantities_agree(sku: Sku, items: Seq<CartLine>, allocations: Seq<Allocation>) -> DomainResult<bool> {
    match total_result(sum_nat(items, cart_sku_quantity_value(sku)) as int, "cart_sku_quantity_total") {
        Err(e) => Err(e),
        Ok(ordered) => match total_result(sum_nat(allocations, allocation_sku_quantity_value(sku)) as int, "allocation_sku_quantity_total") {
            Err(e) => Err(e),
            Ok(allocated) => Ok(ordered == allocated),
        },
    }
}

/// The SKUs of `lines` checked in order against the whole cart and the
/// allocations: the first error or the first disagreement decides.
pub open spec fn sku_quantities_match_prefix(lines: Seq<CartLine>, items: Seq<CartLine>, allocations: Seq<Allocation>) -> DomainResult<bool>
    decreases lines.len(),
{
    if lines.len() == 0 {
        Ok(true)
    } else {
        match sku_quantities_match_prefix(lines.drop_last(), items, allocations) {
            Err(e) => Err(e),
            Ok(ok) => if !ok {
                Ok(false)
            } else {
                sku_quantities_agree(lines.last().spec_sku(), items, allocations)
            },
        }
    }
}

proof fn lemma_sku_match_sticks(items: Seq<CartLine>, allocations: Seq<Allocation>, i: int)
    requires
        0 <= i <= items.len(),
        sku_quantities_match_prefix(items.take(i), items, allocations) != Ok::<bool, ValidationError>(true),
    ensures
        sku_quantities_match_prefix(items, items, allocations) == sku_quantities_match_prefix(items.take(i), items, allocations),
    decreases items.len() - i,
{
    if i == items.len() {
        assert(items.take(i) =~= items);
    } else {
        assert(items.take(i + 1).drop_last() =~= items.take(i));
        lemma_sku_match_sticks(items, allocations, i + 1);
    }
}

/// Every SKU the cart orders is allocated in exactly the ordered quantity.
pub fn allocation_quantities_match_cart_skus(items: &[CartLine], allocations: &[Allocation]) -> (r: DomainResult<bool>)
    ensures
        r == sku_quantities_match_prefix(items@, items@, allocations@),
{
    let mut i: usize = 0;
    while i < items.len()
        invariant
            i <= items.len(),
            sku_quantities_match_prefix(items@.take(i as int), items@, allocations@) == Ok::<bool, ValidationError>(true),
        decreases items.len() - i,
    {
        proof {
            assert(items@.take(i as int + 1).drop_last() =~= items@.take(i as int));
        }
        let sku = items[i].sku;
        let ordered = match cart_sku_quantity_total(sku, items) {
            Ok(v) => v,
            Err(e) => {
                proof {
                    lemma_sku_match_sticks(items@, allocations@, i + 1);
                }
                return Err(e);
            },
        };
        let allocated = match allocation_sku_quantity_total(sku, allocations) {
            Ok(v) => v,
            Err(e) => {
                proof {
                    lemma_sku_match_sticks(items@, allocations@, i + 1);
                }
                return Err(e);
            },
        };
        if ordered != allocated {
            proof {
                lemma_sku_match_sticks(items@, allocations@, i + 1);
            }
            return Ok(false);
        }
        i += 1;
    }
    proof {
        assert(items@.take(items.len() as int) =~= items@);
    }
    Ok(true)
}

/// Two zones agree field by field (names by their text).
pub open spec fn same_zone(a: ShippingZone, b: ShippingZone) -> bool {
    a.spec_id() == b.spec_id() && a.spec_name()@ == b.spec_name()@
}

/// Two carrier services agree field by field.
pub open spec fn same_service(a: CarrierService, b: CarrierService) -> bool {
    &&& a.spec_carrier_id() == b.spec_carrier_id()
    &&& same_zone(a.spec_zone(), b.spec_zone())
    &&& a.spec_max_weight() == b.spec_max_weight()
    &&& a.spec_base_cost() == b.spec_base_cost()
    &&& a.spec_promised_days() == b.spec_promised_days()
}

fn zones_equal(a: &ShippingZone, b: &ShippingZone) -> (r: bool)
    ensures
        r == same_zone(*a, *b),
{
    a.id == b.id && a.name == b.name
}

fn services_equal(a: &CarrierService, b: &CarrierService) -> (r: bool)
    ensures
        r == same_service(*a, *b),
{
    a.carrier_id == b.carrier_id && zones_equal(&a.zone, &b.zone) && a.max_weight == b.max_weight && a.base_cost == b.base_cost
        && a.promised_days.seconds == b.promised_days.seconds
}

/// The first check a shipment plan fails, if any: a paid or packed order,
/// a fulfillment of exactly its quantity from its SKUs and from one
/// warehouse, each SKU allocated in the quantity ordered, a quote for this package into the destination's zone, a
/// package that carries the cart's weight, and a promise not before shipping.
pub open spec fn logistics_plan_error(order: Order, fulfillment: DistinctFulfillmentPlan, package: Package, quote: CarrierQuote, warehouse: Warehouse, destination: ShippingDestination, planned_ship_at: Timestamp, promised_delivery_at: Timestamp) -> Option<ValidationError> {
    let quantity = sum_nat(order.spec_items()@, cart_quantity_total_value());
    if !order_eligible_for_logistics_spec(order) {
        Some(ValidationError::LogisticsInvariantFailed)
    } else if quantity > u128::MAX {
        Some(ValidationError::Overflow("cart_quantity_total"))
    } else if fulfillment.spec_requested() != quantity
        || !allocations_match_cart_skus_spec(order.spec_items()@, fulfillment.spec_allocations()@)
        || !allocations_use_warehouse_spec(warehouse.spec_id(), fulfillment.spec_allocations()@)
        || quote.spec_package() != package || !same_zone(quote.spec_service().spec_zone(), destination.spec_zone()) {
        Some(ValidationError::LogisticsInvariantFailed)
    } else if sku_quantities_match_prefix(order.spec_items()@, order.spec_items()@, fulfillment.spec_allocations()@) is Err {
        Some(sku_quantities_match_prefix(order.spec_items()@, order.spec_items()@, fulfillment.spec_allocations()@)->Err_0)
    } else if sku_quantities_match_prefix(order.spec_items()@, order.spec_items()@, fulfillment.spec_allocations()@) == Ok::<bool, ValidationError>(false) {
        Some(ValidationError::LogisticsInvariantFailed)
    } else {
        match collected_sum(order.spec_items()@, line_weight_fn(), "cart_weight_total") {
            Err(e) => Some(e),
            Ok(weight) => if weight > package.spec_weight() || promised_delivery_at.spec_seconds() < planned_ship_at.spec_seconds() {
                Some(ValidationError::LogisticsInvariantFailed)
            } else {
                None
            },
        }
    }
}

impl LogisticsShipmentPlan {
    pub fn try_new(id: ShipmentId, order: Order, fulfillment: DistinctFulfillmentPlan, package: Package, quote: CarrierQuote, warehouse: Warehouse, destination: ShippingDestination, planned_ship_at: Timestamp, promised_delivery_at: Timestamp) -> (r: DomainResult<Self>)
        ensures
            r == (match logistics_plan_error(order, fulfillment, package, quote, warehouse, destination, planned_ship_at, promised_delivery_at) {
                Some(e) => Err(e),
                None => Ok(LogisticsShipmentPlan::spec_new(id, order, fulfillment, package, quote, warehouse, destination, planned_ship_at, promised_delivery_at)),
            }),
    {
        if !order_eligible_for_logistics(&order) {
            return Err(ValidationError::LogisticsInvariantFailed);
        }
        match cart_quantity_total(order.items.as_slice()) {
            Err(e) => return Err(e),
            Ok(q) => if fulfillment.requested != q {
                return Err(ValidationError::LogisticsInvariantFailed);
            },
        }
        if !allocations_match_cart_skus(order.items.as_slice(), fulfillment.allocations.as_slice()) {
            return Err(ValidationError::LogisticsInvariantFailed);
        }
        if !allocations_use_warehouse(&warehouse, fulfillment.allocations.as_slice()) {
            return Err(ValidationError::LogisticsInvariantFailed);
        }
        if quote.package != package || !zones_equal(&quote.service.zone, &destination.zone) {
            return Err(ValidationError::LogisticsInvariantFailed);
        }
        match allocation_quantities_match_cart_skus(order.items.as_slice(), fulfillment.allocations.as_slice()) {
            Err(e) => return Err(e),
            Ok(matched) => if !matched {
                return Err(ValidationError::LogisticsInvariantFailed);
            },
        }
        match cart_weight_total(order.items.as_slice()) {
            Err(e) => return Err(e),
            Ok(w) => if w > package.weight {
                return Err(ValidationError::LogisticsInvariantFailed);
            },
        }
        if promised_delivery_at.seconds < planned_ship_at.seconds {
            return Err(ValidationError::LogisticsInvariantFailed);
        }
        Ok(Self { id, order, fulfillment, package, quote, warehouse, destination, planned_ship_at, promised_delivery_at })
    }
}

impl LogisticsShipment {
    pub fn try_new(id: ShipmentId, plan: LogisticsShipmentPlan, status: ShipmentStatus, created_at: Timestamp, updated_at: Timestamp) -> (r: DomainResult<Self>)
        ensures
            (id != plan.spec_id() || updated_at.spec_seconds() < created_at.spec_seconds()) ==> r == Err::<Self, ValidationError>(ValidationError::LogisticsInvariantFailed),
            (id == plan.spec_id() && updated_at.spec_seconds() >= created_at.spec_seconds()) ==> r == Ok::<Self, ValidationError>(LogisticsShipment::spec_new(id, plan, status, created_at, updated_at)),
    {
        if id != plan.id || updated_at.seconds < created_at.seconds {
            return Err(ValidationError::LogisticsInvariantFailed);
        }
        Ok(Self { id, plan, status, created_at, updated_at })
    }
}

/// Moves the shipment to `next` when its lifecycle allows it.
pub fn transition_shipment(shipment: LogisticsShipment, next: ShipmentStatus, updated_at: Timestamp) -> (r: DomainResult<LogisticsShipment>)
    ensures
        (!can_shipment_transition_spec(shipment.spec_status(), next) || updated_at.spec_seconds() < shipment.spec_created_at().spec_seconds())
            ==> r == Err::<LogisticsShipment, ValidationError>(ValidationError::LogisticsInvariantFailed),
        (can_shipment_transition_spec(shipment.spec_status(), next) && updated_at.spec_seconds() >= shipment.spec_created_at().spec_seconds())
            ==> r == Ok::<LogisticsShipment, ValidationError>(LogisticsShipment::spec_new(shipment.spec_id(), shipment.spec_plan(), next, shipment.spec_created_at(), updated_at)),
{
    if !can_shipment_transition(shipment.status, next) || updated_at.seconds < shipment.created_at.seconds {
        return Err(ValidationError::LogisticsInvariantFailed);
    }
    proof {
        use_type_invariant(&shipment);
    }
    Ok(LogisticsShipment { status: next, updated_at, ..shipment })
}

impl CarrierHandoff {
    pub fn try_new(plan: LogisticsShipmentPlan, service: CarrierService, tracking_number: Id, handed_off_at: Timestamp, acceptance_scan_at: Timestamp) -> (r: DomainResult<Self>)
        ensures
            (!same_service(service, plan.spec_quote().spec_service()) || handed_off_at.spec_seconds() < plan.spec_planned_ship_at().spec_seconds() || acceptance_scan_at.spec_seconds() < handed_off_at.spec_seconds())
                ==> r == Err::<Self, ValidationError>(ValidationError::LogisticsInvariantFailed),
            (same_service(service, plan.spec_quote().spec_service()) && handed_off_at.spec_seconds() >= plan.spec_planned_ship_at().spec_seconds() && acceptance_scan_at.spec_seconds() >= handed_off_at.spec_seconds())
                ==> r == Ok::<Self, ValidationError>(CarrierHandoff::spec_new(plan, service, tracking_number, handed_off_at, acceptance_scan_at)),
    {
        if !services_equal(&service, &plan.quote.service) || handed_off_at.seconds < plan.planned_ship_at.seconds
            || acceptance_scan_at.seconds < handed_off_at.seconds {
            return Err(ValidationError::LogisticsInvariantFailed);
        }
        Ok(Self { plan, service, tracking_number, handed_off_at, acceptance_scan_at })
    }
}

pub open spec fn can_tracking_progress_spec(source: TrackingEventKind, target: TrackingEventKind) -> bool {
    match (source, target) {
        (TrackingEventKind::LabelCreated, TrackingEventKind::LabelCreated) | (TrackingEventKind::LabelCreated, TrackingEventKind::PickupScan)
        | (TrackingEventKind::PickupScan, TrackingEventKind::InTransitScan) | (TrackingEventKind::InTransitScan, TrackingEventKind::InTransitScan)
        | (TrackingEventKind::InTransitScan, TrackingEventKind::OutForDeliveryScan) | (TrackingEventKind::InTransitScan, TrackingEventKind::ExceptionScan)
        | (TrackingEventKind::OutForDeliveryScan, TrackingEventKind::DeliveredScan) | (TrackingEventKind::OutForDeliveryScan, TrackingEventKind::ExceptionScan)
        | (TrackingEventKind::ExceptionScan, TrackingEventKind::InTransitScan) | (TrackingEventKind::ExceptionScan, TrackingEventKind::ReturnScan) => true,
        _ => false,
    }
}

pub fn can_tracking_progress(source: TrackingEventKind, target: TrackingEventKind) -> (r: bool)
    ensures
        r == can_tracking_progress_spec(source, target),
{
    match (source, target) {
        (TrackingEventKind::LabelCreated, TrackingEventKind::LabelCreated) | (TrackingEventKind::LabelCreated, TrackingEventKind::PickupScan)
        | (TrackingEventKind::PickupScan, TrackingEventKind::InTransitScan) | (TrackingEventKind::InTransitScan, TrackingEventKind::InTransitScan)
        | (TrackingEventKind::InTransitScan, TrackingEventKind::OutForDeliveryScan) | (TrackingEventKind::InTransitScan, TrackingEventKind::ExceptionScan)
        | (TrackingEventKind::OutForDeliveryScan, TrackingEventKind::DeliveredScan) | (TrackingEventKind::OutForDeliveryScan, TrackingEventKind::ExceptionScan)
        | (TrackingEventKind::ExceptionScan, TrackingEventKind::InTransitScan) | (TrackingEventKind::ExceptionScan, TrackingEventKind::ReturnScan) => true,
        _ => false,
    }
}

/// No event is earlier than `last` or than any event before it.
pub open spec fn tracking_monotone_spec(last: Timestamp, events: Seq<TrackingEvent>) -> bool {
    &&& forall|i: int| #![trigger events[i]] 0 <= i < events.len() ==> last.spec_seconds() <= events[i].spec_occurred_at().spec_seconds()
    &&& forall|i: int, j: int| #![trigger events[i], events[j]] 0 <= i < j < events.len() ==> events[i].spec_occurred_at().spec_seconds() <= events[j].spec_occurred_at().spec_seconds()
}

pub fn tracking_events_monotone_from(last: Timestamp, events: &[TrackingEvent]) -> (r: bool)
    ensures
        r == tracking_monotone_spec(last, events@),
{
    let mut cursor: Timestamp = last;
    let mut i: usize = 0;
    while i < events.len()
        invariant
            i <= events.len(),
            tracking_monotone_spec(last, events@.take(i as int)),
            i == 0 ==> cursor == last,
            i > 0 ==> cursor == events@[i - 1].occurred_at,
            last.seconds <= cursor.seconds,
            forall|j: int| 0 <= j < i ==> events@[j].occurred_at.seconds <= cursor.seconds,
        decreases events.len() - i,
    {
        let at = events[i].occurred_at;
        if at.seconds < cursor.seconds {
            proof {
                if i > 0 {
                    assert(!(events@[i - 1].occurred_at.seconds <= events@[i as int].occurred_at.seconds));
                }
            }
            return false;
        }
        proof {
            let t = events@.take(i as int + 1);
            assert forall|a: int, b: int| 0 <= a < b < t.len() implies t[a].occurred_at.seconds <= t[b].occurred_at.seconds by {
                if b < i {
                    assert(t[a] == events@.take(i as int)[a] && t[b] == events@.take(i as int)[b]);
                }
            }
            assert forall|a: int| 0 <= a < t.len() implies last.seconds <= #[trigger] t[a].occurred_at.seconds by {
                if a < i {
                    assert(t[a] == events@.take(i as int)[a]);
                }
            }
        }
        cursor = at;
        i += 1;
    }
    proof {
        assert(events@.take(events.len() as int) =~= events@);
    }
    true
}

pub open spec fn tracking_for_shipment_spec(shipment_id: ShipmentId, events: Seq<TrackingEvent>) -> bool {
    forall|i: int| #![trigger events[i]] 0 <= i < events.len() ==> events[i].spec_shipment_id() == shipment_id
}

pub fn tracking_events_for_shipment(shipment_id: ShipmentId, events: &[TrackingEvent]) -> (r: bool)
    ensures
        r == tracking_for_shipment_spec(shipment_id, events@),
{
    let mut i: usize = 0;
    while i < events.len()
        invariant
            i <= events.len(),
            forall|j: int| 0 <= j < i ==> #[trigger] events@[j].shipment_id == shipment_id,
        decreases events.len() - i,
    {
        if events[i].shipment_id != shipment_id {
            return false;
        }
        i += 1;
    }
    true
}

pub open spec fn event_has_label(event: TrackingEvent, carrier_id: u128, tracking_number: u128) -> bool {
    event.spec_carrier_id() == carrier_id && event.spec_tracking_number() == tracking_number
}

pub open spec fn tracking_for_carrier_spec(carrier_id: u128, tracking_number: u128, events: Seq<TrackingEvent>) -> bool {
    forall|i: int| 0 <= i < events.len() ==> event_has_label(#[trigger] events[i], carrier_id, tracking_number)
}

pub fn tracking_events_for_carrier(carrier_id: Id, tracking_number: Id, events: &[TrackingEvent]) -> (r: bool)
    ensures
        r == tracking_for_carrier_spec(carrier_id, tracking_number, events@),
{
    let mut i: usize = 0;
    while i < events.len()
        invariant
            i <= events.len(),
            forall|j: int| 0 <= j < i ==> event_has_label(#[trigger] events@[j], carrier_id, tracking_number),
        decreases events.len() - i,
    {
        if events[i].carrier_id != carrier_id || events[i].tracking_number != tracking_number {
            return false;
        }
        i += 1;
    }
    true
}

pub open spec fn tracking_last_observed_spec(last: Timestamp, events: Seq<TrackingEvent>) -> Timestamp {
    if events.len() == 0 { last } else { events.last().spec_occurred_at() }
}

pub fn tracking_last_observed_from(last: Timestamp, events: &[TrackingEvent]) -> (r: Timestamp)
    ensures
        r == tracking_last_observed_spec(last, events@),
{
    if events.len() == 0 {
        last
    } else {
        events[events.len() - 1].occurred_at
    }
}

pub open spec fn tracking_ids_distinct_spec(events: Seq<TrackingEvent>) -> bool {
    forall|i: int, j: int| #![trigger events[i], events[j]] 0 <= i < j < events.len() ==> events[i].spec_id().spec_value() != events[j].spec_id().spec_value()
}

pub fn tracking_event_ids_distinct(events: &[TrackingEvent]) -> (r: bool)
    ensures
        r == tracking_ids_distinct_spec(events@),
{
    let mut j: usize = 0;
    while j < events.len()
        invariant
            j <= events.len(),
            forall|a: int, b: int| 0 <= a < b < j ==> events@[a].id.value != events@[b].id.value,
        decreases events.len() - j,
    {
        let mut i: usize = 0;
        while i < j
            invariant
                j < events.len(),
                i <= j,
                forall|a: int, b: int| 0 <= a < b < j ==> events@[a].id.value != events@[b].id.value,
                forall|a: int| 0 <= a < i ==> events@[a].id.value != events@[j as int].id.value,
            decreases j - i,
        {
            if events[i].id.value == events[j].id.value {
                return false;
            }
            i += 1;
        }
        j += 1;
    }
    true
}

/// Each event may follow the one before it (the first may follow `last_kind`).
pub open spec fn tracking_progress_spec(last_kind: TrackingEventKind, events: Seq<TrackingEvent>) -> bool {
    &&& (events.len() > 0 ==> can_tracking_progress_spec(last_kind, events[0].spec_kind()))
    &&& forall|i: int, j: int| #![trigger events[i], events[j]] 0 <= i && j == i + 1 && j < events.len() ==> can_tracking_progress_spec(events[i].spec_kind(), events[j].spec_kind())
}

pub fn tracking_events_progress_from(last_kind: TrackingEventKind, events: &[TrackingEvent]) -> (r: bool)
    ensures
        r == tracking_progress_spec(last_kind, events@),
{
    let mut cursor = last_kind;
    let mut i: usize = 0;
    while i < events.len()
        invariant
            i <= events.len(),
            i == 0 ==> cursor == last_kind,
            i > 0 ==> cursor == events@[i - 1].kind,
            i > 0 ==> can_tracking_progress_spec(last_kind, events@[0].kind),
            forall|a: int, b: int| #![trigger events@[a], events@[b]] 0 <= a && b == a + 1 && b < i ==> can_tracking_progress_spec(events@[a].kind, events@[b].kind),
        decreases events.len() - i,
    {
        if !can_tracking_progress(cursor, events[i].kind) {
            proof {
                if i > 0 {
                    let a = i - 1;
                    assert(events@[a as int].kind == cursor);
                    assert(!can_tracking_progress_spec(events@[a as int].spec_kind(), events@[i as int].spec_kind()));
                }
            }
            return false;
        }
        cursor = events[i].kind;
        i += 1;
    }
    true
}

/// A consistent tracking history: events in time order, all for this
/// shipment and carrier label, with distinct ids, following the scan
/// lifecycle from label creation, and observed last at the last event.
#[verifier::opaque]
pub open spec fn tracking_history_ok(shipment_id: ShipmentId, carrier_id: u128, tracking_number: u128, events: Seq<TrackingEvent>, last_observed_at: Timestamp) -> bool {
    &&& tracking_monotone_spec(Timestamp::spec_new(0), events)
    &&& tracking_for_shipment_spec(shipment_id, events)
    &&& tracking_for_carrier_spec(carrier_id, tracking_number, events)
    &&& tracking_ids_distinct_spec(events)
    &&& tracking_progress_spec(TrackingEventKind::LabelCreated, events)
    &&& last_observed_at == tracking_last_observed_spec(Timestamp::spec_new(0), events)
}

proof fn lemma_tracking_history_ok_intro(shipment_id: ShipmentId, carrier_id: u128, tracking_number: u128, events: Seq<TrackingEvent>, last_observed_at: Timestamp)
    requires
        tracking_monotone_spec(Timestamp::spec_new(0), events),
        tracking_for_shipment_spec(shipment_id, events),
        tracking_for_carrier_spec(carrier_id, tracking_number, events),
        tracking_ids_distinct_spec(events),
        tracking_progress_spec(TrackingEventKind::LabelCreated, events),
        last_observed_at.spec_seconds() == tracking_last_observed_spec(Timestamp::spec_new(0), events).spec_seconds(),
    ensures
        tracking_history_ok(shipment_id, carrier_id, tracking_number, events, last_observed_at),
{
    reveal(tracking_history_ok);
}

proof fn lemma_tracking_history_ok_elim(shipment_id: ShipmentId, carrier_id: u128, tracking_number: u128, events: Seq<TrackingEvent>, last_observed_at: Timestamp)
    ensures
        tracking_history_ok(shipment_id, carrier_id, tracking_number, events, last_observed_at) ==> {
            &&& tracking_monotone_spec(Timestamp::spec_new(0), events)
            &&& tracking_for_shipment_spec(shipment_id, events)
            &&& tracking_for_carrier_spec(carrier_id, tracking_number, events)
            &&& tracking_ids_distinct_spec(events)
            &&& tracking_progress_spec(TrackingEventKind::LabelCreated, events)
            &&& last_observed_at.spec_seconds() == tracking_last_observed_spec(Timestamp::spec_new(0), events).spec_seconds()
        },
{
    reveal(tracking_history_ok);
}

impl TrackingHistory {
    pub fn try_new(shipment_id: ShipmentId, carrier_id: Id, tracking_number: Id, events: Vec<TrackingEvent>, last_observed_at: Timestamp) -> (r: DomainResult<Self>)
        ensures
            !tracking_history_ok(shipment_id, carrier_id, tracking_number, events@, last_observed_at)
                ==> r == Err::<Self, ValidationError>(ValidationError::LogisticsInvariantFailed),
            tracking_history_ok(shipment_id, carrier_id, tracking_number, events@, last_observed_at)
                ==> (r matches Ok(h) && h.spec_shipment_id() == shipment_id && h.spec_carrier_id() == carrier_id && h.spec_tracking_number() == tracking_number
                    && h.spec_events()@ == events@ && h.spec_last_observed_at() == last_observed_at),
    {
        proof {
            lemma_tracking_history_ok_elim(shipment_id, carrier_id, tracking_number, events@, last_observed_at);
        }
        let epoch = unix_epoch_timestamp();
        let observed = tracking_last_observed_from(epoch, events.as_slice());
        if !tracking_events_monotone_from(epoch, events.as_slice()) {
            return Err(ValidationError::LogisticsInvariantFailed);
        }
        if !tracking_events_for_shipment(shipment_id, events.as_slice()) {
            return Err(ValidationError::LogisticsInvariantFailed);
        }
        if !tracking_events_for_carrier(carrier_id, tracking_number, events.as_slice()) {
            return Err(ValidationError::LogisticsInvariantFailed);
        }
        if !tracking_event_ids_distinct(events.as_slice()) {
            return Err(ValidationError::LogisticsInvariantFailed);
        }
        if !tracking_events_progress_from(TrackingEventKind::LabelCreated, events.as_slice()) {
            return Err(ValidationError::LogisticsInvariantFailed);
        }
        if last_observed_at.seconds != observed.seconds {
            return Err(ValidationError::LogisticsInvariantFailed);
        }
        proof {
            lemma_tracking_history_ok_intro(shipment_id, carrier_id, tracking_number, events@, last_observed_at);
        }
        Ok(Self { shipment_id, carrier_id, tracking_number, events, last_observed_at })
    }
}

impl DeliveryPromise {
    pub fn try_new(plan: LogisticsShipmentPlan, promised_by: Timestamp) -> (r: DomainResult<Self>)
        ensures
            promised_by != plan.spec_promised_delivery_at() ==> r == Err::<Self, ValidationError>(ValidationError::LogisticsInvariantFailed),
            promised_by == plan.spec_promised_delivery_at() ==> r == Ok::<Self, ValidationError>(DeliveryPromise::spec_new(plan, promised_by)),
    {
        if promised_by.seconds != plan.promised_delivery_at.seconds {
            return Err(ValidationError::LogisticsInvariantFailed);
        }
        Ok(Self { plan, promised_by })
    }
}

pub fn delivered_by_promise(promise: &DeliveryPromise, delivered_at: Timestamp) -> (r: bool)
    ensures
        r == (delivered_at.spec_seconds() <= promise.spec_promised_by().spec_seconds()),
{
    delivered_at.seconds <= promise.promised_by.seconds
}

/// A delivery backed by a delivered scan in the shipment's own history, made
/// between the planned ship date and the promise.
pub open spec fn delivered_shipment_ok(promise: DeliveryPromise, history: TrackingHistory, delivery_event: TrackingEvent, delivered_at: Timestamp) -> bool {
    &&& history.spec_shipment_id() == promise.spec_plan().spec_id()
    &&& history.spec_carrier_id() == promise.spec_plan().spec_quote().spec_service().spec_carrier_id()
    &&& history.spec_events()@.contains(delivery_event)
    &&& delivery_event.spec_kind() == TrackingEventKind::DeliveredScan
    &&& delivery_event.spec_occurred_at() == delivered_at
    &&& delivery_event.spec_shipment_id() == promise.spec_plan().spec_id()
    &&& delivery_event.spec_carrier_id() == history.spec_carrier_id()
    &&& delivery_event.spec_tracking_number() == history.spec_tracking_number()
    &&& delivered_at.spec_seconds() >= promise.spec_plan().spec_planned_ship_at().spec_seconds()
    &&& delivered_at.spec_seconds() <= promise.spec_promised_by().spec_seconds()
}

fn events_contain(events: &[TrackingEvent], event: &TrackingEvent) -> (r: bool)
    ensures
        r == events@.contains(*event),
{
    let mut i: usize = 0;
    while i < events.len()
        invariant
            i <= events.len(),
            forall|j: int| 0 <= j < i ==> events@[j] != *event,
        decreases events.len() - i,
    {
        if events[i] == *event {
            return true;
        }
        i += 1;
    }
    false
}

impl DeliveredShipment {
    pub fn try_new(promise: DeliveryPromise, history: TrackingHistory, delivery_event: TrackingEvent, delivered_at: Timestamp) -> (r: DomainResult<Self>)
        ensures
            !delivered_shipment_ok(promise, history, delivery_event, delivered_at) ==> r == Err::<Self, ValidationError>(ValidationError::LogisticsInvariantFailed),
            delivered_shipment_ok(promise, history, delivery_event, delivered_at)
                ==> r == Ok::<Self, ValidationError>(DeliveredShipment::spec_new(promise, history, delivery_event, delivered_at)),
    {
        if history.shipment_id != promise.plan.id || history.carrier_id != promise.plan.quote.service.carrier_id
            || !events_contain(history.events.as_slice(), &delivery_event)
            || delivery_event.kind != TrackingEventKind::DeliveredScan
            || delivery_event.occurred_at.seconds != delivered_at.seconds
            || delivery_event.shipment_id != promise.plan.id
            || delivery_event.carrier_id != history.carrier_id
            || delivery_event.tracking_number != history.tracking_number
            || delivered_at.seconds < promise.plan.planned_ship_at.seconds
            || !delivered_by_promise(&promise, delivered_at) {
            return Err(ValidationError::LogisticsInvariantFailed);
        }
        Ok(Self { promise, history, delivery_event, delivered_at })
    }
}

impl WarehouseTransfer {
    /// A transfer of available stock between two different warehouses, with
    /// no more in transit than requested and no more received than sent.
    pub fn try_new(id: TransferId, sku: Sku, from_warehouse: Warehouse, to_warehouse: Warehouse, source_stock: StockState, requested: Quantity, in_transit: Quantity, received: Quantity) -> (r: DomainResult<Self>)
        ensures
            (source_stock.spec_sku() != sku || from_warehouse.spec_id() == to_warehouse.spec_id() || requested > available_stock_spec(source_stock)
                || in_transit > requested || received > in_transit) ==> r == Err::<Self, ValidationError>(ValidationError::LogisticsInvariantFailed),
            (source_stock.spec_sku() == sku && from_warehouse.spec_id() != to_warehouse.spec_id() && requested <= available_stock_spec(source_stock)
                && in_transit <= requested && received <= in_transit)
                ==> r == Ok::<Self, ValidationError>(WarehouseTransfer::spec_new(id, sku, from_warehouse, to_warehouse, source_stock, requested, in_transit, received)),
    {
        if source_stock.sku != sku || from_warehouse.id == to_warehouse.id || requested > available_stock(&source_stock)
            || in_transit > requested || received > in_transit {
            return Err(ValidationError::LogisticsInvariantFailed);
        }
        Ok(Self { id, sku, from_warehouse, to_warehouse, source_stock, requested, in_transit, received })
    }
}

pub open spec fn can_return_transition_spec(source: ReturnAuthorizationStatus, target: ReturnAuthorizationStatus) -> bool {
    match (source, target) {
        (ReturnAuthorizationStatus::Requested, ReturnAuthorizationStatus::Approved)
        | (ReturnAuthorizationStatus::Requested, ReturnAuthorizationStatus::Rejected)
        | (ReturnAuthorizationStatus::Approved, ReturnAuthorizationStatus::Received)
        | (ReturnAuthorizationStatus::Received, ReturnAuthorizationStatus::Refunded)
        | (ReturnAuthorizationStatus::Refunded, ReturnAuthorizationStatus::Closed) => true,
        _ => false,
    }
}

pub fn can_return_authorization_transition(source: ReturnAuthorizationStatus, target: ReturnAuthorizationStatus) -> (r: bool)
    ensures
        r == can_return_transition_spec(source, target),
{
    match (source, target) {
        (ReturnAuthorizationStatus::Requested, ReturnAuthorizationStatus::Approved)
        | (ReturnAuthorizationStatus::Requested, ReturnAuthorizationStatus::Rejected)
        | (ReturnAuthorizationStatus::Approved, ReturnAuthorizationStatus::Received)
        | (ReturnAuthorizationStatus::Received, ReturnAuthorizationStatus::Refunded)
        | (ReturnAuthorizationStatus::Refunded, ReturnAuthorizationStatus::Closed) => true,
        _ => false,
    }
}

pub open spec fn return_lines_quantity_total_value() -> spec_fn(ReturnLine) -> nat {
    |x: ReturnLine| (x.spec_quantity()) as nat
}

/// Sum of the returned quantities.
pub fn return_lines_quantity_total(lines: &[ReturnLine]) -> (r: DomainResult<Nat>)
    ensures
        r == total_result(sum_nat(lines@, return_lines_quantity_total_value()) as int, "return_lines_quantity_total"),
{
    let mut acc: Nat = 0;
    let mut i: usize = 0;
    while i < lines.len()
        invariant
            i <= lines.len(),
            acc == sum_nat(lines@.take(i as int), return_lines_quantity_total_value()),
        decreases lines.len() - i,
    {
        proof {
            lemma_sum_nat_take_step(lines@, return_lines_quantity_total_value(), i as int);
        }
        let item: Nat = lines[i].quantity;
        match acc.checked_add(item) {
            Some(v) => {
                acc = v;
            },
            None => {
                proof {
                    lemma_sum_nat_prefix_le(lines@, return_lines_quantity_total_value(), i + 1);
                }
                return Err(ValidationError::Overflow("return_lines_quantity_total"));
            },
        }
        i += 1;
    }
    proof {
        lemma_sum_nat_take_all(lines@, return_lines_quantity_total_value());
    }
    Ok(acc)
}


pub open spec fn return_lines_refund_total_value() -> spec_fn(ReturnLine) -> nat {
    |x: ReturnLine| (x.spec_refund_amount()) as nat
}

/// Sum of the lines' refund amounts.
pub fn return_lines_refund_total(lines: &[ReturnLine]) -> (r: DomainResult<Nat>)
    ensures
        r == total_result(sum_nat(lines@, return_lines_refund_total_value()) as int, "return_lines_refund_total"),
{
    let mut acc: Nat = 0;
    let mut i: usize = 0;
    while i < lines.len()
        invariant
            i <= lines.len(),
            acc == sum_nat(lines@.take(i as int), return_lines_refund_total_value()),
        decreases lines.len() - i,
    {
        proof {
            lemma_sum_nat_take_step(lines@, return_lines_refund_total_value(), i as int);
        }
        let item: Nat = lines[i].refund_amount;
        match acc.checked_add(item) {
            Some(v) => {
                acc = v;
            },
            None => {
                proof {
                    lemma_sum_nat_prefix_le(lines@, return_lines_refund_total_value(), i + 1);
                }
                return Err(ValidationError::Overflow("return_lines_refund_total"));
            },
        }
        i += 1;
    }
    proof {
        lemma_sum_nat_take_all(lines@, return_lines_refund_total_value());
    }
    Ok(acc)
}


pub open spec fn return_lines_match_spec(items: Seq<CartLine>, lines: Seq<ReturnLine>) -> bool {
    forall|i: int| #![trigger lines[i]] 0 <= i < lines.len() ==> cart_contains_sku_spec(lines[i].spec_sku(), items)
}

pub fn return_lines_match_order_skus(items: &[CartLine], lines: &[ReturnLine]) -> (r: bool)
    ensures
        r == return_lines_match_spec(items@, lines@),
{
    let mut i: usize = 0;
    while i < lines.len()
        invariant
            i <= lines.len(),
            forall|j: int| 0 <= j < i ==> cart_contains_sku_spec(#[trigger] lines@[j].sku, items@),
        decreases lines.len() - i,
    {
        if !cart_contains_sku(lines[i].sku, items) {
            return false;
        }
        i += 1;
    }
    true
}

/// The first check a return authorization fails, if any: it answers a
/// support case about this order, returns only ordered SKUs, in no more than
/// the ordered quantity, for a refund the ledger still allows, on a ledger
/// that captured the order total, decided no earlier than requested.
pub open spec fn return_authorization_error(support_case: SupportCase, order: Order, ledger: PaymentLedger, lines: Seq<ReturnLine>, quantity: u128, refund_amount: u128, requested_at: Timestamp, decided_at: Timestamp) -> Option<ValidationError> {
    let line_quantity = sum_nat(lines, return_lines_quantity_total_value());
    let line_refund = sum_nat(lines, return_lines_refund_total_value());
    let ordered = sum_nat(order.spec_items()@, cart_quantity_total_value());
    if support_case.spec_order_id() != Some(order.spec_id()) || !return_lines_match_spec(order.spec_items()@, lines) {
        Some(ValidationError::LogisticsInvariantFailed)
    } else if line_quantity > u128::MAX {
        Some(ValidationError::Overflow("return_lines_quantity_total"))
    } else if line_quantity != quantity {
        Some(ValidationError::LogisticsInvariantFailed)
    } else if line_refund > u128::MAX {
        Some(ValidationError::Overflow("return_lines_refund_total"))
    } else if line_refund != refund_amount {
        Some(ValidationError::LogisticsInvariantFailed)
    } else if ordered > u128::MAX {
        Some(ValidationError::Overflow("cart_quantity_total"))
    } else if quantity > ordered || !can_refund_spec(ledger, refund_amount) || ledger.spec_captured() != order.spec_total()
        || decided_at.spec_seconds() < requested_at.spec_seconds() {
        Some(ValidationError::LogisticsInvariantFailed)
    } else {
        None
    }
}

impl ReturnAuthorization {
    pub fn try_new(id: ReturnAuthorizationId, support_case: SupportCase, order: Order, ledger: PaymentLedger, status: ReturnAuthorizationStatus, lines: Vec<ReturnLine>, quantity: Quantity, refund_amount: Money, requested_at: Timestamp, decided_at: Timestamp) -> (r: DomainResult<Self>)
        ensures
            match r {
                Ok(a) => return_authorization_error(support_case, order, ledger, lines@, quantity, refund_amount, requested_at, decided_at) is None
                    && a.spec_id() == id && a.spec_support_case() == support_case && a.spec_order() == order && a.spec_ledger() == ledger && a.spec_status() == status
                    && a.spec_lines()@ == lines@ && a.spec_quantity() == quantity && a.spec_refund_amount() == refund_amount
                    && a.spec_requested_at() == requested_at && a.spec_decided_at() == decided_at,
                Err(e) => return_authorization_error(support_case, order, ledger, lines@, quantity, refund_amount, requested_at, decided_at) == Some(e),
            },
    {
        let case_matches = match support_case.order_id {
            Some(o) => o == order.id,
            None => false,
        };
        if !case_matches || !return_lines_match_order_skus(order.items.as_slice(), lines.as_slice()) {
            return Err(ValidationError::LogisticsInvariantFailed);
        }
        match return_lines_quantity_total(lines.as_slice()) {
            Err(e) => return Err(e),
            Ok(q) => if q != quantity {
                return Err(ValidationError::LogisticsInvariantFailed);
            },
        }
        match return_lines_refund_total(lines.as_slice()) {
            Err(e) => return Err(e),
            Ok(a) => if a != refund_amount {
                return Err(ValidationError::LogisticsInvariantFailed);
            },
        }
        match cart_quantity_total(order.items.as_slice()) {
            Err(e) => return Err(e),
            Ok(ordered) => if quantity > ordered {
                return Err(ValidationError::LogisticsInvariantFailed);
            },
        }
        if !can_refund(&ledger, refund_amount) || ledger.captured != order.total || decided_at.seconds < requested_at.seconds {
            return Err(ValidationError::LogisticsInvariantFailed);
        }
        Ok(Self { id, support_case, order, ledger, status, lines, quantity, refund_amount, requested_at, decided_at })
    }
}

pub fn return_authorization_approved(authorization: &ReturnAuthorization) -> (r: bool)
    ensures
        r == (authorization.spec_status() == ReturnAuthorizationStatus::Approved),
{
    authorization.status == ReturnAuthorizationStatus::Approved
}

/// Moves the authorization to `next` when its lifecycle allows it.
pub fn transition_return_authorization(authorization: ReturnAuthorization, next: ReturnAuthorizationStatus, decided_at: Timestamp) -> (r: DomainResult<ReturnAuthorization>)
    ensures
        (!can_return_transition_spec(authorization.spec_status(), next) || decided_at.spec_seconds() < authorization.spec_requested_at().spec_seconds())
            ==> r == Err::<ReturnAuthorization, ValidationError>(ValidationError::LogisticsInvariantFailed),
        (can_return_transition_spec(authorization.spec_status(), next) && decided_at.spec_seconds() >= authorization.spec_requested_at().spec_seconds())
            ==> r == Ok::<ReturnAuthorization, ValidationError>(ReturnAuthorization::spec_new(authorization.spec_id(), authorization.spec_support_case(), authorization.spec_order(), authorization.spec_ledger(), next, authorization.spec_lines(), authorization.spec_quantity(), authorization.spec_refund_amount(), authorization.spec_requested_at(), decided_at)),
{
    if !can_return_authorization_transition(authorization.status, next) || decided_at.seconds < authorization.requested_at.seconds {
        return Err(ValidationError::LogisticsInvariantFailed);
    }
    proof {
        use_type_invariant(&authorization);
    }
    ReturnAuthorization { status: next, decided_at, ..authorization }.into_ok()
}

impl ReturnAuthorization {
    fn into_ok(self) -> (r: DomainResult<Self>)
        ensures
            r == Ok::<Self, ValidationError>(self),
    {
        Ok(self)
    }
}

impl ReturnReceipt {
    pub fn try_new(authorization: ReturnAuthorization, received_quantity: Quantity, refund_issued: Money, received_at: Timestamp) -> (r: DomainResult<Self>)
        ensures
            (authorization.spec_status() != ReturnAuthorizationStatus::Approved || received_quantity > authorization.spec_quantity()
                || refund_issued > authorization.spec_refund_amount() || received_at.spec_seconds() < authorization.spec_decided_at().spec_seconds())
                ==> r == Err::<Self, ValidationError>(ValidationError::LogisticsInvariantFailed),
            (authorization.spec_status() == ReturnAuthorizationStatus::Approved && received_quantity <= authorization.spec_quantity()
                && refund_issued <= authorization.spec_refund_amount() && received_at.spec_seconds() >= authorization.spec_decided_at().spec_seconds())
                ==> r == Ok::<Self, ValidationError>(ReturnReceipt::spec_new(authorization, received_quantity, refund_issued, received_at)),
    {
        if !return_authorization_approved(&authorization) || received_quantity > authorization.quantity
            || refund_issued > authorization.refund_amount || received_at.seconds < authorization.decided_at.seconds {
            return Err(ValidationError::LogisticsInvariantFailed);
        }
        Ok(Self { authorization, received_quantity, refund_issued, received_at })
    }
}

/// The shipment lifecycle. The delivery path Planned, Allocated, Packed,
/// InTransit, OutForDelivery, Delivered is allowed step by step; a shipment in
/// transit or out for delivery may hit an exception, from which it goes back
/// in transit or is returned; only a planned or allocated shipment may be
/// cancelled; nothing ever returns to Planned; a shipment is delivered only
/// from out for delivery and returned only after an exception.
pub proof fn lemma_shipment_lifecycle(source: ShipmentStatus, target: ShipmentStatus)
    ensures
        can_shipment_transition_spec(ShipmentStatus::Planned, ShipmentStatus::Allocated),
        can_shipment_transition_spec(ShipmentStatus::Allocated, ShipmentStatus::Packed),
        can_shipment_transition_spec(ShipmentStatus::Packed, ShipmentStatus::InTransit),
        can_shipment_transition_spec(ShipmentStatus::InTransit, ShipmentStatus::OutForDelivery),
        can_shipment_transition_spec(ShipmentStatus::OutForDelivery, ShipmentStatus::Delivered),
        can_shipment_transition_spec(ShipmentStatus::InTransit, ShipmentStatus::Exception),
        can_shipment_transition_spec(ShipmentStatus::OutForDelivery, ShipmentStatus::Exception),
        can_shipment_transition_spec(ShipmentStatus::Exception, ShipmentStatus::InTransit),
        can_shipment_transition_spec(ShipmentStatus::Exception, ShipmentStatus::Returned),
        can_shipment_transition_spec(ShipmentStatus::Planned, ShipmentStatus::Cancelled),
        can_shipment_transition_spec(ShipmentStatus::Allocated, ShipmentStatus::Cancelled),
        can_shipment_transition_spec(source, ShipmentStatus::Cancelled)
            ==> source == ShipmentStatus::Planned || source == ShipmentStatus::Allocated,
        !can_shipment_transition_spec(source, ShipmentStatus::Planned),
        can_shipment_transition_spec(source, ShipmentStatus::Delivered) ==> source == ShipmentStatus::OutForDelivery,
        can_shipment_transition_spec(source, ShipmentStatus::Returned) ==> source == ShipmentStatus::Exception,
        can_shipment_transition_spec(source, target) ==> source != target,
{
}

/// Delivered, returned and cancelled shipments and closed or rejected
/// returns never move again; the tracking lifecycle ends at a delivered or
/// returned scan.
pub proof fn lemma_logistics_terminal_states_are_final(shipment_next: ShipmentStatus, return_next: ReturnAuthorizationStatus, scan_next: TrackingEventKind)
    ensures
        !can_shipment_transition_spec(ShipmentStatus::Delivered, shipment_next),
        !can_shipment_transition_spec(ShipmentStatus::Returned, shipment_next),
        !can_shipment_transition_spec(ShipmentStatus::Cancelled, shipment_next),
        !can_return_transition_spec(ReturnAuthorizationStatus::Closed, return_next),
        !can_return_transition_spec(ReturnAuthorizationStatus::Rejected, return_next),
        !can_tracking_progress_spec(TrackingEventKind::DeliveredScan, scan_next),
        !can_tracking_progress_spec(TrackingEventKind::ReturnScan, scan_next),
{
}

/// The accessor lemmas for the records of this module.
pub broadcast group group_logistics_record_fields {
    lemma_shipping_destination_fields,
    lemma_tracking_event_fields,
    lemma_logistics_exception_fields,
    lemma_return_line_fields,
    lemma_logistics_shipment_plan_fields,
    lemma_logistics_shipment_fields,
    lemma_carrier_handoff_fields,
    lemma_delivery_promise_fields,
    lemma_delivered_shipment_fields,
    lemma_warehouse_transfer_fields,
    lemma_return_authorization_fields,
    lemma_return_receipt_fields,
}


/// The return lifecycle: Requested, Approved, Received, Refunded, Closed step
/// by step, and only a requested return is rejected.
pub proof fn lemma_return_lifecycle(source: ReturnAuthorizationStatus)
    ensures
        can_return_transition_spec(ReturnAuthorizationStatus::Requested, ReturnAuthorizationStatus::Approved),
        can_return_transition_spec(ReturnAuthorizationStatus::Approved, ReturnAuthorizationStatus::Received),
        can_return_transition_spec(ReturnAuthorizationStatus::Received, ReturnAuthorizationStatus::Refunded),
        can_return_transition_spec(ReturnAuthorizationStatus::Refunded, ReturnAuthorizationStatus::Closed),
        can_return_transition_spec(source, ReturnAuthorizationStatus::Rejected) <==> source == ReturnAuthorizationStatus::Requested,
        can_return_transition_spec(source, ReturnAuthorizationStatus::Refunded) <==> source == ReturnAuthorizationStatus::Received,
{
}

/// The scan lifecycle: label, pickup, in transit, out for delivery, delivered
/// scan by scan; a parcel is delivered only from out for delivery and returned
/// only after an exception.
pub proof fn lemma_tracking_scan_lifecycle(source: TrackingEventKind)
    ensures
        can_tracking_progress_spec(TrackingEventKind::LabelCreated, TrackingEventKind::PickupScan),
        can_tracking_progress_spec(TrackingEventKind::PickupScan, TrackingEventKind::InTransitScan),
        can_tracking_progress_spec(TrackingEventKind::InTransitScan, TrackingEventKind::OutForDeliveryScan),
        can_tracking_progress_spec(TrackingEventKind::OutForDeliveryScan, TrackingEventKind::DeliveredScan),
        can_tracking_progress_spec(source, TrackingEventKind::DeliveredScan) <==> source == TrackingEventKind::OutForDeliveryScan,
        can_tracking_progress_spec(source, TrackingEventKind::ReturnScan) <==> source == TrackingEventKind::ExceptionScan,
{
}

} // verus!
