//! Validators that turn raw boundary data into checked records, each failure
//! reported as one specific error.

use vstd::prelude::*;
use crate::accounting::{AccountingAccounts, BalancedJournalEntry, Posting, journal_error, payment_captured_journal, refund_issued_journal};
use crate::b2b::{Customer, CustomerKind, PaymentTerms, RetailLine, TradePriceBookEntry, WholesaleCreditAccount, WholesaleLine, trade_price_book_error};
use crate::catalog::{ListingContent, MarketplaceContentPolicy, Product, ProductCatalogEntry, ProductStatus, ProductVariant, ValidListingContent};
use crate::competitor_pricing::{CompetitorAwareDropshipOffer, CompetitorOffer, CompetitorPriceBenchmark, TrustLevel, competitor_aware_offer_error, offer_relevant_spec, snapshot_fresh_spec};
use crate::crm::{AccountTier, ActiveCRMAccount, CRMAccount, CRMAccountContact, CRMAccountStatus, CRMContact, CRMInteraction, CRMInteractionForContact, CustomerSegment, InteractionKind, Lead, LeadForContact, LeadStatus, OpportunityForContact, OpportunityStage, PermittedAccountMessage, PermittedCustomerMessage, ResolvedSupportCase, RetentionOffer, SalesOpportunity, SalesPipeline, SegmentMembership, SupportCase, SupportCaseForContact, SupportCaseStatus, SupportPriority, contact_can_receive_marketing_spec, opportunities_use_currency_spec, retention_offer_ok, stage_probability_allowed_spec};
use crate::dropship_profit::{DropshipCostUpperBounds, DropshipProfitCosts, GuaranteedDropshipProfitQuote, costs_within_bounds, guaranteed_quote_error};
use crate::dropshipping::{DropshipFulfillment, DropshipLine, DropshipOffer, DropshipPOStatus, DropshipPurchaseOrder, DropshipReturnRequest, DropshipShippingQuote, DropshipSupplier, ReservedDropshipLine, SupplierDailyCapacity, SupplierReservation, SupplierReservationStatus, dropship_customer_net_fn, dropship_line_error, dropship_po_error, dropship_return_error, same_offer, supplier_can_receive_orders_spec};
use crate::event_sourcing::{EventStream, final_sequence, sequences_increase_from};
use crate::forecasting::{ApprovedSupplierQuality, DemandForecast, SupplierQualityMetrics, SupplierRiskPolicy, quality_within_policy};
use crate::foundation::{AccountId, BasisPoints, CampaignId, ContactId, Currency, CustomerId, Days, DomainResult, Duration, Id, InteractionId, LeadId, MarketplaceOrderId, Money, MoneyAmount, Nat, OpportunityId, OrderId, PaymentId, Quantity, ReturnAuthorizationId, RoundingMode, SegmentId, ShipmentId, SignedMoney, Sku, SupportCaseId, Timestamp, TransferId, ValidationError, Weight, collected_sum, result_sum, round_bps_spec, sum_nat, total_result};
use crate::fulfillment_finance::{CarrierQuote, CarrierService, ExchangeRate, Package, ReconciliationWithinTolerance, TaxCalculation, TaxRate, abs_diff_spec, tax_amount_spec, tax_calculation_error};
use crate::implicit_invariants::{ActionableDemandForecast, AdvertisableSyncedMarketplaceListing, ApprovedOrderableSupplierQuality, BoundedCouponApplication, CapturedPaymentJournalProjection, CapturedPaymentMatchesOrder, ChargebackForCapturedPayment, FraudCheckedCouponApplication, FreshCurrencyConversion, MapCompliantCompetitorAwareOffer, PublishableFeedLine, RefundJournalProjection, SellableCatalogEntry, SourceableDistributorProduct, TrustedFreshCompetitorBenchmark, ValidEventStream, ValidGiftCardRedemptionAt, WholesaleCreditCheckout, captured_payment_postings, demand_forecast_actionable_spec, distributor_can_source_spec, fresh_conversion_error, refund_postings, same_postings, wholesale_checkout_error};
use crate::inventory::{Allocation, BackorderRequest, BinStock, DistinctFulfillmentPlan, FulfillmentPlan, InventoryLot, InventoryNode, PackTask, PickTask, PreorderReservation, PreorderWindow, ReservationAttempt, ReservationStatus, SerializedInventorySet, SerializedInventoryUnit, SkuSubstitution, SplitFulfillmentPlan, StockState, TimedReservation, VersionedStock, Warehouse, WarehouseShipment, allocation_keys_distinct_spec, allocations_total_value, allocations_use_warehouse_id, available_stock, available_stock_spec, compare_and_swap_reserve, confirm_reserved_shipment, confirm_reserved_spec, lot_usable_at, release_expired_reservation, release_reserved_spec, release_reserved_stock, reserve_versioned_spec, serial_numbers_distinct_spec};
use crate::logistics::{CarrierHandoff, LogisticsShipment, LogisticsShipmentPlan, ReturnAuthorization, ReturnAuthorizationStatus, ReturnLine, ReturnReceipt, ShipmentStatus, ShippingDestination, WarehouseTransfer, logistics_plan_error, return_authorization_error};
use crate::marketing::{AdDestination, AdPlatform, AdType, AttributionCredit, CampaignStatus, ClickAttributedCampaign, Experiment, ExperimentVariant, Funnel, MarketingCampaign, OrderAttributionLedger, attribution_credit_total_value, experiment_traffic_total_value};
use crate::marketplace::{ChannelPricePolicy, ListingStatus, Marketplace, MarketplaceFeeLedger, MarketplaceListing, MarketplaceOrder, MarketplacePayoutCalculation, SafeProductFeedLine, SalesChannel, SyncedMarketplaceListing, fee_ledger_error, valid_channel_price};
use crate::merchandising::{AcceptedPromotionSet, BrandPricingPolicy, BundleComponent, BundleReservation, SearchResultItem, ValidSearchResultItem, bundle_components_error, component_can_fulfill_bundles, lemma_bundle_error_step, lemma_bundle_error_sticks};
use crate::opportunity_portfolio::{DistributorProduct, DropshipOpportunityCandidate, DropshipOpportunityPortfolio, candidates_capital_total_value, opportunity_candidate_error};
use crate::orders::{CapturedPayment, Order, OrderStatus, OrderStatusMarker, PaymentLedger, PaymentStateMarker, TypedOrder, TypedPayment, can_refund, can_refund_spec, issue_refund, issue_refund_spec};
use crate::post_purchase::{CashflowEvent, CashflowPlan, Chargeback, EventBackedCashflowPlan, GiftCard, GiftCardRedemption, RecurringSubscription, SubscriptionLifecycleStatus, SubscriptionPlan, cashflow_plan_error, event_backed_cashflow_error};
use crate::pricing::{CartLine, Coupon, ShippingMethod, cart_net_total, cart_weight_total, line_net_fn, line_weight_fn, order_total, order_total_spec, shipping_available};
use crate::risk_privacy::{Action, AuditEvent, AuditedCommand, AuditedEntityCommand, EntityAuditEvent, FraudPolicy, Role, can_perform_spec};
use crate::tax::{B2BTaxExemption, MarketplaceFacilitatorTax, OrderTaxInvoiceLink, TaxExclusivePrice, TaxExemptionCertificate, TaxInclusivePrice, TaxInvoice, TaxInvoiceLine, TaxJurisdiction, TaxTreatment, certificate_valid_at_spec, tax_invoice_error, tax_invoice_line_error};

verus! {

#[derive(Clone, Copy, Debug, PartialEq, Eq, Structural)]
pub struct RawCartLine {
    pub sku: Sku,
    pub price: Money,
    pub cost: Money,
    pub quantity: Quantity,
    pub discount: Money,
    pub weight: Weight,
}

impl RawCartLine {
    pub open spec fn spec_sku(&self) -> Sku {
        self.sku
    }

    pub open spec fn spec_price(&self) -> Money {
        self.price
    }

    pub open spec fn spec_cost(&self) -> Money {
        self.cost
    }

    pub open spec fn spec_quantity(&self) -> Quantity {
        self.quantity
    }

    pub open spec fn spec_discount(&self) -> Money {
        self.discount
    }

    pub open spec fn spec_weight(&self) -> Weight {
        self.weight
    }
}

#[derive(Clone, Debug, PartialEq, Eq)]
pub struct RawOrder {
    pub id: OrderId,
    pub items: Vec<RawCartLine>,
    pub coupon_amount: Money,
    pub shipping_method: ShippingMethod,
    pub tax: Money,
    pub currency: Currency,
    pub status: OrderStatus,
    pub total: Money,
}

impl RawOrder {
    pub open spec fn spec_id(&self) -> OrderId {
        self.id
    }

    pub open spec fn spec_items(&self) -> Vec<RawCartLine> {
        self.items
    }

    pub open spec fn spec_coupon_amount(&self) -> Money {
        self.coupon_amount
    }

    pub open spec fn spec_shipping_method(&self) -> ShippingMethod {
        self.shipping_method
    }

    pub open spec fn spec_tax(&self) -> Money {
        self.tax
    }

    pub open spec fn spec_currency(&self) -> Currency {
        self.currency
    }

    pub open spec fn spec_status(&self) -> OrderStatus {
        self.status
    }

    pub open spec fn spec_total(&self) -> Money {
        self.total
    }
}

#[derive(Clone, Copy, Debug, PartialEq, Eq, Structural)]
pub struct RawStockState {
    pub sku: Sku,
    pub total: Quantity,
    pub reserved: Quantity,
}

impl RawStockState {
    pub open spec fn spec_sku(&self) -> Sku {
        self.sku
    }

    pub open spec fn spec_total(&self) -> Quantity {
        self.total
    }

    pub open spec fn spec_reserved(&self) -> Quantity {
        self.reserved
    }
}

#[derive(Clone, Copy, Debug, PartialEq, Eq, Structural)]
pub struct RawChannelPricePolicy {
    pub min_price: Money,
    pub max_price: Money,
}

impl RawChannelPricePolicy {
    pub open spec fn spec_min_price(&self) -> Money {
        self.min_price
    }

    pub open spec fn spec_max_price(&self) -> Money {
        self.max_price
    }
}

#[derive(Clone, Copy, Debug, PartialEq, Eq, Structural)]
pub struct RawProductFeedLine {
    pub sku: Sku,
    pub channel: SalesChannel,
    pub price: Money,
    pub currency: Currency,
    pub stock: Quantity,
    pub stock_state: RawStockState,
    pub price_policy: RawChannelPricePolicy,
}

impl RawProductFeedLine {
    pub open spec fn spec_sku(&self) -> Sku {
        self.sku
    }

    pub open spec fn spec_channel(&self) -> SalesChannel {
        self.channel
    }

    pub open spec fn spec_price(&self) -> Money {
        self.price
    }

    pub open spec fn spec_currency(&self) -> Currency {
        self.currency
    }

    pub open spec fn spec_stock(&self) -> Quantity {
        self.stock
    }

    pub open spec fn spec_stock_state(&self) -> RawStockState {
        self.stock_state
    }

    pub open spec fn spec_price_policy(&self) -> RawChannelPricePolicy {
        self.price_policy
    }
}

#[derive(Clone, Copy, Debug, PartialEq, Eq, Structural)]
pub struct RawPaymentLedger {
    pub captured: Money,
    pub refunded: Money,
}

impl RawPaymentLedger {
    pub open spec fn spec_captured(&self) -> Money {
        self.captured
    }

    pub open spec fn spec_refunded(&self) -> Money {
        self.refunded
    }
}

#[derive(Clone, Copy, Debug, PartialEq, Eq, Structural)]
pub struct RawRefund {
    pub amount: Money,
}

impl RawRefund {
    pub open spec fn spec_amount(&self) -> Money {
        self.amount
    }
}

#[derive(Debug, PartialEq, Eq, Structural)]
pub struct ValidRefund {
    pub(crate) ledger: PaymentLedger,
    pub(crate) amount: Money,
}

impl ValidRefund {
    /// The ledger still allows the refund.
    #[verifier::type_invariant]
    pub open spec fn valid(self) -> bool {
        can_refund_spec(self.spec_ledger(), self.spec_amount())
    }

    pub open(crate) spec fn spec_ledger(&self) -> PaymentLedger {
        self.ledger
    }

    pub open(crate) spec fn spec_amount(&self) -> Money {
        self.amount
    }

    pub open(crate) spec fn spec_new(ledger: PaymentLedger, amount: Money) -> Self {
        ValidRefund { ledger, amount }
    }
}

/// The accessors of a `ValidRefund` built by `spec_new` give back its parts.
pub broadcast proof fn lemma_valid_refund_fields(ledger: PaymentLedger, amount: Money)
    ensures
        #[trigger] ValidRefund::spec_new(ledger, amount).spec_ledger() == ledger
            && ValidRefund::spec_new(ledger, amount).spec_amount() == amount,
{
}

impl Clone for ValidRefund {
    fn clone(&self) -> (r: Self)
        ensures
            r == *self,
    {
        proof {
            use_type_invariant(self);
        }
        ValidRefund { ledger: self.ledger.clone(), amount: self.amount }
    }
}

#[derive(Clone, Copy, Debug, PartialEq, Eq, Structural)]
pub struct RawReservationAttempt {
    pub stock: RawStockState,
    pub version: Nat,
    pub quantity: Quantity,
    pub expected_version: Nat,
}

impl RawReservationAttempt {
    pub open spec fn spec_stock(&self) -> RawStockState {
        self.stock
    }

    pub open spec fn spec_version(&self) -> Nat {
        self.version
    }

    pub open spec fn spec_quantity(&self) -> Quantity {
        self.quantity
    }

    pub open spec fn spec_expected_version(&self) -> Nat {
        self.expected_version
    }
}

#[derive(Debug, PartialEq, Eq, Structural)]
pub struct RawTaxInvoiceLine {
    pub sku: Sku,
    pub quantity: Quantity,
    pub unit_price: Money,
    pub discount: Money,
    pub treatment: TaxTreatment,
    pub rate: TaxRate,
    pub rounding_mode: RoundingMode,
    pub taxable_amount: Money,
    pub tax: Money,
    pub total: Money,
}

impl RawTaxInvoiceLine {
    pub open spec fn spec_sku(&self) -> Sku {
        self.sku
    }

    pub open spec fn spec_quantity(&self) -> Quantity {
        self.quantity
    }

    pub open spec fn spec_unit_price(&self) -> Money {
        self.unit_price
    }

    pub open spec fn spec_discount(&self) -> Money {
        self.discount
    }

    pub open spec fn spec_treatment(&self) -> TaxTreatment {
        self.treatment
    }

    pub open spec fn spec_rate(&self) -> TaxRate {
        self.rate
    }

    pub open spec fn spec_rounding_mode(&self) -> RoundingMode {
        self.rounding_mode
    }

    pub open spec fn spec_taxable_amount(&self) -> Money {
        self.taxable_amount
    }

    pub open spec fn spec_tax(&self) -> Money {
        self.tax
    }

    pub open spec fn spec_total(&self) -> Money {
        self.total
    }
}

impl Clone for RawTaxInvoiceLine {
    fn clone(&self) -> (r: Self)
        ensures
            r == *self,
    {
        RawTaxInvoiceLine { sku: self.sku, quantity: self.quantity, unit_price: self.unit_price, discount: self.discount, treatment: self.treatment, rate: self.rate.clone(), rounding_mode: self.rounding_mode, taxable_amount: self.taxable_amount, tax: self.tax, total: self.total }
    }
}

#[derive(Clone, Debug, PartialEq, Eq)]
pub struct RawTaxInvoice {
    pub id: Id,
    pub issued_at: Timestamp,
    pub seller_id: Id,
    pub buyer_id: CustomerId,
    pub jurisdiction: TaxJurisdiction,
    pub currency: Currency,
    pub lines: Vec<RawTaxInvoiceLine>,
    pub subtotal: Money,
    pub tax: Money,
    pub shipping: Money,
    pub discount: Money,
    pub total: Money,
}

impl RawTaxInvoice {
    pub open spec fn spec_id(&self) -> Id {
        self.id
    }

    pub open spec fn spec_issued_at(&self) -> Timestamp {
        self.issued_at
    }

    pub open spec fn spec_seller_id(&self) -> Id {
        self.seller_id
    }

    pub open spec fn spec_buyer_id(&self) -> CustomerId {
        self.buyer_id
    }

    pub open spec fn spec_jurisdiction(&self) -> TaxJurisdiction {
        self.jurisdiction
    }

    pub open spec fn spec_currency(&self) -> Currency {
        self.currency
    }

    pub open spec fn spec_lines(&self) -> Vec<RawTaxInvoiceLine> {
        self.lines
    }

    pub open spec fn spec_subtotal(&self) -> Money {
        self.subtotal
    }

    pub open spec fn spec_tax(&self) -> Money {
        self.tax
    }

    pub open spec fn spec_shipping(&self) -> Money {
        self.shipping
    }

    pub open spec fn spec_discount(&self) -> Money {
        self.discount
    }

    pub open spec fn spec_total(&self) -> Money {
        self.total
    }
}

pub open spec fn raw_cart_line_ok(raw: RawCartLine) -> bool {
    raw.spec_price() * raw.spec_quantity() <= u128::MAX && raw.spec_discount() <= raw.spec_price() * raw.spec_quantity()
}

pub open spec fn cart_line_of(raw: RawCartLine) -> CartLine {
    CartLine::spec_new(raw.spec_sku(), raw.spec_price(), raw.spec_cost(), raw.spec_quantity(), raw.spec_discount(), raw.spec_weight())
}

pub open spec fn cart_line_matches_raw_spec(raw: RawCartLine, line: CartLine) -> bool {
    line == cart_line_of(raw)
}

pub fn cart_line_matches_raw(raw: &RawCartLine, line: &CartLine) -> (r: bool)
    ensures
        r == cart_line_matches_raw_spec(*raw, *line),
{
    line.sku == raw.sku && line.price == raw.price && line.cost == raw.cost && line.quantity == raw.quantity
        && line.discount == raw.discount && line.weight == raw.weight
}

pub open spec fn raw_cart_lines_ok(raw: Seq<RawCartLine>) -> bool {
    forall|i: int| 0 <= i < raw.len() ==> raw_cart_line_ok(#[trigger] raw[i])
}

pub open spec fn cart_lines_of(raw: Seq<RawCartLine>) -> Seq<CartLine> {
    raw.map_values(|x: RawCartLine| cart_line_of(x))
}

/// Every raw line validated, in order; any invalid line fails the whole list.
pub fn validate_cart_lines(raw: Vec<RawCartLine>) -> (r: Result<Vec<CartLine>, ValidationError>)
    ensures
        match r {
            Ok(lines) => raw_cart_lines_ok(raw@) && lines@ == cart_lines_of(raw@),
            Err(e) => !raw_cart_lines_ok(raw@) && e == ValidationError::LineDiscountExceedsGross,
        },
{
    let mut lines: Vec<CartLine> = Vec::new();
    let mut i: usize = 0;
    while i < raw.len()
        invariant
            i <= raw.len(),
            forall|j: int| 0 <= j < i ==> raw_cart_line_ok(#[trigger] raw@[j]),
            lines@ == cart_lines_of(raw@.take(i as int)),
        decreases raw.len() - i,
    {
        match validate_cart_line(raw[i]) {
            Err(e) => return Err(e),
            Ok(line) => {
                lines.push(line);
                proof {
                    assert(cart_lines_of(raw@.take(i as int + 1)) =~= cart_lines_of(raw@.take(i as int)).push(cart_line_of(raw@[i as int])));
                }
            },
        }
        i += 1;
    }
    proof {
        assert(raw@.take(raw.len() as int) =~= raw@);
    }
    Ok(lines)
}

pub open spec fn cart_lines_match_raw_spec(raw: Seq<RawCartLine>, lines: Seq<CartLine>) -> bool {
    raw.len() == lines.len() && forall|i: int| 0 <= i < raw.len() ==> cart_line_matches_raw_spec(#[trigger] raw[i], lines[i])
}

pub fn cart_lines_match_raw(raw: &[RawCartLine], lines: &[CartLine]) -> (r: bool)
    ensures
        r == cart_lines_match_raw_spec(raw@, lines@),
{
    if raw.len() != lines.len() {
        return false;
    }
    let mut i: usize = 0;
    while i < raw.len()
        invariant
            i <= raw.len(),
            raw.len() == lines.len(),
            forall|j: int| 0 <= j < i ==> cart_line_matches_raw_spec(#[trigger] raw@[j], lines@[j]),
        decreases raw.len() - i,
    {
        if !cart_line_matches_raw(&raw[i], &lines[i]) {
            return false;
        }
        i += 1;
    }
    true
}

/// The first check a raw order fails, if any: its lines, then the coupon
/// against the net subtotal, the shipping method against the weight, and the
/// stated total against the computed one.
pub open spec fn validate_order_error(raw: RawOrder) -> Option<ValidationError> {
    let items = cart_lines_of(raw.spec_items()@);
    if !raw_cart_lines_ok(raw.spec_items()@) {
        Some(ValidationError::LineDiscountExceedsGross)
    } else {
        match collected_sum(items, line_net_fn(), "cart_net_total") {
            Err(e) => Some(e),
            Ok(net) => if raw.spec_coupon_amount() > net {
                Some(ValidationError::CouponExceedsSubtotal)
            } else {
                match collected_sum(items, line_weight_fn(), "cart_weight_total") {
                    Err(e) => Some(e),
                    Ok(weight) => if weight > raw.spec_shipping_method().spec_max_weight() {
                        Some(ValidationError::ShippingUnavailable)
                    } else {
                        match order_total_spec(raw.spec_shipping_method(), raw.spec_coupon_amount(), raw.spec_tax(), items) {
                            Err(e) => Some(e),
                            Ok(expected) => if raw.spec_total() != expected {
                                Some(ValidationError::OrderTotalMismatch)
                            } else {
                                None
                            },
                        }
                    },
                }
            },
        }
    }
}

pub fn validate_order(raw: RawOrder) -> (r: Result<Order, ValidationError>)
    ensures
        match r {
            Ok(o) => validate_order_error(raw) is None && o.spec_id() == raw.spec_id() && o.spec_items()@ == cart_lines_of(raw.spec_items()@)
                && o.spec_coupon_amount() == raw.spec_coupon_amount() && o.spec_shipping_method() == raw.spec_shipping_method() && o.spec_tax() == raw.spec_tax()
                && o.spec_currency() == raw.spec_currency() && o.spec_status() == raw.spec_status() && o.spec_total() == raw.spec_total(),
            Err(e) => validate_order_error(raw) == Some(e),
        },
{
    let items = match validate_cart_lines(raw.items) {
        Ok(v) => v,
        Err(e) => return Err(e),
    };
    match cart_net_total(items.as_slice()) {
        Err(e) => return Err(e),
        Ok(net) => if raw.coupon_amount > net {
            return Err(ValidationError::CouponExceedsSubtotal);
        },
    }
    match cart_weight_total(items.as_slice()) {
        Err(e) => return Err(e),
        Ok(weight) => if !shipping_available(&raw.shipping_method, weight) {
            return Err(ValidationError::ShippingUnavailable);
        },
    }
    match order_total(&raw.shipping_method, raw.coupon_amount, raw.tax, items.as_slice()) {
        Err(e) => return Err(e),
        Ok(expected) => if raw.total != expected {
            return Err(ValidationError::OrderTotalMismatch);
        },
    }
    Order::try_new(raw.id, items, raw.coupon_amount, raw.shipping_method, raw.tax, raw.currency, raw.status, raw.total)
}

pub open spec fn order_matches_raw_spec(raw: RawOrder, order: Order) -> bool {
    &&& order.spec_id() == raw.spec_id()
    &&& cart_lines_match_raw_spec(raw.spec_items()@, order.spec_items()@)
    &&& order.spec_coupon_amount() == raw.spec_coupon_amount()
    &&& order.spec_shipping_method() == raw.spec_shipping_method()
    &&& order.spec_tax() == raw.spec_tax()
    &&& order.spec_currency() == raw.spec_currency()
    &&& order.spec_status() == raw.spec_status()
    &&& order.spec_total() == raw.spec_total()
}

pub fn order_matches_raw(raw: &RawOrder, order: &Order) -> (r: bool)
    ensures
        r == order_matches_raw_spec(*raw, *order),
{
    order.id == raw.id && cart_lines_match_raw(raw.items.as_slice(), order.items.as_slice())
        && order.coupon_amount == raw.coupon_amount && order.shipping_method == raw.shipping_method
        && order.tax == raw.tax && order.currency == raw.currency && order.status == raw.status && order.total == raw.total
}

/// The first check a raw feed line fails, if any.
pub open spec fn validate_feed_line_error(raw: RawProductFeedLine) -> Option<ValidationError> {
    let stock = StockState::spec_new(raw.spec_stock_state().spec_sku(), raw.spec_stock_state().spec_total(), raw.spec_stock_state().spec_reserved());
    if raw.spec_stock_state().spec_reserved() > raw.spec_stock_state().spec_total() {
        Some(ValidationError::StockReservedExceedsTotal)
    } else if raw.spec_price_policy().spec_min_price() > raw.spec_price_policy().spec_max_price() {
        Some(ValidationError::PricePolicyInvalid)
    } else if raw.spec_sku() != raw.spec_stock_state().spec_sku() {
        Some(ValidationError::FeedSkuMismatch)
    } else if !(raw.spec_price_policy().spec_min_price() <= raw.spec_price() <= raw.spec_price_policy().spec_max_price()) {
        Some(ValidationError::FeedPriceOutOfPolicy)
    } else if raw.spec_stock() > available_stock_spec(stock) {
        Some(ValidationError::FeedStockUnavailable)
    } else {
        None
    }
}

pub fn validate_feed_line(raw: RawProductFeedLine) -> (r: Result<SafeProductFeedLine, ValidationError>)
    ensures
        match r {
            Ok(line) => validate_feed_line_error(raw) is None && line == (SafeProductFeedLine::spec_new(raw.spec_sku(), raw.spec_channel(), raw.spec_price(), raw.spec_currency(), raw.spec_stock(), StockState::spec_new(raw.spec_stock_state().spec_sku(), raw.spec_stock_state().spec_total(), raw.spec_stock_state().spec_reserved()), ChannelPricePolicy::spec_new(raw.spec_price_policy().spec_min_price(), raw.spec_price_policy().spec_max_price()))),
            Err(e) => validate_feed_line_error(raw) == Some(e),
        },
{
    let stock_state = match validate_stock_state(raw.stock_state) {
        Ok(s) => s,
        Err(e) => return Err(e),
    };
    let price_policy = match validate_channel_price_policy(raw.price_policy) {
        Ok(p) => p,
        Err(e) => return Err(e),
    };
    if raw.sku != stock_state.sku {
        return Err(ValidationError::FeedSkuMismatch);
    }
    if !valid_channel_price(&price_policy, raw.price) {
        return Err(ValidationError::FeedPriceOutOfPolicy);
    }
    if raw.stock > available_stock(&stock_state) {
        return Err(ValidationError::FeedStockUnavailable);
    }
    SafeProductFeedLine::try_new(raw.sku, raw.channel, raw.price, raw.currency, raw.stock, stock_state, price_policy)
}

impl ValidRefund {
    pub fn ledger(&self) -> (r: &PaymentLedger)
        ensures
            *r == self.spec_ledger(),
    {
        &self.ledger
    }

    pub fn amount(&self) -> (r: Money)
        ensures
            r == self.spec_amount(),
    {
        self.amount
    }
}

pub fn validate_refund(raw: RawRefund, ledger: PaymentLedger) -> (r: Result<ValidRefund, ValidationError>)
    ensures
        !can_refund_spec(ledger, raw.spec_amount()) ==> r == Err::<ValidRefund, ValidationError>(ValidationError::RefundExceedsRemaining),
        can_refund_spec(ledger, raw.spec_amount()) ==> r == Ok::<ValidRefund, ValidationError>(ValidRefund::spec_new(ledger, raw.spec_amount())),
{
    if !can_refund(&ledger, raw.amount) {
        return Err(ValidationError::RefundExceedsRemaining);
    }
    Ok(ValidRefund { ledger, amount: raw.amount })
}

pub fn issue_valid_refund(refund: &ValidRefund) -> (r: DomainResult<PaymentLedger>)
    ensures
        r == issue_refund_spec(refund.spec_ledger(), refund.spec_amount()),
        r is Ok,
{
    proof {
        use_type_invariant(refund);
    }
    issue_refund(&refund.ledger, refund.amount)
}

pub fn validate_versioned_stock(raw: RawStockState, version: Nat) -> (r: Result<VersionedStock, ValidationError>)
    ensures
        raw.spec_reserved() > raw.spec_total() ==> r == Err::<VersionedStock, ValidationError>(ValidationError::StockReservedExceedsTotal),
        raw.spec_reserved() <= raw.spec_total() ==> r == Ok::<VersionedStock, ValidationError>(
            VersionedStock::spec_new(StockState::spec_new(raw.spec_sku(), raw.spec_total(), raw.spec_reserved()), version),
        ),
{
    match validate_stock_state(raw) {
        Err(e) => Err(e),
        Ok(stock) => Ok(VersionedStock::from_stock(stock, version)),
    }
}

pub open spec fn raw_attempt_of(raw: RawReservationAttempt) -> ReservationAttempt {
    ReservationAttempt::spec_new(VersionedStock::spec_new(StockState::spec_new(raw.spec_stock().spec_sku(), raw.spec_stock().spec_total(), raw.spec_stock().spec_reserved()), raw.spec_version()), raw.spec_quantity(), raw.spec_expected_version())
}

pub fn validate_raw_reservation_attempt(raw: RawReservationAttempt) -> (r: Result<ReservationAttempt, ValidationError>)
    ensures
        raw.spec_stock().spec_reserved() > raw.spec_stock().spec_total() ==> r == Err::<ReservationAttempt, ValidationError>(ValidationError::StockReservedExceedsTotal),
        raw.spec_stock().spec_reserved() <= raw.spec_stock().spec_total() ==> r == Ok::<ReservationAttempt, ValidationError>(raw_attempt_of(raw)),
{
    match validate_versioned_stock(raw.stock, raw.version) {
        Err(e) => Err(e),
        Ok(stock) => Ok(ReservationAttempt::new(stock, raw.quantity, raw.expected_version)),
    }
}

pub fn validate_compare_and_swap_reservation(stock: VersionedStock, quantity: Quantity, expected_version: Nat) -> (r: Result<VersionedStock, ValidationError>)
    ensures
        r == (match reserve_versioned_spec(stock, quantity, expected_version) {
            Ok(v) => Ok(v),
            Err(_) => Err(ValidationError::InventoryInvariantFailed),
        }),
{
    match compare_and_swap_reserve(&stock, quantity, expected_version) {
        Some(v) => Ok(v),
        None => Err(ValidationError::InventoryInvariantFailed),
    }
}

pub fn validate_raw_compare_and_swap_reservation(raw: RawReservationAttempt) -> (r: Result<VersionedStock, ValidationError>)
    ensures
        raw.spec_stock().spec_reserved() > raw.spec_stock().spec_total() ==> r == Err::<VersionedStock, ValidationError>(ValidationError::StockReservedExceedsTotal),
        raw.spec_stock().spec_reserved() <= raw.spec_stock().spec_total() ==> r == (match reserve_versioned_spec(raw_attempt_of(raw).spec_stock(), raw.spec_quantity(), raw.spec_expected_version()) {
            Ok(v) => Ok(v),
            Err(_) => Err(ValidationError::InventoryInvariantFailed),
        }),
{
    match validate_raw_reservation_attempt(raw) {
        Err(e) => Err(e),
        Ok(attempt) => validate_compare_and_swap_reservation(attempt.stock(), attempt.quantity(), attempt.expected_version()),
    }
}

pub fn validate_release_reserved_stock(stock: StockState, quantity: Quantity) -> (r: Result<StockState, ValidationError>)
    ensures
        r == (match release_reserved_spec(stock, quantity) {
            Ok(v) => Ok(v),
            Err(_) => Err(ValidationError::InventoryInvariantFailed),
        }),
{
    match release_reserved_stock(&stock, quantity) {
        Ok(v) => Ok(v),
        Err(_) => Err(ValidationError::InventoryInvariantFailed),
    }
}

pub fn validate_confirm_reserved_shipment(stock: StockState, quantity: Quantity) -> (r: Result<StockState, ValidationError>)
    ensures
        r == (match confirm_reserved_spec(stock, quantity) {
            Ok(v) => Ok(v),
            Err(_) => Err(ValidationError::InventoryInvariantFailed),
        }),
{
    match confirm_reserved_shipment(&stock, quantity) {
        Ok(v) => Ok(v),
        Err(_) => Err(ValidationError::InventoryInvariantFailed),
    }
}

pub fn validate_release_expired_reservation(reservation: TimedReservation, now: Timestamp) -> (r: Result<StockState, ValidationError>)
    ensures
        !(reservation.spec_expires_at().spec_seconds() < now.spec_seconds()) ==> r == Err::<StockState, ValidationError>(ValidationError::InventoryInvariantFailed),
        reservation.spec_expires_at().spec_seconds() < now.spec_seconds() ==> r == (match release_reserved_spec(reservation.spec_stock(), reservation.spec_quantity()) {
            Ok(v) => Ok(v),
            Err(_) => Err(ValidationError::InventoryInvariantFailed),
        }),
{
    match release_expired_reservation(&reservation, now) {
        Ok(v) => Ok(v),
        Err(_) => Err(ValidationError::InventoryInvariantFailed),
    }
}

pub fn validate_usable_inventory_lot(lot: InventoryLot, now: Timestamp) -> (r: Result<InventoryLot, ValidationError>)
    ensures
        (now.spec_seconds() <= lot.spec_expires_at().spec_seconds() && lot.spec_quantity() > 0) ==> r == Ok::<InventoryLot, ValidationError>(lot),
        !(now.spec_seconds() <= lot.spec_expires_at().spec_seconds() && lot.spec_quantity() > 0) ==> r == Err::<InventoryLot, ValidationError>(ValidationError::InventoryInvariantFailed),
{
    if lot_usable_at(now, &lot) {
        Ok(lot)
    } else {
        Err(ValidationError::InventoryInvariantFailed)
    }
}

pub fn validate_typed_order<S: OrderStatusMarker>(id: OrderId, total: Money, currency: Currency) -> (r: Result<TypedOrder<S>, ValidationError>)
    ensures
        total == 0 ==> r == Err::<TypedOrder<S>, ValidationError>(ValidationError::Invariant("typed order total must be positive")),
        total != 0 ==> r is Ok && r->Ok_0.spec_id() == id && r->Ok_0.spec_total() == total && r->Ok_0.spec_currency() == currency,
{
    TypedOrder::try_new(id, total, currency)
}

pub fn validate_typed_payment<S: PaymentStateMarker>(id: PaymentId, order_id: OrderId, amount: Money, currency: Currency) -> (r: Result<TypedPayment<S>, ValidationError>)
    ensures
        amount == 0 ==> r == Err::<TypedPayment<S>, ValidationError>(ValidationError::Invariant("payment amount must be positive")),
        amount != 0 ==> r is Ok && r->Ok_0.spec_id() == id && r->Ok_0.spec_order_id() == order_id && r->Ok_0.spec_amount() == amount && r->Ok_0.spec_currency() == currency,
{
    TypedPayment::try_new(id, order_id, amount, currency)
}

/// Whether every component covers the bundles; a multiplication overflow is
/// reported for the first component where it happens before any shortfall.
pub open spec fn bundle_fulfill_all_spec(bundle_qty: u128, components: Seq<BundleComponent>) -> DomainResult<bool> {
    match bundle_components_error(bundle_qty, components) {
        None => Ok(true),
        Some(e) => if e == ValidationError::Invariant("bundle component cannot fulfill reservation") {
            Ok(false)
        } else {
            Err(e)
        },
    }
}

pub fn bundle_components_can_fulfill_all(bundle_qty: Quantity, components: &[BundleComponent]) -> (r: DomainResult<bool>)
    ensures
        r == bundle_fulfill_all_spec(bundle_qty, components@),
{
    let mut i: usize = 0;
    while i < components.len()
        invariant
            i <= components.len(),
            bundle_components_error(bundle_qty, components@.take(i as int)) is None,
        decreases components.len() - i,
    {
        proof {
            lemma_bundle_error_step(bundle_qty, components@, i as int);
        }
        match component_can_fulfill_bundles(bundle_qty, &components[i]) {
            Err(e) => {
                proof {
                    lemma_bundle_error_sticks(bundle_qty, components@, i + 1);
                }
                return Err(e);
            },
            Ok(ok) => if !ok {
                proof {
                    lemma_bundle_error_sticks(bundle_qty, components@, i + 1);
                }
                return Ok(false);
            },
        }
        i += 1;
    }
    proof {
        assert(components@.take(components.len() as int) =~= components@);
    }
    Ok(true)
}

pub fn validate_bundle_reservation(bundle_qty: Quantity, components: Vec<BundleComponent>) -> (r: Result<BundleReservation, ValidationError>)
    ensures
        bundle_components_error(bundle_qty, components@) is Some ==> r == Err::<BundleReservation, ValidationError>(ValidationError::MerchandisingInvariantFailed),
        bundle_components_error(bundle_qty, components@) is None ==> r == Ok::<BundleReservation, ValidationError>(BundleReservation::spec_new(bundle_qty, components)),
{
    match bundle_components_can_fulfill_all(bundle_qty, components.as_slice()) {
        Err(_) => return Err(ValidationError::MerchandisingInvariantFailed),
        Ok(ok) => if !ok {
            return Err(ValidationError::MerchandisingInvariantFailed);
        },
    }
    match BundleReservation::try_new(bundle_qty, components) {
        Ok(v) => Ok(v),
        Err(_) => Err(ValidationError::MerchandisingInvariantFailed),
    }
}

pub open spec fn raw_tax_line_ok(raw: RawTaxInvoiceLine) -> bool {
    tax_invoice_line_error(raw.spec_quantity(), raw.spec_unit_price(), raw.spec_discount(), raw.spec_treatment(), raw.spec_rate(), raw.spec_rounding_mode(), raw.spec_taxable_amount(), raw.spec_tax(), raw.spec_total()) is None
}

pub open spec fn tax_line_of(raw: RawTaxInvoiceLine) -> TaxInvoiceLine {
    TaxInvoiceLine::spec_new(raw.spec_sku(), raw.spec_quantity(), raw.spec_unit_price(), raw.spec_discount(), raw.spec_treatment(), raw.spec_rate(), raw.spec_rounding_mode(), raw.spec_taxable_amount(), raw.spec_tax(), raw.spec_total())
}

pub open spec fn raw_tax_lines_ok(raw: Seq<RawTaxInvoiceLine>) -> bool {
    forall|i: int| 0 <= i < raw.len() ==> raw_tax_line_ok(#[trigger] raw[i])
}

pub open spec fn tax_lines_of(raw: Seq<RawTaxInvoiceLine>) -> Seq<TaxInvoiceLine> {
    raw.map_values(|x: RawTaxInvoiceLine| tax_line_of(x))
}

pub fn validate_tax_invoice_lines(raw: Vec<RawTaxInvoiceLine>) -> (r: Result<Vec<TaxInvoiceLine>, ValidationError>)
    ensures
        match r {
            Ok(lines) => raw_tax_lines_ok(raw@) && lines@ == tax_lines_of(raw@),
            Err(e) => !raw_tax_lines_ok(raw@) && e == ValidationError::TaxInvariantFailed,
        },
{
    let mut lines: Vec<TaxInvoiceLine> = Vec::new();
    let mut i: usize = 0;
    while i < raw.len()
        invariant
            i <= raw.len(),
            forall|j: int| 0 <= j < i ==> raw_tax_line_ok(#[trigger] raw@[j]),
            lines@ == tax_lines_of(raw@.take(i as int)),
        decreases raw.len() - i,
    {
        match validate_tax_invoice_line(raw[i].clone()) {
            Err(e) => return Err(e),
            Ok(line) => {
                lines.push(line);
                proof {
                    assert(tax_lines_of(raw@.take(i as int + 1)) =~= tax_lines_of(raw@.take(i as int)).push(tax_line_of(raw@[i as int])));
                }
            },
        }
        i += 1;
    }
    proof {
        assert(raw@.take(raw.len() as int) =~= raw@);
    }
    Ok(lines)
}

pub fn validate_tax_invoice(raw: RawTaxInvoice) -> (r: Result<TaxInvoice, ValidationError>)
    ensures
        match r {
            Ok(inv) => raw_tax_lines_ok(raw.spec_lines()@)
                && tax_invoice_error(tax_lines_of(raw.spec_lines()@), raw.spec_subtotal(), raw.spec_tax(), raw.spec_shipping(), raw.spec_discount(), raw.spec_total()) is None
                && inv.spec_id() == raw.spec_id() && inv.spec_issued_at() == raw.spec_issued_at() && inv.spec_seller_id() == raw.spec_seller_id() && inv.spec_buyer_id() == raw.spec_buyer_id()
                && inv.spec_jurisdiction() == raw.spec_jurisdiction() && inv.spec_currency() == raw.spec_currency() && inv.spec_lines()@ == tax_lines_of(raw.spec_lines()@)
                && inv.spec_subtotal() == raw.spec_subtotal() && inv.spec_tax() == raw.spec_tax() && inv.spec_shipping() == raw.spec_shipping() && inv.spec_discount() == raw.spec_discount()
                && inv.spec_total() == raw.spec_total(),
            Err(e) => e == ValidationError::TaxInvariantFailed && (!raw_tax_lines_ok(raw.spec_lines()@)
                || tax_invoice_error(tax_lines_of(raw.spec_lines()@), raw.spec_subtotal(), raw.spec_tax(), raw.spec_shipping(), raw.spec_discount(), raw.spec_total()) is Some),
        },
{
    let lines = match validate_tax_invoice_lines(raw.lines) {
        Ok(l) => l,
        Err(e) => return Err(e),
    };
    match TaxInvoice::try_new(raw.id, raw.issued_at, raw.seller_id, raw.buyer_id, raw.jurisdiction, raw.currency, lines, raw.subtotal, raw.tax, raw.shipping, raw.discount, raw.total) {
        Ok(v) => Ok(v),
        Err(_) => Err(ValidationError::TaxInvariantFailed),
    }
}

/// A shipment plan for the package the quote was made for.
pub fn validate_logistics_shipment_plan(id: ShipmentId, order: Order, fulfillment: DistinctFulfillmentPlan, quote: CarrierQuote, warehouse: Warehouse, destination: ShippingDestination, planned_ship_at: Timestamp, promised_delivery_at: Timestamp) -> (r: Result<LogisticsShipmentPlan, ValidationError>)
    ensures
        match r {
            Ok(v) => logistics_plan_error(order, fulfillment, quote.spec_package(), quote, warehouse, destination, planned_ship_at, promised_delivery_at) is None
                && v == (LogisticsShipmentPlan::spec_new(id, order, fulfillment, quote.spec_package(), quote, warehouse, destination, planned_ship_at, promised_delivery_at)),
            Err(e) => logistics_plan_error(order, fulfillment, quote.spec_package(), quote, warehouse, destination, planned_ship_at, promised_delivery_at) is Some
                && e == ValidationError::LogisticsInvariantFailed,
        },
{
    let package = quote.package.clone();
    match LogisticsShipmentPlan::try_new(id, order, fulfillment, package, quote, warehouse, destination, planned_ship_at, promised_delivery_at) {
        Ok(v) => Ok(v),
        Err(_) => Err(ValidationError::LogisticsInvariantFailed),
    }
}

/// A hand-off with the carrier service the plan was quoted on.
pub fn validate_carrier_handoff(plan: LogisticsShipmentPlan, tracking_number: Id, handed_off_at: Timestamp, acceptance_scan_at: Timestamp) -> (r: Result<CarrierHandoff, ValidationError>)
    ensures
        (handed_off_at.spec_seconds() < plan.spec_planned_ship_at().spec_seconds() || acceptance_scan_at.spec_seconds() < handed_off_at.spec_seconds())
            ==> r == Err::<CarrierHandoff, ValidationError>(ValidationError::LogisticsInvariantFailed),
        (handed_off_at.spec_seconds() >= plan.spec_planned_ship_at().spec_seconds() && acceptance_scan_at.spec_seconds() >= handed_off_at.spec_seconds())
            ==> r == Ok::<CarrierHandoff, ValidationError>(CarrierHandoff::spec_new(plan, plan.spec_quote().spec_service(), tracking_number, handed_off_at, acceptance_scan_at)),
{
    let service = plan.quote.service.clone();
    match CarrierHandoff::try_new(plan, service, tracking_number, handed_off_at, acceptance_scan_at) {
        Ok(v) => Ok(v),
        Err(_) => Err(ValidationError::LogisticsInvariantFailed),
    }
}

/// The projection of a capture onto the journal that records it; it always holds.
pub fn validate_captured_payment_journal_projection(accounts: AccountingAccounts, payment: CapturedPayment) -> (r: Result<CapturedPaymentJournalProjection, ValidationError>)
    ensures
        r matches Ok(p) && p.spec_accounts() == accounts && p.spec_payment() == payment
            && p.spec_journal().spec_postings()@ == captured_payment_postings(accounts, payment.spec_amount()),
{
    let journal = match payment_captured_journal(&accounts, payment.amount) {
        Ok(j) => j,
        Err(_) => return Err(ValidationError::ImplicitInvariantFailed),
    };
    proof {
        assert(same_postings(journal.postings@, captured_payment_postings(accounts, payment.amount)));
    }
    match CapturedPaymentJournalProjection::try_new(accounts, payment, journal) {
        Ok(v) => Ok(v),
        Err(_) => Err(ValidationError::ImplicitInvariantFailed),
    }
}

/// The projection of a refund onto the journal that records it, when the
/// ledger still allows the refund.
pub fn validate_refund_journal_projection(accounts: AccountingAccounts, ledger: PaymentLedger, amount: Money) -> (r: Result<RefundJournalProjection, ValidationError>)
    ensures
        !can_refund_spec(ledger, amount) ==> r == Err::<RefundJournalProjection, ValidationError>(ValidationError::ImplicitInvariantFailed),
        can_refund_spec(ledger, amount) ==> (r matches Ok(p) && p.spec_accounts() == accounts && p.spec_ledger() == ledger && p.spec_amount() == amount
            && p.spec_journal().spec_postings()@ == refund_postings(accounts, amount)),
{
    let journal = match refund_issued_journal(&accounts, amount) {
        Ok(j) => j,
        Err(_) => return Err(ValidationError::ImplicitInvariantFailed),
    };
    proof {
        assert(same_postings(journal.postings@, refund_postings(accounts, amount)));
    }
    match RefundJournalProjection::try_new(accounts, ledger, amount, journal) {
        Ok(v) => Ok(v),
        Err(_) => Err(ValidationError::ImplicitInvariantFailed),
    }
}
pub fn validate_cart_line(raw: RawCartLine) -> (r: Result<CartLine, ValidationError>)
    ensures
        match r {
            Ok(v) => (raw.spec_price() * raw.spec_quantity() <= u128::MAX && raw.spec_discount() <= raw.spec_price() * raw.spec_quantity()) && v == (CartLine::spec_new(raw.spec_sku(), raw.spec_price(), raw.spec_cost(), raw.spec_quantity(), raw.spec_discount(), raw.spec_weight())),
            Err(e) => !(raw.spec_price() * raw.spec_quantity() <= u128::MAX && raw.spec_discount() <= raw.spec_price() * raw.spec_quantity()) && e == ValidationError::LineDiscountExceedsGross,
        },
{
    match CartLine::try_new(raw.sku, raw.price, raw.cost, raw.quantity, raw.discount, raw.weight) {
        Ok(v) => Ok(v),
        Err(_) => Err(ValidationError::LineDiscountExceedsGross),
    }
}

pub fn validate_stock_state(raw: RawStockState) -> (r: Result<StockState, ValidationError>)
    ensures
        match r {
            Ok(v) => (raw.spec_reserved() <= raw.spec_total()) && v == (StockState::spec_new(raw.spec_sku(), raw.spec_total(), raw.spec_reserved())),
            Err(e) => !(raw.spec_reserved() <= raw.spec_total()) && e == ValidationError::StockReservedExceedsTotal,
        },
{
    match StockState::try_new(raw.sku, raw.total, raw.reserved) {
        Ok(v) => Ok(v),
        Err(_) => Err(ValidationError::StockReservedExceedsTotal),
    }
}

pub fn validate_channel_price_policy(raw: RawChannelPricePolicy) -> (r: Result<ChannelPricePolicy, ValidationError>)
    ensures
        match r {
            Ok(v) => (raw.spec_min_price() <= raw.spec_max_price()) && v == (ChannelPricePolicy::spec_new(raw.spec_min_price(), raw.spec_max_price())),
            Err(e) => !(raw.spec_min_price() <= raw.spec_max_price()) && e == ValidationError::PricePolicyInvalid,
        },
{
    match ChannelPricePolicy::try_new(raw.min_price, raw.max_price) {
        Ok(v) => Ok(v),
        Err(_) => Err(ValidationError::PricePolicyInvalid),
    }
}

pub fn validate_payment_ledger(raw: RawPaymentLedger) -> (r: Result<PaymentLedger, ValidationError>)
    ensures
        match r {
            Ok(v) => (raw.spec_refunded() <= raw.spec_captured()) && v == (PaymentLedger::spec_new(raw.spec_captured(), raw.spec_refunded())),
            Err(e) => !(raw.spec_refunded() <= raw.spec_captured()) && e == ValidationError::LedgerRefundedExceedsCaptured,
        },
{
    match PaymentLedger::try_new(raw.captured, raw.refunded) {
        Ok(v) => Ok(v),
        Err(_) => Err(ValidationError::LedgerRefundedExceedsCaptured),
    }
}

pub fn validate_basis_points(value: Nat) -> (r: Result<BasisPoints, ValidationError>)
    ensures
        match r {
            Ok(v) => (value <= 10000) && v == (BasisPoints::spec_new(value)),
            Err(e) => !(value <= 10000) && e == ValidationError::BasisPointsOutOfRange,
        },
{
    match BasisPoints::try_new(value) {
        Ok(v) => Ok(v),
        Err(_) => Err(ValidationError::BasisPointsOutOfRange),
    }
}

pub fn validate_product_catalog_entry(product: Product, variant: ProductVariant) -> (r: Result<ProductCatalogEntry, ValidationError>)
    ensures
        match r {
            Ok(v) => (variant.spec_product_id() == product.spec_id()) && v == (ProductCatalogEntry::spec_new(product, variant)),
            Err(e) => !(variant.spec_product_id() == product.spec_id()) && e == ValidationError::CatalogInvariantFailed,
        },
{
    match ProductCatalogEntry::try_new(product, variant) {
        Ok(v) => Ok(v),
        Err(_) => Err(ValidationError::CatalogInvariantFailed),
    }
}

pub fn validate_listing_content(content: ListingContent, policy: MarketplaceContentPolicy) -> (r: Result<ValidListingContent, ValidationError>)
    ensures
        match r {
            Ok(v) => (content.spec_title_length() <= policy.spec_max_title_length() && content.spec_image_count() >= policy.spec_min_image_count() && content.spec_required_attributes_filled()) && v == (ValidListingContent::spec_new(content, policy)),
            Err(e) => !(content.spec_title_length() <= policy.spec_max_title_length() && content.spec_image_count() >= policy.spec_min_image_count() && content.spec_required_attributes_filled()) && e == ValidationError::CatalogInvariantFailed,
        },
{
    match ValidListingContent::try_new(content, policy) {
        Ok(v) => Ok(v),
        Err(_) => Err(ValidationError::CatalogInvariantFailed),
    }
}

pub fn validate_pick_task(sku: Sku, requested: Quantity, bin: BinStock) -> (r: Result<PickTask, ValidationError>)
    ensures
        match r {
            Ok(v) => (requested <= bin.spec_quantity()) && v == (PickTask::spec_new(sku, requested, bin)),
            Err(e) => !(requested <= bin.spec_quantity()) && e == ValidationError::InventoryInvariantFailed,
        },
{
    match PickTask::try_new(sku, requested, bin) {
        Ok(v) => Ok(v),
        Err(_) => Err(ValidationError::InventoryInvariantFailed),
    }
}

pub fn validate_pack_task(source_quantity: Quantity, packed_quantity: Quantity) -> (r: Result<PackTask, ValidationError>)
    ensures
        match r {
            Ok(v) => (packed_quantity <= source_quantity) && v == (PackTask::spec_new(source_quantity, packed_quantity)),
            Err(e) => !(packed_quantity <= source_quantity) && e == ValidationError::InventoryInvariantFailed,
        },
{
    match PackTask::try_new(source_quantity, packed_quantity) {
        Ok(v) => Ok(v),
        Err(_) => Err(ValidationError::InventoryInvariantFailed),
    }
}

pub fn validate_warehouse_shipment(packed: Quantity, shipped: Quantity) -> (r: Result<WarehouseShipment, ValidationError>)
    ensures
        match r {
            Ok(v) => (shipped <= packed) && v == (WarehouseShipment::spec_new(packed, shipped)),
            Err(e) => !(shipped <= packed) && e == ValidationError::InventoryInvariantFailed,
        },
{
    match WarehouseShipment::try_new(packed, shipped) {
        Ok(v) => Ok(v),
        Err(_) => Err(ValidationError::InventoryInvariantFailed),
    }
}

pub fn validate_allocation(node: InventoryNode, quantity: Quantity) -> (r: Result<Allocation, ValidationError>)
    ensures
        match r {
            Ok(v) => (quantity <= available_stock_spec(node.spec_stock())) && v == (Allocation::spec_new(node, quantity)),
            Err(e) => !(quantity <= available_stock_spec(node.spec_stock())) && e == ValidationError::InventoryInvariantFailed,
        },
{
    match Allocation::try_new(node, quantity) {
        Ok(v) => Ok(v),
        Err(_) => Err(ValidationError::InventoryInvariantFailed),
    }
}

pub fn validate_fulfillment_plan(requested: Quantity, allocations: Vec<Allocation>) -> (r: Result<FulfillmentPlan, ValidationError>)
    ensures
        match r {
            Ok(v) => (({ let total = total_result(sum_nat(allocations@, allocations_total_value()) as int, "allocations_total"); total == Ok::<u128, ValidationError>(requested) })) && v == (FulfillmentPlan::spec_new(requested, allocations)),
            Err(e) => !(({ let total = total_result(sum_nat(allocations@, allocations_total_value()) as int, "allocations_total"); total == Ok::<u128, ValidationError>(requested) })) && e == ValidationError::InventoryInvariantFailed,
        },
{
    match FulfillmentPlan::try_new(requested, allocations) {
        Ok(v) => Ok(v),
        Err(_) => Err(ValidationError::InventoryInvariantFailed),
    }
}

pub fn validate_distinct_fulfillment_plan(requested: Quantity, allocations: Vec<Allocation>) -> (r: Result<DistinctFulfillmentPlan, ValidationError>)
    ensures
        match r {
            Ok(v) => (({ let total = total_result(sum_nat(allocations@, allocations_total_value()) as int, "allocations_total"); total == Ok::<u128, ValidationError>(requested) && allocation_keys_distinct_spec(allocations@) })) && v == (DistinctFulfillmentPlan::spec_new(requested, allocations)),
            Err(e) => !(({ let total = total_result(sum_nat(allocations@, allocations_total_value()) as int, "allocations_total"); total == Ok::<u128, ValidationError>(requested) && allocation_keys_distinct_spec(allocations@) })) && e == ValidationError::InventoryInvariantFailed,
        },
{
    match DistinctFulfillmentPlan::try_new(requested, allocations) {
        Ok(v) => Ok(v),
        Err(_) => Err(ValidationError::InventoryInvariantFailed),
    }
}

pub fn validate_timed_reservation(stock: StockState, quantity: Quantity, reserved_at: Timestamp, expires_at: Timestamp, status: ReservationStatus) -> (r: Result<TimedReservation, ValidationError>)
    ensures
        match r {
            Ok(v) => (!(expires_at.spec_seconds() < reserved_at.spec_seconds() || quantity > stock.spec_reserved())) && v == (TimedReservation::spec_new(stock, quantity, reserved_at, expires_at, status)),
            Err(e) => !(!(expires_at.spec_seconds() < reserved_at.spec_seconds() || quantity > stock.spec_reserved())) && e == ValidationError::InventoryInvariantFailed,
        },
{
    match TimedReservation::try_new(stock, quantity, reserved_at, expires_at, status) {
        Ok(v) => Ok(v),
        Err(_) => Err(ValidationError::InventoryInvariantFailed),
    }
}

pub fn validate_backorder_request(sku: Sku, requested: Quantity, available_now: Quantity, backordered: Quantity) -> (r: Result<BackorderRequest, ValidationError>)
    ensures
        match r {
            Ok(v) => (requested == available_now + backordered) && v == (BackorderRequest::spec_new(sku, requested, available_now, backordered)),
            Err(e) => !(requested == available_now + backordered) && e == ValidationError::InventoryInvariantFailed,
        },
{
    match BackorderRequest::try_new(sku, requested, available_now, backordered) {
        Ok(v) => Ok(v),
        Err(_) => Err(ValidationError::InventoryInvariantFailed),
    }
}

pub fn validate_preorder_window(sku: Sku, opens_at: Timestamp, closes_at: Timestamp, capacity: Quantity) -> (r: Result<PreorderWindow, ValidationError>)
    ensures
        match r {
            Ok(v) => (closes_at.spec_seconds() >= opens_at.spec_seconds()) && v == (PreorderWindow::spec_new(sku, opens_at, closes_at, capacity)),
            Err(e) => !(closes_at.spec_seconds() >= opens_at.spec_seconds()) && e == ValidationError::InventoryInvariantFailed,
        },
{
    match PreorderWindow::try_new(sku, opens_at, closes_at, capacity) {
        Ok(v) => Ok(v),
        Err(_) => Err(ValidationError::InventoryInvariantFailed),
    }
}

pub fn validate_preorder_reservation(window: PreorderWindow, quantity: Quantity, reserved_at: Timestamp) -> (r: Result<PreorderReservation, ValidationError>)
    ensures
        match r {
            Ok(v) => (!(quantity > window.spec_capacity() || reserved_at.spec_seconds() < window.spec_opens_at().spec_seconds() || reserved_at.spec_seconds() > window.spec_closes_at().spec_seconds())) && v == (PreorderReservation::spec_new(window, quantity, reserved_at)),
            Err(e) => !(!(quantity > window.spec_capacity() || reserved_at.spec_seconds() < window.spec_opens_at().spec_seconds() || reserved_at.spec_seconds() > window.spec_closes_at().spec_seconds())) && e == ValidationError::InventoryInvariantFailed,
        },
{
    match PreorderReservation::try_new(window, quantity, reserved_at) {
        Ok(v) => Ok(v),
        Err(_) => Err(ValidationError::InventoryInvariantFailed),
    }
}

pub fn validate_serialized_inventory_set(units: Vec<SerializedInventoryUnit>) -> (r: Result<SerializedInventorySet, ValidationError>)
    ensures
        match r {
            Ok(v) => (serial_numbers_distinct_spec(units@)) && v == (SerializedInventorySet::spec_new(units)),
            Err(e) => !(serial_numbers_distinct_spec(units@)) && e == ValidationError::InventoryInvariantFailed,
        },
{
    match SerializedInventorySet::try_new(units) {
        Ok(v) => Ok(v),
        Err(_) => Err(ValidationError::InventoryInvariantFailed),
    }
}

pub fn validate_sku_substitution(requested_sku: Sku, substitute_sku: Sku, substitute_stock: StockState, max_substitute_qty: Quantity) -> (r: Result<SkuSubstitution, ValidationError>)
    ensures
        match r {
            Ok(v) => (!(substitute_stock.spec_sku() != substitute_sku || max_substitute_qty > available_stock_spec(substitute_stock))) && v == (SkuSubstitution::spec_new(requested_sku, substitute_sku, substitute_stock, max_substitute_qty)),
            Err(e) => !(!(substitute_stock.spec_sku() != substitute_sku || max_substitute_qty > available_stock_spec(substitute_stock))) && e == ValidationError::InventoryInvariantFailed,
        },
{
    match SkuSubstitution::try_new(requested_sku, substitute_sku, substitute_stock, max_substitute_qty) {
        Ok(v) => Ok(v),
        Err(_) => Err(ValidationError::InventoryInvariantFailed),
    }
}

pub fn validate_split_fulfillment_plan(plan: DistinctFulfillmentPlan, first_warehouse: Warehouse, second_warehouse: Warehouse) -> (r: Result<SplitFulfillmentPlan, ValidationError>)
    ensures
        match r {
            Ok(v) => (({ let ok = allocations_use_warehouse_id(plan.spec_allocations()@, first_warehouse.spec_id()) && allocations_use_warehouse_id(plan.spec_allocations()@, second_warehouse.spec_id()) && first_warehouse.spec_id() != second_warehouse.spec_id(); ok })) && v == (SplitFulfillmentPlan::spec_new(plan, first_warehouse, second_warehouse)),
            Err(e) => !(({ let ok = allocations_use_warehouse_id(plan.spec_allocations()@, first_warehouse.spec_id()) && allocations_use_warehouse_id(plan.spec_allocations()@, second_warehouse.spec_id()) && first_warehouse.spec_id() != second_warehouse.spec_id(); ok })) && e == ValidationError::InventoryInvariantFailed,
        },
{
    match SplitFulfillmentPlan::try_new(plan, first_warehouse, second_warehouse) {
        Ok(v) => Ok(v),
        Err(_) => Err(ValidationError::InventoryInvariantFailed),
    }
}

pub fn validate_balanced_journal_entry(postings: Vec<Posting>) -> (r: Result<BalancedJournalEntry, ValidationError>)
    ensures
        match r {
            Ok(v) => (journal_error(postings@) is None) && v == (BalancedJournalEntry::spec_new(postings)),
            Err(e) => !(journal_error(postings@) is None) && e == ValidationError::AccountingInvariantFailed,
        },
{
    match BalancedJournalEntry::try_new(postings) {
        Ok(v) => Ok(v),
        Err(_) => Err(ValidationError::AccountingInvariantFailed),
    }
}

pub fn validate_synced_marketplace_listing(listing: MarketplaceListing, stock: StockState) -> (r: Result<SyncedMarketplaceListing, ValidationError>)
    ensures
        match r {
            Ok(v) => (listing.spec_sku() == stock.spec_sku() && listing.spec_published_stock() <= available_stock_spec(stock)) && v == (SyncedMarketplaceListing::spec_new(listing, stock)),
            Err(e) => !(listing.spec_sku() == stock.spec_sku() && listing.spec_published_stock() <= available_stock_spec(stock)) && e == ValidationError::MarketplaceInvariantFailed,
        },
{
    match SyncedMarketplaceListing::try_new(listing, stock) {
        Ok(v) => Ok(v),
        Err(_) => Err(ValidationError::MarketplaceInvariantFailed),
    }
}

pub fn validate_marketplace_fee_ledger(gross: Money, fee_rate: BasisPoints, fee_rounding_mode: RoundingMode, fee: Money, payout: Money) -> (r: Result<MarketplaceFeeLedger, ValidationError>)
    ensures
        match r {
            Ok(v) => (fee_ledger_error(gross, fee_rate, fee_rounding_mode, fee, payout) is None) && v == (MarketplaceFeeLedger::spec_new(gross, fee_rate, fee_rounding_mode, fee, payout)),
            Err(e) => !(fee_ledger_error(gross, fee_rate, fee_rounding_mode, fee, payout) is None) && e == ValidationError::MarketplaceInvariantFailed,
        },
{
    match MarketplaceFeeLedger::try_new(gross, fee_rate, fee_rounding_mode, fee, payout) {
        Ok(v) => Ok(v),
        Err(_) => Err(ValidationError::MarketplaceInvariantFailed),
    }
}

pub fn validate_marketplace_payout_calculation(gross: Money, payout_rate: BasisPoints, payout_rounding_mode: RoundingMode, payout: Money) -> (r: Result<MarketplacePayoutCalculation, ValidationError>)
    ensures
        match r {
            Ok(v) => (round_bps_spec(payout_rounding_mode, gross, payout_rate) == Ok::<u128, ValidationError>(payout)) && v == (MarketplacePayoutCalculation::spec_new(gross, payout_rate, payout_rounding_mode, payout)),
            Err(e) => !(round_bps_spec(payout_rounding_mode, gross, payout_rate) == Ok::<u128, ValidationError>(payout)) && e == ValidationError::MarketplaceInvariantFailed,
        },
{
    match MarketplacePayoutCalculation::try_new(gross, payout_rate, payout_rounding_mode, payout) {
        Ok(v) => Ok(v),
        Err(_) => Err(ValidationError::MarketplaceInvariantFailed),
    }
}

pub fn validate_marketplace_order(marketplace: Marketplace, external_order_id: MarketplaceOrderId, internal_order: Order, gross_from_marketplace: Money, fee_ledger: MarketplaceFeeLedger) -> (r: Result<MarketplaceOrder, ValidationError>)
    ensures
        match r {
            Ok(v) => (gross_from_marketplace == internal_order.spec_total() && fee_ledger.spec_gross() == gross_from_marketplace) && v == (MarketplaceOrder::spec_new(marketplace, external_order_id, internal_order, gross_from_marketplace, fee_ledger)),
            Err(e) => !(gross_from_marketplace == internal_order.spec_total() && fee_ledger.spec_gross() == gross_from_marketplace) && e == ValidationError::MarketplaceInvariantFailed,
        },
{
    match MarketplaceOrder::try_new(marketplace, external_order_id, internal_order, gross_from_marketplace, fee_ledger) {
        Ok(v) => Ok(v),
        Err(_) => Err(ValidationError::MarketplaceInvariantFailed),
    }
}

pub fn validate_marketing_campaign(id: CampaignId, platform: AdPlatform, ad_type: AdType, destination: AdDestination, status: CampaignStatus, budget: Money, spend: Money, impressions: Nat, clicks: Nat, conversions: Nat, attributed_revenue: Money) -> (r: Result<MarketingCampaign, ValidationError>)
    ensures
        match r {
            Ok(v) => (spend <= budget && clicks <= impressions) && v == (MarketingCampaign::spec_new(id, platform, ad_type, destination, status, budget, spend, impressions, clicks, conversions, attributed_revenue)),
            Err(e) => !(spend <= budget && clicks <= impressions) && e == ValidationError::MarketingInvariantFailed,
        },
{
    match MarketingCampaign::try_new(id, platform, ad_type, destination, status, budget, spend, impressions, clicks, conversions, attributed_revenue) {
        Ok(v) => Ok(v),
        Err(_) => Err(ValidationError::MarketingInvariantFailed),
    }
}

pub fn validate_click_attributed_campaign(campaign: MarketingCampaign) -> (r: Result<ClickAttributedCampaign, ValidationError>)
    ensures
        match r {
            Ok(v) => (campaign.spec_conversions() <= campaign.spec_clicks()) && v == (ClickAttributedCampaign::spec_new(campaign)),
            Err(e) => !(campaign.spec_conversions() <= campaign.spec_clicks()) && e == ValidationError::MarketingInvariantFailed,
        },
{
    match ClickAttributedCampaign::try_new(campaign) {
        Ok(v) => Ok(v),
        Err(_) => Err(ValidationError::MarketingInvariantFailed),
    }
}

pub fn validate_funnel(visitors: Nat, add_to_cart: Nat, checkout_started: Nat, purchases: Nat) -> (r: Result<Funnel, ValidationError>)
    ensures
        match r {
            Ok(v) => (purchases <= checkout_started <= add_to_cart <= visitors) && v == (Funnel::spec_new(visitors, add_to_cart, checkout_started, purchases)),
            Err(e) => !(purchases <= checkout_started <= add_to_cart <= visitors) && e == ValidationError::MarketingInvariantFailed,
        },
{
    match Funnel::try_new(visitors, add_to_cart, checkout_started, purchases) {
        Ok(v) => Ok(v),
        Err(_) => Err(ValidationError::MarketingInvariantFailed),
    }
}

pub fn validate_order_attribution_ledger(order: Order, credits: Vec<AttributionCredit>) -> (r: Result<OrderAttributionLedger, ValidationError>)
    ensures
        match r {
            Ok(v) => (({ let total = total_result(sum_nat(credits@, attribution_credit_total_value()) as int, "attribution_credit_total"); total is Ok && total->Ok_0 <= order.spec_total() })) && v == (OrderAttributionLedger::spec_new(order, credits)),
            Err(e) => !(({ let total = total_result(sum_nat(credits@, attribution_credit_total_value()) as int, "attribution_credit_total"); total is Ok && total->Ok_0 <= order.spec_total() })) && e == ValidationError::MarketingInvariantFailed,
        },
{
    match OrderAttributionLedger::try_new(order, credits) {
        Ok(v) => Ok(v),
        Err(_) => Err(ValidationError::MarketingInvariantFailed),
    }
}

pub fn validate_experiment_variant(id: Id, traffic_weight: Nat, visitors: Nat, conversions: Nat) -> (r: Result<ExperimentVariant, ValidationError>)
    ensures
        match r {
            Ok(v) => (conversions <= visitors) && v == (ExperimentVariant::spec_new(id, traffic_weight, visitors, conversions)),
            Err(e) => !(conversions <= visitors) && e == ValidationError::MarketingInvariantFailed,
        },
{
    match ExperimentVariant::try_new(id, traffic_weight, visitors, conversions) {
        Ok(v) => Ok(v),
        Err(_) => Err(ValidationError::MarketingInvariantFailed),
    }
}

pub fn validate_experiment(id: Id, variants: Vec<ExperimentVariant>) -> (r: Result<Experiment, ValidationError>)
    ensures
        match r {
            Ok(v) => (({ let total = total_result(sum_nat(variants@, experiment_traffic_total_value()) as int, "experiment_traffic_total"); total == Ok::<u128, ValidationError>(100) })) && v == (Experiment::spec_new(id, variants)),
            Err(e) => !(({ let total = total_result(sum_nat(variants@, experiment_traffic_total_value()) as int, "experiment_traffic_total"); total == Ok::<u128, ValidationError>(100) })) && e == ValidationError::MarketingInvariantFailed,
        },
{
    match Experiment::try_new(id, variants) {
        Ok(v) => Ok(v),
        Err(_) => Err(ValidationError::MarketingInvariantFailed),
    }
}

pub fn validate_trade_price_book_entry(sku: Sku, currency: Currency, unit_cost: Money, retail_unit_price: Money, wholesale_unit_price: Money, retail_margin: Money, wholesale_margin: Money, wholesale_min_qty: Quantity) -> (r: Result<TradePriceBookEntry, ValidationError>)
    ensures
        match r {
            Ok(v) => (trade_price_book_error(unit_cost, retail_unit_price, wholesale_unit_price, retail_margin, wholesale_margin, wholesale_min_qty) is None) && v == (TradePriceBookEntry::spec_new(sku, currency, unit_cost, retail_unit_price, wholesale_unit_price, retail_margin, wholesale_margin, wholesale_min_qty)),
            Err(e) => !(trade_price_book_error(unit_cost, retail_unit_price, wholesale_unit_price, retail_margin, wholesale_margin, wholesale_min_qty) is None) && e == ValidationError::B2BInvariantFailed,
        },
{
    match TradePriceBookEntry::try_new(sku, currency, unit_cost, retail_unit_price, wholesale_unit_price, retail_margin, wholesale_margin, wholesale_min_qty) {
        Ok(v) => Ok(v),
        Err(_) => Err(ValidationError::B2BInvariantFailed),
    }
}

pub fn validate_retail_line(entry: TradePriceBookEntry, quantity: Quantity, discount: Money) -> (r: Result<RetailLine, ValidationError>)
    ensures
        match r {
            Ok(v) => (discount <= entry.spec_retail_unit_price() * quantity <= u128::MAX) && v == (RetailLine::spec_new(entry, quantity, discount)),
            Err(e) => !(discount <= entry.spec_retail_unit_price() * quantity <= u128::MAX) && e == ValidationError::B2BInvariantFailed,
        },
{
    match RetailLine::try_new(entry, quantity, discount) {
        Ok(v) => Ok(v),
        Err(_) => Err(ValidationError::B2BInvariantFailed),
    }
}

pub fn validate_wholesale_line(entry: TradePriceBookEntry, quantity: Quantity, discount: Money) -> (r: Result<WholesaleLine, ValidationError>)
    ensures
        match r {
            Ok(v) => (quantity >= entry.spec_wholesale_min_qty() && discount <= entry.spec_wholesale_unit_price() * quantity <= u128::MAX) && v == (WholesaleLine::spec_new(entry, quantity, discount)),
            Err(e) => !(quantity >= entry.spec_wholesale_min_qty() && discount <= entry.spec_wholesale_unit_price() * quantity <= u128::MAX) && e == ValidationError::B2BInvariantFailed,
        },
{
    match WholesaleLine::try_new(entry, quantity, discount) {
        Ok(v) => Ok(v),
        Err(_) => Err(ValidationError::B2BInvariantFailed),
    }
}

pub fn validate_wholesale_credit_account(customer: Customer, credit_limit: Money, outstanding: Money) -> (r: Result<WholesaleCreditAccount, ValidationError>)
    ensures
        match r {
            Ok(v) => ((customer.spec_kind() == CustomerKind::WholesaleAccount && customer.spec_wholesale_approved()) && outstanding <= credit_limit) && v == (WholesaleCreditAccount::spec_new(customer, credit_limit, outstanding)),
            Err(e) => !((customer.spec_kind() == CustomerKind::WholesaleAccount && customer.spec_wholesale_approved()) && outstanding <= credit_limit) && e == ValidationError::B2BInvariantFailed,
        },
{
    match WholesaleCreditAccount::try_new(customer, credit_limit, outstanding) {
        Ok(v) => Ok(v),
        Err(_) => Err(ValidationError::B2BInvariantFailed),
    }
}

pub fn validate_supplier_daily_capacity(supplier: DropshipSupplier, daily_order_capacity: Nat, accepted_orders: Nat) -> (r: Result<SupplierDailyCapacity, ValidationError>)
    ensures
        match r {
            Ok(v) => (accepted_orders <= daily_order_capacity <= supplier.spec_max_daily_orders()) && v == (SupplierDailyCapacity::spec_new(supplier, daily_order_capacity, accepted_orders)),
            Err(e) => !(accepted_orders <= daily_order_capacity <= supplier.spec_max_daily_orders()) && e == ValidationError::DropshippingInvariantFailed,
        },
{
    match SupplierDailyCapacity::try_new(supplier, daily_order_capacity, accepted_orders) {
        Ok(v) => Ok(v),
        Err(_) => Err(ValidationError::DropshippingInvariantFailed),
    }
}

pub fn validate_dropship_offer(sku: Sku, supplier: DropshipSupplier, supplier_unit_cost: Money, sale_unit_price: Money, supplier_shipping_per_unit: Money, available_qty: Quantity, currency: Currency, active: bool) -> (r: Result<DropshipOffer, ValidationError>)
    ensures
        match r {
            Ok(v) => (supplier_unit_cost <= sale_unit_price && currency == supplier.spec_currency()) && v == (DropshipOffer::spec_new(sku, supplier, supplier_unit_cost, sale_unit_price, supplier_shipping_per_unit, available_qty, currency, active)),
            Err(e) => !(supplier_unit_cost <= sale_unit_price && currency == supplier.spec_currency()) && e == ValidationError::DropshippingInvariantFailed,
        },
{
    match DropshipOffer::try_new(sku, supplier, supplier_unit_cost, sale_unit_price, supplier_shipping_per_unit, available_qty, currency, active) {
        Ok(v) => Ok(v),
        Err(_) => Err(ValidationError::DropshippingInvariantFailed),
    }
}

pub fn validate_supplier_reservation(offer: DropshipOffer, supplier: DropshipSupplier, quantity: Quantity, status: SupplierReservationStatus) -> (r: Result<SupplierReservation, ValidationError>)
    ensures
        match r {
            Ok(v) => (offer.spec_supplier().spec_id() == supplier.spec_id() && quantity <= offer.spec_available_qty()) && v == (SupplierReservation::spec_new(offer, supplier, quantity, status)),
            Err(e) => !(offer.spec_supplier().spec_id() == supplier.spec_id() && quantity <= offer.spec_available_qty()) && e == ValidationError::DropshippingInvariantFailed,
        },
{
    match SupplierReservation::try_new(offer, supplier, quantity, status) {
        Ok(v) => Ok(v),
        Err(_) => Err(ValidationError::DropshippingInvariantFailed),
    }
}

pub fn validate_dropship_line(offer: DropshipOffer, quantity: Quantity, discount: Money) -> (r: Result<DropshipLine, ValidationError>)
    ensures
        match r {
            Ok(v) => (dropship_line_error(offer, quantity, discount) is None) && v == (DropshipLine::spec_new(offer, quantity, discount)),
            Err(e) => !(dropship_line_error(offer, quantity, discount) is None) && e == ValidationError::DropshippingInvariantFailed,
        },
{
    match DropshipLine::try_new(offer, quantity, discount) {
        Ok(v) => Ok(v),
        Err(_) => Err(ValidationError::DropshippingInvariantFailed),
    }
}

pub fn validate_reserved_dropship_line(line: DropshipLine, reservation: SupplierReservation) -> (r: Result<ReservedDropshipLine, ValidationError>)
    ensures
        match r {
            Ok(v) => (same_offer(reservation.spec_offer(), line.spec_offer()) && reservation.spec_quantity() == line.spec_quantity() && reservation.spec_status() == SupplierReservationStatus::Confirmed) && v == (ReservedDropshipLine::spec_new(line, reservation)),
            Err(e) => !(same_offer(reservation.spec_offer(), line.spec_offer()) && reservation.spec_quantity() == line.spec_quantity() && reservation.spec_status() == SupplierReservationStatus::Confirmed) && e == ValidationError::DropshippingInvariantFailed,
        },
{
    match ReservedDropshipLine::try_new(line, reservation) {
        Ok(v) => Ok(v),
        Err(_) => Err(ValidationError::DropshippingInvariantFailed),
    }
}

pub fn validate_dropship_purchase_order(supplier: DropshipSupplier, lines: Vec<DropshipLine>, quote: DropshipShippingQuote, status: DropshipPOStatus, total_supplier_cost: Money) -> (r: Result<DropshipPurchaseOrder, ValidationError>)
    ensures
        match r {
            Ok(v) => (dropship_po_error(supplier, lines@, quote, total_supplier_cost) is None) && v == (DropshipPurchaseOrder::spec_new(supplier, lines, quote, status, total_supplier_cost)),
            Err(e) => !(dropship_po_error(supplier, lines@, quote, total_supplier_cost) is None) && e == ValidationError::DropshippingInvariantFailed,
        },
{
    match DropshipPurchaseOrder::try_new(supplier, lines, quote, status, total_supplier_cost) {
        Ok(v) => Ok(v),
        Err(_) => Err(ValidationError::DropshippingInvariantFailed),
    }
}

pub fn validate_dropship_fulfillment(customer_order: Order, purchase_order: DropshipPurchaseOrder, segment_revenue: Money) -> (r: Result<DropshipFulfillment, ValidationError>)
    ensures
        match r {
            Ok(v) => (({ let net = result_sum(purchase_order.spec_lines()@.map_values(dropship_customer_net_fn()), "dropship_sale_net_total"); net == Ok::<u128, ValidationError>(segment_revenue) && segment_revenue <= customer_order.spec_total() })) && v == (DropshipFulfillment::spec_new(customer_order, purchase_order, segment_revenue)),
            Err(e) => !(({ let net = result_sum(purchase_order.spec_lines()@.map_values(dropship_customer_net_fn()), "dropship_sale_net_total"); net == Ok::<u128, ValidationError>(segment_revenue) && segment_revenue <= customer_order.spec_total() })) && e == ValidationError::DropshippingInvariantFailed,
        },
{
    match DropshipFulfillment::try_new(customer_order, purchase_order, segment_revenue) {
        Ok(v) => Ok(v),
        Err(_) => Err(ValidationError::DropshippingInvariantFailed),
    }
}

pub fn validate_dropship_return_request(line: DropshipLine, return_qty: Quantity, customer_refund: Money, supplier_credit: Money) -> (r: Result<DropshipReturnRequest, ValidationError>)
    ensures
        match r {
            Ok(v) => (dropship_return_error(line, return_qty, customer_refund, supplier_credit) is None) && v == (DropshipReturnRequest::spec_new(line, return_qty, customer_refund, supplier_credit)),
            Err(e) => !(dropship_return_error(line, return_qty, customer_refund, supplier_credit) is None) && e == ValidationError::DropshippingInvariantFailed,
        },
{
    match DropshipReturnRequest::try_new(line, return_qty, customer_refund, supplier_credit) {
        Ok(v) => Ok(v),
        Err(_) => Err(ValidationError::DropshippingInvariantFailed),
    }
}

pub fn validate_guaranteed_dropship_profit_quote(revenue: Money, costs: DropshipProfitCosts, min_profit: Money, profit: Money, signed_profit: SignedMoney) -> (r: Result<GuaranteedDropshipProfitQuote, ValidationError>)
    ensures
        match r {
            Ok(v) => (guaranteed_quote_error(revenue, costs, min_profit, profit, signed_profit) is None) && v == (GuaranteedDropshipProfitQuote::spec_new(revenue, costs, min_profit, profit, signed_profit)),
            Err(e) => !(guaranteed_quote_error(revenue, costs, min_profit, profit, signed_profit) is None) && e == ValidationError::ProfitInvariantFailed,
        },
{
    match GuaranteedDropshipProfitQuote::try_new(revenue, costs, min_profit, profit, signed_profit) {
        Ok(v) => Ok(v),
        Err(_) => Err(ValidationError::ProfitInvariantFailed),
    }
}

pub fn validate_dropship_cost_upper_bounds(actual: DropshipProfitCosts, upper: DropshipProfitCosts) -> (r: Result<DropshipCostUpperBounds, ValidationError>)
    ensures
        match r {
            Ok(v) => (costs_within_bounds(actual, upper)) && v == (DropshipCostUpperBounds::spec_new(actual, upper)),
            Err(e) => !(costs_within_bounds(actual, upper)) && e == ValidationError::ProfitInvariantFailed,
        },
{
    match DropshipCostUpperBounds::try_new(actual, upper) {
        Ok(v) => Ok(v),
        Err(_) => Err(ValidationError::ProfitInvariantFailed),
    }
}

/// A benchmark made of one offer, which is then the best one.
pub fn validate_singleton_competitor_price_benchmark(sku: Sku, currency: Currency, offer: CompetitorOffer) -> (r: Result<CompetitorPriceBenchmark, ValidationError>)
    ensures
        match r {
            Ok(v) => offer_relevant_spec(offer, sku, currency) && v.spec_sku() == sku && v.spec_currency() == currency && v.spec_offers()@ == seq![offer]
                && v.spec_best_offer() == offer,
            Err(e) => !offer_relevant_spec(offer, sku, currency) && e == ValidationError::CompetitorInvariantFailed,
        },
{
    let mut offers: Vec<CompetitorOffer> = Vec::new();
    offers.push(offer.clone());
    proof {
        assert(offers@[0] == offer);
        assert(offers@.contains(offer));
    }
    match CompetitorPriceBenchmark::try_new(sku, currency, offers, offer) {
        Ok(v) => Ok(v),
        Err(_) => Err(ValidationError::CompetitorInvariantFailed),
    }
}

pub fn validate_competitor_aware_dropship_offer(offer: DropshipOffer, benchmark: CompetitorPriceBenchmark, discount: Money, costs: DropshipProfitCosts, min_profit: Money) -> (r: Result<CompetitorAwareDropshipOffer, ValidationError>)
    ensures
        match r {
            Ok(v) => (competitor_aware_offer_error(offer, benchmark, discount, costs, min_profit) is None) && v == (CompetitorAwareDropshipOffer::spec_new(offer, benchmark, discount, costs, min_profit)),
            Err(e) => !(competitor_aware_offer_error(offer, benchmark, discount, costs, min_profit) is None) && e == ValidationError::CompetitorInvariantFailed,
        },
{
    match CompetitorAwareDropshipOffer::try_new(offer, benchmark, discount, costs, min_profit) {
        Ok(v) => Ok(v),
        Err(_) => Err(ValidationError::CompetitorInvariantFailed),
    }
}

pub fn validate_brand_pricing_policy(map_price: Money, msrp: Money) -> (r: Result<BrandPricingPolicy, ValidationError>)
    ensures
        match r {
            Ok(v) => (map_price <= msrp) && v == (BrandPricingPolicy::spec_new(map_price, msrp)),
            Err(e) => !(map_price <= msrp) && e == ValidationError::MerchandisingInvariantFailed,
        },
{
    match BrandPricingPolicy::try_new(map_price, msrp) {
        Ok(v) => Ok(v),
        Err(_) => Err(ValidationError::MerchandisingInvariantFailed),
    }
}

pub fn validate_bundle_component(sku: Sku, units_per_bundle: Quantity, stock_available: Quantity) -> (r: Result<BundleComponent, ValidationError>)
    ensures
        match r {
            Ok(v) => (units_per_bundle != 0) && v == (BundleComponent::spec_new(sku, units_per_bundle, stock_available)),
            Err(e) => !(units_per_bundle != 0) && e == ValidationError::MerchandisingInvariantFailed,
        },
{
    match BundleComponent::try_new(sku, units_per_bundle, stock_available) {
        Ok(v) => Ok(v),
        Err(_) => Err(ValidationError::MerchandisingInvariantFailed),
    }
}

pub fn validate_accepted_promotion_set(resulting_price: Money, total_discount: Money, discount_cap: Money, profit_floor: Money) -> (r: Result<AcceptedPromotionSet, ValidationError>)
    ensures
        match r {
            Ok(v) => (total_discount <= discount_cap && profit_floor <= resulting_price) && v == (AcceptedPromotionSet::spec_new(resulting_price, total_discount, discount_cap, profit_floor)),
            Err(e) => !(total_discount <= discount_cap && profit_floor <= resulting_price) && e == ValidationError::MerchandisingInvariantFailed,
        },
{
    match AcceptedPromotionSet::try_new(resulting_price, total_discount, discount_cap, profit_floor) {
        Ok(v) => Ok(v),
        Err(_) => Err(ValidationError::MerchandisingInvariantFailed),
    }
}

pub fn validate_search_result_item(item: SearchResultItem) -> (r: Result<ValidSearchResultItem, ValidationError>)
    ensures
        match r {
            Ok(v) => (!(item.spec_archived() || !item.spec_in_stock() || !item.spec_margin_safe())) && v == (ValidSearchResultItem::spec_new(item)),
            Err(e) => !(!(item.spec_archived() || !item.spec_in_stock() || !item.spec_margin_safe())) && e == ValidationError::MerchandisingInvariantFailed,
        },
{
    match ValidSearchResultItem::try_new(item) {
        Ok(v) => Ok(v),
        Err(_) => Err(ValidationError::MerchandisingInvariantFailed),
    }
}

pub fn validate_exchange_rate(source: Currency, target: Currency, numerator: Nat, denominator: Nat, observed_at: Timestamp) -> (r: Result<ExchangeRate, ValidationError>)
    ensures
        match r {
            Ok(v) => (denominator != 0) && v == (ExchangeRate::spec_new(source, target, numerator, denominator, observed_at)),
            Err(e) => !(denominator != 0) && e == ValidationError::FinanceInvariantFailed,
        },
{
    match ExchangeRate::try_new(source, target, numerator, denominator, observed_at) {
        Ok(v) => Ok(v),
        Err(_) => Err(ValidationError::FinanceInvariantFailed),
    }
}

pub fn validate_tax_calculation(taxable_amount: Money, rate: TaxRate, rounding_mode: RoundingMode, tax: Money, total: Money) -> (r: Result<TaxCalculation, ValidationError>)
    ensures
        match r {
            Ok(v) => (tax_calculation_error(taxable_amount, rate, rounding_mode, tax, total) is None) && v == (TaxCalculation::spec_new(taxable_amount, rate, rounding_mode, tax, total)),
            Err(e) => !(tax_calculation_error(taxable_amount, rate, rounding_mode, tax, total) is None) && e == ValidationError::FinanceInvariantFailed,
        },
{
    match TaxCalculation::try_new(taxable_amount, rate, rounding_mode, tax, total) {
        Ok(v) => Ok(v),
        Err(_) => Err(ValidationError::FinanceInvariantFailed),
    }
}

pub fn validate_tax_inclusive_price(gross: Money, net: Money, tax: Money) -> (r: Result<TaxInclusivePrice, ValidationError>)
    ensures
        match r {
            Ok(v) => (gross == net + tax) && v == (TaxInclusivePrice::spec_new(gross, net, tax)),
            Err(e) => !(gross == net + tax) && e == ValidationError::TaxInvariantFailed,
        },
{
    match TaxInclusivePrice::try_new(gross, net, tax) {
        Ok(v) => Ok(v),
        Err(_) => Err(ValidationError::TaxInvariantFailed),
    }
}

pub fn validate_tax_exclusive_price(net: Money, tax: Money, total: Money) -> (r: Result<TaxExclusivePrice, ValidationError>)
    ensures
        match r {
            Ok(v) => (total == net + tax) && v == (TaxExclusivePrice::spec_new(net, tax, total)),
            Err(e) => !(total == net + tax) && e == ValidationError::TaxInvariantFailed,
        },
{
    match TaxExclusivePrice::try_new(net, tax, total) {
        Ok(v) => Ok(v),
        Err(_) => Err(ValidationError::TaxInvariantFailed),
    }
}

pub fn validate_tax_invoice_line(raw: RawTaxInvoiceLine) -> (r: Result<TaxInvoiceLine, ValidationError>)
    ensures
        match r {
            Ok(v) => (tax_invoice_line_error(raw.spec_quantity(), raw.spec_unit_price(), raw.spec_discount(), raw.spec_treatment(), raw.spec_rate(), raw.spec_rounding_mode(), raw.spec_taxable_amount(), raw.spec_tax(), raw.spec_total()) is None) && v == (TaxInvoiceLine::spec_new(raw.spec_sku(), raw.spec_quantity(), raw.spec_unit_price(), raw.spec_discount(), raw.spec_treatment(), raw.spec_rate(), raw.spec_rounding_mode(), raw.spec_taxable_amount(), raw.spec_tax(), raw.spec_total())),
            Err(e) => !(tax_invoice_line_error(raw.spec_quantity(), raw.spec_unit_price(), raw.spec_discount(), raw.spec_treatment(), raw.spec_rate(), raw.spec_rounding_mode(), raw.spec_taxable_amount(), raw.spec_tax(), raw.spec_total()) is None) && e == ValidationError::TaxInvariantFailed,
        },
{
    match TaxInvoiceLine::try_new(raw.sku, raw.quantity, raw.unit_price, raw.discount, raw.treatment, raw.rate, raw.rounding_mode, raw.taxable_amount, raw.tax, raw.total) {
        Ok(v) => Ok(v),
        Err(_) => Err(ValidationError::TaxInvariantFailed),
    }
}

pub fn validate_order_tax_invoice_link(order: Order, invoice: TaxInvoice) -> (r: Result<OrderTaxInvoiceLink, ValidationError>)
    ensures
        match r {
            Ok(v) => ((order.spec_tax() == invoice.spec_tax() && invoice.spec_currency() == order.spec_currency())) && v == (OrderTaxInvoiceLink::spec_new(order, invoice)),
            Err(e) => !((order.spec_tax() == invoice.spec_tax() && invoice.spec_currency() == order.spec_currency())) && e == ValidationError::TaxInvariantFailed,
        },
{
    match OrderTaxInvoiceLink::try_new(order, invoice) {
        Ok(v) => Ok(v),
        Err(_) => Err(ValidationError::TaxInvariantFailed),
    }
}

pub fn validate_tax_exemption_certificate(customer_id: CustomerId, jurisdiction_id: Id, valid_from: Timestamp, valid_until: Timestamp) -> (r: Result<TaxExemptionCertificate, ValidationError>)
    ensures
        match r {
            Ok(v) => (valid_until.spec_seconds() >= valid_from.spec_seconds()) && v == (TaxExemptionCertificate::spec_new(customer_id, jurisdiction_id, valid_from, valid_until)),
            Err(e) => !(valid_until.spec_seconds() >= valid_from.spec_seconds()) && e == ValidationError::TaxInvariantFailed,
        },
{
    match TaxExemptionCertificate::try_new(customer_id, jurisdiction_id, valid_from, valid_until) {
        Ok(v) => Ok(v),
        Err(_) => Err(ValidationError::TaxInvariantFailed),
    }
}

pub fn validate_b2b_tax_exemption(customer: Customer, jurisdiction: TaxJurisdiction, certificate: TaxExemptionCertificate, checked_at: Timestamp) -> (r: Result<B2BTaxExemption, ValidationError>)
    ensures
        match r {
            Ok(v) => ((certificate.spec_customer_id() == customer.spec_id() && certificate.spec_jurisdiction_id() == jurisdiction.spec_id() && customer.spec_wholesale_approved() && certificate_valid_at_spec(certificate, checked_at))) && v == (B2BTaxExemption::spec_new(customer, jurisdiction, certificate, checked_at)),
            Err(e) => !((certificate.spec_customer_id() == customer.spec_id() && certificate.spec_jurisdiction_id() == jurisdiction.spec_id() && customer.spec_wholesale_approved() && certificate_valid_at_spec(certificate, checked_at))) && e == ValidationError::TaxInvariantFailed,
        },
{
    match B2BTaxExemption::try_new(customer, jurisdiction, certificate, checked_at) {
        Ok(v) => Ok(v),
        Err(_) => Err(ValidationError::TaxInvariantFailed),
    }
}

pub fn validate_marketplace_facilitator_tax(marketplace: Marketplace, jurisdiction: TaxJurisdiction, taxable_amount: Money, rate: TaxRate, rounding_mode: RoundingMode, tax: Money, facilitator_collects: bool, seller_tax_due: Money) -> (r: Result<MarketplaceFacilitatorTax, ValidationError>)
    ensures
        match r {
            Ok(v) => (match tax_amount_spec(rounding_mode, rate, taxable_amount) { Err(_) => false, Ok(expected) => tax == expected && seller_tax_due == (if facilitator_collects { 0 } else { tax }) }) && v == (MarketplaceFacilitatorTax::spec_new(marketplace, jurisdiction, taxable_amount, rate, rounding_mode, tax, facilitator_collects, seller_tax_due)),
            Err(e) => !(match tax_amount_spec(rounding_mode, rate, taxable_amount) { Err(_) => false, Ok(expected) => tax == expected && seller_tax_due == (if facilitator_collects { 0 } else { tax }) }) && e == ValidationError::TaxInvariantFailed,
        },
{
    match MarketplaceFacilitatorTax::try_new(marketplace, jurisdiction, taxable_amount, rate, rounding_mode, tax, facilitator_collects, seller_tax_due) {
        Ok(v) => Ok(v),
        Err(_) => Err(ValidationError::TaxInvariantFailed),
    }
}

pub fn validate_carrier_quote(service: CarrierService, package: Package, price: Money) -> (r: Result<CarrierQuote, ValidationError>)
    ensures
        match r {
            Ok(v) => (package.spec_weight() <= service.spec_max_weight() && price >= service.spec_base_cost()) && v == (CarrierQuote::spec_new(service, package, price)),
            Err(e) => !(package.spec_weight() <= service.spec_max_weight() && price >= service.spec_base_cost()) && e == ValidationError::FinanceInvariantFailed,
        },
{
    match CarrierQuote::try_new(service, package, price) {
        Ok(v) => Ok(v),
        Err(_) => Err(ValidationError::FinanceInvariantFailed),
    }
}

pub fn validate_reconciliation_within_tolerance(expected: Money, actual: Money, tolerance: Money) -> (r: Result<ReconciliationWithinTolerance, ValidationError>)
    ensures
        match r {
            Ok(v) => (abs_diff_spec(expected as int, actual as int) <= tolerance) && v == (ReconciliationWithinTolerance::spec_new(expected, actual, tolerance)),
            Err(e) => !(abs_diff_spec(expected as int, actual as int) <= tolerance) && e == ValidationError::FinanceInvariantFailed,
        },
{
    match ReconciliationWithinTolerance::try_new(expected, actual, tolerance) {
        Ok(v) => Ok(v),
        Err(_) => Err(ValidationError::FinanceInvariantFailed),
    }
}

pub fn validate_subscription_plan(price: Money, period_days: Days) -> (r: Result<SubscriptionPlan, ValidationError>)
    ensures
        match r {
            Ok(v) => (period_days.spec_seconds() != 0) && v == (SubscriptionPlan::spec_new(price, period_days)),
            Err(e) => !(period_days.spec_seconds() != 0) && e == ValidationError::PostPurchaseInvariantFailed,
        },
{
    match SubscriptionPlan::try_new(price, period_days) {
        Ok(v) => Ok(v),
        Err(_) => Err(ValidationError::PostPurchaseInvariantFailed),
    }
}

pub fn validate_recurring_subscription(customer: CustomerId, plan: SubscriptionPlan, status: SubscriptionLifecycleStatus, current_billing_date: Timestamp, next_billing_date: Timestamp) -> (r: Result<RecurringSubscription, ValidationError>)
    ensures
        match r {
            Ok(v) => (current_billing_date.spec_seconds() < next_billing_date.spec_seconds()) && v == (RecurringSubscription::spec_new(customer, plan, status, current_billing_date, next_billing_date)),
            Err(e) => !(current_billing_date.spec_seconds() < next_billing_date.spec_seconds()) && e == ValidationError::PostPurchaseInvariantFailed,
        },
{
    match RecurringSubscription::try_new(customer, plan, status, current_billing_date, next_billing_date) {
        Ok(v) => Ok(v),
        Err(_) => Err(ValidationError::PostPurchaseInvariantFailed),
    }
}

pub fn validate_gift_card_redemption(card: GiftCard, amount: Money) -> (r: Result<GiftCardRedemption, ValidationError>)
    ensures
        match r {
            Ok(v) => (amount <= card.spec_balance()) && v == (GiftCardRedemption::spec_new(card, amount)),
            Err(e) => !(amount <= card.spec_balance()) && e == ValidationError::PostPurchaseInvariantFailed,
        },
{
    match GiftCardRedemption::try_new(card, amount) {
        Ok(v) => Ok(v),
        Err(_) => Err(ValidationError::PostPurchaseInvariantFailed),
    }
}

pub fn validate_chargeback(payment_amount: Money, chargeback_amount: Money) -> (r: Result<Chargeback, ValidationError>)
    ensures
        match r {
            Ok(v) => (chargeback_amount <= payment_amount) && v == (Chargeback::spec_new(payment_amount, chargeback_amount)),
            Err(e) => !(chargeback_amount <= payment_amount) && e == ValidationError::PostPurchaseInvariantFailed,
        },
{
    match Chargeback::try_new(payment_amount, chargeback_amount) {
        Ok(v) => Ok(v),
        Err(_) => Err(ValidationError::PostPurchaseInvariantFailed),
    }
}

pub fn validate_cashflow_plan(starting_cash: Money, required_reserve: Money, expected_inflows: Money, expected_outflows: Money) -> (r: Result<CashflowPlan, ValidationError>)
    ensures
        match r {
            Ok(v) => (cashflow_plan_error(starting_cash as int, required_reserve as int, expected_inflows as int, expected_outflows as int, "cashflow reserve", "cashflow available", "cashflow reserve is unsafe") is None) && v == (CashflowPlan::spec_new(starting_cash, required_reserve, expected_inflows, expected_outflows)),
            Err(e) => !(cashflow_plan_error(starting_cash as int, required_reserve as int, expected_inflows as int, expected_outflows as int, "cashflow reserve", "cashflow available", "cashflow reserve is unsafe") is None) && e == ValidationError::PostPurchaseInvariantFailed,
        },
{
    match CashflowPlan::try_new(starting_cash, required_reserve, expected_inflows, expected_outflows) {
        Ok(v) => Ok(v),
        Err(_) => Err(ValidationError::PostPurchaseInvariantFailed),
    }
}

pub fn validate_event_backed_cashflow_plan(starting_cash: Money, required_reserve: Money, events: Vec<CashflowEvent>) -> (r: Result<EventBackedCashflowPlan, ValidationError>)
    ensures
        match r {
            Ok(v) => (event_backed_cashflow_error(starting_cash, required_reserve, events@) is None) && v.spec_starting_cash() == starting_cash && v.spec_required_reserve() == required_reserve && v.spec_events()@ == events@,
            Err(e) => !(event_backed_cashflow_error(starting_cash, required_reserve, events@) is None) && e == ValidationError::PostPurchaseInvariantFailed,
        },
{
    match EventBackedCashflowPlan::try_new(starting_cash, required_reserve, events) {
        Ok(v) => Ok(v),
        Err(_) => Err(ValidationError::PostPurchaseInvariantFailed),
    }
}

pub fn validate_audited_command(actor: Role, action: Action, order_id: OrderId, event: AuditEvent) -> (r: Result<AuditedCommand, ValidationError>)
    ensures
        match r {
            Ok(v) => (can_perform_spec(actor, action) && event.spec_actor() == actor && event.spec_action() == action && event.spec_order_id() == order_id) && v == (AuditedCommand::spec_new(actor, action, order_id, event)),
            Err(e) => !(can_perform_spec(actor, action) && event.spec_actor() == actor && event.spec_action() == action && event.spec_order_id() == order_id) && e == ValidationError::AuditPermissionDenied,
        },
{
    match AuditedCommand::try_new(actor, action, order_id, event) {
        Ok(v) => Ok(v),
        Err(_) => Err(ValidationError::AuditPermissionDenied),
    }
}

pub fn validate_audited_entity_command(actor: Role, action: Action, subject_id: Id, event: EntityAuditEvent) -> (r: Result<AuditedEntityCommand, ValidationError>)
    ensures
        match r {
            Ok(v) => (can_perform_spec(actor, action) && event.spec_actor() == actor && event.spec_action() == action && event.spec_subject_id() == subject_id) && v == (AuditedEntityCommand::spec_new(actor, action, subject_id, event)),
            Err(e) => !(can_perform_spec(actor, action) && event.spec_actor() == actor && event.spec_action() == action && event.spec_subject_id() == subject_id) && e == ValidationError::AuditPermissionDenied,
        },
{
    match AuditedEntityCommand::try_new(actor, action, subject_id, event) {
        Ok(v) => Ok(v),
        Err(_) => Err(ValidationError::AuditPermissionDenied),
    }
}

pub fn validate_event_stream(stream: EventStream) -> (r: Result<ValidEventStream, ValidationError>)
    ensures
        match r {
            Ok(v) => (sequences_increase_from(0, stream.spec_events()@) && stream.spec_last_sequence() == final_sequence(0, stream.spec_events()@)) && v == (ValidEventStream::spec_new(stream)),
            Err(e) => !(sequences_increase_from(0, stream.spec_events()@) && stream.spec_last_sequence() == final_sequence(0, stream.spec_events()@)) && e == ValidationError::EventStreamInvalid,
        },
{
    match ValidEventStream::try_new(stream) {
        Ok(v) => Ok(v),
        Err(_) => Err(ValidationError::EventStreamInvalid),
    }
}

pub fn validate_approved_supplier_quality(supplier: DropshipSupplier, metrics: SupplierQualityMetrics, policy: SupplierRiskPolicy) -> (r: Result<ApprovedSupplierQuality, ValidationError>)
    ensures
        match r {
            Ok(v) => (quality_within_policy(metrics, policy)) && v == (ApprovedSupplierQuality::spec_new(supplier, metrics, policy)),
            Err(e) => !(quality_within_policy(metrics, policy)) && e == ValidationError::SupplierQualityInvalid,
        },
{
    match ApprovedSupplierQuality::try_new(supplier, metrics, policy) {
        Ok(v) => Ok(v),
        Err(_) => Err(ValidationError::SupplierQualityInvalid),
    }
}

pub fn validate_dropship_opportunity_candidate(sku: Sku, units: Quantity, target_price: Money, required_capital: Money, expected_profit: Money, min_profit: Money, competitor_price: Money, costs: DropshipProfitCosts) -> (r: Result<DropshipOpportunityCandidate, ValidationError>)
    ensures
        match r {
            Ok(v) => (opportunity_candidate_error(target_price, required_capital, expected_profit, min_profit, competitor_price, costs) is None) && v == (DropshipOpportunityCandidate::spec_new(sku, units, target_price, required_capital, expected_profit, min_profit, competitor_price, costs)),
            Err(e) => !(opportunity_candidate_error(target_price, required_capital, expected_profit, min_profit, competitor_price, costs) is None) && e == ValidationError::OpportunityInvariantFailed,
        },
{
    match DropshipOpportunityCandidate::try_new(sku, units, target_price, required_capital, expected_profit, min_profit, competitor_price, costs) {
        Ok(v) => Ok(v),
        Err(_) => Err(ValidationError::OpportunityInvariantFailed),
    }
}

pub fn validate_dropship_opportunity_portfolio(selected: Vec<DropshipOpportunityCandidate>, investment_fund: Money) -> (r: Result<DropshipOpportunityPortfolio, ValidationError>)
    ensures
        match r {
            Ok(v) => (sum_nat(selected@, candidates_capital_total_value()) <= investment_fund) && v.spec_selected()@ == selected@ && v.spec_investment_fund() == investment_fund,
            Err(e) => !(sum_nat(selected@, candidates_capital_total_value()) <= investment_fund) && e == ValidationError::OpportunityInvariantFailed,
        },
{
    match DropshipOpportunityPortfolio::try_new(selected, investment_fund) {
        Ok(v) => Ok(v),
        Err(_) => Err(ValidationError::OpportunityInvariantFailed),
    }
}

pub fn validate_crm_account(id: AccountId, customer: Customer, tier: AccountTier, status: CRMAccountStatus, lifetime_value: Money, open_balance: Money) -> (r: Result<CRMAccount, ValidationError>)
    ensures
        match r {
            Ok(v) => (open_balance <= lifetime_value) && v == (CRMAccount::spec_new(id, customer, tier, status, lifetime_value, open_balance)),
            Err(e) => !(open_balance <= lifetime_value) && e == ValidationError::CrmInvariantFailed,
        },
{
    match CRMAccount::try_new(id, customer, tier, status, lifetime_value, open_balance) {
        Ok(v) => Ok(v),
        Err(_) => Err(ValidationError::CrmInvariantFailed),
    }
}

pub fn validate_active_crm_account(account: CRMAccount) -> (r: Result<ActiveCRMAccount, ValidationError>)
    ensures
        match r {
            Ok(v) => (account.spec_status() == CRMAccountStatus::Active) && v == (ActiveCRMAccount::spec_new(account)),
            Err(e) => !(account.spec_status() == CRMAccountStatus::Active) && e == ValidationError::CrmInvariantFailed,
        },
{
    match ActiveCRMAccount::try_new(account) {
        Ok(v) => Ok(v),
        Err(_) => Err(ValidationError::CrmInvariantFailed),
    }
}

pub fn validate_crm_account_contact(account: CRMAccount, contact: CRMContact) -> (r: Result<CRMAccountContact, ValidationError>)
    ensures
        match r {
            Ok(v) => ((contact.spec_account_id() == account.spec_id() && contact.spec_customer_id() == account.spec_customer().spec_id())) && v == (CRMAccountContact::spec_new(account, contact)),
            Err(e) => !((contact.spec_account_id() == account.spec_id() && contact.spec_customer_id() == account.spec_customer().spec_id())) && e == ValidationError::CrmInvariantFailed,
        },
{
    match CRMAccountContact::try_new(account, contact) {
        Ok(v) => Ok(v),
        Err(_) => Err(ValidationError::CrmInvariantFailed),
    }
}

pub fn validate_permitted_customer_message(interaction_id: InteractionId, contact: CRMContact, sent_at: Timestamp) -> (r: Result<PermittedCustomerMessage, ValidationError>)
    ensures
        match r {
            Ok(v) => (contact_can_receive_marketing_spec(contact)) && v == (PermittedCustomerMessage::spec_new(interaction_id, contact, sent_at)),
            Err(e) => !(contact_can_receive_marketing_spec(contact)) && e == ValidationError::CrmInvariantFailed,
        },
{
    match PermittedCustomerMessage::try_new(interaction_id, contact, sent_at) {
        Ok(v) => Ok(v),
        Err(_) => Err(ValidationError::CrmInvariantFailed),
    }
}

pub fn validate_permitted_account_message(account_contact: CRMAccountContact, message: PermittedCustomerMessage) -> (r: Result<PermittedAccountMessage, ValidationError>)
    ensures
        match r {
            Ok(v) => (message.spec_contact() == account_contact.spec_contact()) && v == (PermittedAccountMessage::spec_new(account_contact, message)),
            Err(e) => !(message.spec_contact() == account_contact.spec_contact()) && e == ValidationError::CrmInvariantFailed,
        },
{
    match PermittedAccountMessage::try_new(account_contact, message) {
        Ok(v) => Ok(v),
        Err(_) => Err(ValidationError::CrmInvariantFailed),
    }
}

pub fn validate_crm_interaction(id: InteractionId, account_id: AccountId, contact_id: ContactId, kind: InteractionKind, occurred_at: Timestamp, follow_up_due_at: Timestamp) -> (r: Result<CRMInteraction, ValidationError>)
    ensures
        match r {
            Ok(v) => (follow_up_due_at.spec_seconds() >= occurred_at.spec_seconds()) && v == (CRMInteraction::spec_new(id, account_id, contact_id, kind, occurred_at, follow_up_due_at)),
            Err(e) => !(follow_up_due_at.spec_seconds() >= occurred_at.spec_seconds()) && e == ValidationError::CrmInvariantFailed,
        },
{
    match CRMInteraction::try_new(id, account_id, contact_id, kind, occurred_at, follow_up_due_at) {
        Ok(v) => Ok(v),
        Err(_) => Err(ValidationError::CrmInvariantFailed),
    }
}

pub fn validate_crm_interaction_for_contact(account_contact: CRMAccountContact, interaction: CRMInteraction) -> (r: Result<CRMInteractionForContact, ValidationError>)
    ensures
        match r {
            Ok(v) => ((interaction.spec_account_id() == account_contact.spec_account().spec_id() && interaction.spec_contact_id() == account_contact.spec_contact().spec_id())) && v == (CRMInteractionForContact::spec_new(account_contact, interaction)),
            Err(e) => !((interaction.spec_account_id() == account_contact.spec_account().spec_id() && interaction.spec_contact_id() == account_contact.spec_contact().spec_id())) && e == ValidationError::CrmInvariantFailed,
        },
{
    match CRMInteractionForContact::try_new(account_contact, interaction) {
        Ok(v) => Ok(v),
        Err(_) => Err(ValidationError::CrmInvariantFailed),
    }
}

pub fn validate_lead(id: LeadId, account_id: AccountId, contact_id: ContactId, source_campaign: Option<CampaignId>, status: LeadStatus, estimated_value: Money, currency: Currency, created_at: Timestamp, updated_at: Timestamp) -> (r: Result<Lead, ValidationError>)
    ensures
        match r {
            Ok(v) => (updated_at.spec_seconds() >= created_at.spec_seconds()) && v == (Lead::spec_new(id, account_id, contact_id, source_campaign, status, estimated_value, currency, created_at, updated_at)),
            Err(e) => !(updated_at.spec_seconds() >= created_at.spec_seconds()) && e == ValidationError::CrmInvariantFailed,
        },
{
    match Lead::try_new(id, account_id, contact_id, source_campaign, status, estimated_value, currency, created_at, updated_at) {
        Ok(v) => Ok(v),
        Err(_) => Err(ValidationError::CrmInvariantFailed),
    }
}

pub fn validate_lead_for_contact(account_contact: CRMAccountContact, lead: Lead) -> (r: Result<LeadForContact, ValidationError>)
    ensures
        match r {
            Ok(v) => ((lead.spec_account_id() == account_contact.spec_account().spec_id() && lead.spec_contact_id() == account_contact.spec_contact().spec_id())) && v == (LeadForContact::spec_new(account_contact, lead)),
            Err(e) => !((lead.spec_account_id() == account_contact.spec_account().spec_id() && lead.spec_contact_id() == account_contact.spec_contact().spec_id())) && e == ValidationError::CrmInvariantFailed,
        },
{
    match LeadForContact::try_new(account_contact, lead) {
        Ok(v) => Ok(v),
        Err(_) => Err(ValidationError::CrmInvariantFailed),
    }
}

pub fn validate_sales_opportunity(id: OpportunityId, account_id: AccountId, contact_id: ContactId, source_lead: Option<LeadId>, stage: OpportunityStage, amount: Money, currency: Currency, probability: BasisPoints, opened_at: Timestamp, updated_at: Timestamp, expected_close_at: Timestamp) -> (r: Result<SalesOpportunity, ValidationError>)
    ensures
        match r {
            Ok(v) => ((updated_at.spec_seconds() >= opened_at.spec_seconds() && expected_close_at.spec_seconds() >= opened_at.spec_seconds() && stage_probability_allowed_spec(stage, probability))) && v == (SalesOpportunity::spec_new(id, account_id, contact_id, source_lead, stage, amount, currency, probability, opened_at, updated_at, expected_close_at)),
            Err(e) => !((updated_at.spec_seconds() >= opened_at.spec_seconds() && expected_close_at.spec_seconds() >= opened_at.spec_seconds() && stage_probability_allowed_spec(stage, probability))) && e == ValidationError::CrmInvariantFailed,
        },
{
    match SalesOpportunity::try_new(id, account_id, contact_id, source_lead, stage, amount, currency, probability, opened_at, updated_at, expected_close_at) {
        Ok(v) => Ok(v),
        Err(_) => Err(ValidationError::CrmInvariantFailed),
    }
}

pub fn validate_opportunity_for_contact(account_contact: CRMAccountContact, opportunity: SalesOpportunity) -> (r: Result<OpportunityForContact, ValidationError>)
    ensures
        match r {
            Ok(v) => ((opportunity.spec_account_id() == account_contact.spec_account().spec_id() && opportunity.spec_contact_id() == account_contact.spec_contact().spec_id())) && v == (OpportunityForContact::spec_new(account_contact, opportunity)),
            Err(e) => !((opportunity.spec_account_id() == account_contact.spec_account().spec_id() && opportunity.spec_contact_id() == account_contact.spec_contact().spec_id())) && e == ValidationError::CrmInvariantFailed,
        },
{
    match OpportunityForContact::try_new(account_contact, opportunity) {
        Ok(v) => Ok(v),
        Err(_) => Err(ValidationError::CrmInvariantFailed),
    }
}

pub fn validate_sales_pipeline(currency: Currency, opportunities: Vec<SalesOpportunity>) -> (r: Result<SalesPipeline, ValidationError>)
    ensures
        match r {
            Ok(v) => (opportunities_use_currency_spec(currency, opportunities@)) && v.spec_currency() == currency && v.spec_opportunities()@ == opportunities@,
            Err(e) => !(opportunities_use_currency_spec(currency, opportunities@)) && e == ValidationError::CrmInvariantFailed,
        },
{
    match SalesPipeline::try_new(currency, opportunities) {
        Ok(v) => Ok(v),
        Err(_) => Err(ValidationError::CrmInvariantFailed),
    }
}

pub fn validate_customer_segment(id: SegmentId, name: String, member_count: Nat, min_lifetime_value: Money, max_retention_discount: Money) -> (r: Result<CustomerSegment, ValidationError>)
    ensures
        match r {
            Ok(v) => (max_retention_discount <= min_lifetime_value) && v == (CustomerSegment::spec_new(id, name, member_count, min_lifetime_value, max_retention_discount)),
            Err(e) => !(max_retention_discount <= min_lifetime_value) && e == ValidationError::CrmInvariantFailed,
        },
{
    match CustomerSegment::try_new(id, name, member_count, min_lifetime_value, max_retention_discount) {
        Ok(v) => Ok(v),
        Err(_) => Err(ValidationError::CrmInvariantFailed),
    }
}

pub fn validate_segment_membership(account: CRMAccount, segment: CustomerSegment) -> (r: Result<SegmentMembership, ValidationError>)
    ensures
        match r {
            Ok(v) => (account.spec_lifetime_value() >= segment.spec_min_lifetime_value()) && v == (SegmentMembership::spec_new(account, segment)),
            Err(e) => !(account.spec_lifetime_value() >= segment.spec_min_lifetime_value()) && e == ValidationError::CrmInvariantFailed,
        },
{
    match SegmentMembership::try_new(account, segment) {
        Ok(v) => Ok(v),
        Err(_) => Err(ValidationError::CrmInvariantFailed),
    }
}

pub fn validate_support_case(id: SupportCaseId, account_id: AccountId, contact_id: ContactId, order_id: Option<OrderId>, status: SupportCaseStatus, priority: SupportPriority, opened_at: Timestamp, last_updated_at: Timestamp, sla_due_at: Timestamp) -> (r: Result<SupportCase, ValidationError>)
    ensures
        match r {
            Ok(v) => ((last_updated_at.spec_seconds() >= opened_at.spec_seconds() && sla_due_at.spec_seconds() >= opened_at.spec_seconds())) && v == (SupportCase::spec_new(id, account_id, contact_id, order_id, status, priority, opened_at, last_updated_at, sla_due_at)),
            Err(e) => !((last_updated_at.spec_seconds() >= opened_at.spec_seconds() && sla_due_at.spec_seconds() >= opened_at.spec_seconds())) && e == ValidationError::CrmInvariantFailed,
        },
{
    match SupportCase::try_new(id, account_id, contact_id, order_id, status, priority, opened_at, last_updated_at, sla_due_at) {
        Ok(v) => Ok(v),
        Err(_) => Err(ValidationError::CrmInvariantFailed),
    }
}

pub fn validate_support_case_for_contact(account_contact: CRMAccountContact, case_: SupportCase) -> (r: Result<SupportCaseForContact, ValidationError>)
    ensures
        match r {
            Ok(v) => ((case_.spec_account_id() == account_contact.spec_account().spec_id() && case_.spec_contact_id() == account_contact.spec_contact().spec_id())) && v == (SupportCaseForContact::spec_new(account_contact, case_)),
            Err(e) => !((case_.spec_account_id() == account_contact.spec_account().spec_id() && case_.spec_contact_id() == account_contact.spec_contact().spec_id())) && e == ValidationError::CrmInvariantFailed,
        },
{
    match SupportCaseForContact::try_new(account_contact, case_) {
        Ok(v) => Ok(v),
        Err(_) => Err(ValidationError::CrmInvariantFailed),
    }
}

pub fn validate_resolved_support_case(case_: SupportCase, resolved_at: Timestamp) -> (r: Result<ResolvedSupportCase, ValidationError>)
    ensures
        match r {
            Ok(v) => ((case_.spec_status() == SupportCaseStatus::Resolved && resolved_at.spec_seconds() >= case_.spec_opened_at().spec_seconds() && resolved_at.spec_seconds() >= case_.spec_last_updated_at().spec_seconds() && resolved_at.spec_seconds() <= case_.spec_sla_due_at().spec_seconds())) && v == (ResolvedSupportCase::spec_new(case_, resolved_at)),
            Err(e) => !((case_.spec_status() == SupportCaseStatus::Resolved && resolved_at.spec_seconds() >= case_.spec_opened_at().spec_seconds() && resolved_at.spec_seconds() >= case_.spec_last_updated_at().spec_seconds() && resolved_at.spec_seconds() <= case_.spec_sla_due_at().spec_seconds())) && e == ValidationError::CrmInvariantFailed,
        },
{
    match ResolvedSupportCase::try_new(case_, resolved_at) {
        Ok(v) => Ok(v),
        Err(_) => Err(ValidationError::CrmInvariantFailed),
    }
}

pub fn validate_retention_offer(account: CRMAccount, segment: CustomerSegment, coupon: Coupon, uses_before: Nat, discount: Money) -> (r: Result<RetentionOffer, ValidationError>)
    ensures
        match r {
            Ok(v) => (retention_offer_ok(account, segment, coupon, uses_before, discount)) && v == (RetentionOffer::spec_new(account, segment, coupon, uses_before, discount)),
            Err(e) => !(retention_offer_ok(account, segment, coupon, uses_before, discount)) && e == ValidationError::CrmInvariantFailed,
        },
{
    match RetentionOffer::try_new(account, segment, coupon, uses_before, discount) {
        Ok(v) => Ok(v),
        Err(_) => Err(ValidationError::CrmInvariantFailed),
    }
}

pub fn validate_logistics_shipment(id: ShipmentId, plan: LogisticsShipmentPlan, status: ShipmentStatus, created_at: Timestamp, updated_at: Timestamp) -> (r: Result<LogisticsShipment, ValidationError>)
    ensures
        match r {
            Ok(v) => ((id == plan.spec_id() && updated_at.spec_seconds() >= created_at.spec_seconds())) && v == (LogisticsShipment::spec_new(id, plan, status, created_at, updated_at)),
            Err(e) => !((id == plan.spec_id() && updated_at.spec_seconds() >= created_at.spec_seconds())) && e == ValidationError::LogisticsInvariantFailed,
        },
{
    match LogisticsShipment::try_new(id, plan, status, created_at, updated_at) {
        Ok(v) => Ok(v),
        Err(_) => Err(ValidationError::LogisticsInvariantFailed),
    }
}

pub fn validate_warehouse_transfer(id: TransferId, sku: Sku, from_warehouse: Warehouse, to_warehouse: Warehouse, source_stock: StockState, requested: Quantity, in_transit: Quantity, received: Quantity) -> (r: Result<WarehouseTransfer, ValidationError>)
    ensures
        match r {
            Ok(v) => ((source_stock.spec_sku() == sku && from_warehouse.spec_id() != to_warehouse.spec_id() && requested <= available_stock_spec(source_stock) && in_transit <= requested && received <= in_transit)) && v == (WarehouseTransfer::spec_new(id, sku, from_warehouse, to_warehouse, source_stock, requested, in_transit, received)),
            Err(e) => !((source_stock.spec_sku() == sku && from_warehouse.spec_id() != to_warehouse.spec_id() && requested <= available_stock_spec(source_stock) && in_transit <= requested && received <= in_transit)) && e == ValidationError::LogisticsInvariantFailed,
        },
{
    match WarehouseTransfer::try_new(id, sku, from_warehouse, to_warehouse, source_stock, requested, in_transit, received) {
        Ok(v) => Ok(v),
        Err(_) => Err(ValidationError::LogisticsInvariantFailed),
    }
}

pub fn validate_return_authorization(id: ReturnAuthorizationId, support_case: SupportCase, order: Order, ledger: PaymentLedger, status: ReturnAuthorizationStatus, lines: Vec<ReturnLine>, quantity: Quantity, refund_amount: Money, requested_at: Timestamp, decided_at: Timestamp) -> (r: Result<ReturnAuthorization, ValidationError>)
    ensures
        match r {
            Ok(v) => (return_authorization_error(support_case, order, ledger, lines@, quantity, refund_amount, requested_at, decided_at) is None) && v.spec_id() == id && v.spec_support_case() == support_case && v.spec_order() == order && v.spec_ledger() == ledger && v.spec_status() == status && v.spec_lines()@ == lines@ && v.spec_quantity() == quantity && v.spec_refund_amount() == refund_amount && v.spec_requested_at() == requested_at && v.spec_decided_at() == decided_at,
            Err(e) => !(return_authorization_error(support_case, order, ledger, lines@, quantity, refund_amount, requested_at, decided_at) is None) && e == ValidationError::LogisticsInvariantFailed,
        },
{
    match ReturnAuthorization::try_new(id, support_case, order, ledger, status, lines, quantity, refund_amount, requested_at, decided_at) {
        Ok(v) => Ok(v),
        Err(_) => Err(ValidationError::LogisticsInvariantFailed),
    }
}

pub fn validate_return_receipt(authorization: ReturnAuthorization, received_quantity: Quantity, refund_issued: Money, received_at: Timestamp) -> (r: Result<ReturnReceipt, ValidationError>)
    ensures
        match r {
            Ok(v) => ((authorization.spec_status() == ReturnAuthorizationStatus::Approved && received_quantity <= authorization.spec_quantity() && refund_issued <= authorization.spec_refund_amount() && received_at.spec_seconds() >= authorization.spec_decided_at().spec_seconds())) && v == (ReturnReceipt::spec_new(authorization, received_quantity, refund_issued, received_at)),
            Err(e) => !((authorization.spec_status() == ReturnAuthorizationStatus::Approved && received_quantity <= authorization.spec_quantity() && refund_issued <= authorization.spec_refund_amount() && received_at.spec_seconds() >= authorization.spec_decided_at().spec_seconds())) && e == ValidationError::LogisticsInvariantFailed,
        },
{
    match ReturnReceipt::try_new(authorization, received_quantity, refund_issued, received_at) {
        Ok(v) => Ok(v),
        Err(_) => Err(ValidationError::LogisticsInvariantFailed),
    }
}

pub fn validate_bounded_coupon_application(coupon: Coupon, subtotal: Money, uses_before: Nat) -> (r: Result<BoundedCouponApplication, ValidationError>)
    ensures
        match r {
            Ok(v) => ((coupon.spec_min_subtotal() <= subtotal && uses_before < coupon.spec_max_uses()) && coupon.spec_amount() <= subtotal) && v == (BoundedCouponApplication::spec_new(coupon, subtotal, uses_before)),
            Err(e) => !((coupon.spec_min_subtotal() <= subtotal && uses_before < coupon.spec_max_uses()) && coupon.spec_amount() <= subtotal) && e == ValidationError::ImplicitInvariantFailed,
        },
{
    match BoundedCouponApplication::try_new(coupon, subtotal, uses_before) {
        Ok(v) => Ok(v),
        Err(_) => Err(ValidationError::ImplicitInvariantFailed),
    }
}

pub fn validate_captured_payment_matches_order(order: Order, payment: CapturedPayment) -> (r: Result<CapturedPaymentMatchesOrder, ValidationError>)
    ensures
        match r {
            Ok(v) => ((payment.spec_order_id() == order.spec_id() && payment.spec_amount() == order.spec_total() && payment.spec_currency() == order.spec_currency())) && v == (CapturedPaymentMatchesOrder::spec_new(order, payment)),
            Err(e) => !((payment.spec_order_id() == order.spec_id() && payment.spec_amount() == order.spec_total() && payment.spec_currency() == order.spec_currency())) && e == ValidationError::ImplicitInvariantFailed,
        },
{
    match CapturedPaymentMatchesOrder::try_new(order, payment) {
        Ok(v) => Ok(v),
        Err(_) => Err(ValidationError::ImplicitInvariantFailed),
    }
}

pub fn validate_sellable_catalog_entry(entry: ProductCatalogEntry) -> (r: Result<SellableCatalogEntry, ValidationError>)
    ensures
        match r {
            Ok(v) => ((entry.spec_product().spec_status() == ProductStatus::Active && entry.spec_variant().spec_active())) && v == (SellableCatalogEntry::spec_new(entry)),
            Err(e) => !((entry.spec_product().spec_status() == ProductStatus::Active && entry.spec_variant().spec_active())) && e == ValidationError::ImplicitInvariantFailed,
        },
{
    match SellableCatalogEntry::try_new(entry) {
        Ok(v) => Ok(v),
        Err(_) => Err(ValidationError::ImplicitInvariantFailed),
    }
}

pub fn validate_publishable_feed_line(line: SafeProductFeedLine) -> (r: Result<PublishableFeedLine, ValidationError>)
    ensures
        match r {
            Ok(v) => (line.spec_stock() > 0) && v == (PublishableFeedLine::spec_new(line)),
            Err(e) => !(line.spec_stock() > 0) && e == ValidationError::ImplicitInvariantFailed,
        },
{
    match PublishableFeedLine::try_new(line) {
        Ok(v) => Ok(v),
        Err(_) => Err(ValidationError::ImplicitInvariantFailed),
    }
}

pub fn validate_sourceable_distributor_product(product: DistributorProduct, units: Quantity) -> (r: Result<SourceableDistributorProduct, ValidationError>)
    ensures
        match r {
            Ok(v) => (distributor_can_source_spec(product, units)) && v == (SourceableDistributorProduct::spec_new(product, units)),
            Err(e) => !(distributor_can_source_spec(product, units)) && e == ValidationError::ImplicitInvariantFailed,
        },
{
    match SourceableDistributorProduct::try_new(product, units) {
        Ok(v) => Ok(v),
        Err(_) => Err(ValidationError::ImplicitInvariantFailed),
    }
}

pub fn validate_fraud_checked_coupon_application(application: BoundedCouponApplication, policy: FraudPolicy) -> (r: Result<FraudCheckedCouponApplication, ValidationError>)
    ensures
        match r {
            Ok(v) => (application.spec_uses_before() <= policy.spec_max_coupon_uses()) && v == (FraudCheckedCouponApplication::spec_new(application, policy)),
            Err(e) => !(application.spec_uses_before() <= policy.spec_max_coupon_uses()) && e == ValidationError::ImplicitInvariantFailed,
        },
{
    match FraudCheckedCouponApplication::try_new(application, policy) {
        Ok(v) => Ok(v),
        Err(_) => Err(ValidationError::ImplicitInvariantFailed),
    }
}

pub fn validate_advertisable_synced_marketplace_listing(synced: SyncedMarketplaceListing) -> (r: Result<AdvertisableSyncedMarketplaceListing, ValidationError>)
    ensures
        match r {
            Ok(v) => ((synced.spec_listing().spec_status() == ListingStatus::Active && synced.spec_listing().spec_published_stock() > 0)) && v == (AdvertisableSyncedMarketplaceListing::spec_new(synced)),
            Err(e) => !((synced.spec_listing().spec_status() == ListingStatus::Active && synced.spec_listing().spec_published_stock() > 0)) && e == ValidationError::ImplicitInvariantFailed,
        },
{
    match AdvertisableSyncedMarketplaceListing::try_new(synced) {
        Ok(v) => Ok(v),
        Err(_) => Err(ValidationError::ImplicitInvariantFailed),
    }
}

pub fn validate_wholesale_credit_checkout(account: WholesaleCreditAccount, lines: Vec<WholesaleLine>, terms: PaymentTerms, order_total: Money) -> (r: Result<WholesaleCreditCheckout, ValidationError>)
    ensures
        match r {
            Ok(v) => (wholesale_checkout_error(account, lines@, terms, order_total) is None) && v.spec_account() == account && v.spec_lines()@ == lines@ && v.spec_terms() == terms && v.spec_order_total() == order_total,
            Err(e) => !(wholesale_checkout_error(account, lines@, terms, order_total) is None) && e == ValidationError::ImplicitInvariantFailed,
        },
{
    match WholesaleCreditCheckout::try_new(account, lines, terms, order_total) {
        Ok(v) => Ok(v),
        Err(_) => Err(ValidationError::ImplicitInvariantFailed),
    }
}

pub fn validate_trusted_fresh_competitor_benchmark(benchmark: CompetitorPriceBenchmark, now: Timestamp, max_age: Duration, trust: TrustLevel) -> (r: Result<TrustedFreshCompetitorBenchmark, ValidationError>)
    ensures
        match r {
            Ok(v) => (snapshot_fresh_spec(now, max_age, benchmark.spec_best_offer().spec_observed_at()) && (trust == TrustLevel::Medium || trust == TrustLevel::High)) && v == (TrustedFreshCompetitorBenchmark::spec_new(benchmark, now, max_age, trust)),
            Err(e) => !(snapshot_fresh_spec(now, max_age, benchmark.spec_best_offer().spec_observed_at()) && (trust == TrustLevel::Medium || trust == TrustLevel::High)) && e == ValidationError::ImplicitInvariantFailed,
        },
{
    match TrustedFreshCompetitorBenchmark::try_new(benchmark, now, max_age, trust) {
        Ok(v) => Ok(v),
        Err(_) => Err(ValidationError::ImplicitInvariantFailed),
    }
}

pub fn validate_map_compliant_competitor_aware_offer(offer: CompetitorAwareDropshipOffer, policy: BrandPricingPolicy) -> (r: Result<MapCompliantCompetitorAwareOffer, ValidationError>)
    ensures
        match r {
            Ok(v) => (policy.spec_map_price() <= offer.spec_offer().spec_sale_unit_price()) && v == (MapCompliantCompetitorAwareOffer::spec_new(offer, policy)),
            Err(e) => !(policy.spec_map_price() <= offer.spec_offer().spec_sale_unit_price()) && e == ValidationError::ImplicitInvariantFailed,
        },
{
    match MapCompliantCompetitorAwareOffer::try_new(offer, policy) {
        Ok(v) => Ok(v),
        Err(_) => Err(ValidationError::ImplicitInvariantFailed),
    }
}

pub fn validate_fresh_currency_conversion(source_amount: MoneyAmount, rate: ExchangeRate, target_amount: MoneyAmount, now: Timestamp, max_age: Duration) -> (r: Result<FreshCurrencyConversion, ValidationError>)
    ensures
        match r {
            Ok(v) => (fresh_conversion_error(source_amount, rate, target_amount, now, max_age) is None) && v == (FreshCurrencyConversion::spec_new(source_amount, rate, target_amount, now, max_age)),
            Err(e) => !(fresh_conversion_error(source_amount, rate, target_amount, now, max_age) is None) && e == ValidationError::ImplicitInvariantFailed,
        },
{
    match FreshCurrencyConversion::try_new(source_amount, rate, target_amount, now, max_age) {
        Ok(v) => Ok(v),
        Err(_) => Err(ValidationError::ImplicitInvariantFailed),
    }
}

pub fn validate_valid_gift_card_redemption_at(now: Timestamp, redemption: GiftCardRedemption) -> (r: Result<ValidGiftCardRedemptionAt, ValidationError>)
    ensures
        match r {
            Ok(v) => (now.spec_seconds() <= redemption.spec_card().spec_expires_at().spec_seconds()) && v == (ValidGiftCardRedemptionAt::spec_new(now, redemption)),
            Err(e) => !(now.spec_seconds() <= redemption.spec_card().spec_expires_at().spec_seconds()) && e == ValidationError::ImplicitInvariantFailed,
        },
{
    match ValidGiftCardRedemptionAt::try_new(now, redemption) {
        Ok(v) => Ok(v),
        Err(_) => Err(ValidationError::ImplicitInvariantFailed),
    }
}

pub fn validate_chargeback_for_captured_payment(payment: CapturedPayment, chargeback: Chargeback) -> (r: Result<ChargebackForCapturedPayment, ValidationError>)
    ensures
        match r {
            Ok(v) => (chargeback.spec_payment_amount() == payment.spec_amount()) && v == (ChargebackForCapturedPayment::spec_new(payment, chargeback)),
            Err(e) => !(chargeback.spec_payment_amount() == payment.spec_amount()) && e == ValidationError::ImplicitInvariantFailed,
        },
{
    match ChargebackForCapturedPayment::try_new(payment, chargeback) {
        Ok(v) => Ok(v),
        Err(_) => Err(ValidationError::ImplicitInvariantFailed),
    }
}

pub fn validate_actionable_demand_forecast(forecast: DemandForecast) -> (r: Result<ActionableDemandForecast, ValidationError>)
    ensures
        match r {
            Ok(v) => (demand_forecast_actionable_spec(forecast)) && v == (ActionableDemandForecast::spec_new(forecast)),
            Err(e) => !(demand_forecast_actionable_spec(forecast)) && e == ValidationError::ImplicitInvariantFailed,
        },
{
    match ActionableDemandForecast::try_new(forecast) {
        Ok(v) => Ok(v),
        Err(_) => Err(ValidationError::ImplicitInvariantFailed),
    }
}

pub fn validate_approved_orderable_supplier_quality(quality: ApprovedSupplierQuality) -> (r: Result<ApprovedOrderableSupplierQuality, ValidationError>)
    ensures
        match r {
            Ok(v) => (supplier_can_receive_orders_spec(quality.spec_supplier())) && v == (ApprovedOrderableSupplierQuality::spec_new(quality)),
            Err(e) => !(supplier_can_receive_orders_spec(quality.spec_supplier())) && e == ValidationError::ImplicitInvariantFailed,
        },
{
    match ApprovedOrderableSupplierQuality::try_new(quality) {
        Ok(v) => Ok(v),
        Err(_) => Err(ValidationError::ImplicitInvariantFailed),
    }
}

/// The accessor lemmas for the records of this module.
pub broadcast group group_validation_record_fields {
    lemma_valid_refund_fields,
}

} // verus!
