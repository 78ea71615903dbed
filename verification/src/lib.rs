//! Commerce domain records with validating constructors, checked arithmetic
//! and executable predicates, each proved against its contract.

pub mod foundation;
pub mod accounting;
pub mod b2b;
pub mod catalog;
pub mod competitor_pricing;
pub mod crm;
pub mod dropship_profit;
pub mod dropshipping;
pub mod event_language;
pub mod event_replay;
pub mod event_sourcing;
pub mod forecasting;
pub mod fulfillment_finance;
pub mod implicit_invariants;
pub mod inventory;
pub mod inventory_algorithms;
pub mod keyed_totals;
pub mod logistics;
pub mod marketing;
pub mod marketplace;
pub mod merchandising;
pub mod opportunity_portfolio;
pub mod opportunity_ranking;
pub mod orders;
pub mod post_purchase;
pub mod pricing;
pub mod risk_privacy;
pub mod tax;
pub mod validation;
pub mod workflow;

use vstd::prelude::*;
use crate::accounting::{AccountingAccounts, AdvancedAccountingAccounts, BalancedJournalEntry, LedgerAccount, Posting, PostingSide};
use crate::b2b::{Customer, CustomerKind, PaymentTerms, RetailLine, TradeMode, TradePriceBookEntry, WholesaleCreditAccount, WholesaleLine};
use crate::catalog::{Brand, Category, ImageAsset, ListingContent, MarketplaceContentPolicy, Product, ProductCatalogEntry, ProductStatus, ProductVariant, ValidListingContent};
use crate::competitor_pricing::{CompetitivePricingStrategy, CompetitorAwareDropshipOffer, CompetitorOffer, CompetitorPriceBenchmark, TrustLevel};
use crate::crm::{AccountTier, ActiveCRMAccount, CRMAccount, CRMAccountContact, CRMAccountStatus, CRMContact, CRMInteraction, CRMInteractionForContact, ContactKind, CustomerSegment, InteractionKind, Lead, LeadForContact, LeadStatus, OpportunityForContact, OpportunityStage, PermittedAccountMessage, PermittedCustomerMessage, ResolvedSupportCase, RetentionOffer, SalesOpportunity, SalesPipeline, SegmentMembership, SupportCase, SupportCaseForContact, SupportCaseStatus, SupportPriority};
use crate::dropship_profit::{DropshipCostUpperBounds, DropshipProfitCosts, GuaranteedDropshipProfitQuote};
use crate::dropshipping::{DropshipFulfillment, DropshipLine, DropshipOffer, DropshipPOStatus, DropshipPurchaseOrder, DropshipReturnRequest, DropshipShippingQuote, DropshipSupplier, ReservedDropshipLine, SupplierDailyCapacity, SupplierReservation, SupplierReservationStatus};
use crate::event_language::{OrderEventSymbol, OrderEventValidationState};
use crate::event_replay::{Timed};
use crate::event_sourcing::{DomainEvent, EventEnvelope, EventSnapshot, EventStream, IdempotencyState, ValidSystemState, WebhookOrderingState};
use crate::forecasting::{ApprovedSupplierQuality, Confidence, DemandForecast, SupplierQualityMetrics, SupplierRiskPolicy};
use crate::foundation::{Currency, Duration, MoneyAmount, RoundingMode, Timestamp, ValidationError};
use crate::fulfillment_finance::{CarrierQuote, CarrierService, ExchangeRate, Package, ReconciliationWithinTolerance, ShippingZone, TaxCalculation, TaxRate};
use crate::implicit_invariants::{ApprovedOrderableSupplierQuality, BoundedCouponApplication, CapturedPaymentJournalProjection, CapturedPaymentMatchesOrder, ChargebackForCapturedPayment, FraudCheckedCouponApplication, FreshCurrencyConversion, MapCompliantCompetitorAwareOffer, PublishableFeedLine, RefundJournalProjection, SellableCatalogEntry, SourceableDistributorProduct, TrustedFreshCompetitorBenchmark, ValidEventStream, ValidGiftCardRedemptionAt, WholesaleCreditCheckout};
use crate::inventory::{BackorderRequest, BinLocation, BinStock, ConcurrentReservationConflict, DistinctFulfillmentPlan, InventoryLot, InventoryNode, PickTask, PreorderReservation, PreorderWindow, ReservationAttempt, ReservationStatus, SerialNumber, SerializedInventorySet, SerializedInventoryUnit, SkuSubstitution, SplitFulfillmentPlan, StockState, TimedReservation, VersionedStock, Warehouse, WarehouseShipment};
use crate::logistics::{CarrierHandoff, DeliveredShipment, DeliveryPromise, LogisticsException, LogisticsExceptionKind, LogisticsShipment, LogisticsShipmentPlan, ReturnAuthorization, ReturnAuthorizationStatus, ReturnLine, ReturnReceipt, ShipmentStatus, ShippingDestination, TrackingEvent, TrackingEventKind, TrackingHistory, WarehouseTransfer};
use crate::marketing::{AdDestination, AdPlatform, AdType, AttributionCredit, CampaignStatus, ClickAttributedCampaign, ConsentStatus, Experiment, ExperimentVariant, Funnel, MarketingCampaign, MatchedOrderAttributionLedger, OrderAttributionLedger, SubscriptionStatus};
use crate::marketplace::{ChannelPricePolicy, ListingStatus, Marketplace, MarketplaceFeeLedger, MarketplaceListing, MarketplaceOrder, MarketplacePayoutCalculation, SafeProductFeedLine, SalesChannel, SyncedMarketplaceListing};
use crate::merchandising::{AcceptedPromotionSet, BrandPricingPolicy, BundleComponent, BundleReservation, PromotionStackingPolicy, SearchResultItem, ValidSearchResultItem};
use crate::opportunity_portfolio::{DistributorProduct, DropshipOpportunityCandidate, DropshipOpportunityPortfolio};
use crate::orders::{OrderStatusMarker, PaymentStateMarker, CanOrderTransition, CapturedPayment, Order, OrderStatus, PaymentLedger, PaymentState, TypedOrder, TypedPayment};
use crate::post_purchase::{CashflowEvent, CashflowPlan, Chargeback, EventBackedCashflowPlan, GiftCard, GiftCardRedemption, RecurringSubscription, SubscriptionLifecycleStatus, SubscriptionPlan};
use crate::pricing::{CartLine, Coupon, ShippingMethod};
use crate::risk_privacy::{AccessPurpose, Action, AuditEvent, AuditedCommand, AuditedDataAccess, AuditedEntityCommand, ConsentPurpose, DataCategory, DataProcessingPermission, DataRetentionPolicy, EntityAuditEvent, ErasureStatus, FraudPolicy, MarketingConsentState, ProcessingBasis, RetainedPersonalData, Role};
use crate::tax::{B2BTaxExemption, MarketplaceFacilitatorTax, OrderTaxInvoiceLink, TaxExclusivePrice, TaxExemptionCertificate, TaxInclusivePrice, TaxInvoice, TaxInvoiceLine, TaxJurisdiction, TaxPriceMode, TaxRegime, TaxTreatment};
use crate::validation::{ValidRefund};
use crate::workflow::{DropshipPOTransitionLabel, OrderTransitionLabel};

verus! {

/// Uniform read access to a record field: plain values are copied out,
/// records are lent, strings and vectors are lent as slices.
pub trait FieldAccess {
    type Output<'a> where Self: 'a;

    fn access(&self) -> Self::Output<'_>;
}

/// Marks the types that `FieldAccess` lends by reference.
pub trait RefFieldAccess {}

impl<T: RefFieldAccess + 'static> FieldAccess for T {
    type Output<'a> = &'a Self;

    fn access(&self) -> (r: Self::Output<'_>)
        ensures
            *r == *self,
    {
        self
    }
}

impl FieldAccess for String {
    type Output<'a> = &'a str;

    fn access(&self) -> (r: Self::Output<'_>)
        ensures
            r@ == self@,
    {
        self.as_str()
    }
}

impl<T: 'static> FieldAccess for Vec<T> {
    type Output<'a> = &'a [T];

    fn access(&self) -> (r: Self::Output<'_>)
        ensures
            r@ == self@,
    {
        self.as_slice()
    }
}

impl<T: Copy + 'static> FieldAccess for Option<T> {
    type Output<'a> = Self;

    fn access(&self) -> (r: Self::Output<'_>)
        ensures
            r == *self,
    {
        *self
    }
}

impl<S: OrderStatusMarker + 'static> FieldAccess for TypedOrder<S> {
    type Output<'a> = Self;

    fn access(&self) -> (r: Self::Output<'_>)
        ensures
            r == *self,
    {
        *self
    }
}

impl<S: PaymentStateMarker + 'static> FieldAccess for TypedPayment<S> {
    type Output<'a> = Self;

    fn access(&self) -> (r: Self::Output<'_>)
        ensures
            r == *self,
    {
        *self
    }
}

impl<T> RefFieldAccess for Timed<T> {}

impl FieldAccess for bool {
    type Output<'a> = Self;

    fn access(&self) -> (r: Self::Output<'_>)
        ensures
            r == *self,
    {
        *self
    }
}

impl FieldAccess for u128 {
    type Output<'a> = Self;

    fn access(&self) -> (r: Self::Output<'_>)
        ensures
            r == *self,
    {
        *self
    }
}

impl FieldAccess for i128 {
    type Output<'a> = Self;

    fn access(&self) -> (r: Self::Output<'_>)
        ensures
            r == *self,
    {
        *self
    }
}

impl FieldAccess for Duration {
    type Output<'a> = Self;

    fn access(&self) -> (r: Self::Output<'_>)
        ensures
            r == *self,
    {
        *self
    }
}

impl FieldAccess for Timestamp {
    type Output<'a> = Self;

    fn access(&self) -> (r: Self::Output<'_>)
        ensures
            r == *self,
    {
        *self
    }
}

impl FieldAccess for AccountTier {
    type Output<'a> = Self;

    fn access(&self) -> (r: Self::Output<'_>)
        ensures
            r == *self,
    {
        *self
    }
}

impl FieldAccess for Action {
    type Output<'a> = Self;

    fn access(&self) -> (r: Self::Output<'_>)
        ensures
            r == *self,
    {
        *self
    }
}

impl FieldAccess for AccessPurpose {
    type Output<'a> = Self;

    fn access(&self) -> (r: Self::Output<'_>)
        ensures
            r == *self,
    {
        *self
    }
}

impl FieldAccess for AdDestination {
    type Output<'a> = Self;

    fn access(&self) -> (r: Self::Output<'_>)
        ensures
            r == *self,
    {
        *self
    }
}

impl FieldAccess for AdPlatform {
    type Output<'a> = Self;

    fn access(&self) -> (r: Self::Output<'_>)
        ensures
            r == *self,
    {
        *self
    }
}

impl FieldAccess for AdType {
    type Output<'a> = Self;

    fn access(&self) -> (r: Self::Output<'_>)
        ensures
            r == *self,
    {
        *self
    }
}

impl FieldAccess for CampaignStatus {
    type Output<'a> = Self;

    fn access(&self) -> (r: Self::Output<'_>)
        ensures
            r == *self,
    {
        *self
    }
}

impl FieldAccess for CanOrderTransition {
    type Output<'a> = Self;

    fn access(&self) -> (r: Self::Output<'_>)
        ensures
            r == *self,
    {
        *self
    }
}

impl FieldAccess for CompetitivePricingStrategy {
    type Output<'a> = Self;

    fn access(&self) -> (r: Self::Output<'_>)
        ensures
            r == *self,
    {
        *self
    }
}

impl FieldAccess for Confidence {
    type Output<'a> = Self;

    fn access(&self) -> (r: Self::Output<'_>)
        ensures
            r == *self,
    {
        *self
    }
}

impl FieldAccess for ConsentPurpose {
    type Output<'a> = Self;

    fn access(&self) -> (r: Self::Output<'_>)
        ensures
            r == *self,
    {
        *self
    }
}

impl FieldAccess for ConsentStatus {
    type Output<'a> = Self;

    fn access(&self) -> (r: Self::Output<'_>)
        ensures
            r == *self,
    {
        *self
    }
}

impl FieldAccess for ContactKind {
    type Output<'a> = Self;

    fn access(&self) -> (r: Self::Output<'_>)
        ensures
            r == *self,
    {
        *self
    }
}

impl FieldAccess for Currency {
    type Output<'a> = Self;

    fn access(&self) -> (r: Self::Output<'_>)
        ensures
            r == *self,
    {
        *self
    }
}

impl FieldAccess for CustomerKind {
    type Output<'a> = Self;

    fn access(&self) -> (r: Self::Output<'_>)
        ensures
            r == *self,
    {
        *self
    }
}

impl FieldAccess for CRMAccountStatus {
    type Output<'a> = Self;

    fn access(&self) -> (r: Self::Output<'_>)
        ensures
            r == *self,
    {
        *self
    }
}

impl FieldAccess for DataCategory {
    type Output<'a> = Self;

    fn access(&self) -> (r: Self::Output<'_>)
        ensures
            r == *self,
    {
        *self
    }
}

impl FieldAccess for DropshipPOStatus {
    type Output<'a> = Self;

    fn access(&self) -> (r: Self::Output<'_>)
        ensures
            r == *self,
    {
        *self
    }
}

impl FieldAccess for DropshipPOTransitionLabel {
    type Output<'a> = Self;

    fn access(&self) -> (r: Self::Output<'_>)
        ensures
            r == *self,
    {
        *self
    }
}

impl FieldAccess for ErasureStatus {
    type Output<'a> = Self;

    fn access(&self) -> (r: Self::Output<'_>)
        ensures
            r == *self,
    {
        *self
    }
}

impl FieldAccess for InteractionKind {
    type Output<'a> = Self;

    fn access(&self) -> (r: Self::Output<'_>)
        ensures
            r == *self,
    {
        *self
    }
}

impl FieldAccess for LeadStatus {
    type Output<'a> = Self;

    fn access(&self) -> (r: Self::Output<'_>)
        ensures
            r == *self,
    {
        *self
    }
}

impl FieldAccess for ListingStatus {
    type Output<'a> = Self;

    fn access(&self) -> (r: Self::Output<'_>)
        ensures
            r == *self,
    {
        *self
    }
}

impl FieldAccess for LogisticsExceptionKind {
    type Output<'a> = Self;

    fn access(&self) -> (r: Self::Output<'_>)
        ensures
            r == *self,
    {
        *self
    }
}

impl FieldAccess for Marketplace {
    type Output<'a> = Self;

    fn access(&self) -> (r: Self::Output<'_>)
        ensures
            r == *self,
    {
        *self
    }
}

impl FieldAccess for OpportunityStage {
    type Output<'a> = Self;

    fn access(&self) -> (r: Self::Output<'_>)
        ensures
            r == *self,
    {
        *self
    }
}

impl FieldAccess for OrderEventSymbol {
    type Output<'a> = Self;

    fn access(&self) -> (r: Self::Output<'_>)
        ensures
            r == *self,
    {
        *self
    }
}

impl FieldAccess for OrderEventValidationState {
    type Output<'a> = Self;

    fn access(&self) -> (r: Self::Output<'_>)
        ensures
            r == *self,
    {
        *self
    }
}

impl FieldAccess for OrderStatus {
    type Output<'a> = Self;

    fn access(&self) -> (r: Self::Output<'_>)
        ensures
            r == *self,
    {
        *self
    }
}

impl FieldAccess for OrderTransitionLabel {
    type Output<'a> = Self;

    fn access(&self) -> (r: Self::Output<'_>)
        ensures
            r == *self,
    {
        *self
    }
}

impl FieldAccess for PaymentState {
    type Output<'a> = Self;

    fn access(&self) -> (r: Self::Output<'_>)
        ensures
            r == *self,
    {
        *self
    }
}

impl FieldAccess for PaymentTerms {
    type Output<'a> = Self;

    fn access(&self) -> (r: Self::Output<'_>)
        ensures
            r == *self,
    {
        *self
    }
}

impl FieldAccess for PostingSide {
    type Output<'a> = Self;

    fn access(&self) -> (r: Self::Output<'_>)
        ensures
            r == *self,
    {
        *self
    }
}

impl FieldAccess for ProcessingBasis {
    type Output<'a> = Self;

    fn access(&self) -> (r: Self::Output<'_>)
        ensures
            r == *self,
    {
        *self
    }
}

impl FieldAccess for ProductStatus {
    type Output<'a> = Self;

    fn access(&self) -> (r: Self::Output<'_>)
        ensures
            r == *self,
    {
        *self
    }
}

impl FieldAccess for PromotionStackingPolicy {
    type Output<'a> = Self;

    fn access(&self) -> (r: Self::Output<'_>)
        ensures
            r == *self,
    {
        *self
    }
}

impl FieldAccess for ReservationStatus {
    type Output<'a> = Self;

    fn access(&self) -> (r: Self::Output<'_>)
        ensures
            r == *self,
    {
        *self
    }
}

impl FieldAccess for ReturnAuthorizationStatus {
    type Output<'a> = Self;

    fn access(&self) -> (r: Self::Output<'_>)
        ensures
            r == *self,
    {
        *self
    }
}

impl FieldAccess for Role {
    type Output<'a> = Self;

    fn access(&self) -> (r: Self::Output<'_>)
        ensures
            r == *self,
    {
        *self
    }
}

impl FieldAccess for RoundingMode {
    type Output<'a> = Self;

    fn access(&self) -> (r: Self::Output<'_>)
        ensures
            r == *self,
    {
        *self
    }
}

impl FieldAccess for SalesChannel {
    type Output<'a> = Self;

    fn access(&self) -> (r: Self::Output<'_>)
        ensures
            r == *self,
    {
        *self
    }
}

impl FieldAccess for SerialNumber {
    type Output<'a> = Self;

    fn access(&self) -> (r: Self::Output<'_>)
        ensures
            r == *self,
    {
        *self
    }
}

impl FieldAccess for ShipmentStatus {
    type Output<'a> = Self;

    fn access(&self) -> (r: Self::Output<'_>)
        ensures
            r == *self,
    {
        *self
    }
}

impl FieldAccess for SubscriptionLifecycleStatus {
    type Output<'a> = Self;

    fn access(&self) -> (r: Self::Output<'_>)
        ensures
            r == *self,
    {
        *self
    }
}

impl FieldAccess for SubscriptionStatus {
    type Output<'a> = Self;

    fn access(&self) -> (r: Self::Output<'_>)
        ensures
            r == *self,
    {
        *self
    }
}

impl FieldAccess for SupplierReservationStatus {
    type Output<'a> = Self;

    fn access(&self) -> (r: Self::Output<'_>)
        ensures
            r == *self,
    {
        *self
    }
}

impl FieldAccess for SupportCaseStatus {
    type Output<'a> = Self;

    fn access(&self) -> (r: Self::Output<'_>)
        ensures
            r == *self,
    {
        *self
    }
}

impl FieldAccess for SupportPriority {
    type Output<'a> = Self;

    fn access(&self) -> (r: Self::Output<'_>)
        ensures
            r == *self,
    {
        *self
    }
}

impl FieldAccess for TaxPriceMode {
    type Output<'a> = Self;

    fn access(&self) -> (r: Self::Output<'_>)
        ensures
            r == *self,
    {
        *self
    }
}

impl FieldAccess for TaxRegime {
    type Output<'a> = Self;

    fn access(&self) -> (r: Self::Output<'_>)
        ensures
            r == *self,
    {
        *self
    }
}

impl FieldAccess for TaxTreatment {
    type Output<'a> = Self;

    fn access(&self) -> (r: Self::Output<'_>)
        ensures
            r == *self,
    {
        *self
    }
}

impl FieldAccess for TrackingEventKind {
    type Output<'a> = Self;

    fn access(&self) -> (r: Self::Output<'_>)
        ensures
            r == *self,
    {
        *self
    }
}

impl FieldAccess for TradeMode {
    type Output<'a> = Self;

    fn access(&self) -> (r: Self::Output<'_>)
        ensures
            r == *self,
    {
        *self
    }
}

impl FieldAccess for TrustLevel {
    type Output<'a> = Self;

    fn access(&self) -> (r: Self::Output<'_>)
        ensures
            r == *self,
    {
        *self
    }
}

impl FieldAccess for ValidationError {
    type Output<'a> = Self;

    fn access(&self) -> (r: Self::Output<'_>)
        ensures
            r == *self,
    {
        *self
    }
}

impl FieldAccess for Lead {
    type Output<'a> = Self;

    fn access(&self) -> (r: Self::Output<'_>)
        ensures
            r == *self,
    {
        *self
    }
}

impl FieldAccess for SalesOpportunity {
    type Output<'a> = Self;

    fn access(&self) -> (r: Self::Output<'_>)
        ensures
            r == *self,
    {
        *self
    }
}

impl FieldAccess for StockState {
    type Output<'a> = Self;

    fn access(&self) -> (r: Self::Output<'_>)
        ensures
            r == *self,
    {
        *self
    }
}

impl FieldAccess for SupportCase {
    type Output<'a> = Self;

    fn access(&self) -> (r: Self::Output<'_>)
        ensures
            r == *self,
    {
        *self
    }
}

impl FieldAccess for TimedReservation {
    type Output<'a> = Self;

    fn access(&self) -> (r: Self::Output<'_>)
        ensures
            r == *self,
    {
        *self
    }
}

impl FieldAccess for VersionedStock {
    type Output<'a> = Self;

    fn access(&self) -> (r: Self::Output<'_>)
        ensures
            r == *self,
    {
        *self
    }
}

impl RefFieldAccess for AcceptedPromotionSet {}
impl RefFieldAccess for AccountingAccounts {}
impl RefFieldAccess for ActiveCRMAccount {}
impl RefFieldAccess for AdvancedAccountingAccounts {}
impl RefFieldAccess for ApprovedOrderableSupplierQuality {}
impl RefFieldAccess for ApprovedSupplierQuality {}
impl RefFieldAccess for AttributionCredit {}
impl RefFieldAccess for AuditEvent {}
impl RefFieldAccess for AuditedCommand {}
impl RefFieldAccess for AuditedDataAccess {}
impl RefFieldAccess for AuditedEntityCommand {}
impl RefFieldAccess for B2BTaxExemption {}
impl RefFieldAccess for BackorderRequest {}
impl RefFieldAccess for BalancedJournalEntry {}
impl RefFieldAccess for BinLocation {}
impl RefFieldAccess for BinStock {}
impl RefFieldAccess for BoundedCouponApplication {}
impl RefFieldAccess for Brand {}
impl RefFieldAccess for BrandPricingPolicy {}
impl RefFieldAccess for BundleComponent {}
impl RefFieldAccess for BundleReservation {}
impl RefFieldAccess for CRMAccount {}
impl RefFieldAccess for CRMAccountContact {}
impl RefFieldAccess for CRMContact {}
impl RefFieldAccess for CRMInteraction {}
impl RefFieldAccess for CRMInteractionForContact {}
impl RefFieldAccess for CapturedPayment {}
impl RefFieldAccess for CapturedPaymentJournalProjection {}
impl RefFieldAccess for CapturedPaymentMatchesOrder {}
impl RefFieldAccess for CarrierHandoff {}
impl RefFieldAccess for CarrierQuote {}
impl RefFieldAccess for CarrierService {}
impl RefFieldAccess for CartLine {}
impl RefFieldAccess for CashflowEvent {}
impl RefFieldAccess for CashflowPlan {}
impl RefFieldAccess for Category {}
impl RefFieldAccess for ChannelPricePolicy {}
impl RefFieldAccess for Chargeback {}
impl RefFieldAccess for ChargebackForCapturedPayment {}
impl RefFieldAccess for ClickAttributedCampaign {}
impl RefFieldAccess for CompetitorAwareDropshipOffer {}
impl RefFieldAccess for CompetitorOffer {}
impl RefFieldAccess for CompetitorPriceBenchmark {}
impl RefFieldAccess for ConcurrentReservationConflict {}
impl RefFieldAccess for Coupon {}
impl RefFieldAccess for Customer {}
impl RefFieldAccess for CustomerSegment {}
impl RefFieldAccess for DataProcessingPermission {}
impl RefFieldAccess for DataRetentionPolicy {}
impl RefFieldAccess for DeliveredShipment {}
impl RefFieldAccess for DeliveryPromise {}
impl RefFieldAccess for DemandForecast {}
impl RefFieldAccess for DistinctFulfillmentPlan {}
impl RefFieldAccess for DistributorProduct {}
impl RefFieldAccess for DomainEvent {}
impl RefFieldAccess for DropshipCostUpperBounds {}
impl RefFieldAccess for DropshipFulfillment {}
impl RefFieldAccess for DropshipLine {}
impl RefFieldAccess for DropshipOffer {}
impl RefFieldAccess for DropshipOpportunityCandidate {}
impl RefFieldAccess for DropshipOpportunityPortfolio {}
impl RefFieldAccess for DropshipProfitCosts {}
impl RefFieldAccess for DropshipPurchaseOrder {}
impl RefFieldAccess for DropshipReturnRequest {}
impl RefFieldAccess for DropshipShippingQuote {}
impl RefFieldAccess for DropshipSupplier {}
impl RefFieldAccess for EntityAuditEvent {}
impl RefFieldAccess for EventBackedCashflowPlan {}
impl RefFieldAccess for EventEnvelope {}
impl RefFieldAccess for EventSnapshot {}
impl RefFieldAccess for EventStream {}
impl RefFieldAccess for ExchangeRate {}
impl RefFieldAccess for Experiment {}
impl RefFieldAccess for ExperimentVariant {}
impl RefFieldAccess for FraudCheckedCouponApplication {}
impl RefFieldAccess for FraudPolicy {}
impl RefFieldAccess for FreshCurrencyConversion {}
impl RefFieldAccess for Funnel {}
impl RefFieldAccess for GiftCard {}
impl RefFieldAccess for GiftCardRedemption {}
impl RefFieldAccess for GuaranteedDropshipProfitQuote {}
impl RefFieldAccess for IdempotencyState {}
impl RefFieldAccess for ImageAsset {}
impl RefFieldAccess for InventoryLot {}
impl RefFieldAccess for InventoryNode {}
impl RefFieldAccess for LeadForContact {}
impl RefFieldAccess for LedgerAccount {}
impl RefFieldAccess for ListingContent {}
impl RefFieldAccess for LogisticsException {}
impl RefFieldAccess for LogisticsShipment {}
impl RefFieldAccess for LogisticsShipmentPlan {}
impl RefFieldAccess for MapCompliantCompetitorAwareOffer {}
impl RefFieldAccess for MarketingCampaign {}
impl RefFieldAccess for MarketingConsentState {}
impl RefFieldAccess for MarketplaceContentPolicy {}
impl RefFieldAccess for MarketplaceFacilitatorTax {}
impl RefFieldAccess for MarketplaceFeeLedger {}
impl RefFieldAccess for MarketplaceListing {}
impl RefFieldAccess for MarketplaceOrder {}
impl RefFieldAccess for MarketplacePayoutCalculation {}
impl RefFieldAccess for MatchedOrderAttributionLedger {}
impl RefFieldAccess for MoneyAmount {}
impl RefFieldAccess for OpportunityForContact {}
impl RefFieldAccess for Order {}
impl RefFieldAccess for OrderAttributionLedger {}
impl RefFieldAccess for OrderTaxInvoiceLink {}
impl RefFieldAccess for Package {}
impl RefFieldAccess for PaymentLedger {}
impl RefFieldAccess for PermittedAccountMessage {}
impl RefFieldAccess for PermittedCustomerMessage {}
impl RefFieldAccess for PickTask {}
impl RefFieldAccess for Posting {}
impl RefFieldAccess for PreorderReservation {}
impl RefFieldAccess for PreorderWindow {}
impl RefFieldAccess for Product {}
impl RefFieldAccess for ProductCatalogEntry {}
impl RefFieldAccess for ProductVariant {}
impl RefFieldAccess for PublishableFeedLine {}
impl RefFieldAccess for ReconciliationWithinTolerance {}
impl RefFieldAccess for RecurringSubscription {}
impl RefFieldAccess for RefundJournalProjection {}
impl RefFieldAccess for ReservationAttempt {}
impl RefFieldAccess for ReservedDropshipLine {}
impl RefFieldAccess for ResolvedSupportCase {}
impl RefFieldAccess for RetailLine {}
impl RefFieldAccess for RetainedPersonalData {}
impl RefFieldAccess for RetentionOffer {}
impl RefFieldAccess for ReturnAuthorization {}
impl RefFieldAccess for ReturnLine {}
impl RefFieldAccess for ReturnReceipt {}
impl RefFieldAccess for SafeProductFeedLine {}
impl RefFieldAccess for SalesPipeline {}
impl RefFieldAccess for SearchResultItem {}
impl RefFieldAccess for SegmentMembership {}
impl RefFieldAccess for SellableCatalogEntry {}
impl RefFieldAccess for SerializedInventorySet {}
impl RefFieldAccess for SerializedInventoryUnit {}
impl RefFieldAccess for ShippingDestination {}
impl RefFieldAccess for ShippingMethod {}
impl RefFieldAccess for ShippingZone {}
impl RefFieldAccess for SkuSubstitution {}
impl RefFieldAccess for SourceableDistributorProduct {}
impl RefFieldAccess for SplitFulfillmentPlan {}
impl RefFieldAccess for SubscriptionPlan {}
impl RefFieldAccess for SupplierDailyCapacity {}
impl RefFieldAccess for SupplierQualityMetrics {}
impl RefFieldAccess for SupplierReservation {}
impl RefFieldAccess for SupplierRiskPolicy {}
impl RefFieldAccess for SupportCaseForContact {}
impl RefFieldAccess for SyncedMarketplaceListing {}
impl RefFieldAccess for TaxCalculation {}
impl RefFieldAccess for TaxExclusivePrice {}
impl RefFieldAccess for TaxExemptionCertificate {}
impl RefFieldAccess for TaxInclusivePrice {}
impl RefFieldAccess for TaxInvoice {}
impl RefFieldAccess for TaxInvoiceLine {}
impl RefFieldAccess for TaxJurisdiction {}
impl RefFieldAccess for TaxRate {}
impl RefFieldAccess for TrackingEvent {}
impl RefFieldAccess for TrackingHistory {}
impl RefFieldAccess for TradePriceBookEntry {}
impl RefFieldAccess for TrustedFreshCompetitorBenchmark {}
impl RefFieldAccess for ValidEventStream {}
impl RefFieldAccess for ValidGiftCardRedemptionAt {}
impl RefFieldAccess for ValidListingContent {}
impl RefFieldAccess for ValidRefund {}
impl RefFieldAccess for ValidSearchResultItem {}
impl RefFieldAccess for ValidSystemState {}
impl RefFieldAccess for Warehouse {}
impl RefFieldAccess for WarehouseShipment {}
impl RefFieldAccess for WarehouseTransfer {}
impl RefFieldAccess for WebhookOrderingState {}
impl RefFieldAccess for WholesaleCreditAccount {}
impl RefFieldAccess for WholesaleCreditCheckout {}
impl RefFieldAccess for WholesaleLine {}

} // verus!
