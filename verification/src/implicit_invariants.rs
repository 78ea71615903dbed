//! Records that tie facts from different parts of the domain together: a
//! payment that matches its order, a stream whose cursor matches its events,
//! a journal that matches the payment it records, and similar.

use vstd::prelude::*;
use crate::foundation::clone_vec_exact;
use crate::accounting::{AccountingAccounts, BalancedJournalEntry, LedgerAccount, Posting, PostingSide, payment_captured_journal, refund_issued_journal};
use crate::b2b::{PaymentTerms, TradeMode, WholesaleCreditAccount, WholesaleLine, can_place_wholesale_credit_order, payment_terms_allowed, wholesale_net_fn, wholesale_order_net_total};
use crate::catalog::{Product, ProductCatalogEntry, ProductStatus, ProductVariant};
use crate::competitor_pricing::{CompetitorAwareDropshipOffer, CompetitorPriceBenchmark, TrustLevel, price_snapshot_fresh, snapshot_fresh_spec, trust_allows_auto_repricing};
use crate::dropshipping::{supplier_can_receive_orders, supplier_can_receive_orders_spec};
use crate::event_sourcing::{EventEnvelope, EventStream, final_sequence, sequences_increase_from, stream_sequences_strictly_increase};
use crate::forecasting::{ApprovedSupplierQuality, DemandForecast, confidence_allows_auto_replenish, confidence_allows_spec};
use crate::foundation::{DomainResult, Duration, Money, MoneyAmount, Nat, Quantity, RoundingMode, Timestamp, ValidationError, result_sum};
use crate::fulfillment_finance::{ExchangeRate, convert_money_floor, convert_money_spec, fx_quote_fresh, fx_quote_fresh_spec};
use crate::marketplace::{ListingStatus, SafeProductFeedLine, SyncedMarketplaceListing, listing_can_be_advertised};
use crate::merchandising::{BrandPricingPolicy, advertised_price_allowed};
use crate::opportunity_portfolio::{DistributorProduct};
use crate::orders::{CapturedPayment, Order, PaymentLedger, can_refund, can_refund_spec};
use crate::post_purchase::{Chargeback, GiftCardRedemption, gift_card_valid_at};
use crate::pricing::{Coupon, coupon_can_be_applied, order_total};
use crate::risk_privacy::{FraudPolicy, coupon_uses_allowed};

verus! {

#[derive(Debug, PartialEq, Eq, Structural)]
pub struct BoundedCouponApplication {
    pub(crate) coupon: Coupon,
    pub(crate) subtotal: Money,
    pub(crate) uses_before: Nat,
}

impl BoundedCouponApplication {
    /// Every value satisfies what `try_new` checks.
    #[verifier::type_invariant]
    pub open spec fn valid(self) -> bool {
        (self.spec_coupon().spec_min_subtotal() <= self.spec_subtotal() && self.spec_uses_before() < self.spec_coupon().spec_max_uses()) && self.spec_coupon().spec_amount() <= self.spec_subtotal()
    }

    pub open(crate) spec fn spec_coupon(&self) -> Coupon {
        self.coupon
    }

    pub open(crate) spec fn spec_subtotal(&self) -> Money {
        self.subtotal
    }

    pub open(crate) spec fn spec_uses_before(&self) -> Nat {
        self.uses_before
    }

    pub open(crate) spec fn spec_new(coupon: Coupon, subtotal: Money, uses_before: Nat) -> Self {
        BoundedCouponApplication { coupon, subtotal, uses_before }
    }
}

/// The accessors of a `BoundedCouponApplication` built by `spec_new` give back its parts.
pub broadcast proof fn lemma_bounded_coupon_application_fields(coupon: Coupon, subtotal: Money, uses_before: Nat)
    ensures
        #[trigger] BoundedCouponApplication::spec_new(coupon, subtotal, uses_before).spec_coupon() == coupon
            && BoundedCouponApplication::spec_new(coupon, subtotal, uses_before).spec_subtotal() == subtotal
            && BoundedCouponApplication::spec_new(coupon, subtotal, uses_before).spec_uses_before() == uses_before,
{
}

impl Clone for BoundedCouponApplication {
    fn clone(&self) -> (r: Self)
        ensures
            r == *self,
    {
        proof {
            use_type_invariant(self);
        }
        BoundedCouponApplication { coupon: self.coupon.clone(), subtotal: self.subtotal, uses_before: self.uses_before }
    }
}

#[derive(Debug, PartialEq, Eq)]
pub struct CapturedPaymentMatchesOrder {
    pub(crate) order: Order,
    pub(crate) payment: CapturedPayment,
}

impl CapturedPaymentMatchesOrder {
    /// Equal fields, and equal contents for the vectors it holds.
    pub open spec fn same_content(self, other: Self) -> bool {
        self.spec_order().same_content(other.spec_order())
            && self.spec_payment() == other.spec_payment()
    }

    /// Every value satisfies what `try_new` checks.
    #[verifier::type_invariant]
    pub open spec fn valid(self) -> bool {
        (self.spec_payment().spec_order_id() == self.spec_order().spec_id() && self.spec_payment().spec_amount() == self.spec_order().spec_total() && self.spec_payment().spec_currency() == self.spec_order().spec_currency())
    }

    pub open(crate) spec fn spec_order(&self) -> Order {
        self.order
    }

    pub open(crate) spec fn spec_payment(&self) -> CapturedPayment {
        self.payment
    }

    pub open(crate) spec fn spec_new(order: Order, payment: CapturedPayment) -> Self {
        CapturedPaymentMatchesOrder { order, payment }
    }
}

/// The accessors of a `CapturedPaymentMatchesOrder` built by `spec_new` give back its parts.
pub broadcast proof fn lemma_captured_payment_matches_order_fields(order: Order, payment: CapturedPayment)
    ensures
        #[trigger] CapturedPaymentMatchesOrder::spec_new(order, payment).spec_order() == order
            && CapturedPaymentMatchesOrder::spec_new(order, payment).spec_payment() == payment,
{
}

impl Clone for CapturedPaymentMatchesOrder {
    fn clone(&self) -> (r: Self)
        ensures
            r.same_content(*self),
    {
        proof {
            use_type_invariant(self);
        }
        CapturedPaymentMatchesOrder { order: self.order.clone(), payment: self.payment.clone() }
    }
}

#[derive(Debug, PartialEq, Eq)]
pub struct ValidEventStream {
    pub(crate) stream: EventStream,
}

impl ValidEventStream {
    /// Equal fields, and equal contents for the vectors it holds.
    pub open spec fn same_content(self, other: Self) -> bool {
        self.spec_stream().same_content(other.spec_stream())
    }

    /// Every value satisfies what `try_new` checks.
    #[verifier::type_invariant]
    pub open spec fn valid(self) -> bool {
        sequences_increase_from(0, self.spec_stream().spec_events()@) && self.spec_stream().spec_last_sequence() == final_sequence(0, self.spec_stream().spec_events()@)
    }

    pub open(crate) spec fn spec_stream(&self) -> EventStream {
        self.stream
    }

    pub open(crate) spec fn spec_new(stream: EventStream) -> Self {
        ValidEventStream { stream }
    }
}

/// The accessors of a `ValidEventStream` built by `spec_new` give back its parts.
pub broadcast proof fn lemma_valid_event_stream_fields(stream: EventStream)
    ensures
        #[trigger] ValidEventStream::spec_new(stream).spec_stream() == stream,
{
}

impl Clone for ValidEventStream {
    fn clone(&self) -> (r: Self)
        ensures
            r.same_content(*self),
    {
        proof {
            use_type_invariant(self);
        }
        ValidEventStream { stream: self.stream.clone() }
    }
}

#[derive(Debug, PartialEq, Eq)]
pub struct SellableCatalogEntry {
    pub(crate) entry: ProductCatalogEntry,
}

impl SellableCatalogEntry {
    /// Every value satisfies what `try_new` checks.
    #[verifier::type_invariant]
    pub open spec fn valid(self) -> bool {
        (self.spec_entry().spec_product().spec_status() == ProductStatus::Active && self.spec_entry().spec_variant().spec_active())
    }

    pub open(crate) spec fn spec_entry(&self) -> ProductCatalogEntry {
        self.entry
    }

    pub open(crate) spec fn spec_new(entry: ProductCatalogEntry) -> Self {
        SellableCatalogEntry { entry }
    }
}

/// The accessors of a `SellableCatalogEntry` built by `spec_new` give back its parts.
pub broadcast proof fn lemma_sellable_catalog_entry_fields(entry: ProductCatalogEntry)
    ensures
        #[trigger] SellableCatalogEntry::spec_new(entry).spec_entry() == entry,
{
}

impl Clone for SellableCatalogEntry {
    fn clone(&self) -> (r: Self)
        ensures
            r == *self,
    {
        proof {
            use_type_invariant(self);
        }
        SellableCatalogEntry { entry: self.entry.clone() }
    }
}

#[derive(Debug, PartialEq, Eq, Structural)]
pub struct PublishableFeedLine {
    pub(crate) line: SafeProductFeedLine,
}

impl PublishableFeedLine {
    /// Every value satisfies what `try_new` checks.
    #[verifier::type_invariant]
    pub open spec fn valid(self) -> bool {
        self.spec_line().spec_stock() > 0
    }

    pub open(crate) spec fn spec_line(&self) -> SafeProductFeedLine {
        self.line
    }

    pub open(crate) spec fn spec_new(line: SafeProductFeedLine) -> Self {
        PublishableFeedLine { line }
    }
}

/// The accessors of a `PublishableFeedLine` built by `spec_new` give back its parts.
pub broadcast proof fn lemma_publishable_feed_line_fields(line: SafeProductFeedLine)
    ensures
        #[trigger] PublishableFeedLine::spec_new(line).spec_line() == line,
{
}

impl Clone for PublishableFeedLine {
    fn clone(&self) -> (r: Self)
        ensures
            r == *self,
    {
        proof {
            use_type_invariant(self);
        }
        PublishableFeedLine { line: self.line.clone() }
    }
}

#[derive(Debug, PartialEq, Eq, Structural)]
pub struct SourceableDistributorProduct {
    pub(crate) product: DistributorProduct,
    pub(crate) units: Quantity,
}

impl SourceableDistributorProduct {
    /// Every value satisfies what `try_new` checks.
    #[verifier::type_invariant]
    pub open spec fn valid(self) -> bool {
        distributor_can_source_spec(self.spec_product(), self.spec_units())
    }

    pub open(crate) spec fn spec_product(&self) -> DistributorProduct {
        self.product
    }

    pub open(crate) spec fn spec_units(&self) -> Quantity {
        self.units
    }

    pub open(crate) spec fn spec_new(product: DistributorProduct, units: Quantity) -> Self {
        SourceableDistributorProduct { product, units }
    }
}

/// The accessors of a `SourceableDistributorProduct` built by `spec_new` give back its parts.
pub broadcast proof fn lemma_sourceable_distributor_product_fields(product: DistributorProduct, units: Quantity)
    ensures
        #[trigger] SourceableDistributorProduct::spec_new(product, units).spec_product() == product
            && SourceableDistributorProduct::spec_new(product, units).spec_units() == units,
{
}

impl Clone for SourceableDistributorProduct {
    fn clone(&self) -> (r: Self)
        ensures
            r == *self,
    {
        proof {
            use_type_invariant(self);
        }
        SourceableDistributorProduct { product: self.product.clone(), units: self.units }
    }
}

#[derive(Debug, PartialEq, Eq, Structural)]
pub struct FraudCheckedCouponApplication {
    pub(crate) application: BoundedCouponApplication,
    pub(crate) policy: FraudPolicy,
}

impl FraudCheckedCouponApplication {
    /// Every value satisfies what `try_new` checks.
    #[verifier::type_invariant]
    pub open spec fn valid(self) -> bool {
        self.spec_application().spec_uses_before() <= self.spec_policy().spec_max_coupon_uses()
    }

    pub open(crate) spec fn spec_application(&self) -> BoundedCouponApplication {
        self.application
    }

    pub open(crate) spec fn spec_policy(&self) -> FraudPolicy {
        self.policy
    }

    pub open(crate) spec fn spec_new(application: BoundedCouponApplication, policy: FraudPolicy) -> Self {
        FraudCheckedCouponApplication { application, policy }
    }
}

/// The accessors of a `FraudCheckedCouponApplication` built by `spec_new` give back its parts.
pub broadcast proof fn lemma_fraud_checked_coupon_application_fields(application: BoundedCouponApplication, policy: FraudPolicy)
    ensures
        #[trigger] FraudCheckedCouponApplication::spec_new(application, policy).spec_application() == application
            && FraudCheckedCouponApplication::spec_new(application, policy).spec_policy() == policy,
{
}

impl Clone for FraudCheckedCouponApplication {
    fn clone(&self) -> (r: Self)
        ensures
            r == *self,
    {
        proof {
            use_type_invariant(self);
        }
        FraudCheckedCouponApplication { application: self.application.clone(), policy: self.policy.clone() }
    }
}

#[derive(Debug, PartialEq, Eq)]
pub struct CapturedPaymentJournalProjection {
    pub(crate) accounts: AccountingAccounts,
    pub(crate) payment: CapturedPayment,
    pub(crate) journal: BalancedJournalEntry,
}

impl CapturedPaymentJournalProjection {
    /// Equal fields, and equal contents for the vectors it holds.
    pub open spec fn same_content(self, other: Self) -> bool {
        self.spec_accounts() == other.spec_accounts()
            && self.spec_payment() == other.spec_payment()
            && self.spec_journal().same_content(other.spec_journal())
    }

    /// Every value satisfies what `try_new` checks.
    #[verifier::type_invariant]
    pub open spec fn valid(self) -> bool {
        same_postings(self.spec_journal().spec_postings()@, captured_payment_postings(self.spec_accounts(), self.spec_payment().spec_amount()))
    }

    pub open(crate) spec fn spec_accounts(&self) -> AccountingAccounts {
        self.accounts
    }

    pub open(crate) spec fn spec_payment(&self) -> CapturedPayment {
        self.payment
    }

    pub open(crate) spec fn spec_journal(&self) -> BalancedJournalEntry {
        self.journal
    }

    pub open(crate) spec fn spec_new(accounts: AccountingAccounts, payment: CapturedPayment, journal: BalancedJournalEntry) -> Self {
        CapturedPaymentJournalProjection { accounts, payment, journal }
    }
}

/// The accessors of a `CapturedPaymentJournalProjection` built by `spec_new` give back its parts.
pub broadcast proof fn lemma_captured_payment_journal_projection_fields(accounts: AccountingAccounts, payment: CapturedPayment, journal: BalancedJournalEntry)
    ensures
        #[trigger] CapturedPaymentJournalProjection::spec_new(accounts, payment, journal).spec_accounts() == accounts
            && CapturedPaymentJournalProjection::spec_new(accounts, payment, journal).spec_payment() == payment
            && CapturedPaymentJournalProjection::spec_new(accounts, payment, journal).spec_journal() == journal,
{
}

impl Clone for CapturedPaymentJournalProjection {
    fn clone(&self) -> (r: Self)
        ensures
            r.same_content(*self),
    {
        proof {
            use_type_invariant(self);
        }
        CapturedPaymentJournalProjection { accounts: self.accounts.clone(), payment: self.payment.clone(), journal: self.journal.clone() }
    }
}

#[derive(Debug, PartialEq, Eq)]
pub struct RefundJournalProjection {
    pub(crate) accounts: AccountingAccounts,
    pub(crate) ledger: PaymentLedger,
    pub(crate) amount: Money,
    pub(crate) journal: BalancedJournalEntry,
}

impl RefundJournalProjection {
    /// Equal fields, and equal contents for the vectors it holds.
    pub open spec fn same_content(self, other: Self) -> bool {
        self.spec_accounts() == other.spec_accounts()
            && self.spec_ledger() == other.spec_ledger()
            && self.spec_amount() == other.spec_amount()
            && self.spec_journal().same_content(other.spec_journal())
    }

    /// Every value satisfies what `try_new` checks.
    #[verifier::type_invariant]
    pub open spec fn valid(self) -> bool {
        can_refund_spec(self.spec_ledger(), self.spec_amount()) && same_postings(self.spec_journal().spec_postings()@, refund_postings(self.spec_accounts(), self.spec_amount()))
    }

    pub open(crate) spec fn spec_accounts(&self) -> AccountingAccounts {
        self.accounts
    }

    pub open(crate) spec fn spec_ledger(&self) -> PaymentLedger {
        self.ledger
    }

    pub open(crate) spec fn spec_amount(&self) -> Money {
        self.amount
    }

    pub open(crate) spec fn spec_journal(&self) -> BalancedJournalEntry {
        self.journal
    }

    pub open(crate) spec fn spec_new(accounts: AccountingAccounts, ledger: PaymentLedger, amount: Money, journal: BalancedJournalEntry) -> Self {
        RefundJournalProjection { accounts, ledger, amount, journal }
    }
}

/// The accessors of a `RefundJournalProjection` built by `spec_new` give back its parts.
pub broadcast proof fn lemma_refund_journal_projection_fields(accounts: AccountingAccounts, ledger: PaymentLedger, amount: Money, journal: BalancedJournalEntry)
    ensures
        #[trigger] RefundJournalProjection::spec_new(accounts, ledger, amount, journal).spec_accounts() == accounts
            && RefundJournalProjection::spec_new(accounts, ledger, amount, journal).spec_ledger() == ledger
            && RefundJournalProjection::spec_new(accounts, ledger, amount, journal).spec_amount() == amount
            && RefundJournalProjection::spec_new(accounts, ledger, amount, journal).spec_journal() == journal,
{
}

impl Clone for RefundJournalProjection {
    fn clone(&self) -> (r: Self)
        ensures
            r.same_content(*self),
    {
        proof {
            use_type_invariant(self);
        }
        RefundJournalProjection { accounts: self.accounts.clone(), ledger: self.ledger.clone(), amount: self.amount.clone(), journal: self.journal.clone() }
    }
}

#[derive(Debug, PartialEq, Eq, Structural)]
pub struct AdvertisableSyncedMarketplaceListing {
    pub(crate) synced: SyncedMarketplaceListing,
}

impl AdvertisableSyncedMarketplaceListing {
    /// Every value satisfies what `try_new` checks.
    #[verifier::type_invariant]
    pub open spec fn valid(self) -> bool {
        (self.spec_synced().spec_listing().spec_status() == ListingStatus::Active && self.spec_synced().spec_listing().spec_published_stock() > 0)
    }

    pub open(crate) spec fn spec_synced(&self) -> SyncedMarketplaceListing {
        self.synced
    }

    pub open(crate) spec fn spec_new(synced: SyncedMarketplaceListing) -> Self {
        AdvertisableSyncedMarketplaceListing { synced }
    }
}

/// The accessors of a `AdvertisableSyncedMarketplaceListing` built by `spec_new` give back its parts.
pub broadcast proof fn lemma_advertisable_synced_marketplace_listing_fields(synced: SyncedMarketplaceListing)
    ensures
        #[trigger] AdvertisableSyncedMarketplaceListing::spec_new(synced).spec_synced() == synced,
{
}

impl Clone for AdvertisableSyncedMarketplaceListing {
    fn clone(&self) -> (r: Self)
        ensures
            r == *self,
    {
        proof {
            use_type_invariant(self);
        }
        AdvertisableSyncedMarketplaceListing { synced: self.synced.clone() }
    }
}

#[derive(Debug, PartialEq, Eq)]
pub struct WholesaleCreditCheckout {
    pub(crate) account: WholesaleCreditAccount,
    pub(crate) lines: Vec<WholesaleLine>,
    pub(crate) terms: PaymentTerms,
    pub(crate) order_total: Money,
}

impl WholesaleCreditCheckout {
    /// Equal fields, and equal contents for the vectors it holds.
    pub open spec fn same_content(self, other: Self) -> bool {
        self.spec_account() == other.spec_account()
            && self.spec_lines()@ == other.spec_lines()@
            && self.spec_terms() == other.spec_terms()
            && self.spec_order_total() == other.spec_order_total()
    }

    /// Every value satisfies what `try_new` checks.
    #[verifier::type_invariant]
    pub open spec fn valid(self) -> bool {
        wholesale_checkout_error(self.spec_account(), self.spec_lines()@, self.spec_terms(), self.spec_order_total()) is None
    }

    pub open(crate) spec fn spec_account(&self) -> WholesaleCreditAccount {
        self.account
    }

    pub open(crate) spec fn spec_lines(&self) -> Vec<WholesaleLine> {
        self.lines
    }

    pub open(crate) spec fn spec_terms(&self) -> PaymentTerms {
        self.terms
    }

    pub open(crate) spec fn spec_order_total(&self) -> Money {
        self.order_total
    }
}

impl Clone for WholesaleCreditCheckout {
    fn clone(&self) -> (r: Self)
        ensures
            r.same_content(*self),
    {
        proof {
            use_type_invariant(self);
        }
        WholesaleCreditCheckout { account: self.account.clone(), lines: clone_vec_exact(&self.lines), terms: self.terms.clone(), order_total: self.order_total.clone() }
    }
}

#[derive(Debug, PartialEq, Eq)]
pub struct TrustedFreshCompetitorBenchmark {
    pub(crate) benchmark: CompetitorPriceBenchmark,
    pub(crate) now: Timestamp,
    pub(crate) max_age: Duration,
    pub(crate) trust: TrustLevel,
}

impl TrustedFreshCompetitorBenchmark {
    /// Equal fields, and equal contents for the vectors it holds.
    pub open spec fn same_content(self, other: Self) -> bool {
        self.spec_benchmark().same_content(other.spec_benchmark())
            && self.spec_now() == other.spec_now()
            && self.spec_max_age() == other.spec_max_age()
            && self.spec_trust() == other.spec_trust()
    }

    /// Every value satisfies what `try_new` checks.
    #[verifier::type_invariant]
    pub open spec fn valid(self) -> bool {
        snapshot_fresh_spec(self.spec_now(), self.spec_max_age(), self.spec_benchmark().spec_best_offer().spec_observed_at()) && (self.spec_trust() == TrustLevel::Medium || self.spec_trust() == TrustLevel::High)
    }

    pub open(crate) spec fn spec_benchmark(&self) -> CompetitorPriceBenchmark {
        self.benchmark
    }

    pub open(crate) spec fn spec_now(&self) -> Timestamp {
        self.now
    }

    pub open(crate) spec fn spec_max_age(&self) -> Duration {
        self.max_age
    }

    pub open(crate) spec fn spec_trust(&self) -> TrustLevel {
        self.trust
    }

    pub open(crate) spec fn spec_new(benchmark: CompetitorPriceBenchmark, now: Timestamp, max_age: Duration, trust: TrustLevel) -> Self {
        TrustedFreshCompetitorBenchmark { benchmark, now, max_age, trust }
    }
}

/// The accessors of a `TrustedFreshCompetitorBenchmark` built by `spec_new` give back its parts.
pub broadcast proof fn lemma_trusted_fresh_competitor_benchmark_fields(benchmark: CompetitorPriceBenchmark, now: Timestamp, max_age: Duration, trust: TrustLevel)
    ensures
        #[trigger] TrustedFreshCompetitorBenchmark::spec_new(benchmark, now, max_age, trust).spec_benchmark() == benchmark
            && TrustedFreshCompetitorBenchmark::spec_new(benchmark, now, max_age, trust).spec_now() == now
            && TrustedFreshCompetitorBenchmark::spec_new(benchmark, now, max_age, trust).spec_max_age() == max_age
            && TrustedFreshCompetitorBenchmark::spec_new(benchmark, now, max_age, trust).spec_trust() == trust,
{
}

impl Clone for TrustedFreshCompetitorBenchmark {
    fn clone(&self) -> (r: Self)
        ensures
            r.same_content(*self),
    {
        proof {
            use_type_invariant(self);
        }
        TrustedFreshCompetitorBenchmark { benchmark: self.benchmark.clone(), now: self.now.clone(), max_age: self.max_age.clone(), trust: self.trust.clone() }
    }
}

#[derive(Debug, PartialEq, Eq)]
pub struct MapCompliantCompetitorAwareOffer {
    pub(crate) offer: CompetitorAwareDropshipOffer,
    pub(crate) policy: BrandPricingPolicy,
}

impl MapCompliantCompetitorAwareOffer {
    /// Equal fields, and equal contents for the vectors it holds.
    pub open spec fn same_content(self, other: Self) -> bool {
        self.spec_offer().same_content(other.spec_offer())
            && self.spec_policy() == other.spec_policy()
    }

    /// Every value satisfies what `try_new` checks.
    #[verifier::type_invariant]
    pub open spec fn valid(self) -> bool {
        self.spec_policy().spec_map_price() <= self.spec_offer().spec_offer().spec_sale_unit_price()
    }

    pub open(crate) spec fn spec_offer(&self) -> CompetitorAwareDropshipOffer {
        self.offer
    }

    pub open(crate) spec fn spec_policy(&self) -> BrandPricingPolicy {
        self.policy
    }

    pub open(crate) spec fn spec_new(offer: CompetitorAwareDropshipOffer, policy: BrandPricingPolicy) -> Self {
        MapCompliantCompetitorAwareOffer { offer, policy }
    }
}

/// The accessors of a `MapCompliantCompetitorAwareOffer` built by `spec_new` give back its parts.
pub broadcast proof fn lemma_map_compliant_competitor_aware_offer_fields(offer: CompetitorAwareDropshipOffer, policy: BrandPricingPolicy)
    ensures
        #[trigger] MapCompliantCompetitorAwareOffer::spec_new(offer, policy).spec_offer() == offer
            && MapCompliantCompetitorAwareOffer::spec_new(offer, policy).spec_policy() == policy,
{
}

impl Clone for MapCompliantCompetitorAwareOffer {
    fn clone(&self) -> (r: Self)
        ensures
            r.same_content(*self),
    {
        proof {
            use_type_invariant(self);
        }
        MapCompliantCompetitorAwareOffer { offer: self.offer.clone(), policy: self.policy.clone() }
    }
}

#[derive(Debug, PartialEq, Eq, Structural)]
pub struct FreshCurrencyConversion {
    pub(crate) source_amount: MoneyAmount,
    pub(crate) rate: ExchangeRate,
    pub(crate) target_amount: MoneyAmount,
    pub(crate) now: Timestamp,
    pub(crate) max_age: Duration,
}

impl FreshCurrencyConversion {
    /// Every value satisfies what `try_new` checks.
    #[verifier::type_invariant]
    pub open spec fn valid(self) -> bool {
        fresh_conversion_error(self.spec_source_amount(), self.spec_rate(), self.spec_target_amount(), self.spec_now(), self.spec_max_age()) is None
    }

    pub open(crate) spec fn spec_source_amount(&self) -> MoneyAmount {
        self.source_amount
    }

    pub open(crate) spec fn spec_rate(&self) -> ExchangeRate {
        self.rate
    }

    pub open(crate) spec fn spec_target_amount(&self) -> MoneyAmount {
        self.target_amount
    }

    pub open(crate) spec fn spec_now(&self) -> Timestamp {
        self.now
    }

    pub open(crate) spec fn spec_max_age(&self) -> Duration {
        self.max_age
    }

    pub open(crate) spec fn spec_new(source_amount: MoneyAmount, rate: ExchangeRate, target_amount: MoneyAmount, now: Timestamp, max_age: Duration) -> Self {
        FreshCurrencyConversion { source_amount, rate, target_amount, now, max_age }
    }
}

/// The accessors of a `FreshCurrencyConversion` built by `spec_new` give back its parts.
pub broadcast proof fn lemma_fresh_currency_conversion_fields(source_amount: MoneyAmount, rate: ExchangeRate, target_amount: MoneyAmount, now: Timestamp, max_age: Duration)
    ensures
        #[trigger] FreshCurrencyConversion::spec_new(source_amount, rate, target_amount, now, max_age).spec_source_amount() == source_amount
            && FreshCurrencyConversion::spec_new(source_amount, rate, target_amount, now, max_age).spec_rate() == rate
            && FreshCurrencyConversion::spec_new(source_amount, rate, target_amount, now, max_age).spec_target_amount() == target_amount
            && FreshCurrencyConversion::spec_new(source_amount, rate, target_amount, now, max_age).spec_now() == now
            && FreshCurrencyConversion::spec_new(source_amount, rate, target_amount, now, max_age).spec_max_age() == max_age,
{
}

impl Clone for FreshCurrencyConversion {
    fn clone(&self) -> (r: Self)
        ensures
            r == *self,
    {
        proof {
            use_type_invariant(self);
        }
        FreshCurrencyConversion { source_amount: self.source_amount.clone(), rate: self.rate.clone(), target_amount: self.target_amount.clone(), now: self.now, max_age: self.max_age }
    }
}

#[derive(Debug, PartialEq, Eq, Structural)]
pub struct ValidGiftCardRedemptionAt {
    pub(crate) now: Timestamp,
    pub(crate) redemption: GiftCardRedemption,
}

impl ValidGiftCardRedemptionAt {
    /// Every value satisfies what `try_new` checks.
    #[verifier::type_invariant]
    pub open spec fn valid(self) -> bool {
        self.spec_now().spec_seconds() <= self.spec_redemption().spec_card().spec_expires_at().spec_seconds()
    }

    pub open(crate) spec fn spec_now(&self) -> Timestamp {
        self.now
    }

    pub open(crate) spec fn spec_redemption(&self) -> GiftCardRedemption {
        self.redemption
    }

    pub open(crate) spec fn spec_new(now: Timestamp, redemption: GiftCardRedemption) -> Self {
        ValidGiftCardRedemptionAt { now, redemption }
    }
}

/// The accessors of a `ValidGiftCardRedemptionAt` built by `spec_new` give back its parts.
pub broadcast proof fn lemma_valid_gift_card_redemption_at_fields(now: Timestamp, redemption: GiftCardRedemption)
    ensures
        #[trigger] ValidGiftCardRedemptionAt::spec_new(now, redemption).spec_now() == now
            && ValidGiftCardRedemptionAt::spec_new(now, redemption).spec_redemption() == redemption,
{
}

impl Clone for ValidGiftCardRedemptionAt {
    fn clone(&self) -> (r: Self)
        ensures
            r == *self,
    {
        proof {
            use_type_invariant(self);
        }
        ValidGiftCardRedemptionAt { now: self.now, redemption: self.redemption.clone() }
    }
}

#[derive(Debug, PartialEq, Eq, Structural)]
pub struct ChargebackForCapturedPayment {
    pub(crate) payment: CapturedPayment,
    pub(crate) chargeback: Chargeback,
}

impl ChargebackForCapturedPayment {
    /// Every value satisfies what `try_new` checks.
    #[verifier::type_invariant]
    pub open spec fn valid(self) -> bool {
        self.spec_chargeback().spec_payment_amount() == self.spec_payment().spec_amount()
    }

    pub open(crate) spec fn spec_payment(&self) -> CapturedPayment {
        self.payment
    }

    pub open(crate) spec fn spec_chargeback(&self) -> Chargeback {
        self.chargeback
    }

    pub open(crate) spec fn spec_new(payment: CapturedPayment, chargeback: Chargeback) -> Self {
        ChargebackForCapturedPayment { payment, chargeback }
    }
}

/// The accessors of a `ChargebackForCapturedPayment` built by `spec_new` give back its parts.
pub broadcast proof fn lemma_chargeback_for_captured_payment_fields(payment: CapturedPayment, chargeback: Chargeback)
    ensures
        #[trigger] ChargebackForCapturedPayment::spec_new(payment, chargeback).spec_payment() == payment
            && ChargebackForCapturedPayment::spec_new(payment, chargeback).spec_chargeback() == chargeback,
{
}

impl Clone for ChargebackForCapturedPayment {
    fn clone(&self) -> (r: Self)
        ensures
            r == *self,
    {
        proof {
            use_type_invariant(self);
        }
        ChargebackForCapturedPayment { payment: self.payment.clone(), chargeback: self.chargeback.clone() }
    }
}

#[derive(Debug, PartialEq, Eq, Structural)]
pub struct ActionableDemandForecast {
    pub(crate) forecast: DemandForecast,
}

impl ActionableDemandForecast {
    /// Every value satisfies what `try_new` checks.
    #[verifier::type_invariant]
    pub open spec fn valid(self) -> bool {
        demand_forecast_actionable_spec(self.spec_forecast())
    }

    pub open(crate) spec fn spec_forecast(&self) -> DemandForecast {
        self.forecast
    }

    pub open(crate) spec fn spec_new(forecast: DemandForecast) -> Self {
        ActionableDemandForecast { forecast }
    }
}

/// The accessors of a `ActionableDemandForecast` built by `spec_new` give back its parts.
pub broadcast proof fn lemma_actionable_demand_forecast_fields(forecast: DemandForecast)
    ensures
        #[trigger] ActionableDemandForecast::spec_new(forecast).spec_forecast() == forecast,
{
}

impl Clone for ActionableDemandForecast {
    fn clone(&self) -> (r: Self)
        ensures
            r == *self,
    {
        proof {
            use_type_invariant(self);
        }
        ActionableDemandForecast { forecast: self.forecast.clone() }
    }
}

#[derive(Debug, PartialEq, Eq)]
pub struct ApprovedOrderableSupplierQuality {
    pub(crate) quality: ApprovedSupplierQuality,
}

impl ApprovedOrderableSupplierQuality {
    /// Every value satisfies what `try_new` checks.
    #[verifier::type_invariant]
    pub open spec fn valid(self) -> bool {
        supplier_can_receive_orders_spec(self.spec_quality().spec_supplier())
    }

    pub open(crate) spec fn spec_quality(&self) -> ApprovedSupplierQuality {
        self.quality
    }

    pub open(crate) spec fn spec_new(quality: ApprovedSupplierQuality) -> Self {
        ApprovedOrderableSupplierQuality { quality }
    }
}

/// The accessors of a `ApprovedOrderableSupplierQuality` built by `spec_new` give back its parts.
pub broadcast proof fn lemma_approved_orderable_supplier_quality_fields(quality: ApprovedSupplierQuality)
    ensures
        #[trigger] ApprovedOrderableSupplierQuality::spec_new(quality).spec_quality() == quality,
{
}

impl Clone for ApprovedOrderableSupplierQuality {
    fn clone(&self) -> (r: Self)
        ensures
            r == *self,
    {
        proof {
            use_type_invariant(self);
        }
        ApprovedOrderableSupplierQuality { quality: self.quality.clone() }
    }
}

impl BoundedCouponApplication {
    pub fn coupon(&self) -> (r: &Coupon)
        ensures
            *r == self.spec_coupon(),
    {
        &self.coupon
    }

    pub fn subtotal(&self) -> (r: Money)
        ensures
            r == self.spec_subtotal(),
    {
        self.subtotal
    }

    pub fn uses_before(&self) -> (r: Nat)
        ensures
            r == self.spec_uses_before(),
    {
        self.uses_before
    }
}

impl CapturedPaymentMatchesOrder {
    pub fn order(&self) -> (r: &Order)
        ensures
            *r == self.spec_order(),
    {
        &self.order
    }

    pub fn payment(&self) -> (r: &CapturedPayment)
        ensures
            *r == self.spec_payment(),
    {
        &self.payment
    }
}

impl ValidEventStream {
    pub fn stream(&self) -> (r: &EventStream)
        ensures
            *r == self.spec_stream(),
    {
        &self.stream
    }
}

impl SellableCatalogEntry {
    pub fn entry(&self) -> (r: &ProductCatalogEntry)
        ensures
            *r == self.spec_entry(),
    {
        &self.entry
    }
}

impl PublishableFeedLine {
    pub fn line(&self) -> (r: &SafeProductFeedLine)
        ensures
            *r == self.spec_line(),
    {
        &self.line
    }
}

impl SourceableDistributorProduct {
    pub fn product(&self) -> (r: &DistributorProduct)
        ensures
            *r == self.spec_product(),
    {
        &self.product
    }

    pub fn units(&self) -> (r: Quantity)
        ensures
            r == self.spec_units(),
    {
        self.units
    }
}

impl FraudCheckedCouponApplication {
    pub fn application(&self) -> (r: &BoundedCouponApplication)
        ensures
            *r == self.spec_application(),
    {
        &self.application
    }

    pub fn policy(&self) -> (r: &FraudPolicy)
        ensures
            *r == self.spec_policy(),
    {
        &self.policy
    }
}

impl CapturedPaymentJournalProjection {
    pub fn accounts(&self) -> (r: &AccountingAccounts)
        ensures
            *r == self.spec_accounts(),
    {
        &self.accounts
    }

    pub fn payment(&self) -> (r: &CapturedPayment)
        ensures
            *r == self.spec_payment(),
    {
        &self.payment
    }

    pub fn journal(&self) -> (r: &BalancedJournalEntry)
        ensures
            *r == self.spec_journal(),
    {
        &self.journal
    }
}

impl RefundJournalProjection {
    pub fn accounts(&self) -> (r: &AccountingAccounts)
        ensures
            *r == self.spec_accounts(),
    {
        &self.accounts
    }

    pub fn ledger(&self) -> (r: &PaymentLedger)
        ensures
            *r == self.spec_ledger(),
    {
        &self.ledger
    }

    pub fn amount(&self) -> (r: Money)
        ensures
            r == self.spec_amount(),
    {
        self.amount
    }

    pub fn journal(&self) -> (r: &BalancedJournalEntry)
        ensures
            *r == self.spec_journal(),
    {
        &self.journal
    }
}

impl AdvertisableSyncedMarketplaceListing {
    pub fn synced(&self) -> (r: &SyncedMarketplaceListing)
        ensures
            *r == self.spec_synced(),
    {
        &self.synced
    }
}

impl WholesaleCreditCheckout {
    pub fn account(&self) -> (r: &WholesaleCreditAccount)
        ensures
            *r == self.spec_account(),
    {
        &self.account
    }

    pub fn lines(&self) -> (r: &[WholesaleLine])
        ensures
            r@ == self.spec_lines()@,
    {
        self.lines.as_slice()
    }

    pub fn terms(&self) -> (r: PaymentTerms)
        ensures
            r == self.spec_terms(),
    {
        self.terms
    }

    pub fn order_total(&self) -> (r: Money)
        ensures
            r == self.spec_order_total(),
    {
        self.order_total
    }
}

impl TrustedFreshCompetitorBenchmark {
    pub fn benchmark(&self) -> (r: &CompetitorPriceBenchmark)
        ensures
            *r == self.spec_benchmark(),
    {
        &self.benchmark
    }

    pub fn now(&self) -> (r: Timestamp)
        ensures
            r == self.spec_now(),
    {
        self.now
    }

    pub fn max_age(&self) -> (r: Duration)
        ensures
            r == self.spec_max_age(),
    {
        self.max_age
    }

    pub fn trust(&self) -> (r: TrustLevel)
        ensures
            r == self.spec_trust(),
    {
        self.trust
    }
}

impl MapCompliantCompetitorAwareOffer {
    pub fn offer(&self) -> (r: &CompetitorAwareDropshipOffer)
        ensures
            *r == self.spec_offer(),
    {
        &self.offer
    }

    pub fn policy(&self) -> (r: &BrandPricingPolicy)
        ensures
            *r == self.spec_policy(),
    {
        &self.policy
    }
}

impl FreshCurrencyConversion {
    pub fn source_amount(&self) -> (r: &MoneyAmount)
        ensures
            *r == self.spec_source_amount(),
    {
        &self.source_amount
    }

    pub fn rate(&self) -> (r: &ExchangeRate)
        ensures
            *r == self.spec_rate(),
    {
        &self.rate
    }

    pub fn target_amount(&self) -> (r: &MoneyAmount)
        ensures
            *r == self.spec_target_amount(),
    {
        &self.target_amount
    }

    pub fn now(&self) -> (r: Timestamp)
        ensures
            r == self.spec_now(),
    {
        self.now
    }

    pub fn max_age(&self) -> (r: Duration)
        ensures
            r == self.spec_max_age(),
    {
        self.max_age
    }
}

impl ValidGiftCardRedemptionAt {
    pub fn now(&self) -> (r: Timestamp)
        ensures
            r == self.spec_now(),
    {
        self.now
    }

    pub fn redemption(&self) -> (r: &GiftCardRedemption)
        ensures
            *r == self.spec_redemption(),
    {
        &self.redemption
    }
}

impl ChargebackForCapturedPayment {
    pub fn payment(&self) -> (r: &CapturedPayment)
        ensures
            *r == self.spec_payment(),
    {
        &self.payment
    }

    pub fn chargeback(&self) -> (r: &Chargeback)
        ensures
            *r == self.spec_chargeback(),
    {
        &self.chargeback
    }
}

impl ActionableDemandForecast {
    pub fn forecast(&self) -> (r: &DemandForecast)
        ensures
            *r == self.spec_forecast(),
    {
        &self.forecast
    }
}

impl ApprovedOrderableSupplierQuality {
    pub fn quality(&self) -> (r: &ApprovedSupplierQuality)
        ensures
            *r == self.spec_quality(),
    {
        &self.quality
    }
}

impl BoundedCouponApplication {
    pub fn try_new(coupon: Coupon, subtotal: Money, uses_before: Nat) -> (r: DomainResult<Self>)
        ensures
            !(coupon.spec_min_subtotal() <= subtotal && uses_before < coupon.spec_max_uses())
                ==> r == Err::<Self, ValidationError>(ValidationError::Invariant("coupon cannot be applied")),
            (coupon.spec_min_subtotal() <= subtotal && uses_before < coupon.spec_max_uses()) && coupon.spec_amount() > subtotal
                ==> r == Err::<Self, ValidationError>(ValidationError::Invariant("coupon amount exceeds subtotal")),
            (coupon.spec_min_subtotal() <= subtotal && uses_before < coupon.spec_max_uses()) && coupon.spec_amount() <= subtotal
                ==> r == Ok::<Self, ValidationError>(BoundedCouponApplication::spec_new(coupon, subtotal, uses_before)),
    {
        if !coupon_can_be_applied(&coupon, subtotal, uses_before) {
            return Err(ValidationError::Invariant("coupon cannot be applied"));
        }
        if coupon.amount > subtotal {
            return Err(ValidationError::Invariant("coupon amount exceeds subtotal"));
        }
        Ok(Self { coupon, subtotal, uses_before })
    }
}

impl CapturedPaymentMatchesOrder {
    pub fn try_new(order: Order, payment: CapturedPayment) -> (r: DomainResult<Self>)
        ensures
            (payment.spec_order_id() != order.spec_id() || payment.spec_amount() != order.spec_total() || payment.spec_currency() != order.spec_currency())
                ==> r == Err::<Self, ValidationError>(ValidationError::Invariant("captured payment does not match order")),
            (payment.spec_order_id() == order.spec_id() && payment.spec_amount() == order.spec_total() && payment.spec_currency() == order.spec_currency())
                ==> r == Ok::<Self, ValidationError>(CapturedPaymentMatchesOrder::spec_new(order, payment)),
    {
        if payment.order_id != order.id || payment.amount != order.total || payment.currency != order.currency {
            return Err(ValidationError::Invariant("captured payment does not match order"));
        }
        Ok(Self { order, payment })
    }
}

pub fn event_stream_last_sequence_from(last: Nat, events: &[EventEnvelope]) -> (r: Nat)
    ensures
        r == final_sequence(last, events@),
{
    if events.len() == 0 {
        last
    } else {
        events[events.len() - 1].sequence
    }
}

pub fn event_stream_computed_last_sequence(stream: &EventStream) -> (r: Nat)
    ensures
        r == final_sequence(0, stream.spec_events()@),
{
    event_stream_last_sequence_from(0, stream.events.as_slice())
}

impl ValidEventStream {
    /// A stream whose sequence numbers strictly increase and whose cursor is
    /// its last sequence number (zero when empty).
    pub fn try_new(stream: EventStream) -> (r: DomainResult<Self>)
        ensures
            !sequences_increase_from(0, stream.spec_events()@)
                ==> r == Err::<Self, ValidationError>(ValidationError::Invariant("event stream sequences must strictly increase")),
            sequences_increase_from(0, stream.spec_events()@) && stream.spec_last_sequence() != final_sequence(0, stream.spec_events()@)
                ==> r == Err::<Self, ValidationError>(ValidationError::Invariant("event stream cursor does not match events")),
            sequences_increase_from(0, stream.spec_events()@) && stream.spec_last_sequence() == final_sequence(0, stream.spec_events()@)
                ==> r == Ok::<Self, ValidationError>(ValidEventStream::spec_new(stream)),
    {
        if !stream_sequences_strictly_increase(&stream) {
            return Err(ValidationError::Invariant("event stream sequences must strictly increase"));
        }
        if stream.last_sequence != event_stream_computed_last_sequence(&stream) {
            return Err(ValidationError::Invariant("event stream cursor does not match events"));
        }
        Ok(Self { stream })
    }
}

pub fn product_active(product: &Product) -> (r: bool)
    ensures
        r == (product.spec_status() == ProductStatus::Active),
{
    product.status == ProductStatus::Active
}

pub fn variant_active(variant: &ProductVariant) -> (r: bool)
    ensures
        r == variant.spec_active(),
{
    variant.active
}

impl SellableCatalogEntry {
    pub fn try_new(entry: ProductCatalogEntry) -> (r: DomainResult<Self>)
        ensures
            !(entry.spec_product().spec_status() == ProductStatus::Active && entry.spec_variant().spec_active())
                ==> r == Err::<Self, ValidationError>(ValidationError::Invariant("catalog entry is not sellable")),
            (entry.spec_product().spec_status() == ProductStatus::Active && entry.spec_variant().spec_active()) ==> r == Ok::<Self, ValidationError>(SellableCatalogEntry::spec_new(entry)),
    {
        if !product_active(&entry.product) || !variant_active(&entry.variant) {
            return Err(ValidationError::Invariant("catalog entry is not sellable"));
        }
        Ok(Self { entry })
    }
}

pub fn feed_line_has_stock(line: &SafeProductFeedLine) -> (r: bool)
    ensures
        r == (line.spec_stock() > 0),
{
    line.stock > 0
}

impl PublishableFeedLine {
    pub fn try_new(line: SafeProductFeedLine) -> (r: DomainResult<Self>)
        ensures
            line.spec_stock() == 0 ==> r == Err::<Self, ValidationError>(ValidationError::Invariant("feed line has no stock")),
            line.spec_stock() > 0 ==> r == Ok::<Self, ValidationError>(PublishableFeedLine::spec_new(line)),
    {
        if !feed_line_has_stock(&line) {
            return Err(ValidationError::Invariant("feed line has no stock"));
        }
        Ok(Self { line })
    }
}

pub fn distributor_product_active(product: &DistributorProduct) -> (r: bool)
    ensures
        r == product.spec_active(),
{
    product.active
}

pub open spec fn distributor_can_source_spec(product: DistributorProduct, units: u128) -> bool {
    product.spec_active() && product.spec_min_order_qty() <= units && units <= product.spec_available_qty()
}

pub fn distributor_product_can_source(product: &DistributorProduct, units: Quantity) -> (r: bool)
    ensures
        r == distributor_can_source_spec(*product, units),
{
    distributor_product_active(product) && product.min_order_qty <= units && units <= product.available_qty
}

impl SourceableDistributorProduct {
    pub fn try_new(product: DistributorProduct, units: Quantity) -> (r: DomainResult<Self>)
        ensures
            !distributor_can_source_spec(product, units)
                ==> r == Err::<Self, ValidationError>(ValidationError::Invariant("distributor product cannot source requested units")),
            distributor_can_source_spec(product, units) ==> r == Ok::<Self, ValidationError>(SourceableDistributorProduct::spec_new(product, units)),
    {
        if !distributor_product_can_source(&product, units) {
            return Err(ValidationError::Invariant("distributor product cannot source requested units"));
        }
        Ok(Self { product, units })
    }
}

impl FraudCheckedCouponApplication {
    pub fn try_new(application: BoundedCouponApplication, policy: FraudPolicy) -> (r: DomainResult<Self>)
        ensures
            application.spec_uses_before() > policy.spec_max_coupon_uses()
                ==> r == Err::<Self, ValidationError>(ValidationError::Invariant("coupon use fails fraud policy")),
            application.spec_uses_before() <= policy.spec_max_coupon_uses() ==> r == Ok::<Self, ValidationError>(FraudCheckedCouponApplication::spec_new(application, policy)),
    {
        if !coupon_uses_allowed(&policy, application.uses_before) {
            return Err(ValidationError::Invariant("coupon use fails fraud policy"));
        }
        Ok(Self { application, policy })
    }
}

/// Two ledger accounts agree field by field (names by their text).
pub open spec fn same_ledger_account(a: LedgerAccount, b: LedgerAccount) -> bool {
    a.spec_id() == b.spec_id() && a.spec_name()@ == b.spec_name()@
}

pub open spec fn same_posting(a: Posting, b: Posting) -> bool {
    same_ledger_account(a.spec_account(), b.spec_account()) && a.spec_side() == b.spec_side() && a.spec_amount() == b.spec_amount()
}

/// Two posting lists agree position by position.
pub open spec fn same_postings(a: Seq<Posting>, b: Seq<Posting>) -> bool {
    a.len() == b.len() && forall|i: int| 0 <= i < a.len() ==> same_posting(#[trigger] a[i], b[i])
}

fn postings_equal(a: &[Posting], b: &[Posting]) -> (r: bool)
    ensures
        r == same_postings(a@, b@),
{
    if a.len() != b.len() {
        return false;
    }
    let mut i: usize = 0;
    while i < a.len()
        invariant
            i <= a.len(),
            a.len() == b.len(),
            forall|j: int| 0 <= j < i ==> same_posting(#[trigger] a@[j], b@[j]),
        decreases a.len() - i,
    {
        if !(a[i].account.id == b[i].account.id && a[i].account.name == b[i].account.name && a[i].side == b[i].side
            && a[i].amount == b[i].amount) {
            return false;
        }
        i += 1;
    }
    true
}

/// The postings a payment capture of `amount` records.
pub open spec fn captured_payment_postings(accounts: AccountingAccounts, amount: u128) -> Seq<Posting> {
    seq![
        Posting::spec_new(accounts.spec_cash(), PostingSide::Debit, amount),
        Posting::spec_new(accounts.spec_deferred_revenue(), PostingSide::Credit, amount),
    ]
}

/// The postings a refund of `amount` records.
pub open spec fn refund_postings(accounts: AccountingAccounts, amount: u128) -> Seq<Posting> {
    seq![
        Posting::spec_new(accounts.spec_refunds(), PostingSide::Debit, amount),
        Posting::spec_new(accounts.spec_cash(), PostingSide::Credit, amount),
    ]
}

impl CapturedPaymentJournalProjection {
    pub fn try_new(accounts: AccountingAccounts, payment: CapturedPayment, journal: BalancedJournalEntry) -> (r: DomainResult<Self>)
        ensures
            !same_postings(journal.spec_postings()@, captured_payment_postings(accounts, payment.spec_amount()))
                ==> r == Err::<Self, ValidationError>(ValidationError::Invariant("payment-capture journal projection is incorrect")),
            same_postings(journal.spec_postings()@, captured_payment_postings(accounts, payment.spec_amount()))
                ==> r == Ok::<Self, ValidationError>(CapturedPaymentJournalProjection::spec_new(accounts, payment, journal)),
    {
        match payment_captured_journal(&accounts, payment.amount) {
            Err(e) => Err(e),
            Ok(expected) => {
                if !postings_equal(journal.postings.as_slice(), expected.postings.as_slice()) {
                    return Err(ValidationError::Invariant("payment-capture journal projection is incorrect"));
                }
                Ok(Self { accounts, payment, journal })
            },
        }
    }
}

impl RefundJournalProjection {
    pub fn try_new(accounts: AccountingAccounts, ledger: PaymentLedger, amount: Money, journal: BalancedJournalEntry) -> (r: DomainResult<Self>)
        ensures
            !can_refund_spec(ledger, amount) ==> r == Err::<Self, ValidationError>(ValidationError::Invariant("refund amount is not refundable")),
            can_refund_spec(ledger, amount) && !same_postings(journal.spec_postings()@, refund_postings(accounts, amount))
                ==> r == Err::<Self, ValidationError>(ValidationError::Invariant("refund journal projection is incorrect")),
            can_refund_spec(ledger, amount) && same_postings(journal.spec_postings()@, refund_postings(accounts, amount))
                ==> r == Ok::<Self, ValidationError>(RefundJournalProjection::spec_new(accounts, ledger, amount, journal)),
    {
        if !can_refund(&ledger, amount) {
            return Err(ValidationError::Invariant("refund amount is not refundable"));
        }
        match refund_issued_journal(&accounts, amount) {
            Err(e) => Err(e),
            Ok(expected) => {
                if !postings_equal(journal.postings.as_slice(), expected.postings.as_slice()) {
                    return Err(ValidationError::Invariant("refund journal projection is incorrect"));
                }
                Ok(Self { accounts, ledger, amount, journal })
            },
        }
    }
}

impl AdvertisableSyncedMarketplaceListing {
    pub fn try_new(synced: SyncedMarketplaceListing) -> (r: DomainResult<Self>)
        ensures
            !(synced.spec_listing().spec_status() == ListingStatus::Active && synced.spec_listing().spec_published_stock() > 0)
                ==> r == Err::<Self, ValidationError>(ValidationError::Invariant("synced listing cannot be advertised")),
            (synced.spec_listing().spec_status() == ListingStatus::Active && synced.spec_listing().spec_published_stock() > 0)
                ==> r == Ok::<Self, ValidationError>(AdvertisableSyncedMarketplaceListing::spec_new(synced)),
    {
        if !listing_can_be_advertised(&synced.listing) {
            return Err(ValidationError::Invariant("synced listing cannot be advertised"));
        }
        Ok(Self { synced })
    }
}

/// The first check a wholesale credit checkout fails, if any.
pub open spec fn wholesale_checkout_error(account: WholesaleCreditAccount, lines: Seq<WholesaleLine>, terms: PaymentTerms, order_total: u128) -> Option<ValidationError> {
    match result_sum(lines.map_values(wholesale_net_fn()), "wholesale_order_net_total") {
        Err(e) => Some(e),
        Ok(net) => if order_total != net {
            Some(ValidationError::Invariant("wholesale checkout total is incorrect"))
        } else if account.spec_outstanding() + order_total > account.spec_credit_limit() {
            Some(ValidationError::Invariant("wholesale checkout exceeds credit limit"))
        } else {
            None
        },
    }
}

impl WholesaleCreditCheckout {
    pub fn try_new(account: WholesaleCreditAccount, lines: Vec<WholesaleLine>, terms: PaymentTerms, order_total: Money) -> (r: DomainResult<Self>)
        ensures
            match r {
                Ok(c) => wholesale_checkout_error(account, lines@, terms, order_total) is None && c.spec_account() == account
                    && c.spec_lines()@ == lines@ && c.spec_terms() == terms && c.spec_order_total() == order_total,
                Err(e) => wholesale_checkout_error(account, lines@, terms, order_total) == Some(e),
            },
    {
        match wholesale_order_net_total(lines.as_slice()) {
            Err(e) => return Err(e),
            Ok(net) => if order_total != net {
                return Err(ValidationError::Invariant("wholesale checkout total is incorrect"));
            },
        }
        if !payment_terms_allowed(TradeMode::Wholesale, terms) {
            return Err(ValidationError::Invariant("payment terms not allowed for wholesale"));
        }
        if !can_place_wholesale_credit_order(&account, order_total) {
            return Err(ValidationError::Invariant("wholesale checkout exceeds credit limit"));
        }
        Ok(Self { account, lines, terms, order_total })
    }
}

impl TrustedFreshCompetitorBenchmark {
    pub fn try_new(benchmark: CompetitorPriceBenchmark, now: Timestamp, max_age: Duration, trust: TrustLevel) -> (r: DomainResult<Self>)
        ensures
            !snapshot_fresh_spec(now, max_age, benchmark.spec_best_offer().spec_observed_at())
                ==> r == Err::<Self, ValidationError>(ValidationError::Invariant("benchmark best offer is stale")),
            snapshot_fresh_spec(now, max_age, benchmark.spec_best_offer().spec_observed_at()) && !(trust == TrustLevel::Medium || trust == TrustLevel::High)
                ==> r == Err::<Self, ValidationError>(ValidationError::Invariant("trust level does not allow auto repricing")),
            snapshot_fresh_spec(now, max_age, benchmark.spec_best_offer().spec_observed_at()) && (trust == TrustLevel::Medium || trust == TrustLevel::High)
                ==> r == Ok::<Self, ValidationError>(TrustedFreshCompetitorBenchmark::spec_new(benchmark, now, max_age, trust)),
    {
        if !price_snapshot_fresh(now, max_age, benchmark.best_offer.observed_at) {
            return Err(ValidationError::Invariant("benchmark best offer is stale"));
        }
        if !trust_allows_auto_repricing(trust) {
            return Err(ValidationError::Invariant("trust level does not allow auto repricing"));
        }
        Ok(Self { benchmark, now, max_age, trust })
    }
}

impl MapCompliantCompetitorAwareOffer {
    pub fn try_new(offer: CompetitorAwareDropshipOffer, policy: BrandPricingPolicy) -> (r: DomainResult<Self>)
        ensures
            policy.spec_map_price() > offer.spec_offer().spec_sale_unit_price() ==> r == Err::<Self, ValidationError>(ValidationError::Invariant("offer violates MAP policy")),
            policy.spec_map_price() <= offer.spec_offer().spec_sale_unit_price() ==> r == Ok::<Self, ValidationError>(MapCompliantCompetitorAwareOffer::spec_new(offer, policy)),
    {
        if !advertised_price_allowed(&policy, offer.offer.sale_unit_price) {
            return Err(ValidationError::Invariant("offer violates MAP policy"));
        }
        Ok(Self { offer, policy })
    }
}

/// The first check a currency conversion fails, if any.
pub open spec fn fresh_conversion_error(source_amount: MoneyAmount, rate: ExchangeRate, target_amount: MoneyAmount, now: Timestamp, max_age: Duration) -> Option<ValidationError> {
    if source_amount.spec_currency() != rate.spec_source() || target_amount.spec_currency() != rate.spec_target() {
        Some(ValidationError::Invariant("currency conversion currencies do not match rate"))
    } else {
        match convert_money_spec(RoundingMode::Floor, source_amount.spec_amount(), rate) {
            Err(e) => Some(e),
            Ok(converted) => if target_amount.spec_amount() != converted {
                Some(ValidationError::Invariant("currency conversion amount is incorrect"))
            } else if !fx_quote_fresh_spec(now, max_age, rate) {
                Some(ValidationError::Invariant("exchange rate is stale"))
            } else {
                None
            },
        }
    }
}

impl FreshCurrencyConversion {
    pub fn try_new(source_amount: MoneyAmount, rate: ExchangeRate, target_amount: MoneyAmount, now: Timestamp, max_age: Duration) -> (r: DomainResult<Self>)
        ensures
            r == (match fresh_conversion_error(source_amount, rate, target_amount, now, max_age) {
                Some(e) => Err(e),
                None => Ok(FreshCurrencyConversion::spec_new(source_amount, rate, target_amount, now, max_age)),
            }),
    {
        if source_amount.currency != rate.source || target_amount.currency != rate.target {
            return Err(ValidationError::Invariant("currency conversion currencies do not match rate"));
        }
        match convert_money_floor(source_amount.amount, &rate) {
            Err(e) => return Err(e),
            Ok(converted) => if target_amount.amount != converted {
                return Err(ValidationError::Invariant("currency conversion amount is incorrect"));
            },
        }
        if !fx_quote_fresh(now, max_age, &rate) {
            return Err(ValidationError::Invariant("exchange rate is stale"));
        }
        Ok(Self { source_amount, rate, target_amount, now, max_age })
    }
}

impl ValidGiftCardRedemptionAt {
    pub fn try_new(now: Timestamp, redemption: GiftCardRedemption) -> (r: DomainResult<Self>)
        ensures
            now.spec_seconds() > redemption.spec_card().spec_expires_at().spec_seconds() ==> r == Err::<Self, ValidationError>(ValidationError::Invariant("gift card has expired")),
            now.spec_seconds() <= redemption.spec_card().spec_expires_at().spec_seconds() ==> r == Ok::<Self, ValidationError>(ValidGiftCardRedemptionAt::spec_new(now, redemption)),
    {
        if !gift_card_valid_at(now, &redemption.card) {
            return Err(ValidationError::Invariant("gift card has expired"));
        }
        Ok(Self { now, redemption })
    }
}

impl ChargebackForCapturedPayment {
    pub fn try_new(payment: CapturedPayment, chargeback: Chargeback) -> (r: DomainResult<Self>)
        ensures
            chargeback.spec_payment_amount() != payment.spec_amount() ==> r == Err::<Self, ValidationError>(ValidationError::Invariant("chargeback payment amount mismatch")),
            chargeback.spec_payment_amount() == payment.spec_amount() ==> r == Ok::<Self, ValidationError>(ChargebackForCapturedPayment::spec_new(payment, chargeback)),
    {
        if chargeback.payment_amount != payment.amount {
            return Err(ValidationError::Invariant("chargeback payment amount mismatch"));
        }
        Ok(Self { payment, chargeback })
    }
}

pub open spec fn demand_forecast_actionable_spec(forecast: DemandForecast) -> bool {
    confidence_allows_spec(forecast.spec_confidence()) && forecast.spec_expected_units() > 0 && forecast.spec_horizon_days().spec_seconds() > 0
}

pub fn demand_forecast_actionable(forecast: &DemandForecast) -> (r: bool)
    ensures
        r == demand_forecast_actionable_spec(*forecast),
{
    confidence_allows_auto_replenish(forecast.confidence) && forecast.expected_units > 0 && forecast.horizon_days.seconds > 0
}

impl ActionableDemandForecast {
    pub fn try_new(forecast: DemandForecast) -> (r: DomainResult<Self>)
        ensures
            !demand_forecast_actionable_spec(forecast) ==> r == Err::<Self, ValidationError>(ValidationError::Invariant("demand forecast is not actionable")),
            demand_forecast_actionable_spec(forecast) ==> r == Ok::<Self, ValidationError>(ActionableDemandForecast::spec_new(forecast)),
    {
        if !demand_forecast_actionable(&forecast) {
            return Err(ValidationError::Invariant("demand forecast is not actionable"));
        }
        Ok(Self { forecast })
    }
}

impl ApprovedOrderableSupplierQuality {
    pub fn try_new(quality: ApprovedSupplierQuality) -> (r: DomainResult<Self>)
        ensures
            !supplier_can_receive_orders_spec(quality.spec_supplier())
                ==> r == Err::<Self, ValidationError>(ValidationError::Invariant("approved supplier cannot receive orders")),
            supplier_can_receive_orders_spec(quality.spec_supplier()) ==> r == Ok::<Self, ValidationError>(ApprovedOrderableSupplierQuality::spec_new(quality)),
    {
        if !supplier_can_receive_orders(&quality.supplier) {
            return Err(ValidationError::Invariant("approved supplier cannot receive orders"));
        }
        Ok(Self { quality })
    }
}

/// The accessor lemmas for the records of this module.
pub broadcast group group_implicit_invariants_record_fields {
    lemma_bounded_coupon_application_fields,
    lemma_captured_payment_matches_order_fields,
    lemma_valid_event_stream_fields,
    lemma_sellable_catalog_entry_fields,
    lemma_publishable_feed_line_fields,
    lemma_sourceable_distributor_product_fields,
    lemma_fraud_checked_coupon_application_fields,
    lemma_captured_payment_journal_projection_fields,
    lemma_refund_journal_projection_fields,
    lemma_advertisable_synced_marketplace_listing_fields,
    lemma_trusted_fresh_competitor_benchmark_fields,
    lemma_map_compliant_competitor_aware_offer_fields,
    lemma_fresh_currency_conversion_fields,
    lemma_valid_gift_card_redemption_at_fields,
    lemma_chargeback_for_captured_payment_fields,
    lemma_actionable_demand_forecast_fields,
    lemma_approved_orderable_supplier_quality_fields,
}

} // verus!
