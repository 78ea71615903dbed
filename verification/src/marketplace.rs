//! Marketplace listings, stock sync, channel price policies, product feeds,
//! fees, payouts and marketplace orders.

use vstd::prelude::*;
use crate::foundation::{BasisPoints, Currency, DomainResult, MarketplaceOrderId, Money, Nat, Quantity, RoundingMode, Sku, ValidationError, nat_sub, round_bps_amount, round_bps_spec};
use crate::inventory::{StockState, available_stock, available_stock_spec};
use crate::orders::{Order};

verus! {

#[derive(Debug, PartialEq, Eq, Structural)]
pub struct MarketplaceListing {
    pub(crate) sku: Sku,
    pub(crate) marketplace: Marketplace,
    pub(crate) external_id: Nat,
    pub(crate) price: Money,
    pub(crate) currency: Currency,
    pub(crate) published_stock: Quantity,
    pub(crate) status: ListingStatus,
}

impl MarketplaceListing {
    pub open(crate) spec fn spec_sku(&self) -> Sku {
        self.sku
    }

    pub open(crate) spec fn spec_marketplace(&self) -> Marketplace {
        self.marketplace
    }

    pub open(crate) spec fn spec_external_id(&self) -> Nat {
        self.external_id
    }

    pub open(crate) spec fn spec_price(&self) -> Money {
        self.price
    }

    pub open(crate) spec fn spec_currency(&self) -> Currency {
        self.currency
    }

    pub open(crate) spec fn spec_published_stock(&self) -> Quantity {
        self.published_stock
    }

    pub open(crate) spec fn spec_status(&self) -> ListingStatus {
        self.status
    }

    pub open(crate) spec fn spec_new(sku: Sku, marketplace: Marketplace, external_id: Nat, price: Money, currency: Currency, published_stock: Quantity, status: ListingStatus) -> Self {
        MarketplaceListing { sku, marketplace, external_id, price, currency, published_stock, status }
    }
}

/// The accessors of a `MarketplaceListing` built by `spec_new` give back its parts.
pub broadcast proof fn lemma_marketplace_listing_fields(sku: Sku, marketplace: Marketplace, external_id: Nat, price: Money, currency: Currency, published_stock: Quantity, status: ListingStatus)
    ensures
        #[trigger] MarketplaceListing::spec_new(sku, marketplace, external_id, price, currency, published_stock, status).spec_sku() == sku
            && MarketplaceListing::spec_new(sku, marketplace, external_id, price, currency, published_stock, status).spec_marketplace() == marketplace
            && MarketplaceListing::spec_new(sku, marketplace, external_id, price, currency, published_stock, status).spec_external_id() == external_id
            && MarketplaceListing::spec_new(sku, marketplace, external_id, price, currency, published_stock, status).spec_price() == price
            && MarketplaceListing::spec_new(sku, marketplace, external_id, price, currency, published_stock, status).spec_currency() == currency
            && MarketplaceListing::spec_new(sku, marketplace, external_id, price, currency, published_stock, status).spec_published_stock() == published_stock
            && MarketplaceListing::spec_new(sku, marketplace, external_id, price, currency, published_stock, status).spec_status() == status,
{
}

impl Clone for MarketplaceListing {
    fn clone(&self) -> (r: Self)
        ensures
            r == *self,
    {
        MarketplaceListing { sku: self.sku, marketplace: self.marketplace, external_id: self.external_id, price: self.price, currency: self.currency, published_stock: self.published_stock, status: self.status }
    }
}

impl MarketplaceListing {
    pub fn new(sku: Sku, marketplace: Marketplace, external_id: Nat, price: Money, currency: Currency, published_stock: Quantity, status: ListingStatus) -> (r: Self)
        ensures
            r == (MarketplaceListing::spec_new(sku, marketplace, external_id, price, currency, published_stock, status)),
    {
        MarketplaceListing { sku, marketplace, external_id, price, currency, published_stock, status }
    }

    pub fn try_new(sku: Sku, marketplace: Marketplace, external_id: Nat, price: Money, currency: Currency, published_stock: Quantity, status: ListingStatus) -> (r: DomainResult<Self>)
        ensures
            r == Ok::<Self, ValidationError>(MarketplaceListing::spec_new(sku, marketplace, external_id, price, currency, published_stock, status)),
    {
        Ok(Self::new(sku, marketplace, external_id, price, currency, published_stock, status))
    }

    pub fn sku(&self) -> (r: Sku)
        ensures
            r == self.spec_sku(),
    {
        self.sku
    }

    pub fn marketplace(&self) -> (r: Marketplace)
        ensures
            r == self.spec_marketplace(),
    {
        self.marketplace
    }

    pub fn external_id(&self) -> (r: Nat)
        ensures
            r == self.spec_external_id(),
    {
        self.external_id
    }

    pub fn price(&self) -> (r: Money)
        ensures
            r == self.spec_price(),
    {
        self.price
    }

    pub fn currency(&self) -> (r: Currency)
        ensures
            r == self.spec_currency(),
    {
        self.currency
    }

    pub fn published_stock(&self) -> (r: Quantity)
        ensures
            r == self.spec_published_stock(),
    {
        self.published_stock
    }

    pub fn status(&self) -> (r: ListingStatus)
        ensures
            r == self.spec_status(),
    {
        self.status
    }
}

#[derive(Clone, Copy, Debug, PartialEq, Eq, Structural)]
pub enum Marketplace {
    AmazonLike,
    RozetkaLike,
    EtsyLike,
    EbayLike,
    Custom,
}

#[derive(Clone, Copy, Debug, PartialEq, Eq, Structural)]
pub enum SalesChannel {
    OwnWebsite,
    MarketplaceChannel(Marketplace),
    B2BPortal,
    DropshipFeed,
}

#[derive(Clone, Copy, Debug, PartialEq, Eq, Structural)]
pub enum ListingStatus {
    Draft,
    Active,
    Paused,
    Archived,
}

#[derive(Debug, PartialEq, Eq, Structural)]
pub struct SyncedMarketplaceListing {
    pub(crate) listing: MarketplaceListing,
    pub(crate) stock: StockState,
}

impl SyncedMarketplaceListing {
    /// Every value satisfies what `try_new` checks.
    #[verifier::type_invariant]
    pub open spec fn valid(self) -> bool {
        self.spec_listing().spec_sku() == self.spec_stock().spec_sku() && self.spec_listing().spec_published_stock() <= available_stock_spec(self.spec_stock())
    }

    pub open(crate) spec fn spec_listing(&self) -> MarketplaceListing {
        self.listing
    }

    pub open(crate) spec fn spec_stock(&self) -> StockState {
        self.stock
    }

    pub open(crate) spec fn spec_new(listing: MarketplaceListing, stock: StockState) -> Self {
        SyncedMarketplaceListing { listing, stock }
    }
}

/// The accessors of a `SyncedMarketplaceListing` built by `spec_new` give back its parts.
pub broadcast proof fn lemma_synced_marketplace_listing_fields(listing: MarketplaceListing, stock: StockState)
    ensures
        #[trigger] SyncedMarketplaceListing::spec_new(listing, stock).spec_listing() == listing
            && SyncedMarketplaceListing::spec_new(listing, stock).spec_stock() == stock,
{
}

impl Clone for SyncedMarketplaceListing {
    fn clone(&self) -> (r: Self)
        ensures
            r == *self,
    {
        proof {
            use_type_invariant(self);
        }
        SyncedMarketplaceListing { listing: self.listing.clone(), stock: self.stock }
    }
}

#[derive(Debug, PartialEq, Eq, Structural)]
pub struct ChannelPricePolicy {
    pub(crate) min_price: Money,
    pub(crate) max_price: Money,
}

impl ChannelPricePolicy {
    /// Every value satisfies what `try_new` checks.
    #[verifier::type_invariant]
    pub open spec fn valid(self) -> bool {
        self.spec_min_price() <= self.spec_max_price()
    }

    pub open(crate) spec fn spec_min_price(&self) -> Money {
        self.min_price
    }

    pub open(crate) spec fn spec_max_price(&self) -> Money {
        self.max_price
    }

    pub open(crate) spec fn spec_new(min_price: Money, max_price: Money) -> Self {
        ChannelPricePolicy { min_price, max_price }
    }
}

/// The accessors of a `ChannelPricePolicy` built by `spec_new` give back its parts.
pub broadcast proof fn lemma_channel_price_policy_fields(min_price: Money, max_price: Money)
    ensures
        #[trigger] ChannelPricePolicy::spec_new(min_price, max_price).spec_min_price() == min_price
            && ChannelPricePolicy::spec_new(min_price, max_price).spec_max_price() == max_price,
{
}

impl Clone for ChannelPricePolicy {
    fn clone(&self) -> (r: Self)
        ensures
            r == *self,
    {
        proof {
            use_type_invariant(self);
        }
        ChannelPricePolicy { min_price: self.min_price, max_price: self.max_price }
    }
}

#[derive(Debug, PartialEq, Eq, Structural)]
pub struct SafeProductFeedLine {
    pub(crate) sku: Sku,
    pub(crate) channel: SalesChannel,
    pub(crate) price: Money,
    pub(crate) currency: Currency,
    pub(crate) stock: Quantity,
    pub(crate) stock_state: StockState,
    pub(crate) price_policy: ChannelPricePolicy,
}

impl SafeProductFeedLine {
    /// Every value satisfies what `try_new` checks.
    #[verifier::type_invariant]
    pub open spec fn valid(self) -> bool {
        self.spec_sku() == self.spec_stock_state().spec_sku() && self.spec_price_policy().spec_min_price() <= self.spec_price() <= self.spec_price_policy().spec_max_price() && self.spec_stock() <= available_stock_spec(self.spec_stock_state())
    }

    pub open(crate) spec fn spec_sku(&self) -> Sku {
        self.sku
    }

    pub open(crate) spec fn spec_channel(&self) -> SalesChannel {
        self.channel
    }

    pub open(crate) spec fn spec_price(&self) -> Money {
        self.price
    }

    pub open(crate) spec fn spec_currency(&self) -> Currency {
        self.currency
    }

    pub open(crate) spec fn spec_stock(&self) -> Quantity {
        self.stock
    }

    pub open(crate) spec fn spec_stock_state(&self) -> StockState {
        self.stock_state
    }

    pub open(crate) spec fn spec_price_policy(&self) -> ChannelPricePolicy {
        self.price_policy
    }

    pub open(crate) spec fn spec_new(sku: Sku, channel: SalesChannel, price: Money, currency: Currency, stock: Quantity, stock_state: StockState, price_policy: ChannelPricePolicy) -> Self {
        SafeProductFeedLine { sku, channel, price, currency, stock, stock_state, price_policy }
    }
}

/// The accessors of a `SafeProductFeedLine` built by `spec_new` give back its parts.
pub broadcast proof fn lemma_safe_product_feed_line_fields(sku: Sku, channel: SalesChannel, price: Money, currency: Currency, stock: Quantity, stock_state: StockState, price_policy: ChannelPricePolicy)
    ensures
        #[trigger] SafeProductFeedLine::spec_new(sku, channel, price, currency, stock, stock_state, price_policy).spec_sku() == sku
            && SafeProductFeedLine::spec_new(sku, channel, price, currency, stock, stock_state, price_policy).spec_channel() == channel
            && SafeProductFeedLine::spec_new(sku, channel, price, currency, stock, stock_state, price_policy).spec_price() == price
            && SafeProductFeedLine::spec_new(sku, channel, price, currency, stock, stock_state, price_policy).spec_currency() == currency
            && SafeProductFeedLine::spec_new(sku, channel, price, currency, stock, stock_state, price_policy).spec_stock() == stock
            && SafeProductFeedLine::spec_new(sku, channel, price, currency, stock, stock_state, price_policy).spec_stock_state() == stock_state
            && SafeProductFeedLine::spec_new(sku, channel, price, currency, stock, stock_state, price_policy).spec_price_policy() == price_policy,
{
}

impl Clone for SafeProductFeedLine {
    fn clone(&self) -> (r: Self)
        ensures
            r == *self,
    {
        proof {
            use_type_invariant(self);
        }
        SafeProductFeedLine { sku: self.sku, channel: self.channel, price: self.price, currency: self.currency, stock: self.stock, stock_state: self.stock_state, price_policy: self.price_policy.clone() }
    }
}

#[derive(Debug, PartialEq, Eq, Structural)]
pub struct MarketplaceFeeLedger {
    pub(crate) gross: Money,
    pub(crate) fee_rate: BasisPoints,
    pub(crate) fee_rounding_mode: RoundingMode,
    pub(crate) fee: Money,
    pub(crate) payout: Money,
}

impl MarketplaceFeeLedger {
    /// Every value satisfies what `try_new` checks.
    #[verifier::type_invariant]
    pub open spec fn valid(self) -> bool {
        fee_ledger_error(self.spec_gross(), self.spec_fee_rate(), self.spec_fee_rounding_mode(), self.spec_fee(), self.spec_payout()) is None
    }

    pub open(crate) spec fn spec_gross(&self) -> Money {
        self.gross
    }

    pub open(crate) spec fn spec_fee_rate(&self) -> BasisPoints {
        self.fee_rate
    }

    pub open(crate) spec fn spec_fee_rounding_mode(&self) -> RoundingMode {
        self.fee_rounding_mode
    }

    pub open(crate) spec fn spec_fee(&self) -> Money {
        self.fee
    }

    pub open(crate) spec fn spec_payout(&self) -> Money {
        self.payout
    }

    pub open(crate) spec fn spec_new(gross: Money, fee_rate: BasisPoints, fee_rounding_mode: RoundingMode, fee: Money, payout: Money) -> Self {
        MarketplaceFeeLedger { gross, fee_rate, fee_rounding_mode, fee, payout }
    }
}

/// The accessors of a `MarketplaceFeeLedger` built by `spec_new` give back its parts.
pub broadcast proof fn lemma_marketplace_fee_ledger_fields(gross: Money, fee_rate: BasisPoints, fee_rounding_mode: RoundingMode, fee: Money, payout: Money)
    ensures
        #[trigger] MarketplaceFeeLedger::spec_new(gross, fee_rate, fee_rounding_mode, fee, payout).spec_gross() == gross
            && MarketplaceFeeLedger::spec_new(gross, fee_rate, fee_rounding_mode, fee, payout).spec_fee_rate() == fee_rate
            && MarketplaceFeeLedger::spec_new(gross, fee_rate, fee_rounding_mode, fee, payout).spec_fee_rounding_mode() == fee_rounding_mode
            && MarketplaceFeeLedger::spec_new(gross, fee_rate, fee_rounding_mode, fee, payout).spec_fee() == fee
            && MarketplaceFeeLedger::spec_new(gross, fee_rate, fee_rounding_mode, fee, payout).spec_payout() == payout,
{
}

impl Clone for MarketplaceFeeLedger {
    fn clone(&self) -> (r: Self)
        ensures
            r == *self,
    {
        proof {
            use_type_invariant(self);
        }
        MarketplaceFeeLedger { gross: self.gross, fee_rate: self.fee_rate, fee_rounding_mode: self.fee_rounding_mode, fee: self.fee, payout: self.payout }
    }
}

#[derive(Debug, PartialEq, Eq, Structural)]
pub struct MarketplacePayoutCalculation {
    pub(crate) gross: Money,
    pub(crate) payout_rate: BasisPoints,
    pub(crate) payout_rounding_mode: RoundingMode,
    pub(crate) payout: Money,
}

impl MarketplacePayoutCalculation {
    /// Every value satisfies what `try_new` checks.
    #[verifier::type_invariant]
    pub open spec fn valid(self) -> bool {
        round_bps_spec(self.spec_payout_rounding_mode(), self.spec_gross(), self.spec_payout_rate()) == Ok::<u128, ValidationError>(self.spec_payout())
    }

    pub open(crate) spec fn spec_gross(&self) -> Money {
        self.gross
    }

    pub open(crate) spec fn spec_payout_rate(&self) -> BasisPoints {
        self.payout_rate
    }

    pub open(crate) spec fn spec_payout_rounding_mode(&self) -> RoundingMode {
        self.payout_rounding_mode
    }

    pub open(crate) spec fn spec_payout(&self) -> Money {
        self.payout
    }

    pub open(crate) spec fn spec_new(gross: Money, payout_rate: BasisPoints, payout_rounding_mode: RoundingMode, payout: Money) -> Self {
        MarketplacePayoutCalculation { gross, payout_rate, payout_rounding_mode, payout }
    }
}

/// The accessors of a `MarketplacePayoutCalculation` built by `spec_new` give back its parts.
pub broadcast proof fn lemma_marketplace_payout_calculation_fields(gross: Money, payout_rate: BasisPoints, payout_rounding_mode: RoundingMode, payout: Money)
    ensures
        #[trigger] MarketplacePayoutCalculation::spec_new(gross, payout_rate, payout_rounding_mode, payout).spec_gross() == gross
            && MarketplacePayoutCalculation::spec_new(gross, payout_rate, payout_rounding_mode, payout).spec_payout_rate() == payout_rate
            && MarketplacePayoutCalculation::spec_new(gross, payout_rate, payout_rounding_mode, payout).spec_payout_rounding_mode() == payout_rounding_mode
            && MarketplacePayoutCalculation::spec_new(gross, payout_rate, payout_rounding_mode, payout).spec_payout() == payout,
{
}

impl Clone for MarketplacePayoutCalculation {
    fn clone(&self) -> (r: Self)
        ensures
            r == *self,
    {
        proof {
            use_type_invariant(self);
        }
        MarketplacePayoutCalculation { gross: self.gross, payout_rate: self.payout_rate, payout_rounding_mode: self.payout_rounding_mode, payout: self.payout }
    }
}

#[derive(Debug, PartialEq, Eq)]
pub struct MarketplaceOrder {
    pub(crate) marketplace: Marketplace,
    pub(crate) external_order_id: MarketplaceOrderId,
    pub(crate) internal_order: Order,
    pub(crate) gross_from_marketplace: Money,
    pub(crate) fee_ledger: MarketplaceFeeLedger,
}

impl MarketplaceOrder {
    /// Equal fields, and equal contents for the vectors it holds.
    pub open spec fn same_content(self, other: Self) -> bool {
        self.spec_marketplace() == other.spec_marketplace()
            && self.spec_external_order_id() == other.spec_external_order_id()
            && self.spec_internal_order().same_content(other.spec_internal_order())
            && self.spec_gross_from_marketplace() == other.spec_gross_from_marketplace()
            && self.spec_fee_ledger() == other.spec_fee_ledger()
    }

    /// Every value satisfies what `try_new` checks.
    #[verifier::type_invariant]
    pub open spec fn valid(self) -> bool {
        self.spec_gross_from_marketplace() == self.spec_internal_order().spec_total() && self.spec_fee_ledger().spec_gross() == self.spec_gross_from_marketplace()
    }

    pub open(crate) spec fn spec_marketplace(&self) -> Marketplace {
        self.marketplace
    }

    pub open(crate) spec fn spec_external_order_id(&self) -> MarketplaceOrderId {
        self.external_order_id
    }

    pub open(crate) spec fn spec_internal_order(&self) -> Order {
        self.internal_order
    }

    pub open(crate) spec fn spec_gross_from_marketplace(&self) -> Money {
        self.gross_from_marketplace
    }

    pub open(crate) spec fn spec_fee_ledger(&self) -> MarketplaceFeeLedger {
        self.fee_ledger
    }

    pub open(crate) spec fn spec_new(marketplace: Marketplace, external_order_id: MarketplaceOrderId, internal_order: Order, gross_from_marketplace: Money, fee_ledger: MarketplaceFeeLedger) -> Self {
        MarketplaceOrder { marketplace, external_order_id, internal_order, gross_from_marketplace, fee_ledger }
    }
}

/// The accessors of a `MarketplaceOrder` built by `spec_new` give back its parts.
pub broadcast proof fn lemma_marketplace_order_fields(marketplace: Marketplace, external_order_id: MarketplaceOrderId, internal_order: Order, gross_from_marketplace: Money, fee_ledger: MarketplaceFeeLedger)
    ensures
        #[trigger] MarketplaceOrder::spec_new(marketplace, external_order_id, internal_order, gross_from_marketplace, fee_ledger).spec_marketplace() == marketplace
            && MarketplaceOrder::spec_new(marketplace, external_order_id, internal_order, gross_from_marketplace, fee_ledger).spec_external_order_id() == external_order_id
            && MarketplaceOrder::spec_new(marketplace, external_order_id, internal_order, gross_from_marketplace, fee_ledger).spec_internal_order() == internal_order
            && MarketplaceOrder::spec_new(marketplace, external_order_id, internal_order, gross_from_marketplace, fee_ledger).spec_gross_from_marketplace() == gross_from_marketplace
            && MarketplaceOrder::spec_new(marketplace, external_order_id, internal_order, gross_from_marketplace, fee_ledger).spec_fee_ledger() == fee_ledger,
{
}

impl Clone for MarketplaceOrder {
    fn clone(&self) -> (r: Self)
        ensures
            r.same_content(*self),
    {
        proof {
            use_type_invariant(self);
        }
        MarketplaceOrder { marketplace: self.marketplace.clone(), external_order_id: self.external_order_id.clone(), internal_order: self.internal_order.clone(), gross_from_marketplace: self.gross_from_marketplace.clone(), fee_ledger: self.fee_ledger.clone() }
    }
}

impl ChannelPricePolicy {
    pub fn min_price(&self) -> (r: Money)
        ensures
            r == self.spec_min_price(),
    {
        self.min_price
    }

    pub fn max_price(&self) -> (r: Money)
        ensures
            r == self.spec_max_price(),
    {
        self.max_price
    }
}

impl SyncedMarketplaceListing {
    pub fn stock(&self) -> (r: StockState)
        ensures
            r == self.spec_stock(),
    {
        self.stock
    }
}

impl SafeProductFeedLine {
    pub fn sku(&self) -> (r: Sku)
        ensures
            r == self.spec_sku(),
    {
        self.sku
    }

    pub fn channel(&self) -> (r: SalesChannel)
        ensures
            r == self.spec_channel(),
    {
        self.channel
    }

    pub fn price(&self) -> (r: Money)
        ensures
            r == self.spec_price(),
    {
        self.price
    }

    pub fn currency(&self) -> (r: Currency)
        ensures
            r == self.spec_currency(),
    {
        self.currency
    }

    pub fn stock(&self) -> (r: Quantity)
        ensures
            r == self.spec_stock(),
    {
        self.stock
    }

    pub fn stock_state(&self) -> (r: StockState)
        ensures
            r == self.spec_stock_state(),
    {
        self.stock_state
    }

    pub fn price_policy(&self) -> (r: &ChannelPricePolicy)
        ensures
            *r == self.spec_price_policy(),
    {
        &self.price_policy
    }
}

impl MarketplaceFeeLedger {
    pub fn gross(&self) -> (r: Money)
        ensures
            r == self.spec_gross(),
    {
        self.gross
    }

    pub fn fee_rate(&self) -> (r: BasisPoints)
        ensures
            r == self.spec_fee_rate(),
    {
        self.fee_rate
    }

    pub fn fee_rounding_mode(&self) -> (r: RoundingMode)
        ensures
            r == self.spec_fee_rounding_mode(),
    {
        self.fee_rounding_mode
    }

    pub fn fee(&self) -> (r: Money)
        ensures
            r == self.spec_fee(),
    {
        self.fee
    }

    pub fn payout(&self) -> (r: Money)
        ensures
            r == self.spec_payout(),
    {
        self.payout
    }
}

impl MarketplacePayoutCalculation {
    pub fn gross(&self) -> (r: Money)
        ensures
            r == self.spec_gross(),
    {
        self.gross
    }

    pub fn payout_rate(&self) -> (r: BasisPoints)
        ensures
            r == self.spec_payout_rate(),
    {
        self.payout_rate
    }

    pub fn payout_rounding_mode(&self) -> (r: RoundingMode)
        ensures
            r == self.spec_payout_rounding_mode(),
    {
        self.payout_rounding_mode
    }

    pub fn payout(&self) -> (r: Money)
        ensures
            r == self.spec_payout(),
    {
        self.payout
    }
}

impl MarketplaceOrder {
    pub fn marketplace(&self) -> (r: Marketplace)
        ensures
            r == self.spec_marketplace(),
    {
        self.marketplace
    }

    pub fn external_order_id(&self) -> (r: MarketplaceOrderId)
        ensures
            r == self.spec_external_order_id(),
    {
        self.external_order_id
    }

    pub fn internal_order(&self) -> (r: &Order)
        ensures
            *r == self.spec_internal_order(),
    {
        &self.internal_order
    }

    pub fn gross_from_marketplace(&self) -> (r: Money)
        ensures
            r == self.spec_gross_from_marketplace(),
    {
        self.gross_from_marketplace
    }

    pub fn fee_ledger(&self) -> (r: &MarketplaceFeeLedger)
        ensures
            *r == self.spec_fee_ledger(),
    {
        &self.fee_ledger
    }
}

pub fn listing_active(listing: &MarketplaceListing) -> (r: bool)
    ensures
        r == (listing.spec_status() == ListingStatus::Active),
{
    listing.status == ListingStatus::Active
}

pub fn listing_in_stock(listing: &MarketplaceListing) -> (r: bool)
    ensures
        r == (listing.spec_published_stock() > 0),
{
    listing.published_stock > 0
}

pub fn listing_can_be_advertised(listing: &MarketplaceListing) -> (r: bool)
    ensures
        r == (listing.spec_status() == ListingStatus::Active && listing.spec_published_stock() > 0),
{
    listing_active(listing) && listing_in_stock(listing)
}

impl SyncedMarketplaceListing {
    pub fn try_new(listing: MarketplaceListing, stock: StockState) -> (r: DomainResult<Self>)
        ensures
            listing.spec_sku() != stock.spec_sku() ==> r == Err::<Self, ValidationError>(ValidationError::Invariant("listing SKU must match stock SKU")),
            listing.spec_sku() == stock.spec_sku() && listing.spec_published_stock() > available_stock_spec(stock) ==> r == Err::<Self, ValidationError>(ValidationError::Invariant("published stock exceeds available stock")),
            listing.spec_sku() == stock.spec_sku() && listing.spec_published_stock() <= available_stock_spec(stock) ==> r == Ok::<Self, ValidationError>(SyncedMarketplaceListing::spec_new(listing, stock)),
    {
        if listing.sku != stock.sku() {
            return Err(ValidationError::Invariant("listing SKU must match stock SKU"));
        }
        if listing.published_stock > available_stock(&stock) {
            return Err(ValidationError::Invariant("published stock exceeds available stock"));
        }
        Ok(Self { listing, stock })
    }

    pub fn listing(&self) -> (r: &MarketplaceListing)
        ensures
            *r == self.spec_listing(),
    {
        &self.listing
    }
}

impl ChannelPricePolicy {
    pub fn try_new(min_price: Money, max_price: Money) -> (r: DomainResult<Self>)
        ensures
            min_price > max_price ==> r == Err::<Self, ValidationError>(ValidationError::Invariant("minimum price exceeds maximum")),
            min_price <= max_price ==> r == Ok::<Self, ValidationError>(ChannelPricePolicy::spec_new(min_price, max_price)),
    {
        if min_price > max_price {
            return Err(ValidationError::Invariant("minimum price exceeds maximum"));
        }
        Ok(Self { min_price, max_price })
    }
}

pub fn valid_channel_price(policy: &ChannelPricePolicy, price: Money) -> (r: bool)
    ensures
        r == (policy.spec_min_price() <= price && price <= policy.spec_max_price()),
{
    policy.min_price <= price && price <= policy.max_price
}

impl SafeProductFeedLine {
    pub fn try_new(sku: Sku, channel: SalesChannel, price: Money, currency: Currency, stock: Quantity, stock_state: StockState, price_policy: ChannelPricePolicy) -> (r: DomainResult<Self>)
        ensures
            sku != stock_state.spec_sku() ==> r == Err::<Self, ValidationError>(ValidationError::Invariant("feed SKU must match stock SKU")),
            sku == stock_state.spec_sku() && !(price_policy.spec_min_price() <= price <= price_policy.spec_max_price()) ==> r == Err::<Self, ValidationError>(ValidationError::Invariant("feed price outside policy")),
            sku == stock_state.spec_sku() && price_policy.spec_min_price() <= price <= price_policy.spec_max_price() && stock > available_stock_spec(stock_state) ==> r == Err::<Self, ValidationError>(ValidationError::Invariant("feed stock exceeds availability")),
            sku == stock_state.spec_sku() && price_policy.spec_min_price() <= price <= price_policy.spec_max_price() && stock <= available_stock_spec(stock_state) ==> r == Ok::<Self, ValidationError>(
                SafeProductFeedLine::spec_new(sku, channel, price, currency, stock, stock_state, price_policy),
            ),
    {
        if sku != stock_state.sku() {
            return Err(ValidationError::Invariant("feed SKU must match stock SKU"));
        }
        if !valid_channel_price(&price_policy, price) {
            return Err(ValidationError::Invariant("feed price outside policy"));
        }
        if stock > available_stock(&stock_state) {
            return Err(ValidationError::Invariant("feed stock exceeds availability"));
        }
        Ok(Self { sku, channel, price, currency, stock, stock_state, price_policy })
    }
}

pub fn marketplace_fee_rounded(mode: RoundingMode, gross: Money, fee_rate: BasisPoints) -> (r: DomainResult<Money>)
    ensures
        r == round_bps_spec(mode, gross, fee_rate),
{
    round_bps_amount(mode, gross, fee_rate)
}

pub fn marketplace_payout_rounded(mode: RoundingMode, gross: Money, payout_rate: BasisPoints) -> (r: DomainResult<Money>)
    ensures
        r == round_bps_spec(mode, gross, payout_rate),
{
    round_bps_amount(mode, gross, payout_rate)
}

/// The first check a fee ledger fails, if any: the fee is the rounded rate of
/// the gross, at most the gross, and the payout is the rest.
pub open spec fn fee_ledger_error(gross: u128, fee_rate: BasisPoints, mode: RoundingMode, fee: u128, payout: u128) -> Option<ValidationError> {
    match round_bps_spec(mode, gross, fee_rate) {
        Err(e) => Some(e),
        Ok(expected) => if fee != expected {
            Some(ValidationError::Invariant("marketplace fee is incorrect"))
        } else if fee > gross {
            Some(ValidationError::Invariant("marketplace fee exceeds gross"))
        } else if payout != gross - fee {
            Some(ValidationError::Invariant("marketplace payout is incorrect"))
        } else {
            None
        },
    }
}

impl MarketplaceFeeLedger {
    pub fn try_new(gross: Money, fee_rate: BasisPoints, fee_rounding_mode: RoundingMode, fee: Money, payout: Money) -> (r: DomainResult<Self>)
        ensures
            r == (match fee_ledger_error(gross, fee_rate, fee_rounding_mode, fee, payout) {
                Some(e) => Err(e),
                None => Ok(MarketplaceFeeLedger::spec_new(gross, fee_rate, fee_rounding_mode, fee, payout)),
            }),
    {
        match marketplace_fee_rounded(fee_rounding_mode, gross, fee_rate) {
            Err(e) => return Err(e),
            Ok(expected) => if fee != expected {
                return Err(ValidationError::Invariant("marketplace fee is incorrect"));
            },
        }
        if fee > gross {
            return Err(ValidationError::Invariant("marketplace fee exceeds gross"));
        }
        if payout != nat_sub(gross, fee) {
            return Err(ValidationError::Invariant("marketplace payout is incorrect"));
        }
        Ok(Self { gross, fee_rate, fee_rounding_mode, fee, payout })
    }
}

impl MarketplacePayoutCalculation {
    pub fn try_new(gross: Money, payout_rate: BasisPoints, payout_rounding_mode: RoundingMode, payout: Money) -> (r: DomainResult<Self>)
        ensures
            round_bps_spec(payout_rounding_mode, gross, payout_rate) is Err ==> r == Err::<Self, ValidationError>(round_bps_spec(payout_rounding_mode, gross, payout_rate)->Err_0),
            round_bps_spec(payout_rounding_mode, gross, payout_rate) is Ok && payout != round_bps_spec(payout_rounding_mode, gross, payout_rate)->Ok_0 ==> r == Err::<Self, ValidationError>(ValidationError::Invariant("marketplace payout is incorrect")),
            round_bps_spec(payout_rounding_mode, gross, payout_rate) == Ok::<u128, ValidationError>(payout) ==> r == Ok::<Self, ValidationError>(
                MarketplacePayoutCalculation::spec_new(gross, payout_rate, payout_rounding_mode, payout),
            ),
    {
        match marketplace_payout_rounded(payout_rounding_mode, gross, payout_rate) {
            Err(e) => Err(e),
            Ok(expected) => {
                if payout != expected {
                    return Err(ValidationError::Invariant("marketplace payout is incorrect"));
                }
                Ok(Self { gross, payout_rate, payout_rounding_mode, payout })
            },
        }
    }
}

impl MarketplaceOrder {
    pub fn try_new(marketplace: Marketplace, external_order_id: MarketplaceOrderId, internal_order: Order, gross_from_marketplace: Money, fee_ledger: MarketplaceFeeLedger) -> (r: DomainResult<Self>)
        ensures
            gross_from_marketplace != internal_order.spec_total() ==> r == Err::<Self, ValidationError>(ValidationError::Invariant("marketplace gross must match internal order total")),
            gross_from_marketplace == internal_order.spec_total() && fee_ledger.spec_gross() != gross_from_marketplace ==> r == Err::<Self, ValidationError>(ValidationError::Invariant("fee ledger gross must match marketplace gross")),
            gross_from_marketplace == internal_order.spec_total() && fee_ledger.spec_gross() == gross_from_marketplace ==> r == Ok::<Self, ValidationError>(
                MarketplaceOrder::spec_new(marketplace, external_order_id, internal_order, gross_from_marketplace, fee_ledger),
            ),
    {
        if gross_from_marketplace != internal_order.total() {
            return Err(ValidationError::Invariant("marketplace gross must match internal order total"));
        }
        if fee_ledger.gross != gross_from_marketplace {
            return Err(ValidationError::Invariant("fee ledger gross must match marketplace gross"));
        }
        Ok(Self { marketplace, external_order_id, internal_order, gross_from_marketplace, fee_ledger })
    }
}

/// The accessor lemmas for the records of this module.
pub broadcast group group_marketplace_record_fields {
    lemma_marketplace_listing_fields,
    lemma_synced_marketplace_listing_fields,
    lemma_channel_price_policy_fields,
    lemma_safe_product_feed_line_fields,
    lemma_marketplace_fee_ledger_fields,
    lemma_marketplace_payout_calculation_fields,
    lemma_marketplace_order_fields,
}

} // verus!
