//! Units, identifiers, currency, money, basis points, rounding and checked
//! arithmetic shared by every other module.

use core::marker::PhantomData;
use vstd::prelude::*;

verus! {

#[derive(Clone, Copy, Debug, PartialEq, Eq, PartialOrd, Ord, Hash, Structural)]
pub struct Sku {
    pub(crate) value: Nat,
}

impl Sku {
    pub open(crate) spec fn spec_value(&self) -> Nat {
        self.value
    }

    pub open(crate) spec fn spec_new(value: Nat) -> Self {
        Sku { value }
    }
}

/// The accessors of a `Sku` built by `spec_new` give back its parts.
pub broadcast proof fn lemma_sku_fields(value: Nat)
    ensures
        #[trigger] Sku::spec_new(value).spec_value() == value,
{
}

impl Sku {
    pub fn new(value: Nat) -> (r: Self)
        ensures
            r.spec_value() == value,
    {
        Self { value }
    }

    pub fn try_new(value: Nat) -> (r: DomainResult<Self>)
        ensures
            r == Ok::<Self, ValidationError>(Self::spec_new(value)),
    {
        Ok(Self::new(value))
    }

    pub fn value(self) -> (r: Nat)
        ensures
            r == self.spec_value(),
    {
        self.value
    }
}

#[derive(Clone, Copy, Debug, PartialEq, Eq, PartialOrd, Ord, Hash, Structural)]
pub struct ProductId {
    pub(crate) value: Nat,
}

impl ProductId {
    pub open(crate) spec fn spec_value(&self) -> Nat {
        self.value
    }

    pub open(crate) spec fn spec_new(value: Nat) -> Self {
        ProductId { value }
    }
}

/// The accessors of a `ProductId` built by `spec_new` give back its parts.
pub broadcast proof fn lemma_product_id_fields(value: Nat)
    ensures
        #[trigger] ProductId::spec_new(value).spec_value() == value,
{
}

impl ProductId {
    pub fn new(value: Nat) -> (r: Self)
        ensures
            r.spec_value() == value,
    {
        Self { value }
    }

    pub fn try_new(value: Nat) -> (r: DomainResult<Self>)
        ensures
            r == Ok::<Self, ValidationError>(Self::spec_new(value)),
    {
        Ok(Self::new(value))
    }

    pub fn value(self) -> (r: Nat)
        ensures
            r == self.spec_value(),
    {
        self.value
    }
}

#[derive(Clone, Copy, Debug, PartialEq, Eq, PartialOrd, Ord, Hash, Structural)]
pub struct VariantId {
    pub(crate) value: Nat,
}

impl VariantId {
    pub open(crate) spec fn spec_value(&self) -> Nat {
        self.value
    }

    pub open(crate) spec fn spec_new(value: Nat) -> Self {
        VariantId { value }
    }
}

/// The accessors of a `VariantId` built by `spec_new` give back its parts.
pub broadcast proof fn lemma_variant_id_fields(value: Nat)
    ensures
        #[trigger] VariantId::spec_new(value).spec_value() == value,
{
}

impl VariantId {
    pub fn new(value: Nat) -> (r: Self)
        ensures
            r.spec_value() == value,
    {
        Self { value }
    }

    pub fn try_new(value: Nat) -> (r: DomainResult<Self>)
        ensures
            r == Ok::<Self, ValidationError>(Self::spec_new(value)),
    {
        Ok(Self::new(value))
    }

    pub fn value(self) -> (r: Nat)
        ensures
            r == self.spec_value(),
    {
        self.value
    }
}

#[derive(Clone, Copy, Debug, PartialEq, Eq, PartialOrd, Ord, Hash, Structural)]
pub struct CustomerId {
    pub(crate) value: Nat,
}

impl CustomerId {
    pub open(crate) spec fn spec_value(&self) -> Nat {
        self.value
    }

    pub open(crate) spec fn spec_new(value: Nat) -> Self {
        CustomerId { value }
    }
}

/// The accessors of a `CustomerId` built by `spec_new` give back its parts.
pub broadcast proof fn lemma_customer_id_fields(value: Nat)
    ensures
        #[trigger] CustomerId::spec_new(value).spec_value() == value,
{
}

impl CustomerId {
    pub fn new(value: Nat) -> (r: Self)
        ensures
            r.spec_value() == value,
    {
        Self { value }
    }

    pub fn try_new(value: Nat) -> (r: DomainResult<Self>)
        ensures
            r == Ok::<Self, ValidationError>(Self::spec_new(value)),
    {
        Ok(Self::new(value))
    }

    pub fn value(self) -> (r: Nat)
        ensures
            r == self.spec_value(),
    {
        self.value
    }
}

#[derive(Clone, Copy, Debug, PartialEq, Eq, PartialOrd, Ord, Hash, Structural)]
pub struct OrderId {
    pub(crate) value: Nat,
}

impl OrderId {
    pub open(crate) spec fn spec_value(&self) -> Nat {
        self.value
    }

    pub open(crate) spec fn spec_new(value: Nat) -> Self {
        OrderId { value }
    }
}

/// The accessors of a `OrderId` built by `spec_new` give back its parts.
pub broadcast proof fn lemma_order_id_fields(value: Nat)
    ensures
        #[trigger] OrderId::spec_new(value).spec_value() == value,
{
}

impl OrderId {
    pub fn new(value: Nat) -> (r: Self)
        ensures
            r.spec_value() == value,
    {
        Self { value }
    }

    pub fn try_new(value: Nat) -> (r: DomainResult<Self>)
        ensures
            r == Ok::<Self, ValidationError>(Self::spec_new(value)),
    {
        Ok(Self::new(value))
    }

    pub fn value(self) -> (r: Nat)
        ensures
            r == self.spec_value(),
    {
        self.value
    }
}

#[derive(Clone, Copy, Debug, PartialEq, Eq, PartialOrd, Ord, Hash, Structural)]
pub struct PaymentId {
    pub(crate) value: Nat,
}

impl PaymentId {
    pub open(crate) spec fn spec_value(&self) -> Nat {
        self.value
    }

    pub open(crate) spec fn spec_new(value: Nat) -> Self {
        PaymentId { value }
    }
}

/// The accessors of a `PaymentId` built by `spec_new` give back its parts.
pub broadcast proof fn lemma_payment_id_fields(value: Nat)
    ensures
        #[trigger] PaymentId::spec_new(value).spec_value() == value,
{
}

impl PaymentId {
    pub fn new(value: Nat) -> (r: Self)
        ensures
            r.spec_value() == value,
    {
        Self { value }
    }

    pub fn try_new(value: Nat) -> (r: DomainResult<Self>)
        ensures
            r == Ok::<Self, ValidationError>(Self::spec_new(value)),
    {
        Ok(Self::new(value))
    }

    pub fn value(self) -> (r: Nat)
        ensures
            r == self.spec_value(),
    {
        self.value
    }
}

#[derive(Clone, Copy, Debug, PartialEq, Eq, PartialOrd, Ord, Hash, Structural)]
pub struct SupplierId {
    pub(crate) value: Nat,
}

impl SupplierId {
    pub open(crate) spec fn spec_value(&self) -> Nat {
        self.value
    }

    pub open(crate) spec fn spec_new(value: Nat) -> Self {
        SupplierId { value }
    }
}

/// The accessors of a `SupplierId` built by `spec_new` give back its parts.
pub broadcast proof fn lemma_supplier_id_fields(value: Nat)
    ensures
        #[trigger] SupplierId::spec_new(value).spec_value() == value,
{
}

impl SupplierId {
    pub fn new(value: Nat) -> (r: Self)
        ensures
            r.spec_value() == value,
    {
        Self { value }
    }

    pub fn try_new(value: Nat) -> (r: DomainResult<Self>)
        ensures
            r == Ok::<Self, ValidationError>(Self::spec_new(value)),
    {
        Ok(Self::new(value))
    }

    pub fn value(self) -> (r: Nat)
        ensures
            r == self.spec_value(),
    {
        self.value
    }
}

#[derive(Clone, Copy, Debug, PartialEq, Eq, PartialOrd, Ord, Hash, Structural)]
pub struct MarketplaceOrderId {
    pub(crate) value: Nat,
}

impl MarketplaceOrderId {
    pub open(crate) spec fn spec_value(&self) -> Nat {
        self.value
    }

    pub open(crate) spec fn spec_new(value: Nat) -> Self {
        MarketplaceOrderId { value }
    }
}

/// The accessors of a `MarketplaceOrderId` built by `spec_new` give back its parts.
pub broadcast proof fn lemma_marketplace_order_id_fields(value: Nat)
    ensures
        #[trigger] MarketplaceOrderId::spec_new(value).spec_value() == value,
{
}

impl MarketplaceOrderId {
    pub fn new(value: Nat) -> (r: Self)
        ensures
            r.spec_value() == value,
    {
        Self { value }
    }

    pub fn try_new(value: Nat) -> (r: DomainResult<Self>)
        ensures
            r == Ok::<Self, ValidationError>(Self::spec_new(value)),
    {
        Ok(Self::new(value))
    }

    pub fn value(self) -> (r: Nat)
        ensures
            r == self.spec_value(),
    {
        self.value
    }
}

#[derive(Clone, Copy, Debug, PartialEq, Eq, PartialOrd, Ord, Hash, Structural)]
pub struct CampaignId {
    pub(crate) value: Nat,
}

impl CampaignId {
    pub open(crate) spec fn spec_value(&self) -> Nat {
        self.value
    }

    pub open(crate) spec fn spec_new(value: Nat) -> Self {
        CampaignId { value }
    }
}

/// The accessors of a `CampaignId` built by `spec_new` give back its parts.
pub broadcast proof fn lemma_campaign_id_fields(value: Nat)
    ensures
        #[trigger] CampaignId::spec_new(value).spec_value() == value,
{
}

impl CampaignId {
    pub fn new(value: Nat) -> (r: Self)
        ensures
            r.spec_value() == value,
    {
        Self { value }
    }

    pub fn try_new(value: Nat) -> (r: DomainResult<Self>)
        ensures
            r == Ok::<Self, ValidationError>(Self::spec_new(value)),
    {
        Ok(Self::new(value))
    }

    pub fn value(self) -> (r: Nat)
        ensures
            r == self.spec_value(),
    {
        self.value
    }
}

#[derive(Clone, Copy, Debug, PartialEq, Eq, PartialOrd, Ord, Hash, Structural)]
pub struct CompetitorId {
    pub(crate) value: Nat,
}

impl CompetitorId {
    pub open(crate) spec fn spec_value(&self) -> Nat {
        self.value
    }

    pub open(crate) spec fn spec_new(value: Nat) -> Self {
        CompetitorId { value }
    }
}

/// The accessors of a `CompetitorId` built by `spec_new` give back its parts.
pub broadcast proof fn lemma_competitor_id_fields(value: Nat)
    ensures
        #[trigger] CompetitorId::spec_new(value).spec_value() == value,
{
}

impl CompetitorId {
    pub fn new(value: Nat) -> (r: Self)
        ensures
            r.spec_value() == value,
    {
        Self { value }
    }

    pub fn try_new(value: Nat) -> (r: DomainResult<Self>)
        ensures
            r == Ok::<Self, ValidationError>(Self::spec_new(value)),
    {
        Ok(Self::new(value))
    }

    pub fn value(self) -> (r: Nat)
        ensures
            r == self.spec_value(),
    {
        self.value
    }
}

#[derive(Clone, Copy, Debug, PartialEq, Eq, PartialOrd, Ord, Hash, Structural)]
pub struct IdempotencyKey {
    pub(crate) value: Nat,
}

impl IdempotencyKey {
    pub open(crate) spec fn spec_value(&self) -> Nat {
        self.value
    }

    pub open(crate) spec fn spec_new(value: Nat) -> Self {
        IdempotencyKey { value }
    }
}

/// The accessors of a `IdempotencyKey` built by `spec_new` give back its parts.
pub broadcast proof fn lemma_idempotency_key_fields(value: Nat)
    ensures
        #[trigger] IdempotencyKey::spec_new(value).spec_value() == value,
{
}

impl IdempotencyKey {
    pub fn new(value: Nat) -> (r: Self)
        ensures
            r.spec_value() == value,
    {
        Self { value }
    }

    pub fn try_new(value: Nat) -> (r: DomainResult<Self>)
        ensures
            r == Ok::<Self, ValidationError>(Self::spec_new(value)),
    {
        Ok(Self::new(value))
    }

    pub fn value(self) -> (r: Nat)
        ensures
            r == self.spec_value(),
    {
        self.value
    }
}

#[derive(Clone, Copy, Debug, PartialEq, Eq, PartialOrd, Ord, Hash, Structural)]
pub struct AccountId {
    pub(crate) value: Nat,
}

impl AccountId {
    pub open(crate) spec fn spec_value(&self) -> Nat {
        self.value
    }

    pub open(crate) spec fn spec_new(value: Nat) -> Self {
        AccountId { value }
    }
}

/// The accessors of a `AccountId` built by `spec_new` give back its parts.
pub broadcast proof fn lemma_account_id_fields(value: Nat)
    ensures
        #[trigger] AccountId::spec_new(value).spec_value() == value,
{
}

impl AccountId {
    pub fn new(value: Nat) -> (r: Self)
        ensures
            r.spec_value() == value,
    {
        Self { value }
    }

    pub fn try_new(value: Nat) -> (r: DomainResult<Self>)
        ensures
            r == Ok::<Self, ValidationError>(Self::spec_new(value)),
    {
        Ok(Self::new(value))
    }

    pub fn value(self) -> (r: Nat)
        ensures
            r == self.spec_value(),
    {
        self.value
    }
}

#[derive(Clone, Copy, Debug, PartialEq, Eq, PartialOrd, Ord, Hash, Structural)]
pub struct ContactId {
    pub(crate) value: Nat,
}

impl ContactId {
    pub open(crate) spec fn spec_value(&self) -> Nat {
        self.value
    }

    pub open(crate) spec fn spec_new(value: Nat) -> Self {
        ContactId { value }
    }
}

/// The accessors of a `ContactId` built by `spec_new` give back its parts.
pub broadcast proof fn lemma_contact_id_fields(value: Nat)
    ensures
        #[trigger] ContactId::spec_new(value).spec_value() == value,
{
}

impl ContactId {
    pub fn new(value: Nat) -> (r: Self)
        ensures
            r.spec_value() == value,
    {
        Self { value }
    }

    pub fn try_new(value: Nat) -> (r: DomainResult<Self>)
        ensures
            r == Ok::<Self, ValidationError>(Self::spec_new(value)),
    {
        Ok(Self::new(value))
    }

    pub fn value(self) -> (r: Nat)
        ensures
            r == self.spec_value(),
    {
        self.value
    }
}

#[derive(Clone, Copy, Debug, PartialEq, Eq, PartialOrd, Ord, Hash, Structural)]
pub struct LeadId {
    pub(crate) value: Nat,
}

impl LeadId {
    pub open(crate) spec fn spec_value(&self) -> Nat {
        self.value
    }

    pub open(crate) spec fn spec_new(value: Nat) -> Self {
        LeadId { value }
    }
}

/// The accessors of a `LeadId` built by `spec_new` give back its parts.
pub broadcast proof fn lemma_lead_id_fields(value: Nat)
    ensures
        #[trigger] LeadId::spec_new(value).spec_value() == value,
{
}

impl LeadId {
    pub fn new(value: Nat) -> (r: Self)
        ensures
            r.spec_value() == value,
    {
        Self { value }
    }

    pub fn try_new(value: Nat) -> (r: DomainResult<Self>)
        ensures
            r == Ok::<Self, ValidationError>(Self::spec_new(value)),
    {
        Ok(Self::new(value))
    }

    pub fn value(self) -> (r: Nat)
        ensures
            r == self.spec_value(),
    {
        self.value
    }
}

#[derive(Clone, Copy, Debug, PartialEq, Eq, PartialOrd, Ord, Hash, Structural)]
pub struct OpportunityId {
    pub(crate) value: Nat,
}

impl OpportunityId {
    pub open(crate) spec fn spec_value(&self) -> Nat {
        self.value
    }

    pub open(crate) spec fn spec_new(value: Nat) -> Self {
        OpportunityId { value }
    }
}

/// The accessors of a `OpportunityId` built by `spec_new` give back its parts.
pub broadcast proof fn lemma_opportunity_id_fields(value: Nat)
    ensures
        #[trigger] OpportunityId::spec_new(value).spec_value() == value,
{
}

impl OpportunityId {
    pub fn new(value: Nat) -> (r: Self)
        ensures
            r.spec_value() == value,
    {
        Self { value }
    }

    pub fn try_new(value: Nat) -> (r: DomainResult<Self>)
        ensures
            r == Ok::<Self, ValidationError>(Self::spec_new(value)),
    {
        Ok(Self::new(value))
    }

    pub fn value(self) -> (r: Nat)
        ensures
            r == self.spec_value(),
    {
        self.value
    }
}

#[derive(Clone, Copy, Debug, PartialEq, Eq, PartialOrd, Ord, Hash, Structural)]
pub struct InteractionId {
    pub(crate) value: Nat,
}

impl InteractionId {
    pub open(crate) spec fn spec_value(&self) -> Nat {
        self.value
    }

    pub open(crate) spec fn spec_new(value: Nat) -> Self {
        InteractionId { value }
    }
}

/// The accessors of a `InteractionId` built by `spec_new` give back its parts.
pub broadcast proof fn lemma_interaction_id_fields(value: Nat)
    ensures
        #[trigger] InteractionId::spec_new(value).spec_value() == value,
{
}

impl InteractionId {
    pub fn new(value: Nat) -> (r: Self)
        ensures
            r.spec_value() == value,
    {
        Self { value }
    }

    pub fn try_new(value: Nat) -> (r: DomainResult<Self>)
        ensures
            r == Ok::<Self, ValidationError>(Self::spec_new(value)),
    {
        Ok(Self::new(value))
    }

    pub fn value(self) -> (r: Nat)
        ensures
            r == self.spec_value(),
    {
        self.value
    }
}

#[derive(Clone, Copy, Debug, PartialEq, Eq, PartialOrd, Ord, Hash, Structural)]
pub struct SegmentId {
    pub(crate) value: Nat,
}

impl SegmentId {
    pub open(crate) spec fn spec_value(&self) -> Nat {
        self.value
    }

    pub open(crate) spec fn spec_new(value: Nat) -> Self {
        SegmentId { value }
    }
}

/// The accessors of a `SegmentId` built by `spec_new` give back its parts.
pub broadcast proof fn lemma_segment_id_fields(value: Nat)
    ensures
        #[trigger] SegmentId::spec_new(value).spec_value() == value,
{
}

impl SegmentId {
    pub fn new(value: Nat) -> (r: Self)
        ensures
            r.spec_value() == value,
    {
        Self { value }
    }

    pub fn try_new(value: Nat) -> (r: DomainResult<Self>)
        ensures
            r == Ok::<Self, ValidationError>(Self::spec_new(value)),
    {
        Ok(Self::new(value))
    }

    pub fn value(self) -> (r: Nat)
        ensures
            r == self.spec_value(),
    {
        self.value
    }
}

#[derive(Clone, Copy, Debug, PartialEq, Eq, PartialOrd, Ord, Hash, Structural)]
pub struct SupportCaseId {
    pub(crate) value: Nat,
}

impl SupportCaseId {
    pub open(crate) spec fn spec_value(&self) -> Nat {
        self.value
    }

    pub open(crate) spec fn spec_new(value: Nat) -> Self {
        SupportCaseId { value }
    }
}

/// The accessors of a `SupportCaseId` built by `spec_new` give back its parts.
pub broadcast proof fn lemma_support_case_id_fields(value: Nat)
    ensures
        #[trigger] SupportCaseId::spec_new(value).spec_value() == value,
{
}

impl SupportCaseId {
    pub fn new(value: Nat) -> (r: Self)
        ensures
            r.spec_value() == value,
    {
        Self { value }
    }

    pub fn try_new(value: Nat) -> (r: DomainResult<Self>)
        ensures
            r == Ok::<Self, ValidationError>(Self::spec_new(value)),
    {
        Ok(Self::new(value))
    }

    pub fn value(self) -> (r: Nat)
        ensures
            r == self.spec_value(),
    {
        self.value
    }
}

#[derive(Clone, Copy, Debug, PartialEq, Eq, PartialOrd, Ord, Hash, Structural)]
pub struct ShipmentId {
    pub(crate) value: Nat,
}

impl ShipmentId {
    pub open(crate) spec fn spec_value(&self) -> Nat {
        self.value
    }

    pub open(crate) spec fn spec_new(value: Nat) -> Self {
        ShipmentId { value }
    }
}

/// The accessors of a `ShipmentId` built by `spec_new` give back its parts.
pub broadcast proof fn lemma_shipment_id_fields(value: Nat)
    ensures
        #[trigger] ShipmentId::spec_new(value).spec_value() == value,
{
}

impl ShipmentId {
    pub fn new(value: Nat) -> (r: Self)
        ensures
            r.spec_value() == value,
    {
        Self { value }
    }

    pub fn try_new(value: Nat) -> (r: DomainResult<Self>)
        ensures
            r == Ok::<Self, ValidationError>(Self::spec_new(value)),
    {
        Ok(Self::new(value))
    }

    pub fn value(self) -> (r: Nat)
        ensures
            r == self.spec_value(),
    {
        self.value
    }
}

#[derive(Clone, Copy, Debug, PartialEq, Eq, PartialOrd, Ord, Hash, Structural)]
pub struct TrackingEventId {
    pub(crate) value: Nat,
}

impl TrackingEventId {
    pub open(crate) spec fn spec_value(&self) -> Nat {
        self.value
    }

    pub open(crate) spec fn spec_new(value: Nat) -> Self {
        TrackingEventId { value }
    }
}

/// The accessors of a `TrackingEventId` built by `spec_new` give back its parts.
pub broadcast proof fn lemma_tracking_event_id_fields(value: Nat)
    ensures
        #[trigger] TrackingEventId::spec_new(value).spec_value() == value,
{
}

impl TrackingEventId {
    pub fn new(value: Nat) -> (r: Self)
        ensures
            r.spec_value() == value,
    {
        Self { value }
    }

    pub fn try_new(value: Nat) -> (r: DomainResult<Self>)
        ensures
            r == Ok::<Self, ValidationError>(Self::spec_new(value)),
    {
        Ok(Self::new(value))
    }

    pub fn value(self) -> (r: Nat)
        ensures
            r == self.spec_value(),
    {
        self.value
    }
}

#[derive(Clone, Copy, Debug, PartialEq, Eq, PartialOrd, Ord, Hash, Structural)]
pub struct TransferId {
    pub(crate) value: Nat,
}

impl TransferId {
    pub open(crate) spec fn spec_value(&self) -> Nat {
        self.value
    }

    pub open(crate) spec fn spec_new(value: Nat) -> Self {
        TransferId { value }
    }
}

/// The accessors of a `TransferId` built by `spec_new` give back its parts.
pub broadcast proof fn lemma_transfer_id_fields(value: Nat)
    ensures
        #[trigger] TransferId::spec_new(value).spec_value() == value,
{
}

impl TransferId {
    pub fn new(value: Nat) -> (r: Self)
        ensures
            r.spec_value() == value,
    {
        Self { value }
    }

    pub fn try_new(value: Nat) -> (r: DomainResult<Self>)
        ensures
            r == Ok::<Self, ValidationError>(Self::spec_new(value)),
    {
        Ok(Self::new(value))
    }

    pub fn value(self) -> (r: Nat)
        ensures
            r == self.spec_value(),
    {
        self.value
    }
}

#[derive(Clone, Copy, Debug, PartialEq, Eq, PartialOrd, Ord, Hash, Structural)]
pub struct ReturnAuthorizationId {
    pub(crate) value: Nat,
}

impl ReturnAuthorizationId {
    pub open(crate) spec fn spec_value(&self) -> Nat {
        self.value
    }

    pub open(crate) spec fn spec_new(value: Nat) -> Self {
        ReturnAuthorizationId { value }
    }
}

/// The accessors of a `ReturnAuthorizationId` built by `spec_new` give back its parts.
pub broadcast proof fn lemma_return_authorization_id_fields(value: Nat)
    ensures
        #[trigger] ReturnAuthorizationId::spec_new(value).spec_value() == value,
{
}

impl ReturnAuthorizationId {
    pub fn new(value: Nat) -> (r: Self)
        ensures
            r.spec_value() == value,
    {
        Self { value }
    }

    pub fn try_new(value: Nat) -> (r: DomainResult<Self>)
        ensures
            r == Ok::<Self, ValidationError>(Self::spec_new(value)),
    {
        Ok(Self::new(value))
    }

    pub fn value(self) -> (r: Nat)
        ensures
            r == self.spec_value(),
    {
        self.value
    }
}

#[derive(Debug, PartialEq, Eq, Structural)]
pub struct MoneyAmount {
    pub(crate) amount: Money,
    pub(crate) currency: Currency,
}

impl MoneyAmount {
    pub open(crate) spec fn spec_amount(&self) -> Money {
        self.amount
    }

    pub open(crate) spec fn spec_currency(&self) -> Currency {
        self.currency
    }

    pub open(crate) spec fn spec_new(amount: Money, currency: Currency) -> Self {
        MoneyAmount { amount, currency }
    }
}

/// The accessors of a `MoneyAmount` built by `spec_new` give back its parts.
pub broadcast proof fn lemma_money_amount_fields(amount: Money, currency: Currency)
    ensures
        #[trigger] MoneyAmount::spec_new(amount, currency).spec_amount() == amount
            && MoneyAmount::spec_new(amount, currency).spec_currency() == currency,
{
}

impl Clone for MoneyAmount {
    fn clone(&self) -> (r: Self)
        ensures
            r == *self,
    {
        MoneyAmount { amount: self.amount, currency: self.currency }
    }
}

impl MoneyAmount {
    pub fn new(amount: Money, currency: Currency) -> (r: Self)
        ensures
            r == (MoneyAmount::spec_new(amount, currency)),
    {
        MoneyAmount { amount, currency }
    }

    pub fn try_new(amount: Money, currency: Currency) -> (r: DomainResult<Self>)
        ensures
            r == Ok::<Self, ValidationError>(MoneyAmount::spec_new(amount, currency)),
    {
        Ok(Self::new(amount, currency))
    }

    pub fn amount(&self) -> (r: Money)
        ensures
            r == self.spec_amount(),
    {
        self.amount
    }

    pub fn currency(&self) -> (r: Currency)
        ensures
            r == self.spec_currency(),
    {
        self.currency
    }
}

#[derive(Clone, Copy, Debug, PartialEq, Eq, Structural, Hash, PartialOrd, Ord)]
pub enum Currency {
    UAH,
    USD,
    EUR,
    GBP,
    PLN,
}

pub type Nat = u128;

pub type MinorUnit = Nat;

pub type NonNegMoney = MinorUnit;

pub type Money = NonNegMoney;

pub type SignedMoney = i128;

pub type Quantity = u128;

pub type Weight = u128;

pub type Id = u128;

pub type DomainResult<T> = Result<T, ValidationError>;

/// Seconds in one calendar day.
pub const SECONDS_PER_DAY: i64 = 86400;

/// Julian day number of 1970-01-01, the origin of [`Timestamp`].
pub const UNIX_EPOCH_JULIAN_DAY: i64 = 2440588;

// ---------------------------------------------------------------------------
// Mathematical model of the checked arithmetic.
// ---------------------------------------------------------------------------
/// The value of a natural-number computation, or the overflow error that the
/// checked operation reports when it leaves the `u128` range.
pub open spec fn total_result(value: int, context: &'static str) -> DomainResult<u128> {
    if 0 <= value <= u128::MAX {
        Ok(value as u128)
    } else {
        Err(ValidationError::Overflow(context))
    }
}

pub open spec fn add_result(a: int, b: int, context: &'static str) -> DomainResult<u128> {
    total_result(a + b, context)
}

pub open spec fn mul_result(a: int, b: int, context: &'static str) -> DomainResult<u128> {
    total_result(a * b, context)
}

/// Natural-number subtraction that floors at zero.
pub open spec fn nat_sub_spec(a: int, b: int) -> int {
    if a >= b {
        a - b
    } else {
        0
    }
}

/// Sum of `f` over the elements of `s`, folded from the left.
pub open spec fn sum_nat<T>(s: Seq<T>, f: spec_fn(T) -> nat) -> nat
    decreases s.len(),
{
    if s.len() == 0 {
        0
    } else {
        sum_nat(s.drop_last(), f) + f(s.last())
    }
}

pub open spec fn u128_value() -> spec_fn(u128) -> nat {
    |x: u128| x as nat
}

/// Extending a prefix by one element adds that element's term to its sum.
pub proof fn lemma_sum_nat_take_step<T>(s: Seq<T>, f: spec_fn(T) -> nat, i: int)
    requires
        0 <= i < s.len(),
    ensures
        sum_nat(s.take(i + 1), f) == sum_nat(s.take(i), f) + f(s[i]),
{
    assert(s.take(i + 1).drop_last() =~= s.take(i));
}

/// The prefix of full length sums to the whole sequence.
pub proof fn lemma_sum_nat_take_all<T>(s: Seq<T>, f: spec_fn(T) -> nat)
    ensures
        sum_nat(s.take(s.len() as int), f) == sum_nat(s, f),
{
    assert(s.take(s.len() as int) =~= s);
}

/// A prefix never sums to more than the whole sequence.
pub proof fn lemma_sum_nat_prefix_le<T>(s: Seq<T>, f: spec_fn(T) -> nat, i: int)
    requires
        0 <= i <= s.len(),
    ensures
        sum_nat(s.take(i), f) <= sum_nat(s, f),
    decreases s.len() - i,
{
    if i == s.len() {
        lemma_sum_nat_take_all(s, f);
    } else {
        lemma_sum_nat_take_step(s, f, i);
        lemma_sum_nat_prefix_le(s, f, i + 1);
    }
}

/// Sum of a sequence of results, stopping at the first error: an item error
/// is reported as is, a running total that leaves `u128` reports `context`.
pub open spec fn result_sum(s: Seq<DomainResult<u128>>, context: &'static str) -> DomainResult<u128>
    decreases s.len(),
{
    if s.len() == 0 {
        Ok(0u128)
    } else {
        match result_sum(s.drop_last(), context) {
            Err(e) => Err(e),
            Ok(acc) => match s.last() {
                Err(e) => Err(e),
                Ok(v) => add_result(acc as int, v as int, context),
            },
        }
    }
}

/// Extending a prefix by one result adds it to the checked sum, unless an error came first.
pub proof fn lemma_result_sum_take_step(s: Seq<DomainResult<u128>>, context: &'static str, i: int)
    requires
        0 <= i < s.len(),
    ensures
        result_sum(s.take(i + 1), context) == (match result_sum(s.take(i), context) {
            Err(e) => Err(e),
            Ok(acc) => match s[i] {
                Err(e) => Err(e),
                Ok(v) => add_result(acc as int, v as int, context),
            },
        }),
{
    assert(s.take(i + 1).drop_last() =~= s.take(i));
}

/// Once an error appears in a prefix, it is the error of the whole sequence.
pub proof fn lemma_result_sum_err_sticks(s: Seq<DomainResult<u128>>, context: &'static str, i: int)
    requires
        0 <= i <= s.len(),
        result_sum(s.take(i), context) is Err,
    ensures
        result_sum(s, context) == result_sum(s.take(i), context),
    decreases s.len() - i,
{
    if i == s.len() {
        assert(s.take(i) =~= s);
    } else {
        lemma_result_sum_take_step(s, context, i);
        lemma_result_sum_err_sticks(s, context, i + 1);
    }
}

/// Maps `f` over `s` from the left, stopping at the first error.
pub open spec fn collect_results<T, U>(s: Seq<T>, f: spec_fn(T) -> DomainResult<U>) -> DomainResult<
    Seq<U>,
>
    decreases s.len(),
{
    if s.len() == 0 {
        Ok(Seq::empty())
    } else {
        match collect_results(s.drop_last(), f) {
            Err(e) => Err(e),
            Ok(vals) => match f(s.last()) {
                Err(e) => Err(e),
                Ok(v) => Ok(vals.push(v)),
            },
        }
    }
}

/// Extending a prefix by one element extends its collection by that element's result.
pub proof fn lemma_collect_results_take_step<T, U>(s: Seq<T>, f: spec_fn(T) -> DomainResult<U>, i: int)
    requires
        0 <= i < s.len(),
    ensures
        collect_results(s.take(i + 1), f) == (match collect_results(s.take(i), f) {
            Err(e) => Err(e),
            Ok(vals) => match f(s[i]) {
                Err(e) => Err(e),
                Ok(v) => Ok(vals.push(v)),
            },
        }),
{
    assert(s.take(i + 1).drop_last() =~= s.take(i));
}

/// Once a prefix fails to collect, the whole sequence fails with the same error.
pub proof fn lemma_collect_results_err_sticks<T, U>(s: Seq<T>, f: spec_fn(T) -> DomainResult<U>, i: int)
    requires
        0 <= i <= s.len(),
        collect_results(s.take(i), f) is Err,
    ensures
        collect_results(s, f) == collect_results(s.take(i), f),
    decreases s.len() - i,
{
    if i == s.len() {
        assert(s.take(i) =~= s);
    } else {
        lemma_collect_results_take_step(s, f, i);
        lemma_collect_results_err_sticks(s, f, i + 1);
    }
}

/// A left fold that stops at the first step that fails.
pub open spec fn try_fold_spec<S, E>(init: S, s: Seq<E>, f: spec_fn(S, E) -> DomainResult<S>) -> DomainResult<S>
    decreases s.len(),
{
    if s.len() == 0 {
        Ok(init)
    } else {
        match try_fold_spec(init, s.drop_last(), f) {
            Err(e) => Err(e),
            Ok(acc) => f(acc, s.last()),
        }
    }
}

/// Extending a prefix by one element applies one more step to its fold.
pub proof fn lemma_try_fold_take_step<S, E>(init: S, s: Seq<E>, f: spec_fn(S, E) -> DomainResult<S>, i: int)
    requires
        0 <= i < s.len(),
    ensures
        try_fold_spec(init, s.take(i + 1), f) == (match try_fold_spec(init, s.take(i), f) {
            Err(e) => Err(e),
            Ok(acc) => f(acc, s[i]),
        }),
{
    assert(s.take(i + 1).drop_last() =~= s.take(i));
}

/// Once a prefix fails to fold, the whole sequence fails with the same error.
pub proof fn lemma_try_fold_err_sticks<S, E>(init: S, s: Seq<E>, f: spec_fn(S, E) -> DomainResult<S>, i: int)
    requires
        0 <= i <= s.len(),
        try_fold_spec(init, s.take(i), f) is Err,
    ensures
        try_fold_spec(init, s, f) == try_fold_spec(init, s.take(i), f),
    decreases s.len() - i,
{
    if i == s.len() {
        assert(s.take(i) =~= s);
    } else {
        lemma_try_fold_take_step(init, s, f, i);
        lemma_try_fold_err_sticks(init, s, f, i + 1);
    }
}

/// Folding a concatenation folds the first part, then the second from there.
pub proof fn lemma_try_fold_append<S, E>(init: S, a: Seq<E>, b: Seq<E>, f: spec_fn(S, E) -> DomainResult<S>)
    ensures
        try_fold_spec(init, a + b, f) == (match try_fold_spec(init, a, f) {
            Err(e) => Err(e),
            Ok(mid) => try_fold_spec(mid, b, f),
        }),
    decreases b.len(),
{
    if b.len() == 0 {
        assert(a + b =~= a);
    } else {
        lemma_try_fold_append(init, a, b.drop_last(), f);
        assert((a + b).drop_last() =~= a + b.drop_last());
        assert((a + b).last() == b.last());
    }
}

/// A successful collection keeps the length and maps each element.
pub proof fn lemma_collect_results_ok<T, U>(s: Seq<T>, f: spec_fn(T) -> DomainResult<U>)
    requires
        collect_results(s, f) is Ok,
    ensures
        collect_results(s, f)->Ok_0.len() == s.len(),
        forall|j: int| 0 <= j < s.len() ==> f(#[trigger] s[j]) == Ok::<U, ValidationError>(collect_results(s, f)->Ok_0[j]),
    decreases s.len(),
{
    if s.len() > 0 {
        lemma_collect_results_ok(s.drop_last(), f);
        assert forall|j: int| 0 <= j < s.len() implies f(#[trigger] s[j]) == Ok::<U, ValidationError>(collect_results(s, f)->Ok_0[j]) by {
            if j < s.len() - 1 {
                assert(s[j] == s.drop_last()[j]);
            }
        }
    }
}

/// Collection succeeds exactly when every element maps to `Ok`.
pub proof fn lemma_collect_results_ok_iff<T, U>(s: Seq<T>, f: spec_fn(T) -> DomainResult<U>)
    ensures
        collect_results(s, f) is Ok <==> forall|j: int| 0 <= j < s.len() ==> f(#[trigger] s[j]) is Ok,
    decreases s.len(),
{
    if s.len() > 0 {
        lemma_collect_results_ok_iff(s.drop_last(), f);
        if collect_results(s, f) is Ok {
            lemma_collect_results_ok(s, f);
        } else {
            if collect_results(s.drop_last(), f) is Err {
                let j = choose|j: int| 0 <= j < s.len() - 1 && f(#[trigger] s.drop_last()[j]) is Err;
                assert(s[j] == s.drop_last()[j]);
            }
        }
        assert forall|j: int| 0 <= j < s.len() - 1 implies s.drop_last()[j] == s[j] by {}
    }
}

/// Maps `f` over `s` (first error wins), then sums the values with overflow
/// reported as `context`.
pub open spec fn collected_sum<T>(s: Seq<T>, f: spec_fn(T) -> DomainResult<u128>, context: &'static str) -> DomainResult<u128> {
    match collect_results(s, f) {
        Err(e) => Err(e),
        Ok(vals) => total_result(sum_nat(vals, u128_value()) as int, context),
    }
}

// ---------------------------------------------------------------------------
// Errors and decimal money.
// ---------------------------------------------------------------------------
#[derive(Clone, Copy, Debug, PartialEq, Eq)]
pub struct DecimalMoney {
    pub(crate) coefficient: SignedMoney,
    pub(crate) scale: Nat,
}

impl DecimalMoney {
    pub open(crate) spec fn spec_coefficient(&self) -> SignedMoney {
        self.coefficient
    }

    pub open(crate) spec fn spec_scale(&self) -> Nat {
        self.scale
    }
}

impl DecimalMoney {
    pub fn new(coefficient: SignedMoney, scale: Nat) -> (r: Self)
        ensures
            r.spec_coefficient() == coefficient,
            r.spec_scale() == scale,
    {
        Self { coefficient, scale }
    }

    pub fn coefficient(&self) -> (r: SignedMoney)
        ensures
            r == self.spec_coefficient(),
    {
        self.coefficient
    }

    pub fn scale(&self) -> (r: Nat)
        ensures
            r == self.spec_scale(),
    {
        self.scale
    }
}

#[derive(Clone, Copy, Debug, PartialEq, Eq)]
pub enum ValidationError {
    Invariant(&'static str),
    Overflow(&'static str),
    DivisionByZero(&'static str),
    LineDiscountExceedsGross,
    CouponExceedsSubtotal,
    ShippingUnavailable,
    OrderTotalMismatch,
    StockReservedExceedsTotal,
    PricePolicyInvalid,
    FeedSkuMismatch,
    FeedPriceOutOfPolicy,
    FeedStockUnavailable,
    LedgerRefundedExceedsCaptured,
    RefundExceedsRemaining,
    BasisPointsOutOfRange,
    CatalogInvariantFailed,
    InventoryInvariantFailed,
    AccountingInvariantFailed,
    MarketplaceInvariantFailed,
    MarketingInvariantFailed,
    B2BInvariantFailed,
    DropshippingInvariantFailed,
    ProfitInvariantFailed,
    CompetitorInvariantFailed,
    MerchandisingInvariantFailed,
    FinanceInvariantFailed,
    AuditPermissionDenied,
    EventStreamInvalid,
    PostPurchaseInvariantFailed,
    SupplierQualityInvalid,
    OpportunityInvariantFailed,
    CrmInvariantFailed,
    LogisticsInvariantFailed,
    ImplicitInvariantFailed,
    TaxInvariantFailed,
}

impl ValidationError {
    /// The human-readable text of the error: a prefix naming the kind of
    /// failure, followed by the context for the three kinds that carry one.
    pub open spec fn message_view(self) -> Seq<char> {
        match self {
            ValidationError::Invariant(m) => "invariant failed: "@ + m@,
            ValidationError::Overflow(m) => "arithmetic overflow: "@ + m@,
            ValidationError::DivisionByZero(m) => "division by zero: "@ + m@,
            ValidationError::LineDiscountExceedsGross => "line discount exceeds gross"@,
            ValidationError::CouponExceedsSubtotal => "coupon exceeds cart net subtotal"@,
            ValidationError::ShippingUnavailable => "shipping unavailable"@,
            ValidationError::OrderTotalMismatch => "order total mismatch"@,
            ValidationError::StockReservedExceedsTotal => "reserved stock exceeds total"@,
            ValidationError::PricePolicyInvalid => "price policy invalid"@,
            ValidationError::FeedSkuMismatch => "feed SKU mismatch"@,
            ValidationError::FeedPriceOutOfPolicy => "feed price out of policy"@,
            ValidationError::FeedStockUnavailable => "feed stock unavailable"@,
            ValidationError::LedgerRefundedExceedsCaptured => "ledger refunded exceeds captured"@,
            ValidationError::RefundExceedsRemaining => "refund exceeds remaining amount"@,
            ValidationError::BasisPointsOutOfRange => "basis points out of range"@,
            ValidationError::CatalogInvariantFailed => "catalog invariant failed"@,
            ValidationError::InventoryInvariantFailed => "inventory invariant failed"@,
            ValidationError::AccountingInvariantFailed => "accounting invariant failed"@,
            ValidationError::MarketplaceInvariantFailed => "marketplace invariant failed"@,
            ValidationError::MarketingInvariantFailed => "marketing invariant failed"@,
            ValidationError::B2BInvariantFailed => "B2B invariant failed"@,
            ValidationError::DropshippingInvariantFailed => "dropshipping invariant failed"@,
            ValidationError::ProfitInvariantFailed => "profit invariant failed"@,
            ValidationError::CompetitorInvariantFailed => "competitor invariant failed"@,
            ValidationError::MerchandisingInvariantFailed => "merchandising invariant failed"@,
            ValidationError::FinanceInvariantFailed => "finance invariant failed"@,
            ValidationError::AuditPermissionDenied => "audit permission denied"@,
            ValidationError::EventStreamInvalid => "event stream invalid"@,
            ValidationError::PostPurchaseInvariantFailed => "post-purchase invariant failed"@,
            ValidationError::SupplierQualityInvalid => "supplier quality invalid"@,
            ValidationError::OpportunityInvariantFailed => "opportunity invariant failed"@,
            ValidationError::CrmInvariantFailed => "CRM invariant failed"@,
            ValidationError::LogisticsInvariantFailed => "logistics invariant failed"@,
            ValidationError::ImplicitInvariantFailed => "implicit invariant failed"@,
            ValidationError::TaxInvariantFailed => "tax invariant failed"@,
        }
    }

    pub fn message(&self) -> (r: String)
        ensures
            r@ == self.message_view(),
    {
        match self {
            ValidationError::Invariant(m) => String::from_str("invariant failed: ").concat(m),
            ValidationError::Overflow(m) => String::from_str("arithmetic overflow: ").concat(m),
            ValidationError::DivisionByZero(m) => String::from_str("division by zero: ").concat(m),
            ValidationError::LineDiscountExceedsGross => String::from_str("line discount exceeds gross"),
            ValidationError::CouponExceedsSubtotal => String::from_str("coupon exceeds cart net subtotal"),
            ValidationError::ShippingUnavailable => String::from_str("shipping unavailable"),
            ValidationError::OrderTotalMismatch => String::from_str("order total mismatch"),
            ValidationError::StockReservedExceedsTotal => String::from_str("reserved stock exceeds total"),
            ValidationError::PricePolicyInvalid => String::from_str("price policy invalid"),
            ValidationError::FeedSkuMismatch => String::from_str("feed SKU mismatch"),
            ValidationError::FeedPriceOutOfPolicy => String::from_str("feed price out of policy"),
            ValidationError::FeedStockUnavailable => String::from_str("feed stock unavailable"),
            ValidationError::LedgerRefundedExceedsCaptured => String::from_str("ledger refunded exceeds captured"),
            ValidationError::RefundExceedsRemaining => String::from_str("refund exceeds remaining amount"),
            ValidationError::BasisPointsOutOfRange => String::from_str("basis points out of range"),
            ValidationError::CatalogInvariantFailed => String::from_str("catalog invariant failed"),
            ValidationError::InventoryInvariantFailed => String::from_str("inventory invariant failed"),
            ValidationError::AccountingInvariantFailed => String::from_str("accounting invariant failed"),
            ValidationError::MarketplaceInvariantFailed => String::from_str("marketplace invariant failed"),
            ValidationError::MarketingInvariantFailed => String::from_str("marketing invariant failed"),
            ValidationError::B2BInvariantFailed => String::from_str("B2B invariant failed"),
            ValidationError::DropshippingInvariantFailed => String::from_str("dropshipping invariant failed"),
            ValidationError::ProfitInvariantFailed => String::from_str("profit invariant failed"),
            ValidationError::CompetitorInvariantFailed => String::from_str("competitor invariant failed"),
            ValidationError::MerchandisingInvariantFailed => String::from_str("merchandising invariant failed"),
            ValidationError::FinanceInvariantFailed => String::from_str("finance invariant failed"),
            ValidationError::AuditPermissionDenied => String::from_str("audit permission denied"),
            ValidationError::EventStreamInvalid => String::from_str("event stream invalid"),
            ValidationError::PostPurchaseInvariantFailed => String::from_str("post-purchase invariant failed"),
            ValidationError::SupplierQualityInvalid => String::from_str("supplier quality invalid"),
            ValidationError::OpportunityInvariantFailed => String::from_str("opportunity invariant failed"),
            ValidationError::CrmInvariantFailed => String::from_str("CRM invariant failed"),
            ValidationError::LogisticsInvariantFailed => String::from_str("logistics invariant failed"),
            ValidationError::ImplicitInvariantFailed => String::from_str("implicit invariant failed"),
            ValidationError::TaxInvariantFailed => String::from_str("tax invariant failed"),
        }
    }
}

// ---------------------------------------------------------------------------
// Checked natural-number arithmetic.
// ---------------------------------------------------------------------------
pub fn checked_add(a: Nat, b: Nat, context: &'static str) -> (r: DomainResult<Nat>)
    ensures
        r == add_result(a as int, b as int, context),
{
    match a.checked_add(b) {
        Some(v) => Ok(v),
        None => Err(ValidationError::Overflow(context)),
    }
}

pub fn checked_mul(a: Nat, b: Nat, context: &'static str) -> (r: DomainResult<Nat>)
    ensures
        r == mul_result(a as int, b as int, context),
{
    proof {
        vstd::arithmetic::mul::lemma_mul_nonnegative(a as int, b as int);
    }
    match a.checked_mul(b) {
        Some(v) => Ok(v),
        None => Err(ValidationError::Overflow(context)),
    }
}

pub fn checked_div(a: Nat, b: Nat, context: &'static str) -> (r: DomainResult<Nat>)
    ensures
        b == 0 ==> r == Err::<Nat, ValidationError>(ValidationError::DivisionByZero(context)),
        b != 0 ==> r == Ok::<Nat, ValidationError>(a / b),
{
    if b == 0 {
        Err(ValidationError::DivisionByZero(context))
    } else {
        Ok(a / b)
    }
}

/// Sum of `items`; `Overflow(context)` when the total leaves the `u128` range.
pub fn checked_sum(items: &[Nat], context: &'static str) -> (r: DomainResult<Nat>)
    ensures
        r == total_result(sum_nat(items@, u128_value()) as int, context),
{
    let mut acc: Nat = 0;
    let mut i: usize = 0;
    while i < items.len()
        invariant
            i <= items.len(),
            acc == sum_nat(items@.take(i as int), u128_value()),
        decreases items.len() - i,
    {
        proof {
            lemma_sum_nat_take_step(items@, u128_value(), i as int);
        }
        match acc.checked_add(items[i]) {
            Some(v) => {
                acc = v;
            },
            None => {
                proof {
                    lemma_sum_nat_prefix_le(items@, u128_value(), i + 1);
                }
                return Err(ValidationError::Overflow(context));
            },
        }
        i += 1;
    }
    proof {
        lemma_sum_nat_take_all(items@, u128_value());
    }
    Ok(acc)
}

/// Sums results in order: the first item error is returned as is, and a
/// running total that overflows reports `Overflow(context)`.
pub fn checked_result_sum(items: &[DomainResult<Nat>], context: &'static str) -> (r: DomainResult<
    Nat,
>)
    ensures
        r == result_sum(items@, context),
{
    let mut acc: Nat = 0;
    let mut i: usize = 0;
    while i < items.len()
        invariant
            i <= items.len(),
            result_sum(items@.take(i as int), context) == Ok::<u128, ValidationError>(acc),
        decreases items.len() - i,
    {
        proof {
            lemma_result_sum_take_step(items@, context, i as int);
        }
        match items[i] {
            Err(e) => {
                proof {
                    lemma_result_sum_err_sticks(items@, context, i + 1);
                }
                return Err(e);
            },
            Ok(v) => match checked_add(acc, v, context) {
                Ok(next) => {
                    acc = next;
                },
                Err(e) => {
                    proof {
                        lemma_result_sum_err_sticks(items@, context, i + 1);
                    }
                    return Err(e);
                },
            },
        }
        i += 1;
    }
    proof {
        assert(items@.take(items.len() as int) =~= items@);
    }
    Ok(acc)
}

pub fn nat_sub(a: Nat, b: Nat) -> (r: Nat)
    ensures
        r == nat_sub_spec(a as int, b as int),
{
    a.saturating_sub(b)
}

// ---------------------------------------------------------------------------
// Time: timestamps are seconds from 1970-01-01T00:00:00, durations seconds.
// ---------------------------------------------------------------------------
#[derive(Clone, Copy, Debug, PartialEq, Eq, PartialOrd, Ord, Hash, Structural)]
pub struct Timestamp {
    pub(crate) seconds: i64,
}

impl Timestamp {
    pub open(crate) spec fn spec_seconds(&self) -> i64 {
        self.seconds
    }

    pub open(crate) spec fn spec_new(seconds: i64) -> Self {
        Timestamp { seconds }
    }
}

/// The accessors of a `Timestamp` built by `spec_new` give back its parts.
pub broadcast proof fn lemma_timestamp_fields(seconds: i64)
    ensures
        #[trigger] Timestamp::spec_new(seconds).spec_seconds() == seconds,
{
}

#[derive(Clone, Copy, Debug, PartialEq, Eq, PartialOrd, Ord, Hash, Structural)]
pub struct Duration {
    pub(crate) seconds: i128,
}

impl Duration {
    pub open(crate) spec fn spec_seconds(&self) -> i128 {
        self.seconds
    }

    pub open(crate) spec fn spec_new(seconds: i128) -> Self {
        Duration { seconds }
    }
}

/// The accessors of a `Duration` built by `spec_new` give back its parts.
pub broadcast proof fn lemma_duration_fields(seconds: i128)
    ensures
        #[trigger] Duration::spec_new(seconds).spec_seconds() == seconds,
{
}

pub type Days = Duration;

impl Timestamp {
    pub fn from_unix_seconds(seconds: i64) -> (r: Self)
        ensures
            r.spec_seconds() == seconds,
    {
        Timestamp { seconds }
    }

    pub fn unix_seconds(self) -> (r: i64)
        ensures
            r == self.spec_seconds(),
    {
        self.seconds
    }

    /// The timestamp `d` later, or `None` outside the representable range.
    pub fn checked_add_duration(self, d: Duration) -> (r: Option<Timestamp>)
        ensures
            i64::MIN <= self.spec_seconds() + d.spec_seconds() <= i64::MAX ==> r == Some(
                Timestamp::spec_new((self.spec_seconds() + d.spec_seconds()) as i64),
            ),
            !(i64::MIN <= self.spec_seconds() + d.spec_seconds() <= i64::MAX) ==> r is None,
    {
        let s = self.seconds as i128;
        if d.seconds > i64::MAX as i128 - s || d.seconds < i64::MIN as i128 - s {
            None
        } else {
            Some(Timestamp { seconds: (s + d.seconds) as i64 })
        }
    }

    /// The timestamp `d` earlier, or `None` outside the representable range.
    pub fn checked_sub_duration(self, d: Duration) -> (r: Option<Timestamp>)
        ensures
            i64::MIN <= self.spec_seconds() - d.spec_seconds() <= i64::MAX ==> r == Some(
                Timestamp::spec_new((self.spec_seconds() - d.spec_seconds()) as i64),
            ),
            !(i64::MIN <= self.spec_seconds() - d.spec_seconds() <= i64::MAX) ==> r is None,
    {
        let s = self.seconds as i128;
        if d.seconds < s - i64::MAX as i128 || d.seconds > s - i64::MIN as i128 {
            None
        } else {
            Some(Timestamp { seconds: (s - d.seconds) as i64 })
        }
    }
}

impl Duration {
    pub fn from_seconds(seconds: i128) -> (r: Self)
        ensures
            r.spec_seconds() == seconds,
    {
        Duration { seconds }
    }

    pub fn whole_seconds(self) -> (r: i128)
        ensures
            r == self.spec_seconds(),
    {
        self.seconds
    }

    /// Sum of two durations, `None` when the seconds leave the `i64` range.
    pub fn checked_add(self, other: Duration) -> (r: Option<Duration>)
        ensures
            i64::MIN <= self.spec_seconds() + other.spec_seconds() <= i64::MAX ==> r == Some(
                Duration::spec_new((self.spec_seconds() + other.spec_seconds()) as i128),
            ),
            !(i64::MIN <= self.spec_seconds() + other.spec_seconds() <= i64::MAX) ==> r is None,
    {
        if self.seconds > i64::MAX as i128 || self.seconds < i64::MIN as i128 {
            if (self.seconds > i64::MAX as i128 && other.seconds >= 0) || (self.seconds
                < i64::MIN as i128 && other.seconds <= 0) {
                return None;
            }
        }
        if other.seconds > i64::MAX as i128 || other.seconds < i64::MIN as i128 {
            if (other.seconds > i64::MAX as i128 && self.seconds >= 0) || (other.seconds
                < i64::MIN as i128 && self.seconds <= 0) {
                return None;
            }
        }
        let sum = self.seconds + other.seconds;
        if sum > i64::MAX as i128 || sum < i64::MIN as i128 {
            None
        } else {
            Some(Duration { seconds: sum })
        }
    }
}


/// Gregorian leap years: every fourth year, except centuries not divisible by 400.
pub open spec fn is_leap_year(year: int) -> bool {
    year % 4 == 0 && (year % 100 != 0 || year % 400 == 0)
}

/// Days in a month of the Gregorian calendar.
pub open spec fn days_in_month(year: int, month: int) -> int {
    if month == 2 {
        if is_leap_year(year) { 29 } else { 28 }
    } else if month == 4 || month == 6 || month == 9 || month == 11 {
        30
    } else {
        31
    }
}

/// A calendar date that the calendar crate represents: a year within
/// `-9999..=9999`, a month within `1..=12` and a day within the month.
pub open spec fn calendar_date_exists(year: i32, month: u8, day: u8) -> bool {
    &&& -9999 <= year <= 9999
    &&& 1 <= month <= 12
    &&& 1 <= day <= days_in_month(year as int, month as int)
}

/// The Julian day number of a date of the proleptic Gregorian calendar:
/// whole days since 24 November 4714 BC (year -4713). Counting years from
/// March, so that a leap day ends its year, a year `y` contributes 365 days
/// plus its leap days and month `m` (March being 0) starts `(153 * m + 2) / 5`
/// days in.
pub open spec fn julian_day_number(year: int, month: int, day: int) -> int {
    let y = if month <= 2 { year - 1 } else { year };
    let m = if month <= 2 { month + 9 } else { month - 3 };
    365 * y + y / 4 - y / 100 + y / 400 + (153 * m + 2) / 5 + day + 1721119
}

/// Calls `time::Month::try_from` and `time::Date::from_calendar_date` and reads
/// `Date::to_julian_day` of the result. The contract states which dates the
/// crate accepts: `Month::try_from` refuses numbers outside `1..=12`, and
/// `from_calendar_date` refuses years outside `-9999..=9999` (the range without
/// the crate's `large-dates` feature, which this crate does not enable) and
/// days past the month's length, with Gregorian leap years. For the dates it
/// accepts, `to_julian_day` is the Julian day number, as its documentation
/// names it (day 0 is 24 November 4714 BC, 1 January 2000 is day 2451545).
#[verifier::external_body]
fn julian_day_of_calendar_date(year: i32, month: u8, day: u8) -> (r: Option<i32>)
    ensures
        r is Some <==> calendar_date_exists(year, month, day),
        r is Some ==> r->Some_0 == julian_day_number(year as int, month as int, day as int),
{
    match time::Month::try_from(month) {
        Ok(m) => match time::Date::from_calendar_date(year, m, day) {
            Ok(date) => Some(date.to_julian_day()),
            Err(_) => None,
        },
        Err(_) => None,
    }
}

/// Seconds from the epoch of a calendar date and a time of day.
pub open spec fn timestamp_seconds(julian_day: int, hour: int, minute: int, second: int) -> int {
    (julian_day - UNIX_EPOCH_JULIAN_DAY) * SECONDS_PER_DAY + hour * 3600 + minute * 60 + second
}

pub open spec fn timestamp_from_ymdhms_spec(
    year: i32,
    month: u8,
    day: u8,
    hour: u8,
    minute: u8,
    second: u8,
) -> Option<Timestamp> {
    if calendar_date_exists(year, month, day) && hour < 24 && minute < 60 && second < 60 {
        Some(
            Timestamp::spec_new(
                timestamp_seconds(julian_day_number(year as int, month as int, day as int), hour as int, minute as int, second as int)
                    as i64,
            ),
        )
    } else {
        None
    }
}

pub fn timestamp_from_ymdhms(year: i32, month: u8, day: u8, hour: u8, minute: u8, second: u8) -> (r:
    Option<Timestamp>)
    ensures
        r == timestamp_from_ymdhms_spec(year, month, day, hour, minute, second),
        r is Some <==> calendar_date_exists(year, month, day) && hour < 24 && minute < 60 && second < 60,
{
    match julian_day_of_calendar_date(year, month, day) {
        None => None,
        Some(jd) => {
            if hour < 24 && minute < 60 && second < 60 {
                let days_from_epoch: i64 = jd as i64 - UNIX_EPOCH_JULIAN_DAY;
                assert(-5000000000 <= days_from_epoch <= 5000000000);
                let seconds: i64 = days_from_epoch * SECONDS_PER_DAY + hour as i64 * 3600
                    + minute as i64 * 60 + second as i64;
                Some(Timestamp { seconds })
            } else {
                None
            }
        },
    }
}

/// 1970-01-01T00:00:00, the origin of [`Timestamp`].
pub fn unix_epoch_timestamp() -> (r: Timestamp)
    ensures
        r.spec_seconds() == 0,
{
    proof {
        assert(julian_day_number(1970, 1, 1) == UNIX_EPOCH_JULIAN_DAY);
    }
    timestamp_from_ymdhms(1970, 1, 1, 0, 0, 0).unwrap()
}

/// The duration from `observed_at` to `now` (negative when `now` is earlier).
pub fn timestamp_age(now: Timestamp, observed_at: Timestamp) -> (r: Duration)
    ensures
        r.spec_seconds() == now.spec_seconds() - observed_at.spec_seconds(),
{
    Duration { seconds: now.seconds as i128 - observed_at.seconds as i128 }
}

/// `n` whole days.
pub fn days(n: Nat) -> (r: Days)
    requires
        n * SECONDS_PER_DAY <= i64::MAX,
    ensures
        r.spec_seconds() == n * SECONDS_PER_DAY,
{
    Duration { seconds: n as i128 * 86400 }
}

// ---------------------------------------------------------------------------
// Rounding.
// ---------------------------------------------------------------------------
#[derive(Clone, Copy, Debug, PartialEq, Eq, Structural)]
pub enum RoundingMode {
    Floor,
    Ceiling,
    HalfUp,
}

/// `numerator / denominator` rounded by `mode`.
pub open spec fn round_div_spec(mode: RoundingMode, numerator: int, denominator: int) -> DomainResult<
    u128,
> {
    if denominator == 0 {
        Err(ValidationError::DivisionByZero("round_div denominator"))
    } else {
        match mode {
            RoundingMode::Floor => Ok((numerator / denominator) as u128),
            RoundingMode::Ceiling => if numerator % denominator == 0 {
                Ok((numerator / denominator) as u128)
            } else {
                Ok((numerator / denominator + 1) as u128)
            },
            RoundingMode::HalfUp => match add_result(
                numerator,
                denominator / 2,
                "round_div half-up",
            ) {
                Err(e) => Err(e),
                Ok(n) => Ok((n as int / denominator) as u128),
            },
        }
    }
}

/// What each rounding mode means. With a nonzero denominator `d`, a result
/// `r` of dividing `n` is: for `Floor` the largest `r` with `r * d <= n`; for
/// `Ceiling` the smallest `r` with `n <= r * d`; for `HalfUp` the integer
/// nearest to `n / d`, halves going up, so that `(2r - 1) * d <= 2n < (2r + 1) * d`.
/// The only failures are a zero denominator and, for `HalfUp`, `n + d / 2`
/// leaving `u128`.
pub proof fn lemma_round_div_rounds(mode: RoundingMode, n: u128, d: u128)
    ensures
        d == 0 ==> round_div_spec(mode, n as int, d as int) == Err::<u128, ValidationError>(
            ValidationError::DivisionByZero("round_div denominator"),
        ),
        d > 0 && (mode != RoundingMode::HalfUp || n + d / 2 <= u128::MAX) ==> round_div_spec(mode, n as int, d as int) is Ok,
        round_div_spec(mode, n as int, d as int) matches Ok(r) ==> match mode {
            RoundingMode::Floor => r * d <= n < (r + 1) * d,
            RoundingMode::Ceiling => (r - 1) * d < n <= r * d,
            RoundingMode::HalfUp => (2 * r - 1) * d <= 2 * n < (2 * r + 1) * d,
        },
{
    if d > 0 {
        let q = n as int / d as int;
        let m = n as int % d as int;
        vstd::arithmetic::div_mod::lemma_fundamental_div_mod(n as int, d as int);
        assert(0 <= m < d);
        assert(n == d * q + m);
        assert(q * d <= n < (q + 1) * d) by (nonlinear_arith)
            requires
                n == d * q + m,
                0 <= m < d,
        ;
        assert(0 <= q <= n) by (nonlinear_arith)
            requires
                n == d * q + m,
                0 <= m < d,
                d > 0,
                n >= 0,
        ;
        assert(round_div_spec(RoundingMode::Floor, n as int, d as int) == Ok::<u128, ValidationError>(q as u128));
        if m != 0 {
            assert(q * d < n <= (q + 1) * d) by (nonlinear_arith)
                requires
                    n == d * q + m,
                    0 < m < d,
            ;
            assert(q + 1 <= n) by (nonlinear_arith)
                requires
                    n == d * q + m,
                    0 < m < d,
                    q >= 0,
            ;
            assert(round_div_spec(RoundingMode::Ceiling, n as int, d as int) == Ok::<u128, ValidationError>((q + 1) as u128));
        } else {
            assert((q - 1) * d < n <= q * d) by (nonlinear_arith)
                requires
                    n == d * q,
                    d > 0,
            ;
            assert(round_div_spec(RoundingMode::Ceiling, n as int, d as int) == Ok::<u128, ValidationError>(q as u128));
        }
        if n + d / 2 <= u128::MAX {
            let h = d as int / 2;
            let t = n as int + h;
            let q2 = t / d as int;
            let m2 = t % d as int;
            vstd::arithmetic::div_mod::lemma_fundamental_div_mod(t, d as int);
            vstd::arithmetic::div_mod::lemma_fundamental_div_mod(d as int, 2);
            assert(0 <= m2 < d);
            assert(d == 2 * h + d % 2);
            assert((2 * q2 - 1) * d <= 2 * n < (2 * q2 + 1) * d) by (nonlinear_arith)
                requires
                    t == d * q2 + m2,
                    0 <= m2 < d,
                    t == n + h,
                    d == 2 * h + d % 2,
                    0 <= d % 2 < 2,
                    d > 0,
            ;
            assert(0 <= q2 <= t) by (nonlinear_arith)
                requires
                    t == d * q2 + m2,
                    0 <= m2 < d,
                    d > 0,
                    t >= 0,
            ;
            assert(round_div_spec(RoundingMode::HalfUp, n as int, d as int) == Ok::<u128, ValidationError>(q2 as u128));
        }
    }
}

pub fn round_div(mode: RoundingMode, numerator: Nat, denominator: Nat) -> (r: DomainResult<Nat>)
    ensures
        r == round_div_spec(mode, numerator as int, denominator as int),
        r matches Ok(v) ==> match mode {
            RoundingMode::Floor => v * denominator <= numerator < (v + 1) * denominator,
            RoundingMode::Ceiling => (v - 1) * denominator < numerator <= v * denominator,
            RoundingMode::HalfUp => (2 * v - 1) * denominator <= 2 * numerator < (2 * v + 1) * denominator,
        },
{
    proof {
        lemma_round_div_rounds(mode, numerator, denominator);
    }
    if denominator == 0 {
        return Err(ValidationError::DivisionByZero("round_div denominator"));
    }
    match mode {
        RoundingMode::Floor => Ok(numerator / denominator),
        RoundingMode::Ceiling => {
            let quotient = numerator / denominator;
            if numerator % denominator == 0 {
                Ok(quotient)
            } else {
                proof {
                    assert(denominator >= 2);
                    assert(quotient <= numerator / 2) by (nonlinear_arith)
                        requires
                            denominator >= 2,
                            quotient == numerator / denominator,
                    ;
                }
                checked_add(quotient, 1, "round_div ceiling")
            }
        },
        RoundingMode::HalfUp => {
            let half = denominator / 2;
            match checked_add(numerator, half, "round_div half-up") {
                Err(e) => Err(e),
                Ok(n) => checked_div(n, denominator, "round_div half-up"),
            }
        },
    }
}

pub fn round_money(mode: RoundingMode, numerator: Nat, denominator: Nat) -> (r: DomainResult<Money>)
    ensures
        r == round_div_spec(mode, numerator as int, denominator as int),
{
    round_div(mode, numerator, denominator)
}

pub fn floor_rounding_remainder(numerator: Nat, denominator: Nat) -> (r: DomainResult<Nat>)
    ensures
        denominator == 0 ==> r == Err::<Nat, ValidationError>(
            ValidationError::DivisionByZero("floor_rounding_remainder denominator"),
        ),
        denominator != 0 ==> r == Ok::<Nat, ValidationError>(numerator % denominator),
{
    if denominator == 0 {
        Err(ValidationError::DivisionByZero("floor_rounding_remainder denominator"))
    } else {
        Ok(numerator % denominator)
    }
}

/// Sum of the floor-rounding remainders of `numerators` over `denominator`.
pub fn floor_rounded_lines_remainder_total(denominator: Nat, numerators: &[Nat]) -> (r: DomainResult<
    Nat,
>)
    ensures
        denominator == 0 && numerators.len() > 0 ==> r == Err::<Nat, ValidationError>(
            ValidationError::DivisionByZero("floor_rounding_remainder denominator"),
        ),
        denominator != 0 || numerators.len() == 0 ==> r == total_result(
            sum_nat(numerators@, remainder_value(denominator)) as int,
            "floor_rounded_lines_remainder_total",
        ),
{
    if denominator == 0 {
        if numerators.len() == 0 {
            return Ok(0);
        }
        return Err(ValidationError::DivisionByZero("floor_rounding_remainder denominator"));
    }
    let mut remainders: Vec<Nat> = Vec::new();
    let mut i: usize = 0;
    while i < numerators.len()
        invariant
            i <= numerators.len(),
            denominator != 0,
            remainders.len() == i,
            forall|j: int| 0 <= j < i ==> remainders@[j] == numerators@[j] % denominator,
        decreases numerators.len() - i,
    {
        remainders.push(numerators[i] % denominator);
        i += 1;
    }
    let r = checked_sum(remainders.as_slice(), "floor_rounded_lines_remainder_total");
    proof {
        lemma_sum_nat_pointwise(remainders@, numerators@, u128_value(), remainder_value(denominator));
    }
    r
}

pub open spec fn remainder_value(denominator: u128) -> spec_fn(u128) -> nat {
    |x: u128| (x % denominator) as nat
}

/// Two sequences whose elements agree under `f` and `g` have the same sums.
pub proof fn lemma_sum_nat_pointwise<A, B>(a: Seq<A>, b: Seq<B>, f: spec_fn(A) -> nat, g: spec_fn(B) -> nat)
    requires
        a.len() == b.len(),
        forall|j: int| 0 <= j < a.len() ==> f(a[j]) == g(b[j]),
    ensures
        sum_nat(a, f) == sum_nat(b, g),
    decreases a.len(),
{
    if a.len() > 0 {
        lemma_sum_nat_pointwise(a.drop_last(), b.drop_last(), f, g);
    }
}


// ---------------------------------------------------------------------------
// Money in a currency fixed by the type.
// ---------------------------------------------------------------------------
pub trait CurrencyMarker: Clone + Copy + core::fmt::Debug + PartialEq + Eq {
    const CURRENCY: Currency;
}

#[derive(Clone, Copy, Debug, PartialEq, Eq)]
pub struct Uah;

impl CurrencyMarker for Uah {
    const CURRENCY: Currency = Currency::UAH;
}

#[derive(Clone, Copy, Debug, PartialEq, Eq)]
pub struct Usd;

impl CurrencyMarker for Usd {
    const CURRENCY: Currency = Currency::USD;
}

#[derive(Clone, Copy, Debug, PartialEq, Eq)]
pub struct Eur;

impl CurrencyMarker for Eur {
    const CURRENCY: Currency = Currency::EUR;
}

#[derive(Clone, Copy, Debug, PartialEq, Eq)]
pub struct Gbp;

impl CurrencyMarker for Gbp {
    const CURRENCY: Currency = Currency::GBP;
}

#[derive(Clone, Copy, Debug, PartialEq, Eq)]
pub struct Pln;

impl CurrencyMarker for Pln {
    const CURRENCY: Currency = Currency::PLN;
}

#[derive(Copy, Debug, PartialEq, Eq)]
pub struct MoneyIn<C: CurrencyMarker> {
    pub(crate) amount: Money,
    pub(crate) _currency: PhantomData<C>,
}

impl<C: CurrencyMarker> MoneyIn<C> {
    pub open(crate) spec fn spec_amount(&self) -> Money {
        self.amount
    }

    pub open(crate) spec fn spec__currency(&self) -> PhantomData<C> {
        self._currency
    }
}

impl<C: CurrencyMarker> Clone for MoneyIn<C> {
    fn clone(&self) -> (r: Self)
        ensures
            r == *self,
    {
        *self
    }
}

impl<C: CurrencyMarker> MoneyIn<C> {
    pub fn new(amount: Money) -> (r: Self)
        ensures
            r.spec_amount() == amount,
    {
        Self { amount, _currency: PhantomData }
    }

    pub fn zero() -> (r: Self)
        ensures
            r.spec_amount() == 0,
    {
        Self::new(0)
    }

    pub fn amount(self) -> (r: Money)
        ensures
            r == self.spec_amount(),
    {
        self.amount
    }

    pub fn currency(self) -> (r: Currency)
        ensures
            r == C::CURRENCY,
    {
        C::CURRENCY
    }

    pub fn checked_add(self, other: Self) -> (r: DomainResult<Self>)
        ensures
            self.spec_amount() + other.spec_amount() <= u128::MAX ==> r is Ok && r->Ok_0.spec_amount() == self.spec_amount()
                + other.spec_amount(),
            self.spec_amount() + other.spec_amount() > u128::MAX ==> r == Err::<Self, ValidationError>(
                ValidationError::Overflow("MoneyIn::add"),
            ),
    {
        match checked_add(self.amount, other.amount, "MoneyIn::add") {
            Ok(v) => Ok(Self::new(v)),
            Err(e) => Err(e),
        }
    }

    pub fn saturating_sub(self, other: Self) -> (r: Self)
        ensures
            r.spec_amount() == nat_sub_spec(self.spec_amount() as int, other.spec_amount() as int),
    {
        Self::new(nat_sub(self.amount, other.amount))
    }
}

pub fn same_currency(a: &MoneyAmount, b: &MoneyAmount) -> (r: bool)
    ensures
        r == (a.spec_currency() == b.spec_currency()),
{
    a.currency == b.currency
}

// ---------------------------------------------------------------------------
// Basis points and profit.
// ---------------------------------------------------------------------------
/// A share in hundredths of a percent, at most 10000.
#[derive(Clone, Copy, Debug, PartialEq, Eq, Structural)]
pub struct BasisPoints {
    pub(crate) value: Nat,
}

impl BasisPoints {
    pub open(crate) spec fn spec_value(&self) -> Nat {
        self.value
    }

    pub open(crate) spec fn spec_new(value: Nat) -> Self {
        BasisPoints { value }
    }
}

/// The accessors of a `BasisPoints` built by `spec_new` give back its parts.
pub broadcast proof fn lemma_basis_points_fields(value: Nat)
    ensures
        #[trigger] BasisPoints::spec_new(value).spec_value() == value,
{
}

impl BasisPoints {
    #[verifier::type_invariant]
    pub open spec fn valid(self) -> bool {
        self.spec_value() <= 10000
    }

    pub fn try_new(value: Nat) -> (r: DomainResult<Self>)
        ensures
            value <= 10000 ==> r == Ok::<Self, ValidationError>(BasisPoints::spec_new(value)),
            value > 10000 ==> r == Err::<Self, ValidationError>(
                ValidationError::Invariant("basis points must be <= 10000"),
            ),
    {
        if value <= 10000 {
            Ok(Self { value })
        } else {
            Err(ValidationError::Invariant("basis points must be <= 10000"))
        }
    }

    pub fn value(self) -> (r: Nat)
        ensures
            r == self.spec_value(),
    {
        self.value
    }
}

/// `amount * bp / 10000`, rounded down.
pub open spec fn apply_bps_spec(bp: BasisPoints, amount: u128) -> DomainResult<u128> {
    match mul_result(amount as int, bp.spec_value() as int, "apply_bps multiplication") {
        Err(e) => Err(e),
        Ok(p) => Ok((p / 10000) as u128),
    }
}

pub fn apply_bps(bp: BasisPoints, amount: Money) -> (r: DomainResult<Money>)
    ensures
        r == apply_bps_spec(bp, amount),
{
    match checked_mul(amount, bp.value, "apply_bps multiplication") {
        Err(e) => Err(e),
        Ok(p) => checked_div(p, 10000, "apply_bps division"),
    }
}

/// `amount * bp / 10000` rounded by `mode`.
pub open spec fn round_bps_spec(mode: RoundingMode, amount: u128, bp: BasisPoints) -> DomainResult<
    u128,
> {
    match mul_result(amount as int, bp.spec_value() as int, "round_bps_amount multiplication") {
        Err(e) => Err(e),
        Ok(p) => round_div_spec(mode, p as int, 10000),
    }
}

pub fn round_bps_amount(mode: RoundingMode, amount: Money, bp: BasisPoints) -> (r: DomainResult<
    Money,
>)
    ensures
        r == round_bps_spec(mode, amount, bp),
{
    match checked_mul(amount, bp.value, "round_bps_amount multiplication") {
        Err(e) => Err(e),
        Ok(p) => round_money(mode, p, 10000),
    }
}

/// Profit floored at zero.
pub fn profit_amount(revenue: Money, total_costs: Money) -> (r: Money)
    ensures
        r == nat_sub_spec(revenue as int, total_costs as int),
{
    nat_sub(revenue, total_costs)
}

/// Signed profit `revenue - total_costs`, or an overflow error when either
/// amount does not fit an `i128`.
pub open spec fn profit_loss_spec(revenue: u128, total_costs: u128) -> DomainResult<i128> {
    if revenue > i128::MAX {
        Err(ValidationError::Overflow("profit revenue"))
    } else if total_costs > i128::MAX {
        Err(ValidationError::Overflow("profit costs"))
    } else {
        Ok((revenue - total_costs) as i128)
    }
}

pub fn profit_loss_amount(revenue: Money, total_costs: Money) -> (r: DomainResult<SignedMoney>)
    ensures
        r == profit_loss_spec(revenue, total_costs),
{
    if revenue > i128::MAX as u128 {
        return Err(ValidationError::Overflow("profit revenue"));
    }
    if total_costs > i128::MAX as u128 {
        return Err(ValidationError::Overflow("profit costs"));
    }
    let revenue = revenue as i128;
    let total_costs = total_costs as i128;
    Ok(revenue - total_costs)
}

/// A sum grows with its terms: if `f` is below `g` everywhere on `s`, so is
/// its sum.
pub proof fn lemma_sum_nat_monotone<T>(s: Seq<T>, f: spec_fn(T) -> nat, g: spec_fn(T) -> nat)
    requires
        forall|j: int| 0 <= j < s.len() ==> f(#[trigger] s[j]) <= g(s[j]),
    ensures
        sum_nat(s, f) <= sum_nat(s, g),
    decreases s.len(),
{
    if s.len() > 0 {
        let p = s.drop_last();
        assert forall|j: int| 0 <= j < p.len() implies f(#[trigger] p[j]) <= g(p[j]) by {
            assert(p[j] == s[j]);
        }
        lemma_sum_nat_monotone(p, f, g);
        assert(f(s[s.len() - 1]) <= g(s[s.len() - 1]));
    }
}

/// Collected sums compare as their terms do: when both collections succeed
/// and each term under `f` is at most the term under `g`, the sums compare so.
pub proof fn lemma_collect_results_sum_le<T>(s: Seq<T>, f: spec_fn(T) -> DomainResult<u128>, g: spec_fn(T) -> DomainResult<u128>)
    requires
        collect_results(s, f) is Ok,
        collect_results(s, g) is Ok,
        forall|j: int| 0 <= j < s.len() ==> (f(#[trigger] s[j]) is Ok && g(s[j]) is Ok ==> f(s[j])->Ok_0 <= g(s[j])->Ok_0),
    ensures
        sum_nat(collect_results(s, f)->Ok_0, u128_value()) <= sum_nat(collect_results(s, g)->Ok_0, u128_value()),
    decreases s.len(),
{
    if s.len() > 0 {
        let p = s.drop_last();
        assert forall|j: int| 0 <= j < p.len() implies (f(#[trigger] p[j]) is Ok && g(p[j]) is Ok ==> f(p[j])->Ok_0 <= g(p[j])->Ok_0) by {
            assert(p[j] == s[j]);
        }
        lemma_collect_results_sum_le(p, f, g);
        let a = collect_results(p, f)->Ok_0;
        let b = collect_results(p, g)->Ok_0;
        let x = f(s.last())->Ok_0;
        let y = g(s.last())->Ok_0;
        assert(s.last() == s[s.len() - 1]);
        assert(a.push(x).drop_last() =~= a);
        assert(b.push(y).drop_last() =~= b);
    }
}

/// A copy of `v` whose elements equal the originals, for element types whose
/// clone returns an equal value.
pub(crate) fn clone_vec_exact<T: Clone>(v: &Vec<T>) -> (r: Vec<T>)
    requires
        forall|a: T, b: T| #[trigger] cloned::<T>(a, b) ==> a == b,
    ensures
        r@ == v@,
{
    let r = v.clone();
    proof {
        assert(r@ =~= v@);
    }
    r
}

/// The accessor lemmas for the records of this module.
pub broadcast group group_foundation_record_fields {
    lemma_sku_fields,
    lemma_product_id_fields,
    lemma_variant_id_fields,
    lemma_customer_id_fields,
    lemma_order_id_fields,
    lemma_payment_id_fields,
    lemma_supplier_id_fields,
    lemma_marketplace_order_id_fields,
    lemma_campaign_id_fields,
    lemma_competitor_id_fields,
    lemma_idempotency_key_fields,
    lemma_account_id_fields,
    lemma_contact_id_fields,
    lemma_lead_id_fields,
    lemma_opportunity_id_fields,
    lemma_interaction_id_fields,
    lemma_segment_id_fields,
    lemma_support_case_id_fields,
    lemma_shipment_id_fields,
    lemma_tracking_event_id_fields,
    lemma_transfer_id_fields,
    lemma_return_authorization_id_fields,
    lemma_money_amount_fields,
    lemma_timestamp_fields,
    lemma_duration_fields,
    lemma_basis_points_fields,
}


/// Applying basis points rounds `amount * bps / 10000` by the mode: down for
/// `Floor`, up for `Ceiling`, to the nearest with halves up for `HalfUp`; it
/// fails only when `amount * bps` or the half-up sum leaves `u128`.
pub proof fn lemma_round_bps_rounds(mode: RoundingMode, amount: u128, bp: BasisPoints)
    ensures
        round_bps_spec(mode, amount, bp) matches Ok(r) ==> {
            let n = amount * bp.spec_value();
            match mode {
                RoundingMode::Floor => r * 10000 <= n < (r + 1) * 10000,
                RoundingMode::Ceiling => (r - 1) * 10000 < n <= r * 10000,
                RoundingMode::HalfUp => (2 * r - 1) * 10000 <= 2 * n < (2 * r + 1) * 10000,
            }
        },
        amount * bp.spec_value() + 5000 <= u128::MAX ==> round_bps_spec(mode, amount, bp) is Ok,
{
    if amount * bp.spec_value() <= u128::MAX {
        lemma_round_div_rounds(mode, (amount * bp.spec_value()) as u128, 10000);
    }
}

} // verus!
