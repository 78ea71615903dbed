//! Fraud limits, role permissions, audit trails, consent and data retention.

use vstd::prelude::*;
use crate::b2b::{Customer};
use crate::foundation::{CustomerId, DomainResult, Duration, Id, Nat, OrderId, Timestamp, ValidationError, timestamp_age};
use crate::inventory::{Warehouse};
use crate::marketing::{ConsentStatus, SubscriptionStatus, can_retarget, can_send_marketing_message};

verus! {

#[derive(Debug, PartialEq, Eq, Structural)]
pub struct FraudPolicy {
    pub(crate) max_coupon_uses: Nat,
    pub(crate) max_orders_per_hour: Nat,
    pub(crate) max_zero_total_items: Nat,
}

impl FraudPolicy {
    pub open(crate) spec fn spec_max_coupon_uses(&self) -> Nat {
        self.max_coupon_uses
    }

    pub open(crate) spec fn spec_max_orders_per_hour(&self) -> Nat {
        self.max_orders_per_hour
    }

    pub open(crate) spec fn spec_max_zero_total_items(&self) -> Nat {
        self.max_zero_total_items
    }

    pub open(crate) spec fn spec_new(max_coupon_uses: Nat, max_orders_per_hour: Nat, max_zero_total_items: Nat) -> Self {
        FraudPolicy { max_coupon_uses, max_orders_per_hour, max_zero_total_items }
    }
}

/// The accessors of a `FraudPolicy` built by `spec_new` give back its parts.
pub broadcast proof fn lemma_fraud_policy_fields(max_coupon_uses: Nat, max_orders_per_hour: Nat, max_zero_total_items: Nat)
    ensures
        #[trigger] FraudPolicy::spec_new(max_coupon_uses, max_orders_per_hour, max_zero_total_items).spec_max_coupon_uses() == max_coupon_uses
            && FraudPolicy::spec_new(max_coupon_uses, max_orders_per_hour, max_zero_total_items).spec_max_orders_per_hour() == max_orders_per_hour
            && FraudPolicy::spec_new(max_coupon_uses, max_orders_per_hour, max_zero_total_items).spec_max_zero_total_items() == max_zero_total_items,
{
}

impl Clone for FraudPolicy {
    fn clone(&self) -> (r: Self)
        ensures
            r == *self,
    {
        FraudPolicy { max_coupon_uses: self.max_coupon_uses, max_orders_per_hour: self.max_orders_per_hour, max_zero_total_items: self.max_zero_total_items }
    }
}

impl FraudPolicy {
    pub fn new(max_coupon_uses: Nat, max_orders_per_hour: Nat, max_zero_total_items: Nat) -> (r: Self)
        ensures
            r == (FraudPolicy::spec_new(max_coupon_uses, max_orders_per_hour, max_zero_total_items)),
    {
        FraudPolicy { max_coupon_uses, max_orders_per_hour, max_zero_total_items }
    }

    pub fn try_new(max_coupon_uses: Nat, max_orders_per_hour: Nat, max_zero_total_items: Nat) -> (r: DomainResult<Self>)
        ensures
            r == Ok::<Self, ValidationError>(FraudPolicy::spec_new(max_coupon_uses, max_orders_per_hour, max_zero_total_items)),
    {
        Ok(Self::new(max_coupon_uses, max_orders_per_hour, max_zero_total_items))
    }

    pub fn max_coupon_uses(&self) -> (r: Nat)
        ensures
            r == self.spec_max_coupon_uses(),
    {
        self.max_coupon_uses
    }

    pub fn max_orders_per_hour(&self) -> (r: Nat)
        ensures
            r == self.spec_max_orders_per_hour(),
    {
        self.max_orders_per_hour
    }

    pub fn max_zero_total_items(&self) -> (r: Nat)
        ensures
            r == self.spec_max_zero_total_items(),
    {
        self.max_zero_total_items
    }
}

#[derive(Debug, PartialEq, Eq, Structural)]
pub struct AuditEvent {
    pub(crate) actor: Role,
    pub(crate) action: Action,
    pub(crate) order_id: OrderId,
}

impl AuditEvent {
    pub open(crate) spec fn spec_actor(&self) -> Role {
        self.actor
    }

    pub open(crate) spec fn spec_action(&self) -> Action {
        self.action
    }

    pub open(crate) spec fn spec_order_id(&self) -> OrderId {
        self.order_id
    }

    pub open(crate) spec fn spec_new(actor: Role, action: Action, order_id: OrderId) -> Self {
        AuditEvent { actor, action, order_id }
    }
}

/// The accessors of a `AuditEvent` built by `spec_new` give back its parts.
pub broadcast proof fn lemma_audit_event_fields(actor: Role, action: Action, order_id: OrderId)
    ensures
        #[trigger] AuditEvent::spec_new(actor, action, order_id).spec_actor() == actor
            && AuditEvent::spec_new(actor, action, order_id).spec_action() == action
            && AuditEvent::spec_new(actor, action, order_id).spec_order_id() == order_id,
{
}

impl Clone for AuditEvent {
    fn clone(&self) -> (r: Self)
        ensures
            r == *self,
    {
        AuditEvent { actor: self.actor, action: self.action, order_id: self.order_id }
    }
}

impl AuditEvent {
    pub fn new(actor: Role, action: Action, order_id: OrderId) -> (r: Self)
        ensures
            r == (AuditEvent::spec_new(actor, action, order_id)),
    {
        AuditEvent { actor, action, order_id }
    }

    pub fn try_new(actor: Role, action: Action, order_id: OrderId) -> (r: DomainResult<Self>)
        ensures
            r == Ok::<Self, ValidationError>(AuditEvent::spec_new(actor, action, order_id)),
    {
        Ok(Self::new(actor, action, order_id))
    }

    pub fn actor(&self) -> (r: Role)
        ensures
            r == self.spec_actor(),
    {
        self.actor
    }

    pub fn action(&self) -> (r: Action)
        ensures
            r == self.spec_action(),
    {
        self.action
    }

    pub fn order_id(&self) -> (r: OrderId)
        ensures
            r == self.spec_order_id(),
    {
        self.order_id
    }
}

#[derive(Debug, PartialEq, Eq, Structural)]
pub struct EntityAuditEvent {
    pub(crate) actor: Role,
    pub(crate) action: Action,
    pub(crate) subject_id: Id,
}

impl EntityAuditEvent {
    pub open(crate) spec fn spec_actor(&self) -> Role {
        self.actor
    }

    pub open(crate) spec fn spec_action(&self) -> Action {
        self.action
    }

    pub open(crate) spec fn spec_subject_id(&self) -> Id {
        self.subject_id
    }

    pub open(crate) spec fn spec_new(actor: Role, action: Action, subject_id: Id) -> Self {
        EntityAuditEvent { actor, action, subject_id }
    }
}

/// The accessors of a `EntityAuditEvent` built by `spec_new` give back its parts.
pub broadcast proof fn lemma_entity_audit_event_fields(actor: Role, action: Action, subject_id: Id)
    ensures
        #[trigger] EntityAuditEvent::spec_new(actor, action, subject_id).spec_actor() == actor
            && EntityAuditEvent::spec_new(actor, action, subject_id).spec_action() == action
            && EntityAuditEvent::spec_new(actor, action, subject_id).spec_subject_id() == subject_id,
{
}

impl Clone for EntityAuditEvent {
    fn clone(&self) -> (r: Self)
        ensures
            r == *self,
    {
        EntityAuditEvent { actor: self.actor, action: self.action, subject_id: self.subject_id }
    }
}

impl EntityAuditEvent {
    pub fn new(actor: Role, action: Action, subject_id: Id) -> (r: Self)
        ensures
            r == (EntityAuditEvent::spec_new(actor, action, subject_id)),
    {
        EntityAuditEvent { actor, action, subject_id }
    }

    pub fn try_new(actor: Role, action: Action, subject_id: Id) -> (r: DomainResult<Self>)
        ensures
            r == Ok::<Self, ValidationError>(EntityAuditEvent::spec_new(actor, action, subject_id)),
    {
        Ok(Self::new(actor, action, subject_id))
    }

    pub fn actor(&self) -> (r: Role)
        ensures
            r == self.spec_actor(),
    {
        self.actor
    }

    pub fn action(&self) -> (r: Action)
        ensures
            r == self.spec_action(),
    {
        self.action
    }

    pub fn subject_id(&self) -> (r: Id)
        ensures
            r == self.spec_subject_id(),
    {
        self.subject_id
    }
}

#[derive(Debug, PartialEq, Eq, Structural)]
pub struct DataProcessingPermission {
    pub(crate) purpose: ConsentPurpose,
    pub(crate) basis: ProcessingBasis,
    pub(crate) allowed: bool,
}

impl DataProcessingPermission {
    pub open(crate) spec fn spec_purpose(&self) -> ConsentPurpose {
        self.purpose
    }

    pub open(crate) spec fn spec_basis(&self) -> ProcessingBasis {
        self.basis
    }

    pub open(crate) spec fn spec_allowed(&self) -> bool {
        self.allowed
    }

    pub open(crate) spec fn spec_new(purpose: ConsentPurpose, basis: ProcessingBasis, allowed: bool) -> Self {
        DataProcessingPermission { purpose, basis, allowed }
    }
}

/// The accessors of a `DataProcessingPermission` built by `spec_new` give back its parts.
pub broadcast proof fn lemma_data_processing_permission_fields(purpose: ConsentPurpose, basis: ProcessingBasis, allowed: bool)
    ensures
        #[trigger] DataProcessingPermission::spec_new(purpose, basis, allowed).spec_purpose() == purpose
            && DataProcessingPermission::spec_new(purpose, basis, allowed).spec_basis() == basis
            && DataProcessingPermission::spec_new(purpose, basis, allowed).spec_allowed() == allowed,
{
}

impl Clone for DataProcessingPermission {
    fn clone(&self) -> (r: Self)
        ensures
            r == *self,
    {
        DataProcessingPermission { purpose: self.purpose, basis: self.basis, allowed: self.allowed }
    }
}

impl DataProcessingPermission {
    pub fn new(purpose: ConsentPurpose, basis: ProcessingBasis, allowed: bool) -> (r: Self)
        ensures
            r == (DataProcessingPermission::spec_new(purpose, basis, allowed)),
    {
        DataProcessingPermission { purpose, basis, allowed }
    }

    pub fn try_new(purpose: ConsentPurpose, basis: ProcessingBasis, allowed: bool) -> (r: DomainResult<Self>)
        ensures
            r == Ok::<Self, ValidationError>(DataProcessingPermission::spec_new(purpose, basis, allowed)),
    {
        Ok(Self::new(purpose, basis, allowed))
    }

    pub fn purpose(&self) -> (r: ConsentPurpose)
        ensures
            r == self.spec_purpose(),
    {
        self.purpose
    }

    pub fn basis(&self) -> (r: ProcessingBasis)
        ensures
            r == self.spec_basis(),
    {
        self.basis
    }

    pub fn allowed(&self) -> (r: bool)
        ensures
            r == self.spec_allowed(),
    {
        self.allowed
    }
}

#[derive(Debug, PartialEq, Eq, Structural)]
pub struct MarketingConsentState {
    pub(crate) subscription: SubscriptionStatus,
    pub(crate) retargeting_consent: ConsentStatus,
    pub(crate) data_permission: DataProcessingPermission,
}

impl MarketingConsentState {
    pub open(crate) spec fn spec_subscription(&self) -> SubscriptionStatus {
        self.subscription
    }

    pub open(crate) spec fn spec_retargeting_consent(&self) -> ConsentStatus {
        self.retargeting_consent
    }

    pub open(crate) spec fn spec_data_permission(&self) -> DataProcessingPermission {
        self.data_permission
    }

    pub open(crate) spec fn spec_new(subscription: SubscriptionStatus, retargeting_consent: ConsentStatus, data_permission: DataProcessingPermission) -> Self {
        MarketingConsentState { subscription, retargeting_consent, data_permission }
    }
}

/// The accessors of a `MarketingConsentState` built by `spec_new` give back its parts.
pub broadcast proof fn lemma_marketing_consent_state_fields(subscription: SubscriptionStatus, retargeting_consent: ConsentStatus, data_permission: DataProcessingPermission)
    ensures
        #[trigger] MarketingConsentState::spec_new(subscription, retargeting_consent, data_permission).spec_subscription() == subscription
            && MarketingConsentState::spec_new(subscription, retargeting_consent, data_permission).spec_retargeting_consent() == retargeting_consent
            && MarketingConsentState::spec_new(subscription, retargeting_consent, data_permission).spec_data_permission() == data_permission,
{
}

impl Clone for MarketingConsentState {
    fn clone(&self) -> (r: Self)
        ensures
            r == *self,
    {
        MarketingConsentState { subscription: self.subscription, retargeting_consent: self.retargeting_consent, data_permission: self.data_permission.clone() }
    }
}

impl MarketingConsentState {
    pub fn new(subscription: SubscriptionStatus, retargeting_consent: ConsentStatus, data_permission: DataProcessingPermission) -> (r: Self)
        ensures
            r == (MarketingConsentState::spec_new(subscription, retargeting_consent, data_permission)),
    {
        MarketingConsentState { subscription, retargeting_consent, data_permission }
    }

    pub fn try_new(subscription: SubscriptionStatus, retargeting_consent: ConsentStatus, data_permission: DataProcessingPermission) -> (r: DomainResult<Self>)
        ensures
            r == Ok::<Self, ValidationError>(MarketingConsentState::spec_new(subscription, retargeting_consent, data_permission)),
    {
        Ok(Self::new(subscription, retargeting_consent, data_permission))
    }

    pub fn subscription(&self) -> (r: SubscriptionStatus)
        ensures
            r == self.spec_subscription(),
    {
        self.subscription
    }

    pub fn retargeting_consent(&self) -> (r: ConsentStatus)
        ensures
            r == self.spec_retargeting_consent(),
    {
        self.retargeting_consent
    }

    pub fn data_permission(&self) -> (r: &DataProcessingPermission)
        ensures
            *r == self.spec_data_permission(),
    {
        &self.data_permission
    }
}

#[derive(Debug, PartialEq, Eq, Structural)]
pub struct DataRetentionPolicy {
    pub(crate) category: DataCategory,
    pub(crate) retention_window: Duration,
}

impl DataRetentionPolicy {
    pub open(crate) spec fn spec_category(&self) -> DataCategory {
        self.category
    }

    pub open(crate) spec fn spec_retention_window(&self) -> Duration {
        self.retention_window
    }

    pub open(crate) spec fn spec_new(category: DataCategory, retention_window: Duration) -> Self {
        DataRetentionPolicy { category, retention_window }
    }
}

/// The accessors of a `DataRetentionPolicy` built by `spec_new` give back its parts.
pub broadcast proof fn lemma_data_retention_policy_fields(category: DataCategory, retention_window: Duration)
    ensures
        #[trigger] DataRetentionPolicy::spec_new(category, retention_window).spec_category() == category
            && DataRetentionPolicy::spec_new(category, retention_window).spec_retention_window() == retention_window,
{
}

impl Clone for DataRetentionPolicy {
    fn clone(&self) -> (r: Self)
        ensures
            r == *self,
    {
        DataRetentionPolicy { category: self.category, retention_window: self.retention_window }
    }
}

impl DataRetentionPolicy {
    pub fn new(category: DataCategory, retention_window: Duration) -> (r: Self)
        ensures
            r == (DataRetentionPolicy::spec_new(category, retention_window)),
    {
        DataRetentionPolicy { category, retention_window }
    }

    pub fn try_new(category: DataCategory, retention_window: Duration) -> (r: DomainResult<Self>)
        ensures
            r == Ok::<Self, ValidationError>(DataRetentionPolicy::spec_new(category, retention_window)),
    {
        Ok(Self::new(category, retention_window))
    }

    pub fn category(&self) -> (r: DataCategory)
        ensures
            r == self.spec_category(),
    {
        self.category
    }

    pub fn retention_window(&self) -> (r: Duration)
        ensures
            r == self.spec_retention_window(),
    {
        self.retention_window
    }
}

#[derive(Clone, Copy, Debug, PartialEq, Eq, Structural)]
pub enum Role {
    Customer,
    Support,
    Warehouse,
    Manager,
    Finance,
    Admin,
}

#[derive(Clone, Copy, Debug, PartialEq, Eq, Structural)]
pub enum Action {
    ViewOrder,
    PackOrder,
    ShipOrder,
    IssueRefund,
    OverridePrice,
    AdjustStock,
    DeleteOrder,
    ManageCRM,
    CreateSupportCase,
    ResolveSupportCase,
    ManageShipment,
    ApproveReturn,
}

#[derive(Debug, PartialEq, Eq, Structural)]
pub struct AuditedCommand {
    pub(crate) actor: Role,
    pub(crate) action: Action,
    pub(crate) order_id: OrderId,
    pub(crate) event: AuditEvent,
}

impl AuditedCommand {
    /// Every value satisfies what `try_new` checks.
    #[verifier::type_invariant]
    pub open spec fn valid(self) -> bool {
        can_perform_spec(self.spec_actor(), self.spec_action()) && self.spec_event().spec_actor() == self.spec_actor() && self.spec_event().spec_action() == self.spec_action() && self.spec_event().spec_order_id() == self.spec_order_id()
    }

    pub open(crate) spec fn spec_actor(&self) -> Role {
        self.actor
    }

    pub open(crate) spec fn spec_action(&self) -> Action {
        self.action
    }

    pub open(crate) spec fn spec_order_id(&self) -> OrderId {
        self.order_id
    }

    pub open(crate) spec fn spec_event(&self) -> AuditEvent {
        self.event
    }

    pub open(crate) spec fn spec_new(actor: Role, action: Action, order_id: OrderId, event: AuditEvent) -> Self {
        AuditedCommand { actor, action, order_id, event }
    }
}

/// The accessors of a `AuditedCommand` built by `spec_new` give back its parts.
pub broadcast proof fn lemma_audited_command_fields(actor: Role, action: Action, order_id: OrderId, event: AuditEvent)
    ensures
        #[trigger] AuditedCommand::spec_new(actor, action, order_id, event).spec_actor() == actor
            && AuditedCommand::spec_new(actor, action, order_id, event).spec_action() == action
            && AuditedCommand::spec_new(actor, action, order_id, event).spec_order_id() == order_id
            && AuditedCommand::spec_new(actor, action, order_id, event).spec_event() == event,
{
}

impl Clone for AuditedCommand {
    fn clone(&self) -> (r: Self)
        ensures
            r == *self,
    {
        proof {
            use_type_invariant(self);
        }
        AuditedCommand { actor: self.actor, action: self.action, order_id: self.order_id, event: self.event.clone() }
    }
}

#[derive(Debug, PartialEq, Eq, Structural)]
pub struct AuditedEntityCommand {
    pub(crate) actor: Role,
    pub(crate) action: Action,
    pub(crate) subject_id: Id,
    pub(crate) event: EntityAuditEvent,
}

impl AuditedEntityCommand {
    /// Every value satisfies what `try_new` checks.
    #[verifier::type_invariant]
    pub open spec fn valid(self) -> bool {
        can_perform_spec(self.spec_actor(), self.spec_action()) && self.spec_event().spec_actor() == self.spec_actor() && self.spec_event().spec_action() == self.spec_action() && self.spec_event().spec_subject_id() == self.spec_subject_id()
    }

    pub open(crate) spec fn spec_actor(&self) -> Role {
        self.actor
    }

    pub open(crate) spec fn spec_action(&self) -> Action {
        self.action
    }

    pub open(crate) spec fn spec_subject_id(&self) -> Id {
        self.subject_id
    }

    pub open(crate) spec fn spec_event(&self) -> EntityAuditEvent {
        self.event
    }

    pub open(crate) spec fn spec_new(actor: Role, action: Action, subject_id: Id, event: EntityAuditEvent) -> Self {
        AuditedEntityCommand { actor, action, subject_id, event }
    }
}

/// The accessors of a `AuditedEntityCommand` built by `spec_new` give back its parts.
pub broadcast proof fn lemma_audited_entity_command_fields(actor: Role, action: Action, subject_id: Id, event: EntityAuditEvent)
    ensures
        #[trigger] AuditedEntityCommand::spec_new(actor, action, subject_id, event).spec_actor() == actor
            && AuditedEntityCommand::spec_new(actor, action, subject_id, event).spec_action() == action
            && AuditedEntityCommand::spec_new(actor, action, subject_id, event).spec_subject_id() == subject_id
            && AuditedEntityCommand::spec_new(actor, action, subject_id, event).spec_event() == event,
{
}

impl Clone for AuditedEntityCommand {
    fn clone(&self) -> (r: Self)
        ensures
            r == *self,
    {
        proof {
            use_type_invariant(self);
        }
        AuditedEntityCommand { actor: self.actor, action: self.action, subject_id: self.subject_id, event: self.event.clone() }
    }
}

#[derive(Clone, Copy, Debug, PartialEq, Eq, Structural)]
pub enum ConsentPurpose {
    Marketing,
    Analytics,
    Personalization,
    FraudPrevention,
}

#[derive(Clone, Copy, Debug, PartialEq, Eq, Structural)]
pub enum ProcessingBasis {
    Consent,
    Contract,
    LegalObligation,
    LegitimateInterest,
}

#[derive(Clone, Copy, Debug, PartialEq, Eq, Structural)]
pub enum DataCategory {
    CustomerProfile,
    ContactData,
    OrderData,
    PaymentToken,
    MarketingProfile,
    SupportNotes,
    AnalyticsEvent,
}

#[derive(Clone, Copy, Debug, PartialEq, Eq, Structural)]
pub enum AccessPurpose {
    CustomerSupport,
    Fulfillment,
    RefundProcessing,
    MarketingOperations,
    FraudReview,
    Analytics,
    Administration,
}

#[derive(Debug, PartialEq, Eq, Structural)]
pub struct RetainedPersonalData {
    pub(crate) subject_id: CustomerId,
    pub(crate) category: DataCategory,
    pub(crate) collected_at: Timestamp,
    pub(crate) checked_at: Timestamp,
    pub(crate) policy: DataRetentionPolicy,
}

impl RetainedPersonalData {
    /// Every value satisfies what `try_new` checks.
    #[verifier::type_invariant]
    pub open spec fn valid(self) -> bool {
        (self.spec_policy().spec_category() == self.spec_category() && within_retention_window_spec(self.spec_policy(), self.spec_checked_at(), self.spec_collected_at()))
    }

    pub open(crate) spec fn spec_subject_id(&self) -> CustomerId {
        self.subject_id
    }

    pub open(crate) spec fn spec_category(&self) -> DataCategory {
        self.category
    }

    pub open(crate) spec fn spec_collected_at(&self) -> Timestamp {
        self.collected_at
    }

    pub open(crate) spec fn spec_checked_at(&self) -> Timestamp {
        self.checked_at
    }

    pub open(crate) spec fn spec_policy(&self) -> DataRetentionPolicy {
        self.policy
    }

    pub open(crate) spec fn spec_new(subject_id: CustomerId, category: DataCategory, collected_at: Timestamp, checked_at: Timestamp, policy: DataRetentionPolicy) -> Self {
        RetainedPersonalData { subject_id, category, collected_at, checked_at, policy }
    }
}

/// The accessors of a `RetainedPersonalData` built by `spec_new` give back its parts.
pub broadcast proof fn lemma_retained_personal_data_fields(subject_id: CustomerId, category: DataCategory, collected_at: Timestamp, checked_at: Timestamp, policy: DataRetentionPolicy)
    ensures
        #[trigger] RetainedPersonalData::spec_new(subject_id, category, collected_at, checked_at, policy).spec_subject_id() == subject_id
            && RetainedPersonalData::spec_new(subject_id, category, collected_at, checked_at, policy).spec_category() == category
            && RetainedPersonalData::spec_new(subject_id, category, collected_at, checked_at, policy).spec_collected_at() == collected_at
            && RetainedPersonalData::spec_new(subject_id, category, collected_at, checked_at, policy).spec_checked_at() == checked_at
            && RetainedPersonalData::spec_new(subject_id, category, collected_at, checked_at, policy).spec_policy() == policy,
{
}

impl Clone for RetainedPersonalData {
    fn clone(&self) -> (r: Self)
        ensures
            r == *self,
    {
        proof {
            use_type_invariant(self);
        }
        RetainedPersonalData { subject_id: self.subject_id, category: self.category, collected_at: self.collected_at, checked_at: self.checked_at, policy: self.policy.clone() }
    }
}

#[derive(Clone, Copy, Debug, PartialEq, Eq, Structural)]
pub enum ErasureStatus {
    Active,
    Requested,
    Completed,
    BlockedByLegalHold,
}

#[derive(Debug, PartialEq, Eq, Structural)]
pub struct AuditedDataAccess {
    pub(crate) actor: Role,
    pub(crate) action: Action,
    pub(crate) purpose: AccessPurpose,
    pub(crate) category: DataCategory,
    pub(crate) subject_id: Id,
    pub(crate) event: EntityAuditEvent,
}

impl AuditedDataAccess {
    /// Every value satisfies what `try_new` checks.
    #[verifier::type_invariant]
    pub open spec fn valid(self) -> bool {
        can_perform_spec(self.spec_actor(), self.spec_action()) && role_can_access_data_spec(self.spec_actor(), self.spec_purpose(), self.spec_category())
            && self.spec_event().spec_actor() == self.spec_actor() && self.spec_event().spec_action() == self.spec_action() && self.spec_event().spec_subject_id() == self.spec_subject_id()
    }

    pub open(crate) spec fn spec_actor(&self) -> Role {
        self.actor
    }

    pub open(crate) spec fn spec_action(&self) -> Action {
        self.action
    }

    pub open(crate) spec fn spec_purpose(&self) -> AccessPurpose {
        self.purpose
    }

    pub open(crate) spec fn spec_category(&self) -> DataCategory {
        self.category
    }

    pub open(crate) spec fn spec_subject_id(&self) -> Id {
        self.subject_id
    }

    pub open(crate) spec fn spec_event(&self) -> EntityAuditEvent {
        self.event
    }

    pub open(crate) spec fn spec_new(actor: Role, action: Action, purpose: AccessPurpose, category: DataCategory, subject_id: Id, event: EntityAuditEvent) -> Self {
        AuditedDataAccess { actor, action, purpose, category, subject_id, event }
    }
}

/// The accessors of a `AuditedDataAccess` built by `spec_new` give back its parts.
pub broadcast proof fn lemma_audited_data_access_fields(actor: Role, action: Action, purpose: AccessPurpose, category: DataCategory, subject_id: Id, event: EntityAuditEvent)
    ensures
        #[trigger] AuditedDataAccess::spec_new(actor, action, purpose, category, subject_id, event).spec_actor() == actor
            && AuditedDataAccess::spec_new(actor, action, purpose, category, subject_id, event).spec_action() == action
            && AuditedDataAccess::spec_new(actor, action, purpose, category, subject_id, event).spec_purpose() == purpose
            && AuditedDataAccess::spec_new(actor, action, purpose, category, subject_id, event).spec_category() == category
            && AuditedDataAccess::spec_new(actor, action, purpose, category, subject_id, event).spec_subject_id() == subject_id
            && AuditedDataAccess::spec_new(actor, action, purpose, category, subject_id, event).spec_event() == event,
{
}

impl Clone for AuditedDataAccess {
    fn clone(&self) -> (r: Self)
        ensures
            r == *self,
    {
        proof {
            use_type_invariant(self);
        }
        AuditedDataAccess { actor: self.actor, action: self.action, purpose: self.purpose, category: self.category, subject_id: self.subject_id, event: self.event.clone() }
    }
}

impl AuditedCommand {
    pub fn actor(&self) -> (r: Role)
        ensures
            r == self.spec_actor(),
    {
        self.actor
    }

    pub fn action(&self) -> (r: Action)
        ensures
            r == self.spec_action(),
    {
        self.action
    }

    pub fn order_id(&self) -> (r: OrderId)
        ensures
            r == self.spec_order_id(),
    {
        self.order_id
    }

    pub fn event(&self) -> (r: &AuditEvent)
        ensures
            *r == self.spec_event(),
    {
        &self.event
    }
}

impl AuditedEntityCommand {
    pub fn actor(&self) -> (r: Role)
        ensures
            r == self.spec_actor(),
    {
        self.actor
    }

    pub fn action(&self) -> (r: Action)
        ensures
            r == self.spec_action(),
    {
        self.action
    }

    pub fn subject_id(&self) -> (r: Id)
        ensures
            r == self.spec_subject_id(),
    {
        self.subject_id
    }

    pub fn event(&self) -> (r: &EntityAuditEvent)
        ensures
            *r == self.spec_event(),
    {
        &self.event
    }
}

impl RetainedPersonalData {
    pub fn subject_id(&self) -> (r: CustomerId)
        ensures
            r == self.spec_subject_id(),
    {
        self.subject_id
    }

    pub fn category(&self) -> (r: DataCategory)
        ensures
            r == self.spec_category(),
    {
        self.category
    }

    pub fn collected_at(&self) -> (r: Timestamp)
        ensures
            r == self.spec_collected_at(),
    {
        self.collected_at
    }

    pub fn checked_at(&self) -> (r: Timestamp)
        ensures
            r == self.spec_checked_at(),
    {
        self.checked_at
    }

    pub fn policy(&self) -> (r: &DataRetentionPolicy)
        ensures
            *r == self.spec_policy(),
    {
        &self.policy
    }
}

impl AuditedDataAccess {
    pub fn actor(&self) -> (r: Role)
        ensures
            r == self.spec_actor(),
    {
        self.actor
    }

    pub fn action(&self) -> (r: Action)
        ensures
            r == self.spec_action(),
    {
        self.action
    }

    pub fn purpose(&self) -> (r: AccessPurpose)
        ensures
            r == self.spec_purpose(),
    {
        self.purpose
    }

    pub fn category(&self) -> (r: DataCategory)
        ensures
            r == self.spec_category(),
    {
        self.category
    }

    pub fn subject_id(&self) -> (r: Id)
        ensures
            r == self.spec_subject_id(),
    {
        self.subject_id
    }

    pub fn event(&self) -> (r: &EntityAuditEvent)
        ensures
            *r == self.spec_event(),
    {
        &self.event
    }
}

pub fn coupon_uses_allowed(policy: &FraudPolicy, uses: Nat) -> (r: bool)
    ensures
        r == (uses <= policy.spec_max_coupon_uses()),
{
    uses <= policy.max_coupon_uses
}

pub fn orders_per_hour_allowed(policy: &FraudPolicy, orders_per_hour: Nat) -> (r: bool)
    ensures
        r == (orders_per_hour <= policy.spec_max_orders_per_hour()),
{
    orders_per_hour <= policy.max_orders_per_hour
}

/// The permission table: which role may perform which action.
pub open spec fn can_perform_spec(role: Role, action: Action) -> bool {
    match (role, action) {
        (Role::Admin, _) => true,
        (Role::Support, Action::ViewOrder) | (Role::Manager, Action::ViewOrder) | (Role::Finance, Action::ViewOrder) => true,
        (Role::Warehouse, Action::PackOrder) | (Role::Warehouse, Action::ShipOrder) | (Role::Warehouse, Action::AdjustStock) | (Role::Warehouse, Action::ManageShipment) => true,
        (Role::Manager, Action::OverridePrice) | (Role::Manager, Action::ManageCRM) | (Role::Manager, Action::ResolveSupportCase) | (Role::Manager, Action::ApproveReturn) => true,
        (Role::Support, Action::CreateSupportCase) | (Role::Support, Action::ResolveSupportCase) | (Role::Support, Action::ManageCRM) => true,
        (Role::Finance, Action::IssueRefund) | (Role::Finance, Action::ApproveReturn) => true,
        _ => false,
    }
}

pub fn can_perform(role: Role, action: Action) -> (r: bool)
    ensures
        r == can_perform_spec(role, action),
{
    match (role, action) {
        (Role::Admin, _) => true,
        (Role::Support, Action::ViewOrder) | (Role::Manager, Action::ViewOrder) | (Role::Finance, Action::ViewOrder) => true,
        (Role::Warehouse, Action::PackOrder) | (Role::Warehouse, Action::ShipOrder) | (Role::Warehouse, Action::AdjustStock) | (Role::Warehouse, Action::ManageShipment) => true,
        (Role::Manager, Action::OverridePrice) | (Role::Manager, Action::ManageCRM) | (Role::Manager, Action::ResolveSupportCase) | (Role::Manager, Action::ApproveReturn) => true,
        (Role::Support, Action::CreateSupportCase) | (Role::Support, Action::ResolveSupportCase) | (Role::Support, Action::ManageCRM) => true,
        (Role::Finance, Action::IssueRefund) | (Role::Finance, Action::ApproveReturn) => true,
        _ => false,
    }
}

impl AuditedEntityCommand {
    pub fn try_new(actor: Role, action: Action, subject_id: Id, event: EntityAuditEvent) -> (r: DomainResult<Self>)
        ensures
            !can_perform_spec(actor, action) ==> r == Err::<Self, ValidationError>(ValidationError::AuditPermissionDenied),
            can_perform_spec(actor, action) && (event.spec_actor() != actor || event.spec_action() != action || event.spec_subject_id() != subject_id)
                ==> r == Err::<Self, ValidationError>(ValidationError::Invariant("entity audit event does not match command")),
            can_perform_spec(actor, action) && event.spec_actor() == actor && event.spec_action() == action && event.spec_subject_id() == subject_id
                ==> r == Ok::<Self, ValidationError>(AuditedEntityCommand::spec_new(actor, action, subject_id, event)),
    {
        if !can_perform(actor, action) {
            return Err(ValidationError::AuditPermissionDenied);
        }
        if event.actor != actor || event.action != action || event.subject_id != subject_id {
            return Err(ValidationError::Invariant("entity audit event does not match command"));
        }
        Ok(Self { actor, action, subject_id, event })
    }
}

impl AuditedCommand {
    pub fn try_new(actor: Role, action: Action, order_id: OrderId, event: AuditEvent) -> (r: DomainResult<Self>)
        ensures
            !can_perform_spec(actor, action) ==> r == Err::<Self, ValidationError>(ValidationError::Invariant("actor cannot perform action")),
            can_perform_spec(actor, action) && (event.spec_actor() != actor || event.spec_action() != action || event.spec_order_id() != order_id)
                ==> r == Err::<Self, ValidationError>(ValidationError::Invariant("audit event does not match command")),
            can_perform_spec(actor, action) && event.spec_actor() == actor && event.spec_action() == action && event.spec_order_id() == order_id
                ==> r == Ok::<Self, ValidationError>(AuditedCommand::spec_new(actor, action, order_id, event)),
    {
        if !can_perform(actor, action) {
            return Err(ValidationError::Invariant("actor cannot perform action"));
        }
        if event.actor != actor || event.action != action || event.order_id != order_id {
            return Err(ValidationError::Invariant("audit event does not match command"));
        }
        Ok(Self { actor, action, order_id, event })
    }
}

pub fn data_processing_allowed(permission: &DataProcessingPermission) -> (r: bool)
    ensures
        r == permission.spec_allowed(),
{
    permission.allowed
}

/// The data-access table: which role may read which category for which purpose.
pub open spec fn role_can_access_data_spec(role: Role, purpose: AccessPurpose, category: DataCategory) -> bool {
    match (role, purpose, category) {
        (Role::Admin, _, _) => true,
        (Role::Support, AccessPurpose::CustomerSupport, DataCategory::OrderData)
        | (Role::Support, AccessPurpose::CustomerSupport, DataCategory::ContactData)
        | (Role::Support, AccessPurpose::CustomerSupport, DataCategory::SupportNotes) => true,
        (Role::Warehouse, AccessPurpose::Fulfillment, DataCategory::OrderData)
        | (Role::Warehouse, AccessPurpose::Fulfillment, DataCategory::ContactData) => true,
        (Role::Finance, AccessPurpose::RefundProcessing, DataCategory::OrderData)
        | (Role::Finance, AccessPurpose::RefundProcessing, DataCategory::PaymentToken) => true,
        (Role::Manager, AccessPurpose::MarketingOperations, DataCategory::MarketingProfile)
        | (Role::Manager, AccessPurpose::Administration, DataCategory::MarketingProfile)
        | (Role::Manager, AccessPurpose::MarketingOperations, DataCategory::ContactData)
        | (Role::Manager, AccessPurpose::Administration, DataCategory::CustomerProfile) => true,
        _ => false,
    }
}

pub fn role_can_access_data(role: Role, purpose: AccessPurpose, category: DataCategory) -> (r: bool)
    ensures
        r == role_can_access_data_spec(role, purpose, category),
{
    match (role, purpose, category) {
        (Role::Admin, _, _) => true,
        (Role::Support, AccessPurpose::CustomerSupport, DataCategory::OrderData)
        | (Role::Support, AccessPurpose::CustomerSupport, DataCategory::ContactData)
        | (Role::Support, AccessPurpose::CustomerSupport, DataCategory::SupportNotes) => true,
        (Role::Warehouse, AccessPurpose::Fulfillment, DataCategory::OrderData)
        | (Role::Warehouse, AccessPurpose::Fulfillment, DataCategory::ContactData) => true,
        (Role::Finance, AccessPurpose::RefundProcessing, DataCategory::OrderData)
        | (Role::Finance, AccessPurpose::RefundProcessing, DataCategory::PaymentToken) => true,
        (Role::Manager, AccessPurpose::MarketingOperations, DataCategory::MarketingProfile)
        | (Role::Manager, AccessPurpose::Administration, DataCategory::MarketingProfile)
        | (Role::Manager, AccessPurpose::MarketingOperations, DataCategory::ContactData)
        | (Role::Manager, AccessPurpose::Administration, DataCategory::CustomerProfile) => true,
        _ => false,
    }
}

pub open spec fn processing_allowed_for_spec(permission: DataProcessingPermission, purpose: ConsentPurpose, basis: ProcessingBasis) -> bool {
    permission.spec_allowed() && permission.spec_purpose() == purpose && permission.spec_basis() == basis
}

pub fn processing_allowed_for(permission: &DataProcessingPermission, purpose: ConsentPurpose, basis: ProcessingBasis) -> (r: bool)
    ensures
        r == processing_allowed_for_spec(*permission, purpose, basis),
{
    data_processing_allowed(permission) && permission.purpose == purpose && permission.basis == basis
}

pub open spec fn marketing_allowed_spec(state: MarketingConsentState) -> bool {
    state.spec_subscription() == SubscriptionStatus::Subscribed
        && state.spec_retargeting_consent() == ConsentStatus::Granted
        && processing_allowed_for_spec(state.spec_data_permission(), ConsentPurpose::Marketing, ProcessingBasis::Consent)
}

pub fn marketing_allowed(state: &MarketingConsentState) -> (r: bool)
    ensures
        r == marketing_allowed_spec(*state),
{
    can_send_marketing_message(state.subscription) && can_retarget(state.retargeting_consent)
        && processing_allowed_for(&state.data_permission, ConsentPurpose::Marketing, ProcessingBasis::Consent)
}

/// Unsubscribes, denies retargeting and withdraws the data permission,
/// keeping its purpose and basis.
pub fn withdraw_marketing_consent(state: &MarketingConsentState) -> (r: MarketingConsentState)
    ensures
        r == (MarketingConsentState::spec_new(SubscriptionStatus::Unsubscribed, ConsentStatus::Denied, DataProcessingPermission::spec_new(state.spec_data_permission().spec_purpose(), state.spec_data_permission().spec_basis(), false))),
        !marketing_allowed_spec(r),
{
    MarketingConsentState::new(
        SubscriptionStatus::Unsubscribed,
        ConsentStatus::Denied,
        DataProcessingPermission::new(state.data_permission.purpose(), state.data_permission.basis(), false),
    )
}

pub open spec fn within_retention_window_spec(policy: DataRetentionPolicy, now: Timestamp, collected_at: Timestamp) -> bool {
    collected_at.spec_seconds() <= now.spec_seconds() && now.spec_seconds() - collected_at.spec_seconds() <= policy.spec_retention_window().spec_seconds()
}

pub fn within_retention_window(policy: &DataRetentionPolicy, now: Timestamp, collected_at: Timestamp) -> (r: bool)
    ensures
        r == within_retention_window_spec(*policy, now, collected_at),
{
    collected_at.seconds <= now.seconds && timestamp_age(now, collected_at).seconds <= policy.retention_window.seconds
}

pub fn retention_expired(policy: &DataRetentionPolicy, now: Timestamp, collected_at: Timestamp) -> (r: bool)
    ensures
        r == (collected_at.spec_seconds() <= now.spec_seconds() && policy.spec_retention_window().spec_seconds() < now.spec_seconds() - collected_at.spec_seconds()),
{
    collected_at.seconds <= now.seconds && policy.retention_window.seconds < timestamp_age(now, collected_at).seconds
}

pub fn can_retain_personal_data(policy: &DataRetentionPolicy, now: Timestamp, collected_at: Timestamp) -> (r: bool)
    ensures
        r == within_retention_window_spec(*policy, now, collected_at),
{
    within_retention_window(policy, now, collected_at)
}

impl RetainedPersonalData {
    pub fn try_new(subject_id: CustomerId, category: DataCategory, collected_at: Timestamp, checked_at: Timestamp, policy: DataRetentionPolicy) -> (r: DomainResult<Self>)
        ensures
            (policy.spec_category() != category || !within_retention_window_spec(policy, checked_at, collected_at))
                ==> r == Err::<Self, ValidationError>(ValidationError::Invariant("personal data cannot be retained")),
            (policy.spec_category() == category && within_retention_window_spec(policy, checked_at, collected_at))
                ==> r == Ok::<Self, ValidationError>(RetainedPersonalData::spec_new(subject_id, category, collected_at, checked_at, policy)),
    {
        if policy.category != category || !can_retain_personal_data(&policy, checked_at, collected_at) {
            return Err(ValidationError::Invariant("personal data cannot be retained"));
        }
        Ok(Self { subject_id, category, collected_at, checked_at, policy })
    }
}

pub fn personal_data_usable(status: ErasureStatus) -> (r: bool)
    ensures
        r == (status == ErasureStatus::Active),
{
    status == ErasureStatus::Active
}

pub fn can_process_personal_data(status: ErasureStatus, permission: &DataProcessingPermission, purpose: ConsentPurpose, basis: ProcessingBasis) -> (r: bool)
    ensures
        r == (status == ErasureStatus::Active && processing_allowed_for_spec(*permission, purpose, basis)),
{
    personal_data_usable(status) && processing_allowed_for(permission, purpose, basis)
}

pub fn can_complete_erasure(status: ErasureStatus, legal_hold: bool) -> (r: bool)
    ensures
        r == (status == ErasureStatus::Requested && !legal_hold),
{
    status == ErasureStatus::Requested && !legal_hold
}

/// True when `after` is exactly `before` followed by `new_events`.
pub fn audit_log_appended(before: &[EntityAuditEvent], after: &[EntityAuditEvent], new_events: &[EntityAuditEvent]) -> (r: bool)
    ensures
        r == (after@ == before@ + new_events@),
{
    if after.len() < before.len() || after.len() - before.len() != new_events.len() {
        proof {
            if after@ == before@ + new_events@ {
                assert(after@.len() == before@.len() + new_events@.len());
            }
        }
        return false;
    }
    let mut i: usize = 0;
    while i < after.len()
        invariant
            i <= after.len(),
            after.len() == before.len() + new_events.len(),
            forall|j: int| 0 <= j < i ==> after@[j] == (before@ + new_events@)[j],
        decreases after.len() - i,
    {
        let matches_here = if i < before.len() {
            after[i] == before[i]
        } else {
            after[i] == new_events[i - before.len()]
        };
        if !matches_here {
            proof {
                if after@ == before@ + new_events@ {
                    assert(after@[i as int] == (before@ + new_events@)[i as int]);
                }
            }
            return false;
        }
        i += 1;
    }
    proof {
        assert(after@ =~= before@ + new_events@);
    }
    true
}

impl AuditedDataAccess {
    pub fn try_new(actor: Role, action: Action, purpose: AccessPurpose, category: DataCategory, subject_id: Id, event: EntityAuditEvent) -> (r: DomainResult<Self>)
        ensures
            !(can_perform_spec(actor, action) && role_can_access_data_spec(actor, purpose, category))
                ==> r == Err::<Self, ValidationError>(ValidationError::AuditPermissionDenied),
            can_perform_spec(actor, action) && role_can_access_data_spec(actor, purpose, category)
                && (event.spec_actor() != actor || event.spec_action() != action || event.spec_subject_id() != subject_id)
                ==> r == Err::<Self, ValidationError>(ValidationError::Invariant("data-access audit event does not match access")),
            can_perform_spec(actor, action) && role_can_access_data_spec(actor, purpose, category)
                && event.spec_actor() == actor && event.spec_action() == action && event.spec_subject_id() == subject_id
                ==> r == Ok::<Self, ValidationError>(AuditedDataAccess::spec_new(actor, action, purpose, category, subject_id, event)),
    {
        if !can_perform(actor, action) || !role_can_access_data(actor, purpose, category) {
            return Err(ValidationError::AuditPermissionDenied);
        }
        if event.actor != actor || event.action != action || event.subject_id != subject_id {
            return Err(ValidationError::Invariant("data-access audit event does not match access"));
        }
        Ok(Self { actor, action, purpose, category, subject_id, event })
    }
}

/// The accessor lemmas for the records of this module.
pub broadcast group group_risk_privacy_record_fields {
    lemma_fraud_policy_fields,
    lemma_audit_event_fields,
    lemma_entity_audit_event_fields,
    lemma_data_processing_permission_fields,
    lemma_marketing_consent_state_fields,
    lemma_data_retention_policy_fields,
    lemma_audited_command_fields,
    lemma_audited_entity_command_fields,
    lemma_retained_personal_data_fields,
    lemma_audited_data_access_fields,
}


/// Personal data is inside its retention window exactly from collection until
/// the policy's window has passed, never before it was collected.
pub proof fn lemma_retention_window(policy: DataRetentionPolicy, now: Timestamp, collected_at: Timestamp)
    ensures
        within_retention_window_spec(policy, now, collected_at) ==> collected_at.spec_seconds() <= now.spec_seconds(),
        within_retention_window_spec(policy, now, collected_at)
            ==> now.spec_seconds() - collected_at.spec_seconds() <= policy.spec_retention_window().spec_seconds(),
        collected_at.spec_seconds() <= now.spec_seconds() && now.spec_seconds() - collected_at.spec_seconds() <= policy.spec_retention_window().spec_seconds()
            ==> within_retention_window_spec(policy, now, collected_at),
{
}

} // verus!
