//! Customer accounts, contacts, interactions, leads, opportunities, pipelines,
//! segments, support cases and retention offers.

use vstd::prelude::*;
use crate::foundation::clone_vec_exact;
use crate::b2b::{Customer};
use crate::foundation::{AccountId, BasisPoints, CampaignId, ContactId, Currency, CustomerId, DomainResult, InteractionId, LeadId, Money, Nat, OpportunityId, OrderId, SegmentId, SupportCaseId, Timestamp, ValidationError, apply_bps, apply_bps_spec, checked_add, checked_sum, collect_results, collected_sum, lemma_collect_results_err_sticks, lemma_collect_results_take_step, lemma_sum_nat_prefix_le, lemma_sum_nat_take_all, lemma_sum_nat_take_step, sum_nat, total_result};
use crate::marketing::{ConsentStatus, SubscriptionStatus, can_retarget, can_send_marketing_message};
use crate::pricing::{Coupon, coupon_can_be_applied};
use crate::risk_privacy::{ConsentPurpose, DataProcessingPermission, ProcessingBasis, Role, data_processing_allowed};

verus! {

#[derive(Debug, PartialEq, Eq, Structural)]
pub struct CRMContact {
    pub(crate) id: ContactId,
    pub(crate) account_id: AccountId,
    pub(crate) customer_id: CustomerId,
    pub(crate) kind: ContactKind,
    pub(crate) owner_role: Role,
    pub(crate) subscription: SubscriptionStatus,
    pub(crate) retargeting_consent: ConsentStatus,
    pub(crate) data_permission: DataProcessingPermission,
}

impl CRMContact {
    pub open(crate) spec fn spec_id(&self) -> ContactId {
        self.id
    }

    pub open(crate) spec fn spec_account_id(&self) -> AccountId {
        self.account_id
    }

    pub open(crate) spec fn spec_customer_id(&self) -> CustomerId {
        self.customer_id
    }

    pub open(crate) spec fn spec_kind(&self) -> ContactKind {
        self.kind
    }

    pub open(crate) spec fn spec_owner_role(&self) -> Role {
        self.owner_role
    }

    pub open(crate) spec fn spec_subscription(&self) -> SubscriptionStatus {
        self.subscription
    }

    pub open(crate) spec fn spec_retargeting_consent(&self) -> ConsentStatus {
        self.retargeting_consent
    }

    pub open(crate) spec fn spec_data_permission(&self) -> DataProcessingPermission {
        self.data_permission
    }

    pub open(crate) spec fn spec_new(id: ContactId, account_id: AccountId, customer_id: CustomerId, kind: ContactKind, owner_role: Role, subscription: SubscriptionStatus, retargeting_consent: ConsentStatus, data_permission: DataProcessingPermission) -> Self {
        CRMContact { id, account_id, customer_id, kind, owner_role, subscription, retargeting_consent, data_permission }
    }
}

/// The accessors of a `CRMContact` built by `spec_new` give back its parts.
pub broadcast proof fn lemma_crm_contact_fields(id: ContactId, account_id: AccountId, customer_id: CustomerId, kind: ContactKind, owner_role: Role, subscription: SubscriptionStatus, retargeting_consent: ConsentStatus, data_permission: DataProcessingPermission)
    ensures
        #[trigger] CRMContact::spec_new(id, account_id, customer_id, kind, owner_role, subscription, retargeting_consent, data_permission).spec_id() == id
            && CRMContact::spec_new(id, account_id, customer_id, kind, owner_role, subscription, retargeting_consent, data_permission).spec_account_id() == account_id
            && CRMContact::spec_new(id, account_id, customer_id, kind, owner_role, subscription, retargeting_consent, data_permission).spec_customer_id() == customer_id
            && CRMContact::spec_new(id, account_id, customer_id, kind, owner_role, subscription, retargeting_consent, data_permission).spec_kind() == kind
            && CRMContact::spec_new(id, account_id, customer_id, kind, owner_role, subscription, retargeting_consent, data_permission).spec_owner_role() == owner_role
            && CRMContact::spec_new(id, account_id, customer_id, kind, owner_role, subscription, retargeting_consent, data_permission).spec_subscription() == subscription
            && CRMContact::spec_new(id, account_id, customer_id, kind, owner_role, subscription, retargeting_consent, data_permission).spec_retargeting_consent() == retargeting_consent
            && CRMContact::spec_new(id, account_id, customer_id, kind, owner_role, subscription, retargeting_consent, data_permission).spec_data_permission() == data_permission,
{
}

impl Clone for CRMContact {
    fn clone(&self) -> (r: Self)
        ensures
            r == *self,
    {
        CRMContact { id: self.id, account_id: self.account_id, customer_id: self.customer_id, kind: self.kind, owner_role: self.owner_role, subscription: self.subscription, retargeting_consent: self.retargeting_consent, data_permission: self.data_permission.clone() }
    }
}

impl CRMContact {
    pub fn new(id: ContactId, account_id: AccountId, customer_id: CustomerId, kind: ContactKind, owner_role: Role, subscription: SubscriptionStatus, retargeting_consent: ConsentStatus, data_permission: DataProcessingPermission) -> (r: Self)
        ensures
            r == (CRMContact::spec_new(id, account_id, customer_id, kind, owner_role, subscription, retargeting_consent, data_permission)),
    {
        CRMContact { id, account_id, customer_id, kind, owner_role, subscription, retargeting_consent, data_permission }
    }

    pub fn try_new(id: ContactId, account_id: AccountId, customer_id: CustomerId, kind: ContactKind, owner_role: Role, subscription: SubscriptionStatus, retargeting_consent: ConsentStatus, data_permission: DataProcessingPermission) -> (r: DomainResult<Self>)
        ensures
            r == Ok::<Self, ValidationError>(CRMContact::spec_new(id, account_id, customer_id, kind, owner_role, subscription, retargeting_consent, data_permission)),
    {
        Ok(Self::new(id, account_id, customer_id, kind, owner_role, subscription, retargeting_consent, data_permission))
    }

    pub fn id(&self) -> (r: ContactId)
        ensures
            r == self.spec_id(),
    {
        self.id
    }

    pub fn account_id(&self) -> (r: AccountId)
        ensures
            r == self.spec_account_id(),
    {
        self.account_id
    }

    pub fn customer_id(&self) -> (r: CustomerId)
        ensures
            r == self.spec_customer_id(),
    {
        self.customer_id
    }

    pub fn kind(&self) -> (r: ContactKind)
        ensures
            r == self.spec_kind(),
    {
        self.kind
    }

    pub fn owner_role(&self) -> (r: Role)
        ensures
            r == self.spec_owner_role(),
    {
        self.owner_role
    }

    pub fn subscription(&self) -> (r: SubscriptionStatus)
        ensures
            r == self.spec_subscription(),
    {
        self.subscription
    }

    pub fn retargeting_consent(&self) -> (r: ConsentStatus)
        ensures
            r == self.spec_retargeting_consent(),
    {
        self.retargeting_consent
    }

    pub fn data_permission(&self) -> (r: &DataProcessingPermission)
        ensures
            *r == self.spec_data_permission(),
    {
        &self.data_permission
    }
}

#[derive(Clone, Copy, Debug, PartialEq, Eq, Structural)]
pub enum AccountTier {
    Standard,
    Preferred,
    Strategic,
}

#[derive(Clone, Copy, Debug, PartialEq, Eq, Structural)]
pub enum CRMAccountStatus {
    Prospect,
    Active,
    Paused,
    Closed,
}

#[derive(Debug, PartialEq, Eq, Structural)]
pub struct CRMAccount {
    pub(crate) id: AccountId,
    pub(crate) customer: Customer,
    pub(crate) tier: AccountTier,
    pub(crate) status: CRMAccountStatus,
    pub(crate) lifetime_value: Money,
    pub(crate) open_balance: Money,
}

impl CRMAccount {
    /// Every value satisfies what `try_new` checks.
    #[verifier::type_invariant]
    pub open spec fn valid(self) -> bool {
        self.spec_open_balance() <= self.spec_lifetime_value()
    }

    pub open(crate) spec fn spec_id(&self) -> AccountId {
        self.id
    }

    pub open(crate) spec fn spec_customer(&self) -> Customer {
        self.customer
    }

    pub open(crate) spec fn spec_tier(&self) -> AccountTier {
        self.tier
    }

    pub open(crate) spec fn spec_status(&self) -> CRMAccountStatus {
        self.status
    }

    pub open(crate) spec fn spec_lifetime_value(&self) -> Money {
        self.lifetime_value
    }

    pub open(crate) spec fn spec_open_balance(&self) -> Money {
        self.open_balance
    }

    pub open(crate) spec fn spec_new(id: AccountId, customer: Customer, tier: AccountTier, status: CRMAccountStatus, lifetime_value: Money, open_balance: Money) -> Self {
        CRMAccount { id, customer, tier, status, lifetime_value, open_balance }
    }
}

/// The accessors of a `CRMAccount` built by `spec_new` give back its parts.
pub broadcast proof fn lemma_crm_account_fields(id: AccountId, customer: Customer, tier: AccountTier, status: CRMAccountStatus, lifetime_value: Money, open_balance: Money)
    ensures
        #[trigger] CRMAccount::spec_new(id, customer, tier, status, lifetime_value, open_balance).spec_id() == id
            && CRMAccount::spec_new(id, customer, tier, status, lifetime_value, open_balance).spec_customer() == customer
            && CRMAccount::spec_new(id, customer, tier, status, lifetime_value, open_balance).spec_tier() == tier
            && CRMAccount::spec_new(id, customer, tier, status, lifetime_value, open_balance).spec_status() == status
            && CRMAccount::spec_new(id, customer, tier, status, lifetime_value, open_balance).spec_lifetime_value() == lifetime_value
            && CRMAccount::spec_new(id, customer, tier, status, lifetime_value, open_balance).spec_open_balance() == open_balance,
{
}

impl Clone for CRMAccount {
    fn clone(&self) -> (r: Self)
        ensures
            r == *self,
    {
        proof {
            use_type_invariant(self);
        }
        CRMAccount { id: self.id, customer: self.customer.clone(), tier: self.tier, status: self.status, lifetime_value: self.lifetime_value, open_balance: self.open_balance }
    }
}

#[derive(Debug, PartialEq, Eq, Structural)]
pub struct ActiveCRMAccount {
    pub(crate) account: CRMAccount,
}

impl ActiveCRMAccount {
    /// Every value satisfies what `try_new` checks.
    #[verifier::type_invariant]
    pub open spec fn valid(self) -> bool {
        self.spec_account().spec_status() == CRMAccountStatus::Active
    }

    pub open(crate) spec fn spec_account(&self) -> CRMAccount {
        self.account
    }

    pub open(crate) spec fn spec_new(account: CRMAccount) -> Self {
        ActiveCRMAccount { account }
    }
}

/// The accessors of a `ActiveCRMAccount` built by `spec_new` give back its parts.
pub broadcast proof fn lemma_active_crm_account_fields(account: CRMAccount)
    ensures
        #[trigger] ActiveCRMAccount::spec_new(account).spec_account() == account,
{
}

impl Clone for ActiveCRMAccount {
    fn clone(&self) -> (r: Self)
        ensures
            r == *self,
    {
        proof {
            use_type_invariant(self);
        }
        ActiveCRMAccount { account: self.account.clone() }
    }
}

#[derive(Clone, Copy, Debug, PartialEq, Eq, Structural)]
pub enum ContactKind {
    Primary,
    Billing,
    Shipping,
    Buyer,
    Support,
}

#[derive(Debug, PartialEq, Eq, Structural)]
pub struct CRMAccountContact {
    pub(crate) account: CRMAccount,
    pub(crate) contact: CRMContact,
}

impl CRMAccountContact {
    /// Every value satisfies what `try_new` checks.
    #[verifier::type_invariant]
    pub open spec fn valid(self) -> bool {
        (self.spec_contact().spec_account_id() == self.spec_account().spec_id() && self.spec_contact().spec_customer_id() == self.spec_account().spec_customer().spec_id())
    }

    pub open(crate) spec fn spec_account(&self) -> CRMAccount {
        self.account
    }

    pub open(crate) spec fn spec_contact(&self) -> CRMContact {
        self.contact
    }

    pub open(crate) spec fn spec_new(account: CRMAccount, contact: CRMContact) -> Self {
        CRMAccountContact { account, contact }
    }
}

/// The accessors of a `CRMAccountContact` built by `spec_new` give back its parts.
pub broadcast proof fn lemma_crm_account_contact_fields(account: CRMAccount, contact: CRMContact)
    ensures
        #[trigger] CRMAccountContact::spec_new(account, contact).spec_account() == account
            && CRMAccountContact::spec_new(account, contact).spec_contact() == contact,
{
}

impl Clone for CRMAccountContact {
    fn clone(&self) -> (r: Self)
        ensures
            r == *self,
    {
        proof {
            use_type_invariant(self);
        }
        CRMAccountContact { account: self.account.clone(), contact: self.contact.clone() }
    }
}

#[derive(Debug, PartialEq, Eq, Structural)]
pub struct PermittedCustomerMessage {
    pub(crate) interaction_id: InteractionId,
    pub(crate) contact: CRMContact,
    pub(crate) sent_at: Timestamp,
}

impl PermittedCustomerMessage {
    /// Every value satisfies what `try_new` checks.
    #[verifier::type_invariant]
    pub open spec fn valid(self) -> bool {
        contact_can_receive_marketing_spec(self.spec_contact())
    }

    pub open(crate) spec fn spec_interaction_id(&self) -> InteractionId {
        self.interaction_id
    }

    pub open(crate) spec fn spec_contact(&self) -> CRMContact {
        self.contact
    }

    pub open(crate) spec fn spec_sent_at(&self) -> Timestamp {
        self.sent_at
    }

    pub open(crate) spec fn spec_new(interaction_id: InteractionId, contact: CRMContact, sent_at: Timestamp) -> Self {
        PermittedCustomerMessage { interaction_id, contact, sent_at }
    }
}

/// The accessors of a `PermittedCustomerMessage` built by `spec_new` give back its parts.
pub broadcast proof fn lemma_permitted_customer_message_fields(interaction_id: InteractionId, contact: CRMContact, sent_at: Timestamp)
    ensures
        #[trigger] PermittedCustomerMessage::spec_new(interaction_id, contact, sent_at).spec_interaction_id() == interaction_id
            && PermittedCustomerMessage::spec_new(interaction_id, contact, sent_at).spec_contact() == contact
            && PermittedCustomerMessage::spec_new(interaction_id, contact, sent_at).spec_sent_at() == sent_at,
{
}

impl Clone for PermittedCustomerMessage {
    fn clone(&self) -> (r: Self)
        ensures
            r == *self,
    {
        proof {
            use_type_invariant(self);
        }
        PermittedCustomerMessage { interaction_id: self.interaction_id, contact: self.contact.clone(), sent_at: self.sent_at }
    }
}

#[derive(Debug, PartialEq, Eq, Structural)]
pub struct PermittedAccountMessage {
    pub(crate) account_contact: CRMAccountContact,
    pub(crate) message: PermittedCustomerMessage,
}

impl PermittedAccountMessage {
    /// Every value satisfies what `try_new` checks.
    #[verifier::type_invariant]
    pub open spec fn valid(self) -> bool {
        self.spec_message().spec_contact() == self.spec_account_contact().spec_contact()
    }

    pub open(crate) spec fn spec_account_contact(&self) -> CRMAccountContact {
        self.account_contact
    }

    pub open(crate) spec fn spec_message(&self) -> PermittedCustomerMessage {
        self.message
    }

    pub open(crate) spec fn spec_new(account_contact: CRMAccountContact, message: PermittedCustomerMessage) -> Self {
        PermittedAccountMessage { account_contact, message }
    }
}

/// The accessors of a `PermittedAccountMessage` built by `spec_new` give back its parts.
pub broadcast proof fn lemma_permitted_account_message_fields(account_contact: CRMAccountContact, message: PermittedCustomerMessage)
    ensures
        #[trigger] PermittedAccountMessage::spec_new(account_contact, message).spec_account_contact() == account_contact
            && PermittedAccountMessage::spec_new(account_contact, message).spec_message() == message,
{
}

impl Clone for PermittedAccountMessage {
    fn clone(&self) -> (r: Self)
        ensures
            r == *self,
    {
        proof {
            use_type_invariant(self);
        }
        PermittedAccountMessage { account_contact: self.account_contact.clone(), message: self.message.clone() }
    }
}

#[derive(Clone, Copy, Debug, PartialEq, Eq, Structural)]
pub enum InteractionKind {
    Email,
    Call,
    Meeting,
    Chat,
    SupportNote,
    OrderNote,
}

#[derive(Debug, PartialEq, Eq, Structural)]
pub struct CRMInteraction {
    pub(crate) id: InteractionId,
    pub(crate) account_id: AccountId,
    pub(crate) contact_id: ContactId,
    pub(crate) kind: InteractionKind,
    pub(crate) occurred_at: Timestamp,
    pub(crate) follow_up_due_at: Timestamp,
}

impl CRMInteraction {
    /// Every value satisfies what `try_new` checks.
    #[verifier::type_invariant]
    pub open spec fn valid(self) -> bool {
        self.spec_follow_up_due_at().spec_seconds() >= self.spec_occurred_at().spec_seconds()
    }

    pub open(crate) spec fn spec_id(&self) -> InteractionId {
        self.id
    }

    pub open(crate) spec fn spec_account_id(&self) -> AccountId {
        self.account_id
    }

    pub open(crate) spec fn spec_contact_id(&self) -> ContactId {
        self.contact_id
    }

    pub open(crate) spec fn spec_kind(&self) -> InteractionKind {
        self.kind
    }

    pub open(crate) spec fn spec_occurred_at(&self) -> Timestamp {
        self.occurred_at
    }

    pub open(crate) spec fn spec_follow_up_due_at(&self) -> Timestamp {
        self.follow_up_due_at
    }

    pub open(crate) spec fn spec_new(id: InteractionId, account_id: AccountId, contact_id: ContactId, kind: InteractionKind, occurred_at: Timestamp, follow_up_due_at: Timestamp) -> Self {
        CRMInteraction { id, account_id, contact_id, kind, occurred_at, follow_up_due_at }
    }
}

/// The accessors of a `CRMInteraction` built by `spec_new` give back its parts.
pub broadcast proof fn lemma_crm_interaction_fields(id: InteractionId, account_id: AccountId, contact_id: ContactId, kind: InteractionKind, occurred_at: Timestamp, follow_up_due_at: Timestamp)
    ensures
        #[trigger] CRMInteraction::spec_new(id, account_id, contact_id, kind, occurred_at, follow_up_due_at).spec_id() == id
            && CRMInteraction::spec_new(id, account_id, contact_id, kind, occurred_at, follow_up_due_at).spec_account_id() == account_id
            && CRMInteraction::spec_new(id, account_id, contact_id, kind, occurred_at, follow_up_due_at).spec_contact_id() == contact_id
            && CRMInteraction::spec_new(id, account_id, contact_id, kind, occurred_at, follow_up_due_at).spec_kind() == kind
            && CRMInteraction::spec_new(id, account_id, contact_id, kind, occurred_at, follow_up_due_at).spec_occurred_at() == occurred_at
            && CRMInteraction::spec_new(id, account_id, contact_id, kind, occurred_at, follow_up_due_at).spec_follow_up_due_at() == follow_up_due_at,
{
}

impl Clone for CRMInteraction {
    fn clone(&self) -> (r: Self)
        ensures
            r == *self,
    {
        proof {
            use_type_invariant(self);
        }
        CRMInteraction { id: self.id, account_id: self.account_id, contact_id: self.contact_id, kind: self.kind, occurred_at: self.occurred_at, follow_up_due_at: self.follow_up_due_at }
    }
}

#[derive(Debug, PartialEq, Eq, Structural)]
pub struct CRMInteractionForContact {
    pub(crate) account_contact: CRMAccountContact,
    pub(crate) interaction: CRMInteraction,
}

impl CRMInteractionForContact {
    /// Every value satisfies what `try_new` checks.
    #[verifier::type_invariant]
    pub open spec fn valid(self) -> bool {
        (self.spec_interaction().spec_account_id() == self.spec_account_contact().spec_account().spec_id() && self.spec_interaction().spec_contact_id() == self.spec_account_contact().spec_contact().spec_id())
    }

    pub open(crate) spec fn spec_account_contact(&self) -> CRMAccountContact {
        self.account_contact
    }

    pub open(crate) spec fn spec_interaction(&self) -> CRMInteraction {
        self.interaction
    }

    pub open(crate) spec fn spec_new(account_contact: CRMAccountContact, interaction: CRMInteraction) -> Self {
        CRMInteractionForContact { account_contact, interaction }
    }
}

/// The accessors of a `CRMInteractionForContact` built by `spec_new` give back its parts.
pub broadcast proof fn lemma_crm_interaction_for_contact_fields(account_contact: CRMAccountContact, interaction: CRMInteraction)
    ensures
        #[trigger] CRMInteractionForContact::spec_new(account_contact, interaction).spec_account_contact() == account_contact
            && CRMInteractionForContact::spec_new(account_contact, interaction).spec_interaction() == interaction,
{
}

impl Clone for CRMInteractionForContact {
    fn clone(&self) -> (r: Self)
        ensures
            r == *self,
    {
        proof {
            use_type_invariant(self);
        }
        CRMInteractionForContact { account_contact: self.account_contact.clone(), interaction: self.interaction.clone() }
    }
}

#[derive(Clone, Copy, Debug, PartialEq, Eq, Structural)]
pub enum LeadStatus {
    New,
    Working,
    Qualified,
    Disqualified,
    Converted,
}

#[derive(Copy, Debug, PartialEq, Eq, Structural)]
pub struct Lead {
    pub(crate) id: LeadId,
    pub(crate) account_id: AccountId,
    pub(crate) contact_id: ContactId,
    pub(crate) source_campaign: Option<CampaignId>,
    pub(crate) status: LeadStatus,
    pub(crate) estimated_value: Money,
    pub(crate) currency: Currency,
    pub(crate) created_at: Timestamp,
    pub(crate) updated_at: Timestamp,
}

impl Lead {
    /// Every value satisfies what `try_new` checks.
    #[verifier::type_invariant]
    pub open spec fn valid(self) -> bool {
        self.spec_updated_at().spec_seconds() >= self.spec_created_at().spec_seconds()
    }

    pub open(crate) spec fn spec_id(&self) -> LeadId {
        self.id
    }

    pub open(crate) spec fn spec_account_id(&self) -> AccountId {
        self.account_id
    }

    pub open(crate) spec fn spec_contact_id(&self) -> ContactId {
        self.contact_id
    }

    pub open(crate) spec fn spec_source_campaign(&self) -> Option<CampaignId> {
        self.source_campaign
    }

    pub open(crate) spec fn spec_status(&self) -> LeadStatus {
        self.status
    }

    pub open(crate) spec fn spec_estimated_value(&self) -> Money {
        self.estimated_value
    }

    pub open(crate) spec fn spec_currency(&self) -> Currency {
        self.currency
    }

    pub open(crate) spec fn spec_created_at(&self) -> Timestamp {
        self.created_at
    }

    pub open(crate) spec fn spec_updated_at(&self) -> Timestamp {
        self.updated_at
    }

    pub open(crate) spec fn spec_new(id: LeadId, account_id: AccountId, contact_id: ContactId, source_campaign: Option<CampaignId>, status: LeadStatus, estimated_value: Money, currency: Currency, created_at: Timestamp, updated_at: Timestamp) -> Self {
        Lead { id, account_id, contact_id, source_campaign, status, estimated_value, currency, created_at, updated_at }
    }
}

/// The accessors of a `Lead` built by `spec_new` give back its parts.
pub broadcast proof fn lemma_lead_fields(id: LeadId, account_id: AccountId, contact_id: ContactId, source_campaign: Option<CampaignId>, status: LeadStatus, estimated_value: Money, currency: Currency, created_at: Timestamp, updated_at: Timestamp)
    ensures
        #[trigger] Lead::spec_new(id, account_id, contact_id, source_campaign, status, estimated_value, currency, created_at, updated_at).spec_id() == id
            && Lead::spec_new(id, account_id, contact_id, source_campaign, status, estimated_value, currency, created_at, updated_at).spec_account_id() == account_id
            && Lead::spec_new(id, account_id, contact_id, source_campaign, status, estimated_value, currency, created_at, updated_at).spec_contact_id() == contact_id
            && Lead::spec_new(id, account_id, contact_id, source_campaign, status, estimated_value, currency, created_at, updated_at).spec_source_campaign() == source_campaign
            && Lead::spec_new(id, account_id, contact_id, source_campaign, status, estimated_value, currency, created_at, updated_at).spec_status() == status
            && Lead::spec_new(id, account_id, contact_id, source_campaign, status, estimated_value, currency, created_at, updated_at).spec_estimated_value() == estimated_value
            && Lead::spec_new(id, account_id, contact_id, source_campaign, status, estimated_value, currency, created_at, updated_at).spec_currency() == currency
            && Lead::spec_new(id, account_id, contact_id, source_campaign, status, estimated_value, currency, created_at, updated_at).spec_created_at() == created_at
            && Lead::spec_new(id, account_id, contact_id, source_campaign, status, estimated_value, currency, created_at, updated_at).spec_updated_at() == updated_at,
{
}

impl Clone for Lead {
    fn clone(&self) -> (r: Self)
        ensures
            r == *self,
    {
        proof {
            use_type_invariant(self);
        }
        Lead { id: self.id, account_id: self.account_id, contact_id: self.contact_id, source_campaign: self.source_campaign, status: self.status, estimated_value: self.estimated_value, currency: self.currency, created_at: self.created_at, updated_at: self.updated_at }
    }
}

#[derive(Debug, PartialEq, Eq, Structural)]
pub struct LeadForContact {
    pub(crate) account_contact: CRMAccountContact,
    pub(crate) lead: Lead,
}

impl LeadForContact {
    /// Every value satisfies what `try_new` checks.
    #[verifier::type_invariant]
    pub open spec fn valid(self) -> bool {
        (self.spec_lead().spec_account_id() == self.spec_account_contact().spec_account().spec_id() && self.spec_lead().spec_contact_id() == self.spec_account_contact().spec_contact().spec_id())
    }

    pub open(crate) spec fn spec_account_contact(&self) -> CRMAccountContact {
        self.account_contact
    }

    pub open(crate) spec fn spec_lead(&self) -> Lead {
        self.lead
    }

    pub open(crate) spec fn spec_new(account_contact: CRMAccountContact, lead: Lead) -> Self {
        LeadForContact { account_contact, lead }
    }
}

/// The accessors of a `LeadForContact` built by `spec_new` give back its parts.
pub broadcast proof fn lemma_lead_for_contact_fields(account_contact: CRMAccountContact, lead: Lead)
    ensures
        #[trigger] LeadForContact::spec_new(account_contact, lead).spec_account_contact() == account_contact
            && LeadForContact::spec_new(account_contact, lead).spec_lead() == lead,
{
}

impl Clone for LeadForContact {
    fn clone(&self) -> (r: Self)
        ensures
            r == *self,
    {
        proof {
            use_type_invariant(self);
        }
        LeadForContact { account_contact: self.account_contact.clone(), lead: self.lead.clone() }
    }
}

#[derive(Clone, Copy, Debug, PartialEq, Eq, Structural)]
pub enum OpportunityStage {
    Prospecting,
    Qualified,
    Proposal,
    Negotiation,
    Won,
    Lost,
}

#[derive(Copy, Debug, PartialEq, Eq, Structural)]
pub struct SalesOpportunity {
    pub(crate) id: OpportunityId,
    pub(crate) account_id: AccountId,
    pub(crate) contact_id: ContactId,
    pub(crate) source_lead: Option<LeadId>,
    pub(crate) stage: OpportunityStage,
    pub(crate) amount: Money,
    pub(crate) currency: Currency,
    pub(crate) probability: BasisPoints,
    pub(crate) opened_at: Timestamp,
    pub(crate) updated_at: Timestamp,
    pub(crate) expected_close_at: Timestamp,
}

impl SalesOpportunity {
    /// Every value satisfies what `try_new` checks.
    #[verifier::type_invariant]
    pub open spec fn valid(self) -> bool {
        (self.spec_updated_at().spec_seconds() >= self.spec_opened_at().spec_seconds() && self.spec_expected_close_at().spec_seconds() >= self.spec_opened_at().spec_seconds() && stage_probability_allowed_spec(self.spec_stage(), self.spec_probability()))
    }

    pub open(crate) spec fn spec_id(&self) -> OpportunityId {
        self.id
    }

    pub open(crate) spec fn spec_account_id(&self) -> AccountId {
        self.account_id
    }

    pub open(crate) spec fn spec_contact_id(&self) -> ContactId {
        self.contact_id
    }

    pub open(crate) spec fn spec_source_lead(&self) -> Option<LeadId> {
        self.source_lead
    }

    pub open(crate) spec fn spec_stage(&self) -> OpportunityStage {
        self.stage
    }

    pub open(crate) spec fn spec_amount(&self) -> Money {
        self.amount
    }

    pub open(crate) spec fn spec_currency(&self) -> Currency {
        self.currency
    }

    pub open(crate) spec fn spec_probability(&self) -> BasisPoints {
        self.probability
    }

    pub open(crate) spec fn spec_opened_at(&self) -> Timestamp {
        self.opened_at
    }

    pub open(crate) spec fn spec_updated_at(&self) -> Timestamp {
        self.updated_at
    }

    pub open(crate) spec fn spec_expected_close_at(&self) -> Timestamp {
        self.expected_close_at
    }

    pub open(crate) spec fn spec_new(id: OpportunityId, account_id: AccountId, contact_id: ContactId, source_lead: Option<LeadId>, stage: OpportunityStage, amount: Money, currency: Currency, probability: BasisPoints, opened_at: Timestamp, updated_at: Timestamp, expected_close_at: Timestamp) -> Self {
        SalesOpportunity { id, account_id, contact_id, source_lead, stage, amount, currency, probability, opened_at, updated_at, expected_close_at }
    }
}

/// The accessors of a `SalesOpportunity` built by `spec_new` give back its parts.
pub broadcast proof fn lemma_sales_opportunity_fields(id: OpportunityId, account_id: AccountId, contact_id: ContactId, source_lead: Option<LeadId>, stage: OpportunityStage, amount: Money, currency: Currency, probability: BasisPoints, opened_at: Timestamp, updated_at: Timestamp, expected_close_at: Timestamp)
    ensures
        #[trigger] SalesOpportunity::spec_new(id, account_id, contact_id, source_lead, stage, amount, currency, probability, opened_at, updated_at, expected_close_at).spec_id() == id
            && SalesOpportunity::spec_new(id, account_id, contact_id, source_lead, stage, amount, currency, probability, opened_at, updated_at, expected_close_at).spec_account_id() == account_id
            && SalesOpportunity::spec_new(id, account_id, contact_id, source_lead, stage, amount, currency, probability, opened_at, updated_at, expected_close_at).spec_contact_id() == contact_id
            && SalesOpportunity::spec_new(id, account_id, contact_id, source_lead, stage, amount, currency, probability, opened_at, updated_at, expected_close_at).spec_source_lead() == source_lead
            && SalesOpportunity::spec_new(id, account_id, contact_id, source_lead, stage, amount, currency, probability, opened_at, updated_at, expected_close_at).spec_stage() == stage
            && SalesOpportunity::spec_new(id, account_id, contact_id, source_lead, stage, amount, currency, probability, opened_at, updated_at, expected_close_at).spec_amount() == amount
            && SalesOpportunity::spec_new(id, account_id, contact_id, source_lead, stage, amount, currency, probability, opened_at, updated_at, expected_close_at).spec_currency() == currency
            && SalesOpportunity::spec_new(id, account_id, contact_id, source_lead, stage, amount, currency, probability, opened_at, updated_at, expected_close_at).spec_probability() == probability
            && SalesOpportunity::spec_new(id, account_id, contact_id, source_lead, stage, amount, currency, probability, opened_at, updated_at, expected_close_at).spec_opened_at() == opened_at
            && SalesOpportunity::spec_new(id, account_id, contact_id, source_lead, stage, amount, currency, probability, opened_at, updated_at, expected_close_at).spec_updated_at() == updated_at
            && SalesOpportunity::spec_new(id, account_id, contact_id, source_lead, stage, amount, currency, probability, opened_at, updated_at, expected_close_at).spec_expected_close_at() == expected_close_at,
{
}

impl Clone for SalesOpportunity {
    fn clone(&self) -> (r: Self)
        ensures
            r == *self,
    {
        proof {
            use_type_invariant(self);
        }
        SalesOpportunity { id: self.id, account_id: self.account_id, contact_id: self.contact_id, source_lead: self.source_lead, stage: self.stage, amount: self.amount, currency: self.currency, probability: self.probability, opened_at: self.opened_at, updated_at: self.updated_at, expected_close_at: self.expected_close_at }
    }
}

#[derive(Debug, PartialEq, Eq, Structural)]
pub struct OpportunityForContact {
    pub(crate) account_contact: CRMAccountContact,
    pub(crate) opportunity: SalesOpportunity,
}

impl OpportunityForContact {
    /// Every value satisfies what `try_new` checks.
    #[verifier::type_invariant]
    pub open spec fn valid(self) -> bool {
        (self.spec_opportunity().spec_account_id() == self.spec_account_contact().spec_account().spec_id() && self.spec_opportunity().spec_contact_id() == self.spec_account_contact().spec_contact().spec_id())
    }

    pub open(crate) spec fn spec_account_contact(&self) -> CRMAccountContact {
        self.account_contact
    }

    pub open(crate) spec fn spec_opportunity(&self) -> SalesOpportunity {
        self.opportunity
    }

    pub open(crate) spec fn spec_new(account_contact: CRMAccountContact, opportunity: SalesOpportunity) -> Self {
        OpportunityForContact { account_contact, opportunity }
    }
}

/// The accessors of a `OpportunityForContact` built by `spec_new` give back its parts.
pub broadcast proof fn lemma_opportunity_for_contact_fields(account_contact: CRMAccountContact, opportunity: SalesOpportunity)
    ensures
        #[trigger] OpportunityForContact::spec_new(account_contact, opportunity).spec_account_contact() == account_contact
            && OpportunityForContact::spec_new(account_contact, opportunity).spec_opportunity() == opportunity,
{
}

impl Clone for OpportunityForContact {
    fn clone(&self) -> (r: Self)
        ensures
            r == *self,
    {
        proof {
            use_type_invariant(self);
        }
        OpportunityForContact { account_contact: self.account_contact.clone(), opportunity: self.opportunity.clone() }
    }
}

#[derive(Debug, PartialEq, Eq)]
pub struct SalesPipeline {
    pub(crate) currency: Currency,
    pub(crate) opportunities: Vec<SalesOpportunity>,
}

impl SalesPipeline {
    /// Equal fields, and equal contents for the vectors it holds.
    pub open spec fn same_content(self, other: Self) -> bool {
        self.spec_currency() == other.spec_currency()
            && self.spec_opportunities()@ == other.spec_opportunities()@
    }

    /// Every value satisfies what `try_new` checks.
    #[verifier::type_invariant]
    pub open spec fn valid(self) -> bool {
        opportunities_use_currency_spec(self.spec_currency(), self.spec_opportunities()@)
    }

    pub open(crate) spec fn spec_currency(&self) -> Currency {
        self.currency
    }

    pub open(crate) spec fn spec_opportunities(&self) -> Vec<SalesOpportunity> {
        self.opportunities
    }
}

impl Clone for SalesPipeline {
    fn clone(&self) -> (r: Self)
        ensures
            r.same_content(*self),
    {
        proof {
            use_type_invariant(self);
        }
        SalesPipeline { currency: self.currency.clone(), opportunities: clone_vec_exact(&self.opportunities) }
    }
}

#[derive(Debug, PartialEq, Eq)]
pub struct CustomerSegment {
    pub(crate) id: SegmentId,
    pub(crate) name: String,
    pub(crate) member_count: Nat,
    pub(crate) min_lifetime_value: Money,
    pub(crate) max_retention_discount: Money,
}

impl CustomerSegment {
    /// Every value satisfies what `try_new` checks.
    #[verifier::type_invariant]
    pub open spec fn valid(self) -> bool {
        self.spec_max_retention_discount() <= self.spec_min_lifetime_value()
    }

    pub open(crate) spec fn spec_id(&self) -> SegmentId {
        self.id
    }

    pub open(crate) spec fn spec_name(&self) -> String {
        self.name
    }

    pub open(crate) spec fn spec_member_count(&self) -> Nat {
        self.member_count
    }

    pub open(crate) spec fn spec_min_lifetime_value(&self) -> Money {
        self.min_lifetime_value
    }

    pub open(crate) spec fn spec_max_retention_discount(&self) -> Money {
        self.max_retention_discount
    }

    pub open(crate) spec fn spec_new(id: SegmentId, name: String, member_count: Nat, min_lifetime_value: Money, max_retention_discount: Money) -> Self {
        CustomerSegment { id, name, member_count, min_lifetime_value, max_retention_discount }
    }
}

/// The accessors of a `CustomerSegment` built by `spec_new` give back its parts.
pub broadcast proof fn lemma_customer_segment_fields(id: SegmentId, name: String, member_count: Nat, min_lifetime_value: Money, max_retention_discount: Money)
    ensures
        #[trigger] CustomerSegment::spec_new(id, name, member_count, min_lifetime_value, max_retention_discount).spec_id() == id
            && CustomerSegment::spec_new(id, name, member_count, min_lifetime_value, max_retention_discount).spec_name() == name
            && CustomerSegment::spec_new(id, name, member_count, min_lifetime_value, max_retention_discount).spec_member_count() == member_count
            && CustomerSegment::spec_new(id, name, member_count, min_lifetime_value, max_retention_discount).spec_min_lifetime_value() == min_lifetime_value
            && CustomerSegment::spec_new(id, name, member_count, min_lifetime_value, max_retention_discount).spec_max_retention_discount() == max_retention_discount,
{
}

impl Clone for CustomerSegment {
    fn clone(&self) -> (r: Self)
        ensures
            r == *self,
    {
        proof {
            use_type_invariant(self);
        }
        CustomerSegment { id: self.id, name: self.name.clone(), member_count: self.member_count, min_lifetime_value: self.min_lifetime_value, max_retention_discount: self.max_retention_discount }
    }
}

#[derive(Debug, PartialEq, Eq)]
pub struct SegmentMembership {
    pub(crate) account: CRMAccount,
    pub(crate) segment: CustomerSegment,
}

impl SegmentMembership {
    /// Every value satisfies what `try_new` checks.
    #[verifier::type_invariant]
    pub open spec fn valid(self) -> bool {
        self.spec_account().spec_lifetime_value() >= self.spec_segment().spec_min_lifetime_value()
    }

    pub open(crate) spec fn spec_account(&self) -> CRMAccount {
        self.account
    }

    pub open(crate) spec fn spec_segment(&self) -> CustomerSegment {
        self.segment
    }

    pub open(crate) spec fn spec_new(account: CRMAccount, segment: CustomerSegment) -> Self {
        SegmentMembership { account, segment }
    }
}

/// The accessors of a `SegmentMembership` built by `spec_new` give back its parts.
pub broadcast proof fn lemma_segment_membership_fields(account: CRMAccount, segment: CustomerSegment)
    ensures
        #[trigger] SegmentMembership::spec_new(account, segment).spec_account() == account
            && SegmentMembership::spec_new(account, segment).spec_segment() == segment,
{
}

impl Clone for SegmentMembership {
    fn clone(&self) -> (r: Self)
        ensures
            r == *self,
    {
        proof {
            use_type_invariant(self);
        }
        SegmentMembership { account: self.account.clone(), segment: self.segment.clone() }
    }
}

#[derive(Clone, Copy, Debug, PartialEq, Eq, Structural)]
pub enum SupportPriority {
    Low,
    Normal,
    High,
    Urgent,
}

#[derive(Clone, Copy, Debug, PartialEq, Eq, Structural)]
pub enum SupportCaseStatus {
    Opened,
    WaitingOnCustomer,
    WaitingOnInternal,
    Escalated,
    Resolved,
    Closed,
}

#[derive(Copy, Debug, PartialEq, Eq, Structural)]
pub struct SupportCase {
    pub(crate) id: SupportCaseId,
    pub(crate) account_id: AccountId,
    pub(crate) contact_id: ContactId,
    pub(crate) order_id: Option<OrderId>,
    pub(crate) status: SupportCaseStatus,
    pub(crate) priority: SupportPriority,
    pub(crate) opened_at: Timestamp,
    pub(crate) last_updated_at: Timestamp,
    pub(crate) sla_due_at: Timestamp,
}

impl SupportCase {
    /// Every value satisfies what `try_new` checks.
    #[verifier::type_invariant]
    pub open spec fn valid(self) -> bool {
        (self.spec_last_updated_at().spec_seconds() >= self.spec_opened_at().spec_seconds() && self.spec_sla_due_at().spec_seconds() >= self.spec_opened_at().spec_seconds())
    }

    pub open(crate) spec fn spec_id(&self) -> SupportCaseId {
        self.id
    }

    pub open(crate) spec fn spec_account_id(&self) -> AccountId {
        self.account_id
    }

    pub open(crate) spec fn spec_contact_id(&self) -> ContactId {
        self.contact_id
    }

    pub open(crate) spec fn spec_order_id(&self) -> Option<OrderId> {
        self.order_id
    }

    pub open(crate) spec fn spec_status(&self) -> SupportCaseStatus {
        self.status
    }

    pub open(crate) spec fn spec_priority(&self) -> SupportPriority {
        self.priority
    }

    pub open(crate) spec fn spec_opened_at(&self) -> Timestamp {
        self.opened_at
    }

    pub open(crate) spec fn spec_last_updated_at(&self) -> Timestamp {
        self.last_updated_at
    }

    pub open(crate) spec fn spec_sla_due_at(&self) -> Timestamp {
        self.sla_due_at
    }

    pub open(crate) spec fn spec_new(id: SupportCaseId, account_id: AccountId, contact_id: ContactId, order_id: Option<OrderId>, status: SupportCaseStatus, priority: SupportPriority, opened_at: Timestamp, last_updated_at: Timestamp, sla_due_at: Timestamp) -> Self {
        SupportCase { id, account_id, contact_id, order_id, status, priority, opened_at, last_updated_at, sla_due_at }
    }
}

/// The accessors of a `SupportCase` built by `spec_new` give back its parts.
pub broadcast proof fn lemma_support_case_fields(id: SupportCaseId, account_id: AccountId, contact_id: ContactId, order_id: Option<OrderId>, status: SupportCaseStatus, priority: SupportPriority, opened_at: Timestamp, last_updated_at: Timestamp, sla_due_at: Timestamp)
    ensures
        #[trigger] SupportCase::spec_new(id, account_id, contact_id, order_id, status, priority, opened_at, last_updated_at, sla_due_at).spec_id() == id
            && SupportCase::spec_new(id, account_id, contact_id, order_id, status, priority, opened_at, last_updated_at, sla_due_at).spec_account_id() == account_id
            && SupportCase::spec_new(id, account_id, contact_id, order_id, status, priority, opened_at, last_updated_at, sla_due_at).spec_contact_id() == contact_id
            && SupportCase::spec_new(id, account_id, contact_id, order_id, status, priority, opened_at, last_updated_at, sla_due_at).spec_order_id() == order_id
            && SupportCase::spec_new(id, account_id, contact_id, order_id, status, priority, opened_at, last_updated_at, sla_due_at).spec_status() == status
            && SupportCase::spec_new(id, account_id, contact_id, order_id, status, priority, opened_at, last_updated_at, sla_due_at).spec_priority() == priority
            && SupportCase::spec_new(id, account_id, contact_id, order_id, status, priority, opened_at, last_updated_at, sla_due_at).spec_opened_at() == opened_at
            && SupportCase::spec_new(id, account_id, contact_id, order_id, status, priority, opened_at, last_updated_at, sla_due_at).spec_last_updated_at() == last_updated_at
            && SupportCase::spec_new(id, account_id, contact_id, order_id, status, priority, opened_at, last_updated_at, sla_due_at).spec_sla_due_at() == sla_due_at,
{
}

impl Clone for SupportCase {
    fn clone(&self) -> (r: Self)
        ensures
            r == *self,
    {
        proof {
            use_type_invariant(self);
        }
        SupportCase { id: self.id, account_id: self.account_id, contact_id: self.contact_id, order_id: self.order_id, status: self.status, priority: self.priority, opened_at: self.opened_at, last_updated_at: self.last_updated_at, sla_due_at: self.sla_due_at }
    }
}

#[derive(Debug, PartialEq, Eq, Structural)]
pub struct SupportCaseForContact {
    pub(crate) account_contact: CRMAccountContact,
    pub(crate) case_: SupportCase,
}

impl SupportCaseForContact {
    /// Every value satisfies what `try_new` checks.
    #[verifier::type_invariant]
    pub open spec fn valid(self) -> bool {
        (self.spec_case_().spec_account_id() == self.spec_account_contact().spec_account().spec_id() && self.spec_case_().spec_contact_id() == self.spec_account_contact().spec_contact().spec_id())
    }

    pub open(crate) spec fn spec_account_contact(&self) -> CRMAccountContact {
        self.account_contact
    }

    pub open(crate) spec fn spec_case_(&self) -> SupportCase {
        self.case_
    }

    pub open(crate) spec fn spec_new(account_contact: CRMAccountContact, case_: SupportCase) -> Self {
        SupportCaseForContact { account_contact, case_ }
    }
}

/// The accessors of a `SupportCaseForContact` built by `spec_new` give back its parts.
pub broadcast proof fn lemma_support_case_for_contact_fields(account_contact: CRMAccountContact, case_: SupportCase)
    ensures
        #[trigger] SupportCaseForContact::spec_new(account_contact, case_).spec_account_contact() == account_contact
            && SupportCaseForContact::spec_new(account_contact, case_).spec_case_() == case_,
{
}

impl Clone for SupportCaseForContact {
    fn clone(&self) -> (r: Self)
        ensures
            r == *self,
    {
        proof {
            use_type_invariant(self);
        }
        SupportCaseForContact { account_contact: self.account_contact.clone(), case_: self.case_.clone() }
    }
}

#[derive(Debug, PartialEq, Eq, Structural)]
pub struct ResolvedSupportCase {
    pub(crate) case_: SupportCase,
    pub(crate) resolved_at: Timestamp,
}

impl ResolvedSupportCase {
    /// Every value satisfies what `try_new` checks.
    #[verifier::type_invariant]
    pub open spec fn valid(self) -> bool {
        (self.spec_case_().spec_status() == SupportCaseStatus::Resolved && self.spec_resolved_at().spec_seconds() >= self.spec_case_().spec_opened_at().spec_seconds()
            && self.spec_resolved_at().spec_seconds() >= self.spec_case_().spec_last_updated_at().spec_seconds() && self.spec_resolved_at().spec_seconds() <= self.spec_case_().spec_sla_due_at().spec_seconds())
    }

    pub open(crate) spec fn spec_case_(&self) -> SupportCase {
        self.case_
    }

    pub open(crate) spec fn spec_resolved_at(&self) -> Timestamp {
        self.resolved_at
    }

    pub open(crate) spec fn spec_new(case_: SupportCase, resolved_at: Timestamp) -> Self {
        ResolvedSupportCase { case_, resolved_at }
    }
}

/// The accessors of a `ResolvedSupportCase` built by `spec_new` give back its parts.
pub broadcast proof fn lemma_resolved_support_case_fields(case_: SupportCase, resolved_at: Timestamp)
    ensures
        #[trigger] ResolvedSupportCase::spec_new(case_, resolved_at).spec_case_() == case_
            && ResolvedSupportCase::spec_new(case_, resolved_at).spec_resolved_at() == resolved_at,
{
}

impl Clone for ResolvedSupportCase {
    fn clone(&self) -> (r: Self)
        ensures
            r == *self,
    {
        proof {
            use_type_invariant(self);
        }
        ResolvedSupportCase { case_: self.case_.clone(), resolved_at: self.resolved_at }
    }
}

#[derive(Debug, PartialEq, Eq)]
pub struct RetentionOffer {
    pub(crate) account: CRMAccount,
    pub(crate) segment: CustomerSegment,
    pub(crate) coupon: Coupon,
    pub(crate) uses_before: Nat,
    pub(crate) discount: Money,
}

impl RetentionOffer {
    /// Every value satisfies what `try_new` checks.
    #[verifier::type_invariant]
    pub open spec fn valid(self) -> bool {
        retention_offer_ok(self.spec_account(), self.spec_segment(), self.spec_coupon(), self.spec_uses_before(), self.spec_discount())
    }

    pub open(crate) spec fn spec_account(&self) -> CRMAccount {
        self.account
    }

    pub open(crate) spec fn spec_segment(&self) -> CustomerSegment {
        self.segment
    }

    pub open(crate) spec fn spec_coupon(&self) -> Coupon {
        self.coupon
    }

    pub open(crate) spec fn spec_uses_before(&self) -> Nat {
        self.uses_before
    }

    pub open(crate) spec fn spec_discount(&self) -> Money {
        self.discount
    }

    pub open(crate) spec fn spec_new(account: CRMAccount, segment: CustomerSegment, coupon: Coupon, uses_before: Nat, discount: Money) -> Self {
        RetentionOffer { account, segment, coupon, uses_before, discount }
    }
}

/// The accessors of a `RetentionOffer` built by `spec_new` give back its parts.
pub broadcast proof fn lemma_retention_offer_fields(account: CRMAccount, segment: CustomerSegment, coupon: Coupon, uses_before: Nat, discount: Money)
    ensures
        #[trigger] RetentionOffer::spec_new(account, segment, coupon, uses_before, discount).spec_account() == account
            && RetentionOffer::spec_new(account, segment, coupon, uses_before, discount).spec_segment() == segment
            && RetentionOffer::spec_new(account, segment, coupon, uses_before, discount).spec_coupon() == coupon
            && RetentionOffer::spec_new(account, segment, coupon, uses_before, discount).spec_uses_before() == uses_before
            && RetentionOffer::spec_new(account, segment, coupon, uses_before, discount).spec_discount() == discount,
{
}

impl Clone for RetentionOffer {
    fn clone(&self) -> (r: Self)
        ensures
            r == *self,
    {
        proof {
            use_type_invariant(self);
        }
        RetentionOffer { account: self.account.clone(), segment: self.segment.clone(), coupon: self.coupon.clone(), uses_before: self.uses_before, discount: self.discount }
    }
}

impl CRMAccount {
    pub fn id(&self) -> (r: AccountId)
        ensures
            r == self.spec_id(),
    {
        self.id
    }

    pub fn customer(&self) -> (r: &Customer)
        ensures
            *r == self.spec_customer(),
    {
        &self.customer
    }

    pub fn tier(&self) -> (r: AccountTier)
        ensures
            r == self.spec_tier(),
    {
        self.tier
    }

    pub fn status(&self) -> (r: CRMAccountStatus)
        ensures
            r == self.spec_status(),
    {
        self.status
    }

    pub fn lifetime_value(&self) -> (r: Money)
        ensures
            r == self.spec_lifetime_value(),
    {
        self.lifetime_value
    }

    pub fn open_balance(&self) -> (r: Money)
        ensures
            r == self.spec_open_balance(),
    {
        self.open_balance
    }
}

impl ActiveCRMAccount {
    pub fn account(&self) -> (r: &CRMAccount)
        ensures
            *r == self.spec_account(),
    {
        &self.account
    }
}

impl CRMAccountContact {
    pub fn account(&self) -> (r: &CRMAccount)
        ensures
            *r == self.spec_account(),
    {
        &self.account
    }

    pub fn contact(&self) -> (r: &CRMContact)
        ensures
            *r == self.spec_contact(),
    {
        &self.contact
    }
}

impl PermittedCustomerMessage {
    pub fn interaction_id(&self) -> (r: InteractionId)
        ensures
            r == self.spec_interaction_id(),
    {
        self.interaction_id
    }

    pub fn contact(&self) -> (r: &CRMContact)
        ensures
            *r == self.spec_contact(),
    {
        &self.contact
    }

    pub fn sent_at(&self) -> (r: Timestamp)
        ensures
            r == self.spec_sent_at(),
    {
        self.sent_at
    }
}

impl PermittedAccountMessage {
    pub fn account_contact(&self) -> (r: &CRMAccountContact)
        ensures
            *r == self.spec_account_contact(),
    {
        &self.account_contact
    }

    pub fn message(&self) -> (r: &PermittedCustomerMessage)
        ensures
            *r == self.spec_message(),
    {
        &self.message
    }
}

impl CRMInteraction {
    pub fn id(&self) -> (r: InteractionId)
        ensures
            r == self.spec_id(),
    {
        self.id
    }

    pub fn account_id(&self) -> (r: AccountId)
        ensures
            r == self.spec_account_id(),
    {
        self.account_id
    }

    pub fn contact_id(&self) -> (r: ContactId)
        ensures
            r == self.spec_contact_id(),
    {
        self.contact_id
    }

    pub fn kind(&self) -> (r: InteractionKind)
        ensures
            r == self.spec_kind(),
    {
        self.kind
    }

    pub fn occurred_at(&self) -> (r: Timestamp)
        ensures
            r == self.spec_occurred_at(),
    {
        self.occurred_at
    }

    pub fn follow_up_due_at(&self) -> (r: Timestamp)
        ensures
            r == self.spec_follow_up_due_at(),
    {
        self.follow_up_due_at
    }
}

impl CRMInteractionForContact {
    pub fn account_contact(&self) -> (r: &CRMAccountContact)
        ensures
            *r == self.spec_account_contact(),
    {
        &self.account_contact
    }

    pub fn interaction(&self) -> (r: &CRMInteraction)
        ensures
            *r == self.spec_interaction(),
    {
        &self.interaction
    }
}

impl Lead {
    pub fn id(&self) -> (r: LeadId)
        ensures
            r == self.spec_id(),
    {
        self.id
    }

    pub fn account_id(&self) -> (r: AccountId)
        ensures
            r == self.spec_account_id(),
    {
        self.account_id
    }

    pub fn contact_id(&self) -> (r: ContactId)
        ensures
            r == self.spec_contact_id(),
    {
        self.contact_id
    }

    pub fn source_campaign(&self) -> (r: Option<CampaignId>)
        ensures
            r == self.spec_source_campaign(),
    {
        self.source_campaign
    }

    pub fn status(&self) -> (r: LeadStatus)
        ensures
            r == self.spec_status(),
    {
        self.status
    }

    pub fn estimated_value(&self) -> (r: Money)
        ensures
            r == self.spec_estimated_value(),
    {
        self.estimated_value
    }

    pub fn currency(&self) -> (r: Currency)
        ensures
            r == self.spec_currency(),
    {
        self.currency
    }

    pub fn created_at(&self) -> (r: Timestamp)
        ensures
            r == self.spec_created_at(),
    {
        self.created_at
    }

    pub fn updated_at(&self) -> (r: Timestamp)
        ensures
            r == self.spec_updated_at(),
    {
        self.updated_at
    }
}

impl LeadForContact {
    pub fn account_contact(&self) -> (r: &CRMAccountContact)
        ensures
            *r == self.spec_account_contact(),
    {
        &self.account_contact
    }

    pub fn lead(&self) -> (r: &Lead)
        ensures
            *r == self.spec_lead(),
    {
        &self.lead
    }
}

impl SalesOpportunity {
    pub fn id(&self) -> (r: OpportunityId)
        ensures
            r == self.spec_id(),
    {
        self.id
    }

    pub fn account_id(&self) -> (r: AccountId)
        ensures
            r == self.spec_account_id(),
    {
        self.account_id
    }

    pub fn contact_id(&self) -> (r: ContactId)
        ensures
            r == self.spec_contact_id(),
    {
        self.contact_id
    }

    pub fn source_lead(&self) -> (r: Option<LeadId>)
        ensures
            r == self.spec_source_lead(),
    {
        self.source_lead
    }

    pub fn stage(&self) -> (r: OpportunityStage)
        ensures
            r == self.spec_stage(),
    {
        self.stage
    }

    pub fn amount(&self) -> (r: Money)
        ensures
            r == self.spec_amount(),
    {
        self.amount
    }

    pub fn currency(&self) -> (r: Currency)
        ensures
            r == self.spec_currency(),
    {
        self.currency
    }

    pub fn probability(&self) -> (r: BasisPoints)
        ensures
            r == self.spec_probability(),
    {
        self.probability
    }

    pub fn opened_at(&self) -> (r: Timestamp)
        ensures
            r == self.spec_opened_at(),
    {
        self.opened_at
    }

    pub fn updated_at(&self) -> (r: Timestamp)
        ensures
            r == self.spec_updated_at(),
    {
        self.updated_at
    }

    pub fn expected_close_at(&self) -> (r: Timestamp)
        ensures
            r == self.spec_expected_close_at(),
    {
        self.expected_close_at
    }
}

impl OpportunityForContact {
    pub fn account_contact(&self) -> (r: &CRMAccountContact)
        ensures
            *r == self.spec_account_contact(),
    {
        &self.account_contact
    }

    pub fn opportunity(&self) -> (r: &SalesOpportunity)
        ensures
            *r == self.spec_opportunity(),
    {
        &self.opportunity
    }
}

impl SalesPipeline {
    pub fn currency(&self) -> (r: Currency)
        ensures
            r == self.spec_currency(),
    {
        self.currency
    }

    pub fn opportunities(&self) -> (r: &[SalesOpportunity])
        ensures
            r@ == self.spec_opportunities()@,
    {
        self.opportunities.as_slice()
    }
}

impl CustomerSegment {
    pub fn id(&self) -> (r: SegmentId)
        ensures
            r == self.spec_id(),
    {
        self.id
    }

    pub fn name(&self) -> (r: &str)
        ensures
            r@ == self.spec_name()@,
    {
        self.name.as_str()
    }

    pub fn member_count(&self) -> (r: Nat)
        ensures
            r == self.spec_member_count(),
    {
        self.member_count
    }

    pub fn min_lifetime_value(&self) -> (r: Money)
        ensures
            r == self.spec_min_lifetime_value(),
    {
        self.min_lifetime_value
    }

    pub fn max_retention_discount(&self) -> (r: Money)
        ensures
            r == self.spec_max_retention_discount(),
    {
        self.max_retention_discount
    }
}

impl SegmentMembership {
    pub fn account(&self) -> (r: &CRMAccount)
        ensures
            *r == self.spec_account(),
    {
        &self.account
    }

    pub fn segment(&self) -> (r: &CustomerSegment)
        ensures
            *r == self.spec_segment(),
    {
        &self.segment
    }
}

impl SupportCase {
    pub fn id(&self) -> (r: SupportCaseId)
        ensures
            r == self.spec_id(),
    {
        self.id
    }

    pub fn account_id(&self) -> (r: AccountId)
        ensures
            r == self.spec_account_id(),
    {
        self.account_id
    }

    pub fn contact_id(&self) -> (r: ContactId)
        ensures
            r == self.spec_contact_id(),
    {
        self.contact_id
    }

    pub fn order_id(&self) -> (r: Option<OrderId>)
        ensures
            r == self.spec_order_id(),
    {
        self.order_id
    }

    pub fn status(&self) -> (r: SupportCaseStatus)
        ensures
            r == self.spec_status(),
    {
        self.status
    }

    pub fn priority(&self) -> (r: SupportPriority)
        ensures
            r == self.spec_priority(),
    {
        self.priority
    }

    pub fn opened_at(&self) -> (r: Timestamp)
        ensures
            r == self.spec_opened_at(),
    {
        self.opened_at
    }

    pub fn last_updated_at(&self) -> (r: Timestamp)
        ensures
            r == self.spec_last_updated_at(),
    {
        self.last_updated_at
    }

    pub fn sla_due_at(&self) -> (r: Timestamp)
        ensures
            r == self.spec_sla_due_at(),
    {
        self.sla_due_at
    }
}

impl SupportCaseForContact {
    pub fn account_contact(&self) -> (r: &CRMAccountContact)
        ensures
            *r == self.spec_account_contact(),
    {
        &self.account_contact
    }

    pub fn case_(&self) -> (r: &SupportCase)
        ensures
            *r == self.spec_case_(),
    {
        &self.case_
    }
}

impl ResolvedSupportCase {
    pub fn case_(&self) -> (r: &SupportCase)
        ensures
            *r == self.spec_case_(),
    {
        &self.case_
    }

    pub fn resolved_at(&self) -> (r: Timestamp)
        ensures
            r == self.spec_resolved_at(),
    {
        self.resolved_at
    }
}

impl RetentionOffer {
    pub fn account(&self) -> (r: &CRMAccount)
        ensures
            *r == self.spec_account(),
    {
        &self.account
    }

    pub fn segment(&self) -> (r: &CustomerSegment)
        ensures
            *r == self.spec_segment(),
    {
        &self.segment
    }

    pub fn coupon(&self) -> (r: &Coupon)
        ensures
            *r == self.spec_coupon(),
    {
        &self.coupon
    }

    pub fn uses_before(&self) -> (r: Nat)
        ensures
            r == self.spec_uses_before(),
    {
        self.uses_before
    }

    pub fn discount(&self) -> (r: Money)
        ensures
            r == self.spec_discount(),
    {
        self.discount
    }
}

pub open spec fn can_crm_account_transition_spec(source: CRMAccountStatus, target: CRMAccountStatus) -> bool {
    match (source, target) {
        (CRMAccountStatus::Prospect, CRMAccountStatus::Active) | (CRMAccountStatus::Prospect, CRMAccountStatus::Closed)
        | (CRMAccountStatus::Active, CRMAccountStatus::Paused) | (CRMAccountStatus::Active, CRMAccountStatus::Closed)
        | (CRMAccountStatus::Paused, CRMAccountStatus::Active) | (CRMAccountStatus::Paused, CRMAccountStatus::Closed) => true,
        _ => false,
    }
}

pub fn can_crm_account_transition(source: CRMAccountStatus, target: CRMAccountStatus) -> (r: bool)
    ensures
        r == can_crm_account_transition_spec(source, target),
{
    match (source, target) {
        (CRMAccountStatus::Prospect, CRMAccountStatus::Active) | (CRMAccountStatus::Prospect, CRMAccountStatus::Closed)
        | (CRMAccountStatus::Active, CRMAccountStatus::Paused) | (CRMAccountStatus::Active, CRMAccountStatus::Closed)
        | (CRMAccountStatus::Paused, CRMAccountStatus::Active) | (CRMAccountStatus::Paused, CRMAccountStatus::Closed) => true,
        _ => false,
    }
}

impl CRMAccount {
    pub fn try_new(id: AccountId, customer: Customer, tier: AccountTier, status: CRMAccountStatus, lifetime_value: Money, open_balance: Money) -> (r: DomainResult<Self>)
        ensures
            open_balance > lifetime_value ==> r == Err::<Self, ValidationError>(ValidationError::CrmInvariantFailed),
            open_balance <= lifetime_value ==> r == Ok::<Self, ValidationError>(CRMAccount::spec_new(id, customer, tier, status, lifetime_value, open_balance)),
    {
        if open_balance > lifetime_value {
            return Err(ValidationError::CrmInvariantFailed);
        }
        Ok(Self { id, customer, tier, status, lifetime_value, open_balance })
    }
}

pub fn crm_account_active(account: &CRMAccount) -> (r: bool)
    ensures
        r == (account.spec_status() == CRMAccountStatus::Active),
{
    account.status == CRMAccountStatus::Active
}

impl ActiveCRMAccount {
    pub fn try_new(account: CRMAccount) -> (r: DomainResult<Self>)
        ensures
            account.spec_status() != CRMAccountStatus::Active ==> r == Err::<Self, ValidationError>(ValidationError::CrmInvariantFailed),
            account.spec_status() == CRMAccountStatus::Active ==> r == Ok::<Self, ValidationError>(ActiveCRMAccount::spec_new(account)),
    {
        if !crm_account_active(&account) {
            return Err(ValidationError::CrmInvariantFailed);
        }
        Ok(Self { account })
    }
}

/// Moves the account to `next` when the lifecycle allows it; nothing else changes.
pub fn transition_crm_account(account: CRMAccount, next: CRMAccountStatus) -> (r: DomainResult<CRMAccount>)
    ensures
        !can_crm_account_transition_spec(account.spec_status(), next) ==> r == Err::<CRMAccount, ValidationError>(ValidationError::CrmInvariantFailed),
        can_crm_account_transition_spec(account.spec_status(), next) ==> r == Ok::<CRMAccount, ValidationError>(CRMAccount::spec_new(account.spec_id(), account.spec_customer(), account.spec_tier(), next, account.spec_lifetime_value(), account.spec_open_balance())),
{
    if !can_crm_account_transition(account.status, next) {
        return Err(ValidationError::CrmInvariantFailed);
    }
    proof {
        use_type_invariant(&account);
    }
    Ok(CRMAccount { status: next, ..account })
}

pub open spec fn contact_can_receive_marketing_spec(contact: CRMContact) -> bool {
    contact.spec_subscription() == SubscriptionStatus::Subscribed
        && contact.spec_retargeting_consent() == ConsentStatus::Granted
        && contact.spec_data_permission().spec_allowed()
        && contact.spec_data_permission().spec_purpose() == ConsentPurpose::Marketing
        && contact.spec_data_permission().spec_basis() == ProcessingBasis::Consent
}

pub fn contact_can_receive_marketing(contact: &CRMContact) -> (r: bool)
    ensures
        r == contact_can_receive_marketing_spec(*contact),
{
    can_send_marketing_message(contact.subscription) && can_retarget(contact.retargeting_consent)
        && data_processing_allowed(&contact.data_permission)
        && contact.data_permission.purpose == ConsentPurpose::Marketing
        && contact.data_permission.basis == ProcessingBasis::Consent
}

impl CRMAccountContact {
    pub fn try_new(account: CRMAccount, contact: CRMContact) -> (r: DomainResult<Self>)
        ensures
            (contact.spec_account_id() != account.spec_id() || contact.spec_customer_id() != account.spec_customer().spec_id()) ==> r == Err::<Self, ValidationError>(ValidationError::CrmInvariantFailed),
            (contact.spec_account_id() == account.spec_id() && contact.spec_customer_id() == account.spec_customer().spec_id()) ==> r == Ok::<Self, ValidationError>(CRMAccountContact::spec_new(account, contact)),
    {
        if contact.account_id != account.id || contact.customer_id != account.customer.id {
            return Err(ValidationError::CrmInvariantFailed);
        }
        Ok(Self { account, contact })
    }
}

impl PermittedCustomerMessage {
    pub fn try_new(interaction_id: InteractionId, contact: CRMContact, sent_at: Timestamp) -> (r: DomainResult<Self>)
        ensures
            !contact_can_receive_marketing_spec(contact) ==> r == Err::<Self, ValidationError>(ValidationError::CrmInvariantFailed),
            contact_can_receive_marketing_spec(contact) ==> r == Ok::<Self, ValidationError>(PermittedCustomerMessage::spec_new(interaction_id, contact, sent_at)),
    {
        if !contact_can_receive_marketing(&contact) {
            return Err(ValidationError::CrmInvariantFailed);
        }
        Ok(Self { interaction_id, contact, sent_at })
    }
}

impl PermittedAccountMessage {
    pub fn try_new(account_contact: CRMAccountContact, message: PermittedCustomerMessage) -> (r: DomainResult<Self>)
        ensures
            message.spec_contact() != account_contact.spec_contact() ==> r == Err::<Self, ValidationError>(ValidationError::CrmInvariantFailed),
            message.spec_contact() == account_contact.spec_contact() ==> r == Ok::<Self, ValidationError>(PermittedAccountMessage::spec_new(account_contact, message)),
    {
        if message.contact != account_contact.contact {
            return Err(ValidationError::CrmInvariantFailed);
        }
        Ok(Self { account_contact, message })
    }
}

impl CRMInteraction {
    pub fn try_new(id: InteractionId, account_id: AccountId, contact_id: ContactId, kind: InteractionKind, occurred_at: Timestamp, follow_up_due_at: Timestamp) -> (r: DomainResult<Self>)
        ensures
            follow_up_due_at.spec_seconds() < occurred_at.spec_seconds() ==> r == Err::<Self, ValidationError>(ValidationError::CrmInvariantFailed),
            follow_up_due_at.spec_seconds() >= occurred_at.spec_seconds() ==> r == Ok::<Self, ValidationError>(CRMInteraction::spec_new(id, account_id, contact_id, kind, occurred_at, follow_up_due_at)),
    {
        if follow_up_due_at.seconds < occurred_at.seconds {
            return Err(ValidationError::CrmInvariantFailed);
        }
        Ok(Self { id, account_id, contact_id, kind, occurred_at, follow_up_due_at })
    }
}

impl CRMInteractionForContact {
    pub fn try_new(account_contact: CRMAccountContact, interaction: CRMInteraction) -> (r: DomainResult<Self>)
        ensures
            (interaction.spec_account_id() != account_contact.spec_account().spec_id() || interaction.spec_contact_id() != account_contact.spec_contact().spec_id())
                ==> r == Err::<Self, ValidationError>(ValidationError::CrmInvariantFailed),
            (interaction.spec_account_id() == account_contact.spec_account().spec_id() && interaction.spec_contact_id() == account_contact.spec_contact().spec_id())
                ==> r == Ok::<Self, ValidationError>(CRMInteractionForContact::spec_new(account_contact, interaction)),
    {
        if interaction.account_id != account_contact.account.id || interaction.contact_id != account_contact.contact.id {
            return Err(ValidationError::CrmInvariantFailed);
        }
        Ok(Self { account_contact, interaction })
    }
}

pub open spec fn can_lead_transition_spec(source: LeadStatus, target: LeadStatus) -> bool {
    match (source, target) {
        (LeadStatus::New, LeadStatus::Working) | (LeadStatus::New, LeadStatus::Disqualified)
        | (LeadStatus::Working, LeadStatus::Qualified) | (LeadStatus::Working, LeadStatus::Disqualified)
        | (LeadStatus::Qualified, LeadStatus::Converted) | (LeadStatus::Qualified, LeadStatus::Disqualified) => true,
        _ => false,
    }
}

pub fn can_lead_transition(source: LeadStatus, target: LeadStatus) -> (r: bool)
    ensures
        r == can_lead_transition_spec(source, target),
{
    match (source, target) {
        (LeadStatus::New, LeadStatus::Working) | (LeadStatus::New, LeadStatus::Disqualified)
        | (LeadStatus::Working, LeadStatus::Qualified) | (LeadStatus::Working, LeadStatus::Disqualified)
        | (LeadStatus::Qualified, LeadStatus::Converted) | (LeadStatus::Qualified, LeadStatus::Disqualified) => true,
        _ => false,
    }
}

impl Lead {
    pub fn try_new(id: LeadId, account_id: AccountId, contact_id: ContactId, source_campaign: Option<CampaignId>, status: LeadStatus, estimated_value: Money, currency: Currency, created_at: Timestamp, updated_at: Timestamp) -> (r: DomainResult<Self>)
        ensures
            updated_at.spec_seconds() < created_at.spec_seconds() ==> r == Err::<Self, ValidationError>(ValidationError::CrmInvariantFailed),
            updated_at.spec_seconds() >= created_at.spec_seconds() ==> r == Ok::<Self, ValidationError>(Lead::spec_new(id, account_id, contact_id, source_campaign, status, estimated_value, currency, created_at, updated_at)),
    {
        if updated_at.seconds < created_at.seconds {
            return Err(ValidationError::CrmInvariantFailed);
        }
        Ok(Self { id, account_id, contact_id, source_campaign, status, estimated_value, currency, created_at, updated_at })
    }
}

pub fn transition_lead(lead: Lead, next: LeadStatus, updated_at: Timestamp) -> (r: DomainResult<Lead>)
    ensures
        (!can_lead_transition_spec(lead.spec_status(), next) || updated_at.spec_seconds() < lead.spec_created_at().spec_seconds()) ==> r == Err::<Lead, ValidationError>(ValidationError::CrmInvariantFailed),
        (can_lead_transition_spec(lead.spec_status(), next) && updated_at.spec_seconds() >= lead.spec_created_at().spec_seconds()) ==> r == Ok::<Lead, ValidationError>(Lead::spec_new(lead.spec_id(), lead.spec_account_id(), lead.spec_contact_id(), lead.spec_source_campaign(), next, lead.spec_estimated_value(), lead.spec_currency(), lead.spec_created_at(), updated_at)),
{
    if !can_lead_transition(lead.status, next) || updated_at.seconds < lead.created_at.seconds {
        return Err(ValidationError::CrmInvariantFailed);
    }
    Ok(Lead { status: next, updated_at, ..lead })
}

impl LeadForContact {
    pub fn try_new(account_contact: CRMAccountContact, lead: Lead) -> (r: DomainResult<Self>)
        ensures
            (lead.spec_account_id() != account_contact.spec_account().spec_id() || lead.spec_contact_id() != account_contact.spec_contact().spec_id())
                ==> r == Err::<Self, ValidationError>(ValidationError::CrmInvariantFailed),
            (lead.spec_account_id() == account_contact.spec_account().spec_id() && lead.spec_contact_id() == account_contact.spec_contact().spec_id())
                ==> r == Ok::<Self, ValidationError>(LeadForContact::spec_new(account_contact, lead)),
    {
        if lead.account_id != account_contact.account.id || lead.contact_id != account_contact.contact.id {
            return Err(ValidationError::CrmInvariantFailed);
        }
        Ok(Self { account_contact, lead })
    }
}

pub open spec fn can_opportunity_transition_spec(source: OpportunityStage, target: OpportunityStage) -> bool {
    match (source, target) {
        (OpportunityStage::Prospecting, OpportunityStage::Qualified) | (OpportunityStage::Prospecting, OpportunityStage::Lost)
        | (OpportunityStage::Qualified, OpportunityStage::Proposal) | (OpportunityStage::Qualified, OpportunityStage::Lost)
        | (OpportunityStage::Proposal, OpportunityStage::Negotiation) | (OpportunityStage::Proposal, OpportunityStage::Lost)
        | (OpportunityStage::Negotiation, OpportunityStage::Won) | (OpportunityStage::Negotiation, OpportunityStage::Lost) => true,
        _ => false,
    }
}

pub fn can_opportunity_transition(source: OpportunityStage, target: OpportunityStage) -> (r: bool)
    ensures
        r == can_opportunity_transition_spec(source, target),
{
    match (source, target) {
        (OpportunityStage::Prospecting, OpportunityStage::Qualified) | (OpportunityStage::Prospecting, OpportunityStage::Lost)
        | (OpportunityStage::Qualified, OpportunityStage::Proposal) | (OpportunityStage::Qualified, OpportunityStage::Lost)
        | (OpportunityStage::Proposal, OpportunityStage::Negotiation) | (OpportunityStage::Proposal, OpportunityStage::Lost)
        | (OpportunityStage::Negotiation, OpportunityStage::Won) | (OpportunityStage::Negotiation, OpportunityStage::Lost) => true,
        _ => false,
    }
}

/// A won deal is certain, a lost one impossible; open stages allow any probability.
pub open spec fn stage_probability_allowed_spec(stage: OpportunityStage, probability: BasisPoints) -> bool {
    match stage {
        OpportunityStage::Won => probability.spec_value() == 10_000,
        OpportunityStage::Lost => probability.spec_value() == 0,
        _ => true,
    }
}

pub fn opportunity_stage_probability_allowed(stage: OpportunityStage, probability: BasisPoints) -> (r: bool)
    ensures
        r == stage_probability_allowed_spec(stage, probability),
{
    match stage {
        OpportunityStage::Won => probability.value() == 10_000,
        OpportunityStage::Lost => probability.value() == 0,
        _ => true,
    }
}

impl SalesOpportunity {
    pub fn try_new(id: OpportunityId, account_id: AccountId, contact_id: ContactId, source_lead: Option<LeadId>, stage: OpportunityStage, amount: Money, currency: Currency, probability: BasisPoints, opened_at: Timestamp, updated_at: Timestamp, expected_close_at: Timestamp) -> (r: DomainResult<Self>)
        ensures
            (updated_at.spec_seconds() < opened_at.spec_seconds() || expected_close_at.spec_seconds() < opened_at.spec_seconds() || !stage_probability_allowed_spec(stage, probability))
                ==> r == Err::<Self, ValidationError>(ValidationError::CrmInvariantFailed),
            (updated_at.spec_seconds() >= opened_at.spec_seconds() && expected_close_at.spec_seconds() >= opened_at.spec_seconds() && stage_probability_allowed_spec(stage, probability))
                ==> r == Ok::<Self, ValidationError>(SalesOpportunity::spec_new(id, account_id, contact_id, source_lead, stage, amount, currency, probability, opened_at, updated_at, expected_close_at)),
    {
        if updated_at.seconds < opened_at.seconds || expected_close_at.seconds < opened_at.seconds || !opportunity_stage_probability_allowed(stage, probability) {
            return Err(ValidationError::CrmInvariantFailed);
        }
        Ok(Self { id, account_id, contact_id, source_lead, stage, amount, currency, probability, opened_at, updated_at, expected_close_at })
    }
}

pub open spec fn opportunity_weighted_value_spec(opportunity: SalesOpportunity) -> DomainResult<u128> {
    apply_bps_spec(opportunity.spec_probability(), opportunity.spec_amount())
}

/// The amount weighted by the win probability.
pub fn opportunity_weighted_value(opportunity: &SalesOpportunity) -> (r: DomainResult<Money>)
    ensures
        r == opportunity_weighted_value_spec(*opportunity),
{
    apply_bps(opportunity.probability, opportunity.amount)
}

pub fn transition_opportunity(opportunity: SalesOpportunity, next: OpportunityStage, probability: BasisPoints, updated_at: Timestamp, expected_close_at: Timestamp) -> (r: DomainResult<SalesOpportunity>)
    ensures
        (!can_opportunity_transition_spec(opportunity.spec_stage(), next) || !stage_probability_allowed_spec(next, probability)
            || updated_at.spec_seconds() < opportunity.spec_opened_at().spec_seconds() || expected_close_at.spec_seconds() < opportunity.spec_opened_at().spec_seconds())
            ==> r == Err::<SalesOpportunity, ValidationError>(ValidationError::CrmInvariantFailed),
        (can_opportunity_transition_spec(opportunity.spec_stage(), next) && stage_probability_allowed_spec(next, probability)
            && updated_at.spec_seconds() >= opportunity.spec_opened_at().spec_seconds() && expected_close_at.spec_seconds() >= opportunity.spec_opened_at().spec_seconds())
            ==> r == Ok::<SalesOpportunity, ValidationError>(SalesOpportunity::spec_new(opportunity.spec_id(), opportunity.spec_account_id(), opportunity.spec_contact_id(), opportunity.spec_source_lead(), next, opportunity.spec_amount(), opportunity.spec_currency(), probability, opportunity.spec_opened_at(), updated_at, expected_close_at)),
{
    if !can_opportunity_transition(opportunity.stage, next) || !opportunity_stage_probability_allowed(next, probability)
        || updated_at.seconds < opportunity.opened_at.seconds || expected_close_at.seconds < opportunity.opened_at.seconds {
        return Err(ValidationError::CrmInvariantFailed);
    }
    Ok(SalesOpportunity { stage: next, probability, updated_at, expected_close_at, ..opportunity })
}

impl OpportunityForContact {
    pub fn try_new(account_contact: CRMAccountContact, opportunity: SalesOpportunity) -> (r: DomainResult<Self>)
        ensures
            (opportunity.spec_account_id() != account_contact.spec_account().spec_id() || opportunity.spec_contact_id() != account_contact.spec_contact().spec_id())
                ==> r == Err::<Self, ValidationError>(ValidationError::CrmInvariantFailed),
            (opportunity.spec_account_id() == account_contact.spec_account().spec_id() && opportunity.spec_contact_id() == account_contact.spec_contact().spec_id())
                ==> r == Ok::<Self, ValidationError>(OpportunityForContact::spec_new(account_contact, opportunity)),
    {
        if opportunity.account_id != account_contact.account.id || opportunity.contact_id != account_contact.contact.id {
            return Err(ValidationError::CrmInvariantFailed);
        }
        Ok(Self { account_contact, opportunity })
    }
}

pub open spec fn opportunity_gross_value_value() -> spec_fn(SalesOpportunity) -> nat {
    |x: SalesOpportunity| (x.spec_amount()) as nat
}

/// Sum of the opportunities' amounts.
pub fn opportunity_gross_value(opportunities: &[SalesOpportunity]) -> (r: DomainResult<Nat>)
    ensures
        r == total_result(sum_nat(opportunities@, opportunity_gross_value_value()) as int, "opportunity_gross_value"),
{
    let mut acc: Nat = 0;
    let mut i: usize = 0;
    while i < opportunities.len()
        invariant
            i <= opportunities.len(),
            acc == sum_nat(opportunities@.take(i as int), opportunity_gross_value_value()),
        decreases opportunities.len() - i,
    {
        proof {
            lemma_sum_nat_take_step(opportunities@, opportunity_gross_value_value(), i as int);
        }
        let item: Nat = opportunities[i].amount;
        match acc.checked_add(item) {
            Some(v) => {
                acc = v;
            },
            None => {
                proof {
                    lemma_sum_nat_prefix_le(opportunities@, opportunity_gross_value_value(), i + 1);
                }
                return Err(ValidationError::Overflow("opportunity_gross_value"));
            },
        }
        i += 1;
    }
    proof {
        lemma_sum_nat_take_all(opportunities@, opportunity_gross_value_value());
    }
    Ok(acc)
}


pub open spec fn weighted_value_fn() -> spec_fn(SalesOpportunity) -> DomainResult<u128> {
    |o: SalesOpportunity| opportunity_weighted_value_spec(o)
}

/// Sum of the weighted values; a weighting overflow is reported first.
pub fn opportunity_weighted_value_total(opportunities: &[SalesOpportunity]) -> (r: DomainResult<Nat>)
    ensures
        r == collected_sum(opportunities@, weighted_value_fn(), "opportunity_weighted_value_total"),
{
    let mut vals: Vec<Nat> = Vec::new();
    let mut i: usize = 0;
    while i < opportunities.len()
        invariant
            i <= opportunities.len(),
            collect_results(opportunities@.take(i as int), weighted_value_fn()) == Ok::<Seq<u128>, ValidationError>(vals@),
        decreases opportunities.len() - i,
    {
        proof {
            lemma_collect_results_take_step(opportunities@, weighted_value_fn(), i as int);
        }
        match opportunity_weighted_value(&opportunities[i]) {
            Ok(v) => {
                vals.push(v);
            },
            Err(e) => {
                proof {
                    lemma_collect_results_err_sticks(opportunities@, weighted_value_fn(), i + 1);
                }
                return Err(e);
            },
        }
        i += 1;
    }
    proof {
        assert(opportunities@.take(opportunities.len() as int) =~= opportunities@);
    }
    checked_sum(vals.as_slice(), "opportunity_weighted_value_total")
}


pub open spec fn opportunities_use_currency_spec(currency: Currency, opportunities: Seq<SalesOpportunity>) -> bool {
    forall|i: int| #![trigger opportunities[i]] 0 <= i < opportunities.len() ==> opportunities[i].spec_currency() == currency
}

pub fn opportunities_use_currency(currency: Currency, opportunities: &[SalesOpportunity]) -> (r: bool)
    ensures
        r == opportunities_use_currency_spec(currency, opportunities@),
{
    let mut i: usize = 0;
    while i < opportunities.len()
        invariant
            i <= opportunities.len(),
            forall|j: int| 0 <= j < i ==> #[trigger] opportunities@[j].currency == currency,
        decreases opportunities.len() - i,
    {
        if opportunities[i].currency != currency {
            return false;
        }
        i += 1;
    }
    true
}

impl SalesPipeline {
    pub fn try_new(currency: Currency, opportunities: Vec<SalesOpportunity>) -> (r: DomainResult<Self>)
        ensures
            !opportunities_use_currency_spec(currency, opportunities@) ==> r == Err::<Self, ValidationError>(ValidationError::CrmInvariantFailed),
            opportunities_use_currency_spec(currency, opportunities@) ==> (r matches Ok(p) && p.spec_currency() == currency && p.spec_opportunities()@ == opportunities@),
    {
        if !opportunities_use_currency(currency, opportunities.as_slice()) {
            return Err(ValidationError::CrmInvariantFailed);
        }
        Ok(Self { currency, opportunities })
    }
}

impl CustomerSegment {
    pub fn try_new(id: SegmentId, name: String, member_count: Nat, min_lifetime_value: Money, max_retention_discount: Money) -> (r: DomainResult<Self>)
        ensures
            max_retention_discount > min_lifetime_value ==> r == Err::<Self, ValidationError>(ValidationError::CrmInvariantFailed),
            max_retention_discount <= min_lifetime_value ==> r == Ok::<Self, ValidationError>(CustomerSegment::spec_new(id, name, member_count, min_lifetime_value, max_retention_discount)),
    {
        if max_retention_discount > min_lifetime_value {
            return Err(ValidationError::CrmInvariantFailed);
        }
        Ok(Self { id, name, member_count, min_lifetime_value, max_retention_discount })
    }
}

impl SegmentMembership {
    pub fn try_new(account: CRMAccount, segment: CustomerSegment) -> (r: DomainResult<Self>)
        ensures
            account.spec_lifetime_value() < segment.spec_min_lifetime_value() ==> r == Err::<Self, ValidationError>(ValidationError::CrmInvariantFailed),
            account.spec_lifetime_value() >= segment.spec_min_lifetime_value() ==> r == Ok::<Self, ValidationError>(SegmentMembership::spec_new(account, segment)),
    {
        if account.lifetime_value < segment.min_lifetime_value {
            return Err(ValidationError::CrmInvariantFailed);
        }
        Ok(Self { account, segment })
    }
}

pub open spec fn can_support_case_transition_spec(source: SupportCaseStatus, target: SupportCaseStatus) -> bool {
    match (source, target) {
        (SupportCaseStatus::Opened, SupportCaseStatus::WaitingOnCustomer) | (SupportCaseStatus::Opened, SupportCaseStatus::WaitingOnInternal)
        | (SupportCaseStatus::Opened, SupportCaseStatus::Escalated) | (SupportCaseStatus::Opened, SupportCaseStatus::Resolved)
        | (SupportCaseStatus::WaitingOnCustomer, SupportCaseStatus::Resolved) | (SupportCaseStatus::WaitingOnCustomer, SupportCaseStatus::Escalated)
        | (SupportCaseStatus::WaitingOnInternal, SupportCaseStatus::Resolved) | (SupportCaseStatus::WaitingOnInternal, SupportCaseStatus::Escalated)
        | (SupportCaseStatus::Escalated, SupportCaseStatus::Resolved) | (SupportCaseStatus::Resolved, SupportCaseStatus::Closed) => true,
        _ => false,
    }
}

pub fn can_support_case_transition(source: SupportCaseStatus, target: SupportCaseStatus) -> (r: bool)
    ensures
        r == can_support_case_transition_spec(source, target),
{
    match (source, target) {
        (SupportCaseStatus::Opened, SupportCaseStatus::WaitingOnCustomer) | (SupportCaseStatus::Opened, SupportCaseStatus::WaitingOnInternal)
        | (SupportCaseStatus::Opened, SupportCaseStatus::Escalated) | (SupportCaseStatus::Opened, SupportCaseStatus::Resolved)
        | (SupportCaseStatus::WaitingOnCustomer, SupportCaseStatus::Resolved) | (SupportCaseStatus::WaitingOnCustomer, SupportCaseStatus::Escalated)
        | (SupportCaseStatus::WaitingOnInternal, SupportCaseStatus::Resolved) | (SupportCaseStatus::WaitingOnInternal, SupportCaseStatus::Escalated)
        | (SupportCaseStatus::Escalated, SupportCaseStatus::Resolved) | (SupportCaseStatus::Resolved, SupportCaseStatus::Closed) => true,
        _ => false,
    }
}

impl SupportCase {
    pub fn try_new(id: SupportCaseId, account_id: AccountId, contact_id: ContactId, order_id: Option<OrderId>, status: SupportCaseStatus, priority: SupportPriority, opened_at: Timestamp, last_updated_at: Timestamp, sla_due_at: Timestamp) -> (r: DomainResult<Self>)
        ensures
            (last_updated_at.spec_seconds() < opened_at.spec_seconds() || sla_due_at.spec_seconds() < opened_at.spec_seconds()) ==> r == Err::<Self, ValidationError>(ValidationError::CrmInvariantFailed),
            (last_updated_at.spec_seconds() >= opened_at.spec_seconds() && sla_due_at.spec_seconds() >= opened_at.spec_seconds())
                ==> r == Ok::<Self, ValidationError>(SupportCase::spec_new(id, account_id, contact_id, order_id, status, priority, opened_at, last_updated_at, sla_due_at)),
    {
        if last_updated_at.seconds < opened_at.seconds || sla_due_at.seconds < opened_at.seconds {
            return Err(ValidationError::CrmInvariantFailed);
        }
        Ok(Self { id, account_id, contact_id, order_id, status, priority, opened_at, last_updated_at, sla_due_at })
    }
}

pub fn transition_support_case(case_: SupportCase, next: SupportCaseStatus, updated_at: Timestamp) -> (r: DomainResult<SupportCase>)
    ensures
        (!can_support_case_transition_spec(case_.spec_status(), next) || updated_at.spec_seconds() < case_.spec_opened_at().spec_seconds())
            ==> r == Err::<SupportCase, ValidationError>(ValidationError::CrmInvariantFailed),
        (can_support_case_transition_spec(case_.spec_status(), next) && updated_at.spec_seconds() >= case_.spec_opened_at().spec_seconds())
            ==> r == Ok::<SupportCase, ValidationError>(SupportCase::spec_new(case_.spec_id(), case_.spec_account_id(), case_.spec_contact_id(), case_.spec_order_id(), next, case_.spec_priority(), case_.spec_opened_at(), updated_at, case_.spec_sla_due_at())),
{
    if !can_support_case_transition(case_.status, next) || updated_at.seconds < case_.opened_at.seconds {
        return Err(ValidationError::CrmInvariantFailed);
    }
    proof {
        use_type_invariant(&case_);
    }
    Ok(SupportCase { status: next, last_updated_at: updated_at, ..case_ })
}

impl SupportCaseForContact {
    pub fn try_new(account_contact: CRMAccountContact, case_: SupportCase) -> (r: DomainResult<Self>)
        ensures
            (case_.spec_account_id() != account_contact.spec_account().spec_id() || case_.spec_contact_id() != account_contact.spec_contact().spec_id())
                ==> r == Err::<Self, ValidationError>(ValidationError::CrmInvariantFailed),
            (case_.spec_account_id() == account_contact.spec_account().spec_id() && case_.spec_contact_id() == account_contact.spec_contact().spec_id())
                ==> r == Ok::<Self, ValidationError>(SupportCaseForContact::spec_new(account_contact, case_)),
    {
        if case_.account_id != account_contact.account.id || case_.contact_id != account_contact.contact.id {
            return Err(ValidationError::CrmInvariantFailed);
        }
        Ok(Self { account_contact, case_ })
    }
}

impl ResolvedSupportCase {
    pub fn try_new(case_: SupportCase, resolved_at: Timestamp) -> (r: DomainResult<Self>)
        ensures
            (case_.spec_status() != SupportCaseStatus::Resolved || resolved_at.spec_seconds() < case_.spec_opened_at().spec_seconds()
                || resolved_at.spec_seconds() < case_.spec_last_updated_at().spec_seconds() || resolved_at.spec_seconds() > case_.spec_sla_due_at().spec_seconds())
                ==> r == Err::<Self, ValidationError>(ValidationError::CrmInvariantFailed),
            (case_.spec_status() == SupportCaseStatus::Resolved && resolved_at.spec_seconds() >= case_.spec_opened_at().spec_seconds()
                && resolved_at.spec_seconds() >= case_.spec_last_updated_at().spec_seconds() && resolved_at.spec_seconds() <= case_.spec_sla_due_at().spec_seconds())
                ==> r == Ok::<Self, ValidationError>(ResolvedSupportCase::spec_new(case_, resolved_at)),
    {
        if case_.status != SupportCaseStatus::Resolved || resolved_at.seconds < case_.opened_at.seconds
            || resolved_at.seconds < case_.last_updated_at.seconds || resolved_at.seconds > case_.sla_due_at.seconds {
            return Err(ValidationError::CrmInvariantFailed);
        }
        Ok(Self { case_, resolved_at })
    }
}

/// A retention offer: an active account in the segment, a coupon it may use,
/// and a discount within the coupon, the account's value and the segment cap.
pub open spec fn retention_offer_ok(account: CRMAccount, segment: CustomerSegment, coupon: Coupon, uses_before: u128, discount: u128) -> bool {
    &&& account.spec_status() == CRMAccountStatus::Active
    &&& coupon.spec_min_subtotal() <= account.spec_lifetime_value() && uses_before < coupon.spec_max_uses()
    &&& account.spec_lifetime_value() >= segment.spec_min_lifetime_value()
    &&& discount <= coupon.spec_amount()
    &&& coupon.spec_amount() <= account.spec_lifetime_value()
    &&& discount <= segment.spec_max_retention_discount()
}

impl RetentionOffer {
    pub fn try_new(account: CRMAccount, segment: CustomerSegment, coupon: Coupon, uses_before: Nat, discount: Money) -> (r: DomainResult<Self>)
        ensures
            !retention_offer_ok(account, segment, coupon, uses_before, discount) ==> r == Err::<Self, ValidationError>(ValidationError::CrmInvariantFailed),
            retention_offer_ok(account, segment, coupon, uses_before, discount)
                ==> r == Ok::<Self, ValidationError>(RetentionOffer::spec_new(account, segment, coupon, uses_before, discount)),
    {
        if !crm_account_active(&account) || !coupon_can_be_applied(&coupon, account.lifetime_value, uses_before)
            || account.lifetime_value < segment.min_lifetime_value || discount > coupon.amount
            || coupon.amount > account.lifetime_value || discount > segment.max_retention_discount {
            return Err(ValidationError::CrmInvariantFailed);
        }
        Ok(Self { account, segment, coupon, uses_before, discount })
    }
}

/// Closed accounts, converted or disqualified leads, won or lost deals and
/// closed support cases never move again.
pub proof fn lemma_crm_terminal_states_are_final(
    account_next: CRMAccountStatus,
    lead_next: LeadStatus,
    stage_next: OpportunityStage,
    case_next: SupportCaseStatus,
)
    ensures
        !can_crm_account_transition_spec(CRMAccountStatus::Closed, account_next),
        !can_lead_transition_spec(LeadStatus::Converted, lead_next),
        !can_lead_transition_spec(LeadStatus::Disqualified, lead_next),
        !can_opportunity_transition_spec(OpportunityStage::Won, stage_next),
        !can_opportunity_transition_spec(OpportunityStage::Lost, stage_next),
        !can_support_case_transition_spec(SupportCaseStatus::Closed, case_next),
{
}

/// The accessor lemmas for the records of this module.
pub broadcast group group_crm_record_fields {
    lemma_crm_contact_fields,
    lemma_crm_account_fields,
    lemma_active_crm_account_fields,
    lemma_crm_account_contact_fields,
    lemma_permitted_customer_message_fields,
    lemma_permitted_account_message_fields,
    lemma_crm_interaction_fields,
    lemma_crm_interaction_for_contact_fields,
    lemma_lead_fields,
    lemma_lead_for_contact_fields,
    lemma_sales_opportunity_fields,
    lemma_opportunity_for_contact_fields,
    lemma_customer_segment_fields,
    lemma_segment_membership_fields,
    lemma_support_case_fields,
    lemma_support_case_for_contact_fields,
    lemma_resolved_support_case_fields,
    lemma_retention_offer_fields,
}

} // verus!
