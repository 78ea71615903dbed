//! Ad campaigns, spend and budget totals, ROAS and ROI targets, funnels,
//! consent, attribution ledgers and experiments.

use vstd::prelude::*;
use crate::foundation::clone_vec_exact;
use crate::foundation::{CampaignId, DomainResult, Id, Money, Nat, OrderId, ValidationError, checked_add, checked_mul, lemma_sum_nat_prefix_le, lemma_sum_nat_take_all, lemma_sum_nat_take_step, sum_nat, total_result};
use crate::marketplace::{Marketplace, MarketplaceListing};
use crate::orders::{Order};

verus! {

#[derive(Debug, PartialEq, Eq, Structural)]
pub struct AttributionCredit {
    pub(crate) campaign_id: CampaignId,
    pub(crate) order_id: OrderId,
    pub(crate) amount: Money,
}

impl AttributionCredit {
    pub open(crate) spec fn spec_campaign_id(&self) -> CampaignId {
        self.campaign_id
    }

    pub open(crate) spec fn spec_order_id(&self) -> OrderId {
        self.order_id
    }

    pub open(crate) spec fn spec_amount(&self) -> Money {
        self.amount
    }

    pub open(crate) spec fn spec_new(campaign_id: CampaignId, order_id: OrderId, amount: Money) -> Self {
        AttributionCredit { campaign_id, order_id, amount }
    }
}

/// The accessors of a `AttributionCredit` built by `spec_new` give back its parts.
pub broadcast proof fn lemma_attribution_credit_fields(campaign_id: CampaignId, order_id: OrderId, amount: Money)
    ensures
        #[trigger] AttributionCredit::spec_new(campaign_id, order_id, amount).spec_campaign_id() == campaign_id
            && AttributionCredit::spec_new(campaign_id, order_id, amount).spec_order_id() == order_id
            && AttributionCredit::spec_new(campaign_id, order_id, amount).spec_amount() == amount,
{
}

impl Clone for AttributionCredit {
    fn clone(&self) -> (r: Self)
        ensures
            r == *self,
    {
        AttributionCredit { campaign_id: self.campaign_id, order_id: self.order_id, amount: self.amount }
    }
}

impl AttributionCredit {
    pub fn new(campaign_id: CampaignId, order_id: OrderId, amount: Money) -> (r: Self)
        ensures
            r == (AttributionCredit::spec_new(campaign_id, order_id, amount)),
    {
        AttributionCredit { campaign_id, order_id, amount }
    }

    pub fn try_new(campaign_id: CampaignId, order_id: OrderId, amount: Money) -> (r: DomainResult<Self>)
        ensures
            r == Ok::<Self, ValidationError>(AttributionCredit::spec_new(campaign_id, order_id, amount)),
    {
        Ok(Self::new(campaign_id, order_id, amount))
    }

    pub fn campaign_id(&self) -> (r: CampaignId)
        ensures
            r == self.spec_campaign_id(),
    {
        self.campaign_id
    }

    pub fn order_id(&self) -> (r: OrderId)
        ensures
            r == self.spec_order_id(),
    {
        self.order_id
    }

    pub fn amount(&self) -> (r: Money)
        ensures
            r == self.spec_amount(),
    {
        self.amount
    }
}

#[derive(Clone, Copy, Debug, PartialEq, Eq, Structural)]
pub enum AdPlatform {
    GoogleLike,
    MetaLike,
    TikTokLike,
    MarketplaceAds,
    EmailProvider,
    SmsProvider,
    AffiliateNetwork,
    Custom,
}

#[derive(Clone, Copy, Debug, PartialEq, Eq, Structural)]
pub enum AdType {
    Search,
    Shopping,
    Display,
    Social,
    Video,
    Retargeting,
    EmailMarketing,
    SmsMarketing,
    MarketplaceSponsoredProducts,
    Affiliate,
}

#[derive(Clone, Copy, Debug, PartialEq, Eq, Structural)]
pub enum CampaignStatus {
    Draft,
    Active,
    Paused,
    Archived,
}

#[derive(Clone, Copy, Debug, PartialEq, Eq, Structural)]
pub enum AdDestination {
    Website,
    MarketplaceStore(Marketplace),
    MarketplaceListing(Marketplace, Nat),
}

#[derive(Debug, PartialEq, Eq, Structural)]
pub struct MarketingCampaign {
    pub(crate) id: CampaignId,
    pub(crate) platform: AdPlatform,
    pub(crate) ad_type: AdType,
    pub(crate) destination: AdDestination,
    pub(crate) status: CampaignStatus,
    pub(crate) budget: Money,
    pub(crate) spend: Money,
    pub(crate) impressions: Nat,
    pub(crate) clicks: Nat,
    pub(crate) conversions: Nat,
    pub(crate) attributed_revenue: Money,
}

impl MarketingCampaign {
    /// Every value satisfies what `try_new` checks.
    #[verifier::type_invariant]
    pub open spec fn valid(self) -> bool {
        self.spec_spend() <= self.spec_budget() && self.spec_clicks() <= self.spec_impressions()
    }

    pub open(crate) spec fn spec_id(&self) -> CampaignId {
        self.id
    }

    pub open(crate) spec fn spec_platform(&self) -> AdPlatform {
        self.platform
    }

    pub open(crate) spec fn spec_ad_type(&self) -> AdType {
        self.ad_type
    }

    pub open(crate) spec fn spec_destination(&self) -> AdDestination {
        self.destination
    }

    pub open(crate) spec fn spec_status(&self) -> CampaignStatus {
        self.status
    }

    pub open(crate) spec fn spec_budget(&self) -> Money {
        self.budget
    }

    pub open(crate) spec fn spec_spend(&self) -> Money {
        self.spend
    }

    pub open(crate) spec fn spec_impressions(&self) -> Nat {
        self.impressions
    }

    pub open(crate) spec fn spec_clicks(&self) -> Nat {
        self.clicks
    }

    pub open(crate) spec fn spec_conversions(&self) -> Nat {
        self.conversions
    }

    pub open(crate) spec fn spec_attributed_revenue(&self) -> Money {
        self.attributed_revenue
    }

    pub open(crate) spec fn spec_new(id: CampaignId, platform: AdPlatform, ad_type: AdType, destination: AdDestination, status: CampaignStatus, budget: Money, spend: Money, impressions: Nat, clicks: Nat, conversions: Nat, attributed_revenue: Money) -> Self {
        MarketingCampaign { id, platform, ad_type, destination, status, budget, spend, impressions, clicks, conversions, attributed_revenue }
    }
}

/// The accessors of a `MarketingCampaign` built by `spec_new` give back its parts.
pub broadcast proof fn lemma_marketing_campaign_fields(id: CampaignId, platform: AdPlatform, ad_type: AdType, destination: AdDestination, status: CampaignStatus, budget: Money, spend: Money, impressions: Nat, clicks: Nat, conversions: Nat, attributed_revenue: Money)
    ensures
        #[trigger] MarketingCampaign::spec_new(id, platform, ad_type, destination, status, budget, spend, impressions, clicks, conversions, attributed_revenue).spec_id() == id
            && MarketingCampaign::spec_new(id, platform, ad_type, destination, status, budget, spend, impressions, clicks, conversions, attributed_revenue).spec_platform() == platform
            && MarketingCampaign::spec_new(id, platform, ad_type, destination, status, budget, spend, impressions, clicks, conversions, attributed_revenue).spec_ad_type() == ad_type
            && MarketingCampaign::spec_new(id, platform, ad_type, destination, status, budget, spend, impressions, clicks, conversions, attributed_revenue).spec_destination() == destination
            && MarketingCampaign::spec_new(id, platform, ad_type, destination, status, budget, spend, impressions, clicks, conversions, attributed_revenue).spec_status() == status
            && MarketingCampaign::spec_new(id, platform, ad_type, destination, status, budget, spend, impressions, clicks, conversions, attributed_revenue).spec_budget() == budget
            && MarketingCampaign::spec_new(id, platform, ad_type, destination, status, budget, spend, impressions, clicks, conversions, attributed_revenue).spec_spend() == spend
            && MarketingCampaign::spec_new(id, platform, ad_type, destination, status, budget, spend, impressions, clicks, conversions, attributed_revenue).spec_impressions() == impressions
            && MarketingCampaign::spec_new(id, platform, ad_type, destination, status, budget, spend, impressions, clicks, conversions, attributed_revenue).spec_clicks() == clicks
            && MarketingCampaign::spec_new(id, platform, ad_type, destination, status, budget, spend, impressions, clicks, conversions, attributed_revenue).spec_conversions() == conversions
            && MarketingCampaign::spec_new(id, platform, ad_type, destination, status, budget, spend, impressions, clicks, conversions, attributed_revenue).spec_attributed_revenue() == attributed_revenue,
{
}

impl Clone for MarketingCampaign {
    fn clone(&self) -> (r: Self)
        ensures
            r == *self,
    {
        proof {
            use_type_invariant(self);
        }
        MarketingCampaign { id: self.id, platform: self.platform, ad_type: self.ad_type, destination: self.destination, status: self.status, budget: self.budget, spend: self.spend, impressions: self.impressions, clicks: self.clicks, conversions: self.conversions, attributed_revenue: self.attributed_revenue }
    }
}

#[derive(Debug, PartialEq, Eq, Structural)]
pub struct ClickAttributedCampaign {
    pub(crate) campaign: MarketingCampaign,
}

impl ClickAttributedCampaign {
    /// Every value satisfies what `try_new` checks.
    #[verifier::type_invariant]
    pub open spec fn valid(self) -> bool {
        self.spec_campaign().spec_conversions() <= self.spec_campaign().spec_clicks()
    }

    pub open(crate) spec fn spec_campaign(&self) -> MarketingCampaign {
        self.campaign
    }

    pub open(crate) spec fn spec_new(campaign: MarketingCampaign) -> Self {
        ClickAttributedCampaign { campaign }
    }
}

/// The accessors of a `ClickAttributedCampaign` built by `spec_new` give back its parts.
pub broadcast proof fn lemma_click_attributed_campaign_fields(campaign: MarketingCampaign)
    ensures
        #[trigger] ClickAttributedCampaign::spec_new(campaign).spec_campaign() == campaign,
{
}

impl Clone for ClickAttributedCampaign {
    fn clone(&self) -> (r: Self)
        ensures
            r == *self,
    {
        proof {
            use_type_invariant(self);
        }
        ClickAttributedCampaign { campaign: self.campaign.clone() }
    }
}

#[derive(Debug, PartialEq, Eq, Structural)]
pub struct Funnel {
    pub(crate) visitors: Nat,
    pub(crate) add_to_cart: Nat,
    pub(crate) checkout_started: Nat,
    pub(crate) purchases: Nat,
}

impl Funnel {
    /// Every value satisfies what `try_new` checks.
    #[verifier::type_invariant]
    pub open spec fn valid(self) -> bool {
        self.spec_purchases() <= self.spec_checkout_started() <= self.spec_add_to_cart() <= self.spec_visitors()
    }

    pub open(crate) spec fn spec_visitors(&self) -> Nat {
        self.visitors
    }

    pub open(crate) spec fn spec_add_to_cart(&self) -> Nat {
        self.add_to_cart
    }

    pub open(crate) spec fn spec_checkout_started(&self) -> Nat {
        self.checkout_started
    }

    pub open(crate) spec fn spec_purchases(&self) -> Nat {
        self.purchases
    }

    pub open(crate) spec fn spec_new(visitors: Nat, add_to_cart: Nat, checkout_started: Nat, purchases: Nat) -> Self {
        Funnel { visitors, add_to_cart, checkout_started, purchases }
    }
}

/// The accessors of a `Funnel` built by `spec_new` give back its parts.
pub broadcast proof fn lemma_funnel_fields(visitors: Nat, add_to_cart: Nat, checkout_started: Nat, purchases: Nat)
    ensures
        #[trigger] Funnel::spec_new(visitors, add_to_cart, checkout_started, purchases).spec_visitors() == visitors
            && Funnel::spec_new(visitors, add_to_cart, checkout_started, purchases).spec_add_to_cart() == add_to_cart
            && Funnel::spec_new(visitors, add_to_cart, checkout_started, purchases).spec_checkout_started() == checkout_started
            && Funnel::spec_new(visitors, add_to_cart, checkout_started, purchases).spec_purchases() == purchases,
{
}

impl Clone for Funnel {
    fn clone(&self) -> (r: Self)
        ensures
            r == *self,
    {
        proof {
            use_type_invariant(self);
        }
        Funnel { visitors: self.visitors, add_to_cart: self.add_to_cart, checkout_started: self.checkout_started, purchases: self.purchases }
    }
}

#[derive(Clone, Copy, Debug, PartialEq, Eq, Structural)]
pub enum ConsentStatus {
    Granted,
    Denied,
    Unknown,
}

#[derive(Clone, Copy, Debug, PartialEq, Eq, Structural)]
pub enum SubscriptionStatus {
    Subscribed,
    Unsubscribed,
}

#[derive(Debug, PartialEq, Eq)]
pub struct OrderAttributionLedger {
    pub(crate) order: Order,
    pub(crate) credits: Vec<AttributionCredit>,
}

impl OrderAttributionLedger {
    /// Equal fields, and equal contents for the vectors it holds.
    pub open spec fn same_content(self, other: Self) -> bool {
        self.spec_order().same_content(other.spec_order())
            && self.spec_credits()@ == other.spec_credits()@
    }

    /// Every value satisfies what `try_new` checks.
    #[verifier::type_invariant]
    pub open spec fn valid(self) -> bool {
        total_result(sum_nat(self.spec_credits()@, attribution_credit_total_value()) as int, "attribution_credit_total") is Ok
            && total_result(sum_nat(self.spec_credits()@, attribution_credit_total_value()) as int, "attribution_credit_total")->Ok_0 <= self.spec_order().spec_total()
    }

    pub open(crate) spec fn spec_order(&self) -> Order {
        self.order
    }

    pub open(crate) spec fn spec_credits(&self) -> Vec<AttributionCredit> {
        self.credits
    }

    pub open(crate) spec fn spec_new(order: Order, credits: Vec<AttributionCredit>) -> Self {
        OrderAttributionLedger { order, credits }
    }
}

/// The accessors of a `OrderAttributionLedger` built by `spec_new` give back its parts.
pub broadcast proof fn lemma_order_attribution_ledger_fields(order: Order, credits: Vec<AttributionCredit>)
    ensures
        #[trigger] OrderAttributionLedger::spec_new(order, credits).spec_order() == order
            && OrderAttributionLedger::spec_new(order, credits).spec_credits() == credits,
{
}

impl Clone for OrderAttributionLedger {
    fn clone(&self) -> (r: Self)
        ensures
            r.same_content(*self),
    {
        proof {
            use_type_invariant(self);
        }
        OrderAttributionLedger { order: self.order.clone(), credits: clone_vec_exact(&self.credits) }
    }
}

#[derive(Debug, PartialEq, Eq)]
pub struct MatchedOrderAttributionLedger {
    pub(crate) ledger: OrderAttributionLedger,
}

impl MatchedOrderAttributionLedger {
    /// Equal fields, and equal contents for the vectors it holds.
    pub open spec fn same_content(self, other: Self) -> bool {
        self.spec_ledger().same_content(other.spec_ledger())
    }

    /// Every value satisfies what `try_new` checks.
    #[verifier::type_invariant]
    pub open spec fn valid(self) -> bool {
        credits_match_order_spec(self.spec_ledger().spec_order(), self.spec_ledger().spec_credits()@)
    }

    pub open(crate) spec fn spec_ledger(&self) -> OrderAttributionLedger {
        self.ledger
    }

    pub open(crate) spec fn spec_new(ledger: OrderAttributionLedger) -> Self {
        MatchedOrderAttributionLedger { ledger }
    }
}

/// The accessors of a `MatchedOrderAttributionLedger` built by `spec_new` give back its parts.
pub broadcast proof fn lemma_matched_order_attribution_ledger_fields(ledger: OrderAttributionLedger)
    ensures
        #[trigger] MatchedOrderAttributionLedger::spec_new(ledger).spec_ledger() == ledger,
{
}

impl Clone for MatchedOrderAttributionLedger {
    fn clone(&self) -> (r: Self)
        ensures
            r.same_content(*self),
    {
        proof {
            use_type_invariant(self);
        }
        MatchedOrderAttributionLedger { ledger: self.ledger.clone() }
    }
}

#[derive(Debug, PartialEq, Eq, Structural)]
pub struct ExperimentVariant {
    pub(crate) id: Id,
    pub(crate) traffic_weight: Nat,
    pub(crate) visitors: Nat,
    pub(crate) conversions: Nat,
}

impl ExperimentVariant {
    /// Every value satisfies what `try_new` checks.
    #[verifier::type_invariant]
    pub open spec fn valid(self) -> bool {
        self.spec_conversions() <= self.spec_visitors()
    }

    pub open(crate) spec fn spec_id(&self) -> Id {
        self.id
    }

    pub open(crate) spec fn spec_traffic_weight(&self) -> Nat {
        self.traffic_weight
    }

    pub open(crate) spec fn spec_visitors(&self) -> Nat {
        self.visitors
    }

    pub open(crate) spec fn spec_conversions(&self) -> Nat {
        self.conversions
    }

    pub open(crate) spec fn spec_new(id: Id, traffic_weight: Nat, visitors: Nat, conversions: Nat) -> Self {
        ExperimentVariant { id, traffic_weight, visitors, conversions }
    }
}

/// The accessors of a `ExperimentVariant` built by `spec_new` give back its parts.
pub broadcast proof fn lemma_experiment_variant_fields(id: Id, traffic_weight: Nat, visitors: Nat, conversions: Nat)
    ensures
        #[trigger] ExperimentVariant::spec_new(id, traffic_weight, visitors, conversions).spec_id() == id
            && ExperimentVariant::spec_new(id, traffic_weight, visitors, conversions).spec_traffic_weight() == traffic_weight
            && ExperimentVariant::spec_new(id, traffic_weight, visitors, conversions).spec_visitors() == visitors
            && ExperimentVariant::spec_new(id, traffic_weight, visitors, conversions).spec_conversions() == conversions,
{
}

impl Clone for ExperimentVariant {
    fn clone(&self) -> (r: Self)
        ensures
            r == *self,
    {
        proof {
            use_type_invariant(self);
        }
        ExperimentVariant { id: self.id, traffic_weight: self.traffic_weight, visitors: self.visitors, conversions: self.conversions }
    }
}

#[derive(Debug, PartialEq, Eq)]
pub struct Experiment {
    pub(crate) id: Id,
    pub(crate) variants: Vec<ExperimentVariant>,
}

impl Experiment {
    /// Equal fields, and equal contents for the vectors it holds.
    pub open spec fn same_content(self, other: Self) -> bool {
        self.spec_id() == other.spec_id()
            && self.spec_variants()@ == other.spec_variants()@
    }

    /// Every value satisfies what `try_new` checks.
    #[verifier::type_invariant]
    pub open spec fn valid(self) -> bool {
        total_result(sum_nat(self.spec_variants()@, experiment_traffic_total_value()) as int, "experiment_traffic_total") == Ok::<u128, ValidationError>(100)
    }

    pub open(crate) spec fn spec_id(&self) -> Id {
        self.id
    }

    pub open(crate) spec fn spec_variants(&self) -> Vec<ExperimentVariant> {
        self.variants
    }

    pub open(crate) spec fn spec_new(id: Id, variants: Vec<ExperimentVariant>) -> Self {
        Experiment { id, variants }
    }
}

/// The accessors of a `Experiment` built by `spec_new` give back its parts.
pub broadcast proof fn lemma_experiment_fields(id: Id, variants: Vec<ExperimentVariant>)
    ensures
        #[trigger] Experiment::spec_new(id, variants).spec_id() == id
            && Experiment::spec_new(id, variants).spec_variants() == variants,
{
}

impl Clone for Experiment {
    fn clone(&self) -> (r: Self)
        ensures
            r.same_content(*self),
    {
        proof {
            use_type_invariant(self);
        }
        Experiment { id: self.id.clone(), variants: clone_vec_exact(&self.variants) }
    }
}

impl MarketingCampaign {
    pub fn id(&self) -> (r: CampaignId)
        ensures
            r == self.spec_id(),
    {
        self.id
    }

    pub fn platform(&self) -> (r: AdPlatform)
        ensures
            r == self.spec_platform(),
    {
        self.platform
    }

    pub fn ad_type(&self) -> (r: AdType)
        ensures
            r == self.spec_ad_type(),
    {
        self.ad_type
    }

    pub fn destination(&self) -> (r: AdDestination)
        ensures
            r == self.spec_destination(),
    {
        self.destination
    }

    pub fn status(&self) -> (r: CampaignStatus)
        ensures
            r == self.spec_status(),
    {
        self.status
    }

    pub fn budget(&self) -> (r: Money)
        ensures
            r == self.spec_budget(),
    {
        self.budget
    }

    pub fn spend(&self) -> (r: Money)
        ensures
            r == self.spec_spend(),
    {
        self.spend
    }

    pub fn impressions(&self) -> (r: Nat)
        ensures
            r == self.spec_impressions(),
    {
        self.impressions
    }

    pub fn clicks(&self) -> (r: Nat)
        ensures
            r == self.spec_clicks(),
    {
        self.clicks
    }

    pub fn conversions(&self) -> (r: Nat)
        ensures
            r == self.spec_conversions(),
    {
        self.conversions
    }

    pub fn attributed_revenue(&self) -> (r: Money)
        ensures
            r == self.spec_attributed_revenue(),
    {
        self.attributed_revenue
    }
}

impl ClickAttributedCampaign {
    pub fn campaign(&self) -> (r: &MarketingCampaign)
        ensures
            *r == self.spec_campaign(),
    {
        &self.campaign
    }
}

impl Funnel {
    pub fn visitors(&self) -> (r: Nat)
        ensures
            r == self.spec_visitors(),
    {
        self.visitors
    }

    pub fn add_to_cart(&self) -> (r: Nat)
        ensures
            r == self.spec_add_to_cart(),
    {
        self.add_to_cart
    }

    pub fn checkout_started(&self) -> (r: Nat)
        ensures
            r == self.spec_checkout_started(),
    {
        self.checkout_started
    }

    pub fn purchases(&self) -> (r: Nat)
        ensures
            r == self.spec_purchases(),
    {
        self.purchases
    }
}

impl OrderAttributionLedger {
    pub fn order(&self) -> (r: &Order)
        ensures
            *r == self.spec_order(),
    {
        &self.order
    }

    pub fn credits(&self) -> (r: &[AttributionCredit])
        ensures
            r@ == self.spec_credits()@,
    {
        self.credits.as_slice()
    }
}

impl MatchedOrderAttributionLedger {
    pub fn ledger(&self) -> (r: &OrderAttributionLedger)
        ensures
            *r == self.spec_ledger(),
    {
        &self.ledger
    }
}

impl ExperimentVariant {
    pub fn id(&self) -> (r: Id)
        ensures
            r == self.spec_id(),
    {
        self.id
    }

    pub fn traffic_weight(&self) -> (r: Nat)
        ensures
            r == self.spec_traffic_weight(),
    {
        self.traffic_weight
    }

    pub fn visitors(&self) -> (r: Nat)
        ensures
            r == self.spec_visitors(),
    {
        self.visitors
    }

    pub fn conversions(&self) -> (r: Nat)
        ensures
            r == self.spec_conversions(),
    {
        self.conversions
    }
}

impl Experiment {
    pub fn id(&self) -> (r: Id)
        ensures
            r == self.spec_id(),
    {
        self.id
    }

    pub fn variants(&self) -> (r: &[ExperimentVariant])
        ensures
            r@ == self.spec_variants()@,
    {
        self.variants.as_slice()
    }
}

pub fn destination_matches_marketplace(destination: AdDestination, marketplace: Marketplace) -> (r: bool)
    ensures
        r == (match destination {
            AdDestination::Website => false,
            AdDestination::MarketplaceStore(m) => m == marketplace,
            AdDestination::MarketplaceListing(m, _) => m == marketplace,
        }),
{
    match destination {
        AdDestination::Website => false,
        AdDestination::MarketplaceStore(m) => m == marketplace,
        AdDestination::MarketplaceListing(m, _) => m == marketplace,
    }
}

impl MarketingCampaign {
    pub fn try_new(id: CampaignId, platform: AdPlatform, ad_type: AdType, destination: AdDestination, status: CampaignStatus, budget: Money, spend: Money, impressions: Nat, clicks: Nat, conversions: Nat, attributed_revenue: Money) -> (r: DomainResult<Self>)
        ensures
            spend > budget ==> r == Err::<Self, ValidationError>(ValidationError::Invariant("campaign spend exceeds budget")),
            spend <= budget && clicks > impressions ==> r == Err::<Self, ValidationError>(ValidationError::Invariant("clicks exceed impressions")),
            spend <= budget && clicks <= impressions ==> r == Ok::<Self, ValidationError>(
                MarketingCampaign::spec_new(id, platform, ad_type, destination, status, budget, spend, impressions, clicks, conversions, attributed_revenue),
            ),
    {
        if spend > budget {
            return Err(ValidationError::Invariant("campaign spend exceeds budget"));
        }
        if clicks > impressions {
            return Err(ValidationError::Invariant("clicks exceed impressions"));
        }
        Ok(Self { id, platform, ad_type, destination, status, budget, spend, impressions, clicks, conversions, attributed_revenue })
    }
}

pub open spec fn campaigns_spend_total_value() -> spec_fn(MarketingCampaign) -> nat {
    |x: MarketingCampaign| (x.spec_spend()) as nat
}

/// Sum of campaign spend.
pub fn campaigns_spend_total(campaigns: &[MarketingCampaign]) -> (r: DomainResult<Nat>)
    ensures
        r == total_result(sum_nat(campaigns@, campaigns_spend_total_value()) as int, "campaigns_spend_total"),
{
    let mut acc: Nat = 0;
    let mut i: usize = 0;
    while i < campaigns.len()
        invariant
            i <= campaigns.len(),
            acc == sum_nat(campaigns@.take(i as int), campaigns_spend_total_value()),
        decreases campaigns.len() - i,
    {
        proof {
            lemma_sum_nat_take_step(campaigns@, campaigns_spend_total_value(), i as int);
        }
        let item: Nat = campaigns[i].spend;
        match acc.checked_add(item) {
            Some(v) => {
                acc = v;
            },
            None => {
                proof {
                    lemma_sum_nat_prefix_le(campaigns@, campaigns_spend_total_value(), i + 1);
                }
                return Err(ValidationError::Overflow("campaigns_spend_total"));
            },
        }
        i += 1;
    }
    proof {
        lemma_sum_nat_take_all(campaigns@, campaigns_spend_total_value());
    }
    Ok(acc)
}


pub open spec fn campaigns_budget_total_value() -> spec_fn(MarketingCampaign) -> nat {
    |x: MarketingCampaign| (x.spec_budget()) as nat
}

/// Sum of campaign budgets.
pub fn campaigns_budget_total(campaigns: &[MarketingCampaign]) -> (r: DomainResult<Nat>)
    ensures
        r == total_result(sum_nat(campaigns@, campaigns_budget_total_value()) as int, "campaigns_budget_total"),
{
    let mut acc: Nat = 0;
    let mut i: usize = 0;
    while i < campaigns.len()
        invariant
            i <= campaigns.len(),
            acc == sum_nat(campaigns@.take(i as int), campaigns_budget_total_value()),
        decreases campaigns.len() - i,
    {
        proof {
            lemma_sum_nat_take_step(campaigns@, campaigns_budget_total_value(), i as int);
        }
        let item: Nat = campaigns[i].budget;
        match acc.checked_add(item) {
            Some(v) => {
                acc = v;
            },
            None => {
                proof {
                    lemma_sum_nat_prefix_le(campaigns@, campaigns_budget_total_value(), i + 1);
                }
                return Err(ValidationError::Overflow("campaigns_budget_total"));
            },
        }
        i += 1;
    }
    proof {
        lemma_sum_nat_take_all(campaigns@, campaigns_budget_total_value());
    }
    Ok(acc)
}


impl ClickAttributedCampaign {
    pub fn try_new(campaign: MarketingCampaign) -> (r: DomainResult<Self>)
        ensures
            campaign.spec_conversions() > campaign.spec_clicks() ==> r == Err::<Self, ValidationError>(ValidationError::Invariant("conversions exceed clicks")),
            campaign.spec_conversions() <= campaign.spec_clicks() ==> r == Ok::<Self, ValidationError>(ClickAttributedCampaign::spec_new(campaign)),
    {
        if campaign.conversions > campaign.clicks {
            return Err(ValidationError::Invariant("conversions exceed clicks"));
        }
        Ok(Self { campaign })
    }
}

/// Whether `revenue / spend >= num / den`, computed as
/// `revenue * den >= spend * num` with overflow reported.
pub fn meets_roas_target(campaign: &MarketingCampaign, num: Nat, den: Nat) -> (r: DomainResult<bool>)
    ensures
        campaign.spec_attributed_revenue() * den > u128::MAX ==> r == Err::<bool, ValidationError>(ValidationError::Overflow("ROAS revenue")),
        campaign.spec_attributed_revenue() * den <= u128::MAX && campaign.spec_spend() * num > u128::MAX ==> r == Err::<bool, ValidationError>(ValidationError::Overflow("ROAS spend")),
        campaign.spec_attributed_revenue() * den <= u128::MAX && campaign.spec_spend() * num <= u128::MAX ==> r == Ok::<bool, ValidationError>(campaign.spec_attributed_revenue() * den >= campaign.spec_spend() * num),
{
    let revenue = match checked_mul(campaign.attributed_revenue, den, "ROAS revenue") {
        Ok(v) => v,
        Err(e) => return Err(e),
    };
    let spend = match checked_mul(campaign.spend, num, "ROAS spend") {
        Ok(v) => v,
        Err(e) => return Err(e),
    };
    Ok(revenue >= spend)
}

/// Whether `profit / ad_spend >= num / den`, with overflow reported.
pub fn meets_roi_target(profit: Money, ad_spend: Money, num: Nat, den: Nat) -> (r: DomainResult<bool>)
    ensures
        profit * den > u128::MAX ==> r == Err::<bool, ValidationError>(ValidationError::Overflow("ROI profit")),
        profit * den <= u128::MAX && ad_spend * num > u128::MAX ==> r == Err::<bool, ValidationError>(ValidationError::Overflow("ROI spend")),
        profit * den <= u128::MAX && ad_spend * num <= u128::MAX ==> r == Ok::<bool, ValidationError>(profit * den >= ad_spend * num),
{
    let p = match checked_mul(profit, den, "ROI profit") {
        Ok(v) => v,
        Err(e) => return Err(e),
    };
    let s = match checked_mul(ad_spend, num, "ROI spend") {
        Ok(v) => v,
        Err(e) => return Err(e),
    };
    Ok(p >= s)
}

impl Funnel {
    pub fn try_new(visitors: Nat, add_to_cart: Nat, checkout_started: Nat, purchases: Nat) -> (r: DomainResult<Self>)
        ensures
            !(purchases <= checkout_started <= add_to_cart <= visitors) ==> r == Err::<Self, ValidationError>(ValidationError::Invariant("funnel counts are not monotone")),
            purchases <= checkout_started <= add_to_cart <= visitors ==> r == Ok::<Self, ValidationError>(Funnel::spec_new(visitors, add_to_cart, checkout_started, purchases)),
    {
        if add_to_cart > visitors || checkout_started > add_to_cart || purchases > checkout_started {
            return Err(ValidationError::Invariant("funnel counts are not monotone"));
        }
        Ok(Self { visitors, add_to_cart, checkout_started, purchases })
    }
}

pub fn can_retarget(consent: ConsentStatus) -> (r: bool)
    ensures
        r == (consent == ConsentStatus::Granted),
{
    consent == ConsentStatus::Granted
}

pub fn can_send_marketing_message(status: SubscriptionStatus) -> (r: bool)
    ensures
        r == (status == SubscriptionStatus::Subscribed),
{
    status == SubscriptionStatus::Subscribed
}

pub open spec fn attribution_credit_total_value() -> spec_fn(AttributionCredit) -> nat {
    |x: AttributionCredit| (x.spec_amount()) as nat
}

/// Sum of attributed amounts.
pub fn attribution_credit_total(credits: &[AttributionCredit]) -> (r: DomainResult<Nat>)
    ensures
        r == total_result(sum_nat(credits@, attribution_credit_total_value()) as int, "attribution_credit_total"),
{
    let mut acc: Nat = 0;
    let mut i: usize = 0;
    while i < credits.len()
        invariant
            i <= credits.len(),
            acc == sum_nat(credits@.take(i as int), attribution_credit_total_value()),
        decreases credits.len() - i,
    {
        proof {
            lemma_sum_nat_take_step(credits@, attribution_credit_total_value(), i as int);
        }
        let item: Nat = credits[i].amount;
        match acc.checked_add(item) {
            Some(v) => {
                acc = v;
            },
            None => {
                proof {
                    lemma_sum_nat_prefix_le(credits@, attribution_credit_total_value(), i + 1);
                }
                return Err(ValidationError::Overflow("attribution_credit_total"));
            },
        }
        i += 1;
    }
    proof {
        lemma_sum_nat_take_all(credits@, attribution_credit_total_value());
    }
    Ok(acc)
}


pub open spec fn credits_match_order_spec(order: Order, credits: Seq<AttributionCredit>) -> bool {
    forall|i: int| 0 <= i < credits.len() ==> credits[i].spec_order_id() == order.spec_id()
}

pub fn attribution_credits_match_order(order: &Order, credits: &[AttributionCredit]) -> (r: bool)
    ensures
        r == credits_match_order_spec(*order, credits@),
{
    let mut i: usize = 0;
    while i < credits.len()
        invariant
            i <= credits.len(),
            forall|j: int| 0 <= j < i ==> credits@[j].order_id == order.id,
        decreases credits.len() - i,
    {
        if credits[i].order_id != order.id() {
            return false;
        }
        i += 1;
    }
    true
}

impl OrderAttributionLedger {
    pub fn try_new(order: Order, credits: Vec<AttributionCredit>) -> (r: DomainResult<Self>)
        ensures
            ({
                let total = total_result(sum_nat(credits@, attribution_credit_total_value()) as int, "attribution_credit_total");
                &&& total is Err ==> r == Err::<Self, ValidationError>(total->Err_0)
                &&& total is Ok && total->Ok_0 > order.spec_total() ==> r == Err::<Self, ValidationError>(ValidationError::Invariant("attribution credits exceed order total"))
                &&& total is Ok && total->Ok_0 <= order.spec_total() ==> r == Ok::<Self, ValidationError>(OrderAttributionLedger::spec_new(order, credits))
            }),
    {
        match attribution_credit_total(credits.as_slice()) {
            Err(e) => Err(e),
            Ok(total) => {
                if total > order.total() {
                    return Err(ValidationError::Invariant("attribution credits exceed order total"));
                }
                Ok(Self { order, credits })
            },
        }
    }
}

impl MatchedOrderAttributionLedger {
    pub fn try_new(ledger: OrderAttributionLedger) -> (r: DomainResult<Self>)
        ensures
            !credits_match_order_spec(ledger.spec_order(), ledger.spec_credits()@) ==> r == Err::<Self, ValidationError>(ValidationError::Invariant("credit order ids must match")),
            credits_match_order_spec(ledger.spec_order(), ledger.spec_credits()@) ==> r == Ok::<Self, ValidationError>(MatchedOrderAttributionLedger::spec_new(ledger)),
    {
        if !attribution_credits_match_order(&ledger.order, ledger.credits.as_slice()) {
            return Err(ValidationError::Invariant("credit order ids must match"));
        }
        Ok(Self { ledger })
    }
}

impl ExperimentVariant {
    pub fn try_new(id: Id, traffic_weight: Nat, visitors: Nat, conversions: Nat) -> (r: DomainResult<Self>)
        ensures
            conversions > visitors ==> r == Err::<Self, ValidationError>(ValidationError::Invariant("experiment conversions exceed visitors")),
            conversions <= visitors ==> r == Ok::<Self, ValidationError>(ExperimentVariant::spec_new(id, traffic_weight, visitors, conversions)),
    {
        if conversions > visitors {
            return Err(ValidationError::Invariant("experiment conversions exceed visitors"));
        }
        Ok(Self { id, traffic_weight, visitors, conversions })
    }
}

pub open spec fn experiment_traffic_total_value() -> spec_fn(ExperimentVariant) -> nat {
    |x: ExperimentVariant| (x.spec_traffic_weight()) as nat
}

/// Sum of variant traffic weights.
pub fn experiment_traffic_total(variants: &[ExperimentVariant]) -> (r: DomainResult<Nat>)
    ensures
        r == total_result(sum_nat(variants@, experiment_traffic_total_value()) as int, "experiment_traffic_total"),
{
    let mut acc: Nat = 0;
    let mut i: usize = 0;
    while i < variants.len()
        invariant
            i <= variants.len(),
            acc == sum_nat(variants@.take(i as int), experiment_traffic_total_value()),
        decreases variants.len() - i,
    {
        proof {
            lemma_sum_nat_take_step(variants@, experiment_traffic_total_value(), i as int);
        }
        let item: Nat = variants[i].traffic_weight;
        match acc.checked_add(item) {
            Some(v) => {
                acc = v;
            },
            None => {
                proof {
                    lemma_sum_nat_prefix_le(variants@, experiment_traffic_total_value(), i + 1);
                }
                return Err(ValidationError::Overflow("experiment_traffic_total"));
            },
        }
        i += 1;
    }
    proof {
        lemma_sum_nat_take_all(variants@, experiment_traffic_total_value());
    }
    Ok(acc)
}


impl Experiment {
    pub fn try_new(id: Id, variants: Vec<ExperimentVariant>) -> (r: DomainResult<Self>)
        ensures
            ({
                let total = total_result(sum_nat(variants@, experiment_traffic_total_value()) as int, "experiment_traffic_total");
                &&& total is Err ==> r == Err::<Self, ValidationError>(total->Err_0)
                &&& total is Ok && total->Ok_0 != 100 ==> r == Err::<Self, ValidationError>(ValidationError::Invariant("experiment traffic must total 100"))
                &&& total == Ok::<u128, ValidationError>(100) ==> r == Ok::<Self, ValidationError>(Experiment::spec_new(id, variants))
            }),
    {
        match experiment_traffic_total(variants.as_slice()) {
            Err(e) => Err(e),
            Ok(total) => {
                if total != 100 {
                    return Err(ValidationError::Invariant("experiment traffic must total 100"));
                }
                Ok(Self { id, variants })
            },
        }
    }
}

/// The accessor lemmas for the records of this module.
pub broadcast group group_marketing_record_fields {
    lemma_attribution_credit_fields,
    lemma_marketing_campaign_fields,
    lemma_click_attributed_campaign_fields,
    lemma_funnel_fields,
    lemma_order_attribution_ledger_fields,
    lemma_matched_order_attribution_ledger_fields,
    lemma_experiment_variant_fields,
    lemma_experiment_fields,
}

} // verus!
