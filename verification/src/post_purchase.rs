//! Subscriptions, gift cards, chargebacks and cash-flow plans.

use vstd::prelude::*;
use crate::foundation::clone_vec_exact;
use crate::foundation::{CustomerId, Days, DomainResult, Money, Nat, Timestamp, ValidationError, checked_add, lemma_sum_nat_prefix_le, lemma_sum_nat_take_all, lemma_sum_nat_take_step, nat_sub, nat_sub_spec, sum_nat, total_result};

verus! {

#[derive(Debug, PartialEq, Eq, Structural)]
pub struct GiftCard {
    pub(crate) balance: Money,
    pub(crate) expires_at: Timestamp,
}

impl GiftCard {
    pub open(crate) spec fn spec_balance(&self) -> Money {
        self.balance
    }

    pub open(crate) spec fn spec_expires_at(&self) -> Timestamp {
        self.expires_at
    }

    pub open(crate) spec fn spec_new(balance: Money, expires_at: Timestamp) -> Self {
        GiftCard { balance, expires_at }
    }
}

/// The accessors of a `GiftCard` built by `spec_new` give back its parts.
pub broadcast proof fn lemma_gift_card_fields(balance: Money, expires_at: Timestamp)
    ensures
        #[trigger] GiftCard::spec_new(balance, expires_at).spec_balance() == balance
            && GiftCard::spec_new(balance, expires_at).spec_expires_at() == expires_at,
{
}

impl Clone for GiftCard {
    fn clone(&self) -> (r: Self)
        ensures
            r == *self,
    {
        GiftCard { balance: self.balance, expires_at: self.expires_at }
    }
}

impl GiftCard {
    pub fn new(balance: Money, expires_at: Timestamp) -> (r: Self)
        ensures
            r == (GiftCard::spec_new(balance, expires_at)),
    {
        GiftCard { balance, expires_at }
    }

    pub fn try_new(balance: Money, expires_at: Timestamp) -> (r: DomainResult<Self>)
        ensures
            r == Ok::<Self, ValidationError>(GiftCard::spec_new(balance, expires_at)),
    {
        Ok(Self::new(balance, expires_at))
    }

    pub fn balance(&self) -> (r: Money)
        ensures
            r == self.spec_balance(),
    {
        self.balance
    }

    pub fn expires_at(&self) -> (r: Timestamp)
        ensures
            r == self.spec_expires_at(),
    {
        self.expires_at
    }
}

#[derive(Debug, PartialEq, Eq, Structural)]
pub struct CashflowEvent {
    pub(crate) inflow: Money,
    pub(crate) outflow: Money,
}

impl CashflowEvent {
    pub open(crate) spec fn spec_inflow(&self) -> Money {
        self.inflow
    }

    pub open(crate) spec fn spec_outflow(&self) -> Money {
        self.outflow
    }

    pub open(crate) spec fn spec_new(inflow: Money, outflow: Money) -> Self {
        CashflowEvent { inflow, outflow }
    }
}

/// The accessors of a `CashflowEvent` built by `spec_new` give back its parts.
pub broadcast proof fn lemma_cashflow_event_fields(inflow: Money, outflow: Money)
    ensures
        #[trigger] CashflowEvent::spec_new(inflow, outflow).spec_inflow() == inflow
            && CashflowEvent::spec_new(inflow, outflow).spec_outflow() == outflow,
{
}

impl Clone for CashflowEvent {
    fn clone(&self) -> (r: Self)
        ensures
            r == *self,
    {
        CashflowEvent { inflow: self.inflow, outflow: self.outflow }
    }
}

impl CashflowEvent {
    pub fn new(inflow: Money, outflow: Money) -> (r: Self)
        ensures
            r == (CashflowEvent::spec_new(inflow, outflow)),
    {
        CashflowEvent { inflow, outflow }
    }

    pub fn try_new(inflow: Money, outflow: Money) -> (r: DomainResult<Self>)
        ensures
            r == Ok::<Self, ValidationError>(CashflowEvent::spec_new(inflow, outflow)),
    {
        Ok(Self::new(inflow, outflow))
    }

    pub fn inflow(&self) -> (r: Money)
        ensures
            r == self.spec_inflow(),
    {
        self.inflow
    }

    pub fn outflow(&self) -> (r: Money)
        ensures
            r == self.spec_outflow(),
    {
        self.outflow
    }
}

#[derive(Clone, Copy, Debug, PartialEq, Eq, Structural)]
pub enum SubscriptionLifecycleStatus {
    Active,
    Paused,
    PastDue,
    Cancelled,
}

#[derive(Debug, PartialEq, Eq, Structural)]
pub struct SubscriptionPlan {
    pub(crate) price: Money,
    pub(crate) period_days: Days,
}

impl SubscriptionPlan {
    /// Every value satisfies what `try_new` checks.
    #[verifier::type_invariant]
    pub open spec fn valid(self) -> bool {
        self.spec_period_days().spec_seconds() != 0
    }

    pub open(crate) spec fn spec_price(&self) -> Money {
        self.price
    }

    pub open(crate) spec fn spec_period_days(&self) -> Days {
        self.period_days
    }

    pub open(crate) spec fn spec_new(price: Money, period_days: Days) -> Self {
        SubscriptionPlan { price, period_days }
    }
}

/// The accessors of a `SubscriptionPlan` built by `spec_new` give back its parts.
pub broadcast proof fn lemma_subscription_plan_fields(price: Money, period_days: Days)
    ensures
        #[trigger] SubscriptionPlan::spec_new(price, period_days).spec_price() == price
            && SubscriptionPlan::spec_new(price, period_days).spec_period_days() == period_days,
{
}

impl Clone for SubscriptionPlan {
    fn clone(&self) -> (r: Self)
        ensures
            r == *self,
    {
        proof {
            use_type_invariant(self);
        }
        SubscriptionPlan { price: self.price, period_days: self.period_days }
    }
}

#[derive(Debug, PartialEq, Eq, Structural)]
pub struct RecurringSubscription {
    pub(crate) customer: CustomerId,
    pub(crate) plan: SubscriptionPlan,
    pub(crate) status: SubscriptionLifecycleStatus,
    pub(crate) current_billing_date: Timestamp,
    pub(crate) next_billing_date: Timestamp,
}

impl RecurringSubscription {
    /// Every value satisfies what `try_new` checks.
    #[verifier::type_invariant]
    pub open spec fn valid(self) -> bool {
        self.spec_current_billing_date().spec_seconds() < self.spec_next_billing_date().spec_seconds()
    }

    pub open(crate) spec fn spec_customer(&self) -> CustomerId {
        self.customer
    }

    pub open(crate) spec fn spec_plan(&self) -> SubscriptionPlan {
        self.plan
    }

    pub open(crate) spec fn spec_status(&self) -> SubscriptionLifecycleStatus {
        self.status
    }

    pub open(crate) spec fn spec_current_billing_date(&self) -> Timestamp {
        self.current_billing_date
    }

    pub open(crate) spec fn spec_next_billing_date(&self) -> Timestamp {
        self.next_billing_date
    }

    pub open(crate) spec fn spec_new(customer: CustomerId, plan: SubscriptionPlan, status: SubscriptionLifecycleStatus, current_billing_date: Timestamp, next_billing_date: Timestamp) -> Self {
        RecurringSubscription { customer, plan, status, current_billing_date, next_billing_date }
    }
}

/// The accessors of a `RecurringSubscription` built by `spec_new` give back its parts.
pub broadcast proof fn lemma_recurring_subscription_fields(customer: CustomerId, plan: SubscriptionPlan, status: SubscriptionLifecycleStatus, current_billing_date: Timestamp, next_billing_date: Timestamp)
    ensures
        #[trigger] RecurringSubscription::spec_new(customer, plan, status, current_billing_date, next_billing_date).spec_customer() == customer
            && RecurringSubscription::spec_new(customer, plan, status, current_billing_date, next_billing_date).spec_plan() == plan
            && RecurringSubscription::spec_new(customer, plan, status, current_billing_date, next_billing_date).spec_status() == status
            && RecurringSubscription::spec_new(customer, plan, status, current_billing_date, next_billing_date).spec_current_billing_date() == current_billing_date
            && RecurringSubscription::spec_new(customer, plan, status, current_billing_date, next_billing_date).spec_next_billing_date() == next_billing_date,
{
}

impl Clone for RecurringSubscription {
    fn clone(&self) -> (r: Self)
        ensures
            r == *self,
    {
        proof {
            use_type_invariant(self);
        }
        RecurringSubscription { customer: self.customer, plan: self.plan.clone(), status: self.status, current_billing_date: self.current_billing_date, next_billing_date: self.next_billing_date }
    }
}

#[derive(Debug, PartialEq, Eq, Structural)]
pub struct GiftCardRedemption {
    pub(crate) card: GiftCard,
    pub(crate) amount: Money,
}

impl GiftCardRedemption {
    /// Every value satisfies what `try_new` checks.
    #[verifier::type_invariant]
    pub open spec fn valid(self) -> bool {
        self.spec_amount() <= self.spec_card().spec_balance()
    }

    pub open(crate) spec fn spec_card(&self) -> GiftCard {
        self.card
    }

    pub open(crate) spec fn spec_amount(&self) -> Money {
        self.amount
    }

    pub open(crate) spec fn spec_new(card: GiftCard, amount: Money) -> Self {
        GiftCardRedemption { card, amount }
    }
}

/// The accessors of a `GiftCardRedemption` built by `spec_new` give back its parts.
pub broadcast proof fn lemma_gift_card_redemption_fields(card: GiftCard, amount: Money)
    ensures
        #[trigger] GiftCardRedemption::spec_new(card, amount).spec_card() == card
            && GiftCardRedemption::spec_new(card, amount).spec_amount() == amount,
{
}

impl Clone for GiftCardRedemption {
    fn clone(&self) -> (r: Self)
        ensures
            r == *self,
    {
        proof {
            use_type_invariant(self);
        }
        GiftCardRedemption { card: self.card.clone(), amount: self.amount }
    }
}

#[derive(Debug, PartialEq, Eq, Structural)]
pub struct Chargeback {
    pub(crate) payment_amount: Money,
    pub(crate) chargeback_amount: Money,
}

impl Chargeback {
    /// Every value satisfies what `try_new` checks.
    #[verifier::type_invariant]
    pub open spec fn valid(self) -> bool {
        self.spec_chargeback_amount() <= self.spec_payment_amount()
    }

    pub open(crate) spec fn spec_payment_amount(&self) -> Money {
        self.payment_amount
    }

    pub open(crate) spec fn spec_chargeback_amount(&self) -> Money {
        self.chargeback_amount
    }

    pub open(crate) spec fn spec_new(payment_amount: Money, chargeback_amount: Money) -> Self {
        Chargeback { payment_amount, chargeback_amount }
    }
}

/// The accessors of a `Chargeback` built by `spec_new` give back its parts.
pub broadcast proof fn lemma_chargeback_fields(payment_amount: Money, chargeback_amount: Money)
    ensures
        #[trigger] Chargeback::spec_new(payment_amount, chargeback_amount).spec_payment_amount() == payment_amount
            && Chargeback::spec_new(payment_amount, chargeback_amount).spec_chargeback_amount() == chargeback_amount,
{
}

impl Clone for Chargeback {
    fn clone(&self) -> (r: Self)
        ensures
            r == *self,
    {
        proof {
            use_type_invariant(self);
        }
        Chargeback { payment_amount: self.payment_amount, chargeback_amount: self.chargeback_amount }
    }
}

#[derive(Debug, PartialEq, Eq, Structural)]
pub struct CashflowPlan {
    pub(crate) starting_cash: Money,
    pub(crate) required_reserve: Money,
    pub(crate) expected_inflows: Money,
    pub(crate) expected_outflows: Money,
}

impl CashflowPlan {
    /// Every value satisfies what `try_new` checks.
    #[verifier::type_invariant]
    pub open spec fn valid(self) -> bool {
        cashflow_plan_error(self.spec_starting_cash() as int, self.spec_required_reserve() as int, self.spec_expected_inflows() as int, self.spec_expected_outflows() as int, "cashflow reserve", "cashflow available", "cashflow reserve is unsafe") is None
    }

    pub open(crate) spec fn spec_starting_cash(&self) -> Money {
        self.starting_cash
    }

    pub open(crate) spec fn spec_required_reserve(&self) -> Money {
        self.required_reserve
    }

    pub open(crate) spec fn spec_expected_inflows(&self) -> Money {
        self.expected_inflows
    }

    pub open(crate) spec fn spec_expected_outflows(&self) -> Money {
        self.expected_outflows
    }

    pub open(crate) spec fn spec_new(starting_cash: Money, required_reserve: Money, expected_inflows: Money, expected_outflows: Money) -> Self {
        CashflowPlan { starting_cash, required_reserve, expected_inflows, expected_outflows }
    }
}

/// The accessors of a `CashflowPlan` built by `spec_new` give back its parts.
pub broadcast proof fn lemma_cashflow_plan_fields(starting_cash: Money, required_reserve: Money, expected_inflows: Money, expected_outflows: Money)
    ensures
        #[trigger] CashflowPlan::spec_new(starting_cash, required_reserve, expected_inflows, expected_outflows).spec_starting_cash() == starting_cash
            && CashflowPlan::spec_new(starting_cash, required_reserve, expected_inflows, expected_outflows).spec_required_reserve() == required_reserve
            && CashflowPlan::spec_new(starting_cash, required_reserve, expected_inflows, expected_outflows).spec_expected_inflows() == expected_inflows
            && CashflowPlan::spec_new(starting_cash, required_reserve, expected_inflows, expected_outflows).spec_expected_outflows() == expected_outflows,
{
}

impl Clone for CashflowPlan {
    fn clone(&self) -> (r: Self)
        ensures
            r == *self,
    {
        proof {
            use_type_invariant(self);
        }
        CashflowPlan { starting_cash: self.starting_cash, required_reserve: self.required_reserve, expected_inflows: self.expected_inflows, expected_outflows: self.expected_outflows }
    }
}

#[derive(Debug, PartialEq, Eq)]
pub struct EventBackedCashflowPlan {
    pub(crate) starting_cash: Money,
    pub(crate) required_reserve: Money,
    pub(crate) events: Vec<CashflowEvent>,
}

impl EventBackedCashflowPlan {
    /// Equal fields, and equal contents for the vectors it holds.
    pub open spec fn same_content(self, other: Self) -> bool {
        self.spec_starting_cash() == other.spec_starting_cash()
            && self.spec_required_reserve() == other.spec_required_reserve()
            && self.spec_events()@ == other.spec_events()@
    }

    /// Every value satisfies what `try_new` checks.
    #[verifier::type_invariant]
    pub open spec fn valid(self) -> bool {
        event_backed_cashflow_error(self.spec_starting_cash(), self.spec_required_reserve(), self.spec_events()@) is None
    }

    pub open(crate) spec fn spec_starting_cash(&self) -> Money {
        self.starting_cash
    }

    pub open(crate) spec fn spec_required_reserve(&self) -> Money {
        self.required_reserve
    }

    pub open(crate) spec fn spec_events(&self) -> Vec<CashflowEvent> {
        self.events
    }
}

impl Clone for EventBackedCashflowPlan {
    fn clone(&self) -> (r: Self)
        ensures
            r.same_content(*self),
    {
        proof {
            use_type_invariant(self);
        }
        EventBackedCashflowPlan { starting_cash: self.starting_cash.clone(), required_reserve: self.required_reserve.clone(), events: clone_vec_exact(&self.events) }
    }
}

impl SubscriptionPlan {
    pub fn price(&self) -> (r: Money)
        ensures
            r == self.spec_price(),
    {
        self.price
    }

    pub fn period_days(&self) -> (r: Days)
        ensures
            r == self.spec_period_days(),
    {
        self.period_days
    }
}

impl RecurringSubscription {
    pub fn customer(&self) -> (r: CustomerId)
        ensures
            r == self.spec_customer(),
    {
        self.customer
    }

    pub fn plan(&self) -> (r: &SubscriptionPlan)
        ensures
            *r == self.spec_plan(),
    {
        &self.plan
    }

    pub fn status(&self) -> (r: SubscriptionLifecycleStatus)
        ensures
            r == self.spec_status(),
    {
        self.status
    }

    pub fn current_billing_date(&self) -> (r: Timestamp)
        ensures
            r == self.spec_current_billing_date(),
    {
        self.current_billing_date
    }

    pub fn next_billing_date(&self) -> (r: Timestamp)
        ensures
            r == self.spec_next_billing_date(),
    {
        self.next_billing_date
    }
}

impl GiftCardRedemption {
    pub fn card(&self) -> (r: &GiftCard)
        ensures
            *r == self.spec_card(),
    {
        &self.card
    }

    pub fn amount(&self) -> (r: Money)
        ensures
            r == self.spec_amount(),
    {
        self.amount
    }
}

impl Chargeback {
    pub fn payment_amount(&self) -> (r: Money)
        ensures
            r == self.spec_payment_amount(),
    {
        self.payment_amount
    }

    pub fn chargeback_amount(&self) -> (r: Money)
        ensures
            r == self.spec_chargeback_amount(),
    {
        self.chargeback_amount
    }
}

impl CashflowPlan {
    pub fn starting_cash(&self) -> (r: Money)
        ensures
            r == self.spec_starting_cash(),
    {
        self.starting_cash
    }

    pub fn required_reserve(&self) -> (r: Money)
        ensures
            r == self.spec_required_reserve(),
    {
        self.required_reserve
    }

    pub fn expected_inflows(&self) -> (r: Money)
        ensures
            r == self.spec_expected_inflows(),
    {
        self.expected_inflows
    }

    pub fn expected_outflows(&self) -> (r: Money)
        ensures
            r == self.spec_expected_outflows(),
    {
        self.expected_outflows
    }
}

impl EventBackedCashflowPlan {
    pub fn starting_cash(&self) -> (r: Money)
        ensures
            r == self.spec_starting_cash(),
    {
        self.starting_cash
    }

    pub fn required_reserve(&self) -> (r: Money)
        ensures
            r == self.spec_required_reserve(),
    {
        self.required_reserve
    }

    pub fn events(&self) -> (r: &[CashflowEvent])
        ensures
            r@ == self.spec_events()@,
    {
        self.events.as_slice()
    }
}

impl SubscriptionPlan {
    pub fn try_new(price: Money, period_days: Days) -> (r: DomainResult<Self>)
        ensures
            period_days.spec_seconds() == 0 ==> r == Err::<Self, ValidationError>(ValidationError::Invariant("subscription period must be positive")),
            period_days.spec_seconds() != 0 ==> r == Ok::<Self, ValidationError>(SubscriptionPlan::spec_new(price, period_days)),
    {
        if period_days.seconds == 0 {
            return Err(ValidationError::Invariant("subscription period must be positive"));
        }
        Ok(Self { price, period_days })
    }
}

impl RecurringSubscription {
    pub fn try_new(customer: CustomerId, plan: SubscriptionPlan, status: SubscriptionLifecycleStatus, current_billing_date: Timestamp, next_billing_date: Timestamp) -> (r: DomainResult<Self>)
        ensures
            current_billing_date.spec_seconds() >= next_billing_date.spec_seconds() ==> r == Err::<Self, ValidationError>(ValidationError::Invariant("next billing date must be after current date")),
            current_billing_date.spec_seconds() < next_billing_date.spec_seconds() ==> r == Ok::<Self, ValidationError>(RecurringSubscription::spec_new(customer, plan, status, current_billing_date, next_billing_date)),
    {
        if current_billing_date.seconds >= next_billing_date.seconds {
            return Err(ValidationError::Invariant("next billing date must be after current date"));
        }
        Ok(Self { customer, plan, status, current_billing_date, next_billing_date })
    }
}

impl GiftCardRedemption {
    pub fn try_new(card: GiftCard, amount: Money) -> (r: DomainResult<Self>)
        ensures
            amount > card.spec_balance() ==> r == Err::<Self, ValidationError>(ValidationError::Invariant("gift-card redemption exceeds balance")),
            amount <= card.spec_balance() ==> r == Ok::<Self, ValidationError>(GiftCardRedemption::spec_new(card, amount)),
    {
        if amount > card.balance {
            return Err(ValidationError::Invariant("gift-card redemption exceeds balance"));
        }
        Ok(Self { card, amount })
    }
}

/// Balance left on the card once the redemption is taken.
pub fn gift_card_balance_after_redeem(redemption: &GiftCardRedemption) -> (r: Money)
    ensures
        r == nat_sub_spec(redemption.spec_card().spec_balance() as int, redemption.spec_amount() as int),
{
    nat_sub(redemption.card.balance, redemption.amount)
}

pub fn gift_card_valid_at(now: Timestamp, card: &GiftCard) -> (r: bool)
    ensures
        r == (now.spec_seconds() <= card.spec_expires_at().spec_seconds()),
{
    now.seconds <= card.expires_at.seconds
}

impl Chargeback {
    pub fn try_new(payment_amount: Money, chargeback_amount: Money) -> (r: DomainResult<Self>)
        ensures
            chargeback_amount > payment_amount ==> r == Err::<Self, ValidationError>(ValidationError::Invariant("chargeback exceeds payment amount")),
            chargeback_amount <= payment_amount ==> r == Ok::<Self, ValidationError>(Chargeback::spec_new(payment_amount, chargeback_amount)),
    {
        if chargeback_amount > payment_amount {
            return Err(ValidationError::Invariant("chargeback exceeds payment amount"));
        }
        Ok(Self { payment_amount, chargeback_amount })
    }
}

pub open spec fn cashflow_inflows_total_value() -> spec_fn(CashflowEvent) -> nat {
    |x: CashflowEvent| (x.spec_inflow()) as nat
}

/// Sum of event inflows.
pub fn cashflow_inflows_total(events: &[CashflowEvent]) -> (r: DomainResult<Nat>)
    ensures
        r == total_result(sum_nat(events@, cashflow_inflows_total_value()) as int, "cashflow_inflows_total"),
{
    let mut acc: Nat = 0;
    let mut i: usize = 0;
    while i < events.len()
        invariant
            i <= events.len(),
            acc == sum_nat(events@.take(i as int), cashflow_inflows_total_value()),
        decreases events.len() - i,
    {
        proof {
            lemma_sum_nat_take_step(events@, cashflow_inflows_total_value(), i as int);
        }
        let item: Nat = events[i].inflow;
        match acc.checked_add(item) {
            Some(v) => {
                acc = v;
            },
            None => {
                proof {
                    lemma_sum_nat_prefix_le(events@, cashflow_inflows_total_value(), i + 1);
                }
                return Err(ValidationError::Overflow("cashflow_inflows_total"));
            },
        }
        i += 1;
    }
    proof {
        lemma_sum_nat_take_all(events@, cashflow_inflows_total_value());
    }
    Ok(acc)
}


pub open spec fn cashflow_outflows_total_value() -> spec_fn(CashflowEvent) -> nat {
    |x: CashflowEvent| (x.spec_outflow()) as nat
}

/// Sum of event outflows.
pub fn cashflow_outflows_total(events: &[CashflowEvent]) -> (r: DomainResult<Nat>)
    ensures
        r == total_result(sum_nat(events@, cashflow_outflows_total_value()) as int, "cashflow_outflows_total"),
{
    let mut acc: Nat = 0;
    let mut i: usize = 0;
    while i < events.len()
        invariant
            i <= events.len(),
            acc == sum_nat(events@.take(i as int), cashflow_outflows_total_value()),
        decreases events.len() - i,
    {
        proof {
            lemma_sum_nat_take_step(events@, cashflow_outflows_total_value(), i as int);
        }
        let item: Nat = events[i].outflow;
        match acc.checked_add(item) {
            Some(v) => {
                acc = v;
            },
            None => {
                proof {
                    lemma_sum_nat_prefix_le(events@, cashflow_outflows_total_value(), i + 1);
                }
                return Err(ValidationError::Overflow("cashflow_outflows_total"));
            },
        }
        i += 1;
    }
    proof {
        lemma_sum_nat_take_all(events@, cashflow_outflows_total_value());
    }
    Ok(acc)
}


/// The first check a cash-flow plan fails, if any: the reserve plus the
/// outflows must not exceed the starting cash plus the inflows.
pub open spec fn cashflow_plan_error(starting_cash: int, required_reserve: int, inflows: int, outflows: int, out_ctx: &'static str, in_ctx: &'static str, msg: &'static str) -> Option<ValidationError> {
    if required_reserve + outflows > u128::MAX {
        Some(ValidationError::Overflow(out_ctx))
    } else if starting_cash + inflows > u128::MAX {
        Some(ValidationError::Overflow(in_ctx))
    } else if required_reserve + outflows > starting_cash + inflows {
        Some(ValidationError::Invariant(msg))
    } else {
        None
    }
}

impl CashflowPlan {
    pub fn try_new(starting_cash: Money, required_reserve: Money, expected_inflows: Money, expected_outflows: Money) -> (r: DomainResult<Self>)
        ensures
            r == (match cashflow_plan_error(starting_cash as int, required_reserve as int, expected_inflows as int, expected_outflows as int, "cashflow reserve", "cashflow available", "cashflow reserve is unsafe") {
                Some(e) => Err(e),
                None => Ok(CashflowPlan::spec_new(starting_cash, required_reserve, expected_inflows, expected_outflows)),
            }),
    {
        let need = match checked_add(required_reserve, expected_outflows, "cashflow reserve") {
            Ok(v) => v,
            Err(e) => return Err(e),
        };
        let have = match checked_add(starting_cash, expected_inflows, "cashflow available") {
            Ok(v) => v,
            Err(e) => return Err(e),
        };
        if need > have {
            return Err(ValidationError::Invariant("cashflow reserve is unsafe"));
        }
        Ok(Self { starting_cash, required_reserve, expected_inflows, expected_outflows })
    }
}

/// The first check an event-backed cash-flow plan fails, if any.
pub open spec fn event_backed_cashflow_error(starting_cash: u128, required_reserve: u128, events: Seq<CashflowEvent>) -> Option<ValidationError> {
    let outflows = sum_nat(events, cashflow_outflows_total_value());
    let inflows = sum_nat(events, cashflow_inflows_total_value());
    if outflows > u128::MAX {
        Some(ValidationError::Overflow("cashflow_outflows_total"))
    } else if required_reserve + outflows > u128::MAX {
        Some(ValidationError::Overflow("event-backed outflows"))
    } else if inflows > u128::MAX {
        Some(ValidationError::Overflow("cashflow_inflows_total"))
    } else if starting_cash + inflows > u128::MAX {
        Some(ValidationError::Overflow("event-backed inflows"))
    } else if required_reserve + outflows > starting_cash + inflows {
        Some(ValidationError::Invariant("event-backed cashflow reserve is unsafe"))
    } else {
        None
    }
}

impl EventBackedCashflowPlan {
    pub fn try_new(starting_cash: Money, required_reserve: Money, events: Vec<CashflowEvent>) -> (r: DomainResult<Self>)
        ensures
            match r {
                Ok(p) => event_backed_cashflow_error(starting_cash, required_reserve, events@) is None
                    && p.spec_starting_cash() == starting_cash && p.spec_required_reserve() == required_reserve && p.spec_events()@ == events@,
                Err(e) => event_backed_cashflow_error(starting_cash, required_reserve, events@) == Some(e),
            },
    {
        let outflows = match cashflow_outflows_total(events.as_slice()) {
            Ok(v) => v,
            Err(e) => return Err(e),
        };
        let need = match checked_add(required_reserve, outflows, "event-backed outflows") {
            Ok(v) => v,
            Err(e) => return Err(e),
        };
        let inflows = match cashflow_inflows_total(events.as_slice()) {
            Ok(v) => v,
            Err(e) => return Err(e),
        };
        let have = match checked_add(starting_cash, inflows, "event-backed inflows") {
            Ok(v) => v,
            Err(e) => return Err(e),
        };
        if need > have {
            return Err(ValidationError::Invariant("event-backed cashflow reserve is unsafe"));
        }
        Ok(Self { starting_cash, required_reserve, events })
    }
}

/// The accessor lemmas for the records of this module.
pub broadcast group group_post_purchase_record_fields {
    lemma_gift_card_fields,
    lemma_cashflow_event_fields,
    lemma_subscription_plan_fields,
    lemma_recurring_subscription_fields,
    lemma_gift_card_redemption_fields,
    lemma_chargeback_fields,
    lemma_cashflow_plan_fields,
}

} // verus!
