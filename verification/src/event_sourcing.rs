//! Domain events, ordered streams, idempotent application, replay onto a
//! system state, and the projections that fold a stream into one figure.

use vstd::prelude::*;
use crate::foundation::clone_vec_exact;
use crate::foundation::{DomainResult, Id, IdempotencyKey, LeadId, Money, Nat, OpportunityId, OrderId, Quantity, ReturnAuthorizationId, ShipmentId, Sku, SupportCaseId, ValidationError, add_result, checked_add, lemma_sum_nat_prefix_le, lemma_sum_nat_take_all, lemma_sum_nat_take_step, lemma_try_fold_append, lemma_try_fold_err_sticks, lemma_try_fold_take_step, sum_nat, total_result, try_fold_spec};
use crate::inventory::{StockState, confirm_reserved_shipment, confirm_reserved_spec, release_reserved_spec, release_reserved_stock, reserve_stock, reserve_stock_spec};
use crate::orders::{PaymentLedger, issue_refund, issue_refund_spec};

verus! {

#[derive(Debug, PartialEq, Eq, Structural)]
pub struct EventEnvelope {
    pub(crate) sequence: Nat,
    pub(crate) event: DomainEvent,
}

impl EventEnvelope {
    pub open(crate) spec fn spec_sequence(&self) -> Nat {
        self.sequence
    }

    pub open(crate) spec fn spec_event(&self) -> DomainEvent {
        self.event
    }

    pub open(crate) spec fn spec_new(sequence: Nat, event: DomainEvent) -> Self {
        EventEnvelope { sequence, event }
    }
}

/// The accessors of a `EventEnvelope` built by `spec_new` give back its parts.
pub broadcast proof fn lemma_event_envelope_fields(sequence: Nat, event: DomainEvent)
    ensures
        #[trigger] EventEnvelope::spec_new(sequence, event).spec_sequence() == sequence
            && EventEnvelope::spec_new(sequence, event).spec_event() == event,
{
}

impl Clone for EventEnvelope {
    fn clone(&self) -> (r: Self)
        ensures
            r == *self,
    {
        EventEnvelope { sequence: self.sequence, event: self.event.clone() }
    }
}

impl EventEnvelope {
    pub fn new(sequence: Nat, event: DomainEvent) -> (r: Self)
        ensures
            r == (EventEnvelope::spec_new(sequence, event)),
    {
        EventEnvelope { sequence, event }
    }

    pub fn try_new(sequence: Nat, event: DomainEvent) -> (r: DomainResult<Self>)
        ensures
            r == Ok::<Self, ValidationError>(EventEnvelope::spec_new(sequence, event)),
    {
        Ok(Self::new(sequence, event))
    }

    pub fn sequence(&self) -> (r: Nat)
        ensures
            r == self.spec_sequence(),
    {
        self.sequence
    }

    pub fn event(&self) -> (r: &DomainEvent)
        ensures
            *r == self.spec_event(),
    {
        &self.event
    }
}

#[derive(Debug, PartialEq, Eq)]
pub struct EventStream {
    pub(crate) events: Vec<EventEnvelope>,
    pub(crate) last_sequence: Nat,
}

impl EventStream {
    /// Equal fields, and equal contents for the vectors it holds.
    pub open spec fn same_content(self, other: Self) -> bool {
        self.spec_events()@ == other.spec_events()@
            && self.spec_last_sequence() == other.spec_last_sequence()
    }

    pub open(crate) spec fn spec_events(&self) -> Vec<EventEnvelope> {
        self.events
    }

    pub open(crate) spec fn spec_last_sequence(&self) -> Nat {
        self.last_sequence
    }

    pub open(crate) spec fn spec_new(events: Vec<EventEnvelope>, last_sequence: Nat) -> Self {
        EventStream { events, last_sequence }
    }
}

/// The accessors of a `EventStream` built by `spec_new` give back its parts.
pub broadcast proof fn lemma_event_stream_fields(events: Vec<EventEnvelope>, last_sequence: Nat)
    ensures
        #[trigger] EventStream::spec_new(events, last_sequence).spec_events() == events
            && EventStream::spec_new(events, last_sequence).spec_last_sequence() == last_sequence,
{
}

impl Clone for EventStream {
    fn clone(&self) -> (r: Self)
        ensures
            r.same_content(*self),
    {
        EventStream { events: clone_vec_exact(&self.events), last_sequence: self.last_sequence.clone() }
    }
}

impl EventStream {
    pub fn new(events: Vec<EventEnvelope>, last_sequence: Nat) -> (r: Self)
        ensures
            r == (EventStream::spec_new(events, last_sequence)),
    {
        EventStream { events, last_sequence }
    }

    pub fn try_new(events: Vec<EventEnvelope>, last_sequence: Nat) -> (r: DomainResult<Self>)
        ensures
            r == Ok::<Self, ValidationError>(EventStream::spec_new(events, last_sequence)),
    {
        Ok(Self::new(events, last_sequence))
    }

    pub fn events(&self) -> (r: &[EventEnvelope])
        ensures
            r@ == self.spec_events()@,
    {
        self.events.as_slice()
    }

    pub fn last_sequence(&self) -> (r: Nat)
        ensures
            r == self.spec_last_sequence(),
    {
        self.last_sequence
    }
}

#[derive(Debug, PartialEq, Eq, Structural)]
pub struct WebhookOrderingState {
    pub(crate) last_sequence: Nat,
}

impl WebhookOrderingState {
    pub open(crate) spec fn spec_last_sequence(&self) -> Nat {
        self.last_sequence
    }

    pub open(crate) spec fn spec_new(last_sequence: Nat) -> Self {
        WebhookOrderingState { last_sequence }
    }
}

/// The accessors of a `WebhookOrderingState` built by `spec_new` give back its parts.
pub broadcast proof fn lemma_webhook_ordering_state_fields(last_sequence: Nat)
    ensures
        #[trigger] WebhookOrderingState::spec_new(last_sequence).spec_last_sequence() == last_sequence,
{
}

impl Clone for WebhookOrderingState {
    fn clone(&self) -> (r: Self)
        ensures
            r == *self,
    {
        WebhookOrderingState { last_sequence: self.last_sequence }
    }
}

impl WebhookOrderingState {
    pub fn new(last_sequence: Nat) -> (r: Self)
        ensures
            r == (WebhookOrderingState::spec_new(last_sequence)),
    {
        WebhookOrderingState { last_sequence }
    }

    pub fn try_new(last_sequence: Nat) -> (r: DomainResult<Self>)
        ensures
            r == Ok::<Self, ValidationError>(WebhookOrderingState::spec_new(last_sequence)),
    {
        Ok(Self::new(last_sequence))
    }

    pub fn last_sequence(&self) -> (r: Nat)
        ensures
            r == self.spec_last_sequence(),
    {
        self.last_sequence
    }
}

#[derive(Debug, PartialEq, Eq)]
pub struct IdempotencyState {
    pub(crate) processed: Vec<IdempotencyKey>,
}

impl IdempotencyState {
    /// Equal fields, and equal contents for the vectors it holds.
    pub open spec fn same_content(self, other: Self) -> bool {
        self.spec_processed()@ == other.spec_processed()@
    }

    pub open(crate) spec fn spec_processed(&self) -> Vec<IdempotencyKey> {
        self.processed
    }

    pub open(crate) spec fn spec_new(processed: Vec<IdempotencyKey>) -> Self {
        IdempotencyState { processed }
    }
}

/// The accessors of a `IdempotencyState` built by `spec_new` give back its parts.
pub broadcast proof fn lemma_idempotency_state_fields(processed: Vec<IdempotencyKey>)
    ensures
        #[trigger] IdempotencyState::spec_new(processed).spec_processed() == processed,
{
}

impl Clone for IdempotencyState {
    fn clone(&self) -> (r: Self)
        ensures
            r.same_content(*self),
    {
        IdempotencyState { processed: clone_vec_exact(&self.processed) }
    }
}

impl IdempotencyState {
    pub fn new(processed: Vec<IdempotencyKey>) -> (r: Self)
        ensures
            r == (IdempotencyState::spec_new(processed)),
    {
        IdempotencyState { processed }
    }

    pub fn try_new(processed: Vec<IdempotencyKey>) -> (r: DomainResult<Self>)
        ensures
            r == Ok::<Self, ValidationError>(IdempotencyState::spec_new(processed)),
    {
        Ok(Self::new(processed))
    }

    pub fn processed(&self) -> (r: &[IdempotencyKey])
        ensures
            r@ == self.spec_processed()@,
    {
        self.processed.as_slice()
    }
}

#[derive(Debug, PartialEq, Eq, Structural)]
pub struct ValidSystemState {
    pub(crate) stock: StockState,
    pub(crate) ledger: PaymentLedger,
    pub(crate) tax_liability: Money,
    pub(crate) crm_event_count: Nat,
    pub(crate) logistics_event_count: Nat,
}

impl ValidSystemState {
    pub open(crate) spec fn spec_stock(&self) -> StockState {
        self.stock
    }

    pub open(crate) spec fn spec_ledger(&self) -> PaymentLedger {
        self.ledger
    }

    pub open(crate) spec fn spec_tax_liability(&self) -> Money {
        self.tax_liability
    }

    pub open(crate) spec fn spec_crm_event_count(&self) -> Nat {
        self.crm_event_count
    }

    pub open(crate) spec fn spec_logistics_event_count(&self) -> Nat {
        self.logistics_event_count
    }

    pub open(crate) spec fn spec_new(stock: StockState, ledger: PaymentLedger, tax_liability: Money, crm_event_count: Nat, logistics_event_count: Nat) -> Self {
        ValidSystemState { stock, ledger, tax_liability, crm_event_count, logistics_event_count }
    }
}

/// The accessors of a `ValidSystemState` built by `spec_new` give back its parts.
pub broadcast proof fn lemma_valid_system_state_fields(stock: StockState, ledger: PaymentLedger, tax_liability: Money, crm_event_count: Nat, logistics_event_count: Nat)
    ensures
        #[trigger] ValidSystemState::spec_new(stock, ledger, tax_liability, crm_event_count, logistics_event_count).spec_stock() == stock
            && ValidSystemState::spec_new(stock, ledger, tax_liability, crm_event_count, logistics_event_count).spec_ledger() == ledger
            && ValidSystemState::spec_new(stock, ledger, tax_liability, crm_event_count, logistics_event_count).spec_tax_liability() == tax_liability
            && ValidSystemState::spec_new(stock, ledger, tax_liability, crm_event_count, logistics_event_count).spec_crm_event_count() == crm_event_count
            && ValidSystemState::spec_new(stock, ledger, tax_liability, crm_event_count, logistics_event_count).spec_logistics_event_count() == logistics_event_count,
{
}

impl Clone for ValidSystemState {
    fn clone(&self) -> (r: Self)
        ensures
            r == *self,
    {
        proof {
            use_type_invariant(self);
        }
        ValidSystemState { stock: self.stock, ledger: self.ledger.clone(), tax_liability: self.tax_liability, crm_event_count: self.crm_event_count, logistics_event_count: self.logistics_event_count }
    }
}

impl ValidSystemState {
    pub fn new(stock: StockState, ledger: PaymentLedger, tax_liability: Money, crm_event_count: Nat, logistics_event_count: Nat) -> (r: Self)
        ensures
            r == (ValidSystemState::spec_new(stock, ledger, tax_liability, crm_event_count, logistics_event_count)),
    {
        proof {
            use_type_invariant(&stock);
            use_type_invariant(&ledger);
        }
        ValidSystemState { stock, ledger, tax_liability, crm_event_count, logistics_event_count }
    }

    pub fn try_new(stock: StockState, ledger: PaymentLedger, tax_liability: Money, crm_event_count: Nat, logistics_event_count: Nat) -> (r: DomainResult<Self>)
        ensures
            r == Ok::<Self, ValidationError>(ValidSystemState::spec_new(stock, ledger, tax_liability, crm_event_count, logistics_event_count)),
    {
        Ok(Self::new(stock, ledger, tax_liability, crm_event_count, logistics_event_count))
    }

    pub fn stock(&self) -> (r: StockState)
        ensures
            r == self.spec_stock(),
    {
        self.stock
    }

    pub fn ledger(&self) -> (r: &PaymentLedger)
        ensures
            *r == self.spec_ledger(),
    {
        &self.ledger
    }

    pub fn tax_liability(&self) -> (r: Money)
        ensures
            r == self.spec_tax_liability(),
    {
        self.tax_liability
    }

    pub fn crm_event_count(&self) -> (r: Nat)
        ensures
            r == self.spec_crm_event_count(),
    {
        self.crm_event_count
    }

    pub fn logistics_event_count(&self) -> (r: Nat)
        ensures
            r == self.spec_logistics_event_count(),
    {
        self.logistics_event_count
    }
}

#[derive(Debug, PartialEq, Eq, Structural)]
pub struct EventSnapshot {
    pub(crate) state: ValidSystemState,
    pub(crate) last_sequence: Nat,
}

impl EventSnapshot {
    pub open(crate) spec fn spec_state(&self) -> ValidSystemState {
        self.state
    }

    pub open(crate) spec fn spec_last_sequence(&self) -> Nat {
        self.last_sequence
    }

    pub open(crate) spec fn spec_new(state: ValidSystemState, last_sequence: Nat) -> Self {
        EventSnapshot { state, last_sequence }
    }
}

/// The accessors of a `EventSnapshot` built by `spec_new` give back its parts.
pub broadcast proof fn lemma_event_snapshot_fields(state: ValidSystemState, last_sequence: Nat)
    ensures
        #[trigger] EventSnapshot::spec_new(state, last_sequence).spec_state() == state
            && EventSnapshot::spec_new(state, last_sequence).spec_last_sequence() == last_sequence,
{
}

impl Clone for EventSnapshot {
    fn clone(&self) -> (r: Self)
        ensures
            r == *self,
    {
        EventSnapshot { state: self.state.clone(), last_sequence: self.last_sequence }
    }
}

impl EventSnapshot {
    pub fn new(state: ValidSystemState, last_sequence: Nat) -> (r: Self)
        ensures
            r == (EventSnapshot::spec_new(state, last_sequence)),
    {
        EventSnapshot { state, last_sequence }
    }

    pub fn try_new(state: ValidSystemState, last_sequence: Nat) -> (r: DomainResult<Self>)
        ensures
            r == Ok::<Self, ValidationError>(EventSnapshot::spec_new(state, last_sequence)),
    {
        Ok(Self::new(state, last_sequence))
    }

    pub fn state(&self) -> (r: &ValidSystemState)
        ensures
            *r == self.spec_state(),
    {
        &self.state
    }

    pub fn last_sequence(&self) -> (r: Nat)
        ensures
            r == self.spec_last_sequence(),
    {
        self.last_sequence
    }
}

#[derive(Clone, Copy, Debug, PartialEq, Eq, Structural)]
pub enum DomainEvent {
    OrderPlaced(OrderId, Money),
    PaymentCaptured(OrderId, Money),
    RefundIssued(OrderId, Money),
    StockReserved(Sku, Quantity),
    ReservationReleased(Sku, Quantity),
    ReservedShipmentConfirmed(Sku, Quantity),
    TaxLiabilityRecorded(Id, Money),
    OrderShipped(OrderId),
    LeadConverted(LeadId, OpportunityId),
    SupportCaseOpened(SupportCaseId, Option<OrderId>),
    ShipmentPlanned(ShipmentId, OrderId),
    ShipmentDelivered(ShipmentId),
    ReturnApproved(ReturnAuthorizationId, OrderId, Money),
}

pub open spec fn domain_event_is_crm_spec(event: DomainEvent) -> bool {
    event is LeadConverted || event is SupportCaseOpened
}

pub open spec fn domain_event_is_logistics_spec(event: DomainEvent) -> bool {
    event is ShipmentPlanned || event is ShipmentDelivered || event is ReturnApproved
}

pub fn domain_event_is_crm(event: &DomainEvent) -> (r: bool)
    ensures
        r == domain_event_is_crm_spec(*event),
{
    matches!(event, DomainEvent::LeadConverted(_, _) | DomainEvent::SupportCaseOpened(_, _))
}

pub fn domain_event_is_logistics(event: &DomainEvent) -> (r: bool)
    ensures
        r == domain_event_is_logistics_spec(*event),
{
    matches!(event, DomainEvent::ShipmentPlanned(_, _) | DomainEvent::ShipmentDelivered(_) | DomainEvent::ReturnApproved(_, _, _))
}

/// Every sequence number is above `last`, and the numbers strictly increase.
pub open spec fn sequences_increase_from(last: u128, s: Seq<EventEnvelope>) -> bool {
    &&& forall|i: int| #![trigger s[i]] 0 <= i < s.len() ==> last < s[i].spec_sequence()
    &&& forall|i: int, j: int| #![trigger s[i], s[j]] 0 <= i < j < s.len() ==> s[i].spec_sequence() < s[j].spec_sequence()
}

/// The cursor after a stream: the last sequence number, or `last` for an empty one.
pub open spec fn final_sequence(last: u128, s: Seq<EventEnvelope>) -> u128 {
    if s.len() == 0 { last } else { s.last().spec_sequence() }
}

pub fn stream_sequences_strictly_increase_from(last: Nat, events: &[EventEnvelope]) -> (r: bool)
    ensures
        r == sequences_increase_from(last, events@),
{
    let mut cursor: Nat = last;
    let mut i: usize = 0;
    while i < events.len()
        invariant
            i <= events.len(),
            cursor == final_sequence(last, events@.take(i as int)),
            sequences_increase_from(last, events@.take(i as int)),
            last <= cursor,
            forall|j: int| 0 <= j < i ==> events@[j].sequence <= cursor,
        decreases events.len() - i,
    {
        let s = events[i].sequence;
        if cursor >= s {
            proof {
                if i > 0 {
                    assert(events@.take(i as int).last() == events@[i - 1]);
                    assert(!(events@[i - 1].sequence < events@[i as int].sequence));
                }
            }
            return false;
        }
        proof {
            let t = events@.take(i as int + 1);
            assert forall|a: int, b: int| 0 <= a < b < t.len() implies t[a].sequence < t[b].sequence by {
                if b < i {
                    assert(t[a] == events@.take(i as int)[a]);
                    assert(t[b] == events@.take(i as int)[b]);
                }
            }
            assert forall|a: int| 0 <= a < t.len() implies last < #[trigger] t[a].sequence by {
                if a < i {
                    assert(t[a] == events@.take(i as int)[a]);
                }
            }
        }
        cursor = s;
        i += 1;
    }
    proof {
        assert(events@.take(events.len() as int) =~= events@);
    }
    true
}

pub fn stream_sequences_strictly_increase(stream: &EventStream) -> (r: bool)
    ensures
        r == sequences_increase_from(0, stream.spec_events()@),
{
    stream_sequences_strictly_increase_from(0, stream.events.as_slice())
}

pub open spec fn apply_webhook_spec(s: WebhookOrderingState, seq: u128) -> DomainResult<WebhookOrderingState> {
    if s.spec_last_sequence() >= seq {
        Err(ValidationError::Invariant("webhook sequence must be newer than cursor"))
    } else {
        Ok(WebhookOrderingState::spec_new(seq))
    }
}

pub fn apply_webhook(s: &WebhookOrderingState, seq: Nat) -> (r: DomainResult<WebhookOrderingState>)
    ensures
        r == apply_webhook_spec(*s, seq),
{
    if s.last_sequence >= seq {
        return Err(ValidationError::Invariant("webhook sequence must be newer than cursor"));
    }
    Ok(WebhookOrderingState::new(seq))
}

pub open spec fn webhook_step() -> spec_fn(WebhookOrderingState, EventEnvelope) -> DomainResult<WebhookOrderingState> {
    |s: WebhookOrderingState, e: EventEnvelope| apply_webhook_spec(s, e.spec_sequence())
}

pub fn replay_webhook_stream(state: WebhookOrderingState, events: &[EventEnvelope]) -> (r: DomainResult<WebhookOrderingState>)
    ensures
        r == try_fold_spec(state, events@, webhook_step()),
{
    let mut cur = state;
    let mut i: usize = 0;
    while i < events.len()
        invariant
            i <= events.len(),
            try_fold_spec(state, events@.take(i as int), webhook_step()) == Ok::<WebhookOrderingState, ValidationError>(cur),
        decreases events.len() - i,
    {
        proof {
            lemma_try_fold_take_step(state, events@, webhook_step(), i as int);
        }
        match apply_webhook(&cur, events[i].sequence) {
            Ok(next) => {
                cur = next;
            },
            Err(e) => {
                proof {
                    lemma_try_fold_err_sticks(state, events@, webhook_step(), i + 1);
                }
                return Err(e);
            },
        }
        i += 1;
    }
    proof {
        assert(events@.take(events.len() as int) =~= events@);
    }
    Ok(cur)
}

/// Webhook replay succeeds exactly on streams whose sequence numbers strictly
/// increase past the cursor, and then leaves the cursor on the last one.
pub proof fn lemma_webhook_replay_accepts_increasing(state: WebhookOrderingState, events: Seq<EventEnvelope>)
    ensures
        try_fold_spec(state, events, webhook_step()) is Ok <==> sequences_increase_from(state.spec_last_sequence(), events),
        try_fold_spec(state, events, webhook_step()) is Ok ==> try_fold_spec(state, events, webhook_step())->Ok_0.spec_last_sequence()
            == final_sequence(state.spec_last_sequence(), events),
    decreases events.len(),
{
    if events.len() > 0 {
        let p = events.drop_last();
        lemma_webhook_replay_accepts_increasing(state, p);
        let last = state.last_sequence;
        if sequences_increase_from(last, events) {
            assert forall|a: int, b: int| 0 <= a < b < p.len() implies p[a].sequence < p[b].sequence by {
                assert(p[a] == events[a] && p[b] == events[b]);
            }
            assert forall|a: int| 0 <= a < p.len() implies last < #[trigger] p[a].sequence by {
                assert(p[a] == events[a]);
            }
            if p.len() > 0 {
                assert(p.last() == events[p.len() - 1]);
            }
            assert(events.last() == events[events.len() - 1]);
        }
        if sequences_increase_from(last, p) && final_sequence(last, p) < events.last().sequence {
            assert forall|a: int, b: int| 0 <= a < b < events.len() implies events[a].sequence < events[b].sequence by {
                if b < events.len() - 1 {
                    assert(p[a] == events[a] && p[b] == events[b]);
                } else {
                    assert(p[a] == events[a]);
                    if a < p.len() - 1 {
                        assert(p[a].sequence < p[p.len() - 1].sequence);
                    }
                }
            }
            assert forall|a: int| 0 <= a < events.len() implies last < #[trigger] events[a].sequence by {
                if a < events.len() - 1 {
                    assert(p[a] == events[a]);
                }
            }
        }
    }
}

pub fn already_processed(key: IdempotencyKey, state: &IdempotencyState) -> (r: bool)
    ensures
        r == state.spec_processed()@.contains(key),
{
    let mut i: usize = 0;
    while i < state.processed.len()
        invariant
            i <= state.processed.len(),
            forall|j: int| 0 <= j < i ==> state.processed@[j] != key,
        decreases state.processed.len() - i,
    {
        if state.processed[i] == key {
            return true;
        }
        i += 1;
    }
    false
}

/// Puts `key` in front of the keys already processed.
pub fn mark_processed(key: IdempotencyKey, state: &IdempotencyState) -> (r: IdempotencyState)
    ensures
        r.spec_processed()@ == seq![key] + state.spec_processed()@,
        r.spec_processed()@.contains(key),
{
    let mut processed: Vec<IdempotencyKey> = Vec::new();
    processed.push(key);
    let mut i: usize = 0;
    while i < state.processed.len()
        invariant
            i <= state.processed.len(),
            processed@ == seq![key] + state.processed@.take(i as int),
        decreases state.processed.len() - i,
    {
        processed.push(state.processed[i]);
        proof {
            assert(state.processed@.take(i as int + 1) =~= state.processed@.take(i as int).push(state.processed@[i as int]));
        }
        i += 1;
    }
    proof {
        assert(state.processed@.take(state.processed.len() as int) =~= state.processed@);
        assert((seq![key] + state.processed@)[0] == key);
    }
    IdempotencyState::new(processed)
}

impl ValidSystemState {
    /// The stock never reserves past its total and refunds never pass captures.
    #[verifier::type_invariant]
    pub open spec fn valid(self) -> bool {
        self.spec_stock().valid() && self.spec_ledger().valid()
    }
}

pub open spec fn apply_stock_reserved_spec(state: ValidSystemState, sku: Sku, quantity: u128) -> DomainResult<ValidSystemState> {
    if state.spec_stock().spec_sku() != sku {
        Err(ValidationError::Invariant("stock-reserved SKU mismatch"))
    } else {
        match reserve_stock_spec(state.spec_stock(), quantity) {
            Err(e) => Err(e),
            Ok(stock) => Ok(ValidSystemState::spec_new(stock, state.spec_ledger(), state.spec_tax_liability(), state.spec_crm_event_count(), state.spec_logistics_event_count())),
        }
    }
}

pub fn apply_stock_reserved_event(state: &ValidSystemState, sku: Sku, quantity: Quantity) -> (r: DomainResult<ValidSystemState>)
    ensures
        r == apply_stock_reserved_spec(*state, sku, quantity),
{
    if state.stock.sku() != sku {
        return Err(ValidationError::Invariant("stock-reserved SKU mismatch"));
    }
    match reserve_stock(&state.stock, quantity) {
        Err(e) => Err(e),
        Ok(stock) => Ok(ValidSystemState::new(stock, state.ledger.clone(), state.tax_liability, state.crm_event_count, state.logistics_event_count)),
    }
}

pub open spec fn apply_refund_issued_spec(state: ValidSystemState, amount: u128) -> DomainResult<ValidSystemState> {
    match issue_refund_spec(state.spec_ledger(), amount) {
        Err(e) => Err(e),
        Ok(ledger) => Ok(ValidSystemState::spec_new(state.spec_stock(), ledger, state.spec_tax_liability(), state.spec_crm_event_count(), state.spec_logistics_event_count())),
    }
}

pub fn apply_refund_issued_event(state: &ValidSystemState, amount: Money) -> (r: DomainResult<ValidSystemState>)
    ensures
        r == apply_refund_issued_spec(*state, amount),
{
    match issue_refund(&state.ledger, amount) {
        Err(e) => Err(e),
        Ok(ledger) => Ok(ValidSystemState::new(state.stock, ledger, state.tax_liability, state.crm_event_count, state.logistics_event_count)),
    }
}

pub open spec fn apply_reservation_released_spec(state: ValidSystemState, sku: Sku, quantity: u128) -> DomainResult<ValidSystemState> {
    if state.spec_stock().spec_sku() != sku {
        Err(ValidationError::Invariant("reservation-released SKU mismatch"))
    } else {
        match release_reserved_spec(state.spec_stock(), quantity) {
            Err(e) => Err(e),
            Ok(stock) => Ok(ValidSystemState::spec_new(stock, state.spec_ledger(), state.spec_tax_liability(), state.spec_crm_event_count(), state.spec_logistics_event_count())),
        }
    }
}

pub fn apply_reservation_released_event(state: &ValidSystemState, sku: Sku, quantity: Quantity) -> (r: DomainResult<ValidSystemState>)
    ensures
        r == apply_reservation_released_spec(*state, sku, quantity),
{
    if state.stock.sku() != sku {
        return Err(ValidationError::Invariant("reservation-released SKU mismatch"));
    }
    match release_reserved_stock(&state.stock, quantity) {
        Err(e) => Err(e),
        Ok(stock) => Ok(ValidSystemState::new(stock, state.ledger.clone(), state.tax_liability, state.crm_event_count, state.logistics_event_count)),
    }
}

pub open spec fn apply_reserved_shipment_confirmed_spec(state: ValidSystemState, sku: Sku, quantity: u128) -> DomainResult<ValidSystemState> {
    if state.spec_stock().spec_sku() != sku {
        Err(ValidationError::Invariant("reserved-shipment-confirmed SKU mismatch"))
    } else {
        match confirm_reserved_spec(state.spec_stock(), quantity) {
            Err(e) => Err(e),
            Ok(stock) => Ok(ValidSystemState::spec_new(stock, state.spec_ledger(), state.spec_tax_liability(), state.spec_crm_event_count(), state.spec_logistics_event_count())),
        }
    }
}

pub fn apply_reserved_shipment_confirmed_event(state: &ValidSystemState, sku: Sku, quantity: Quantity) -> (r: DomainResult<ValidSystemState>)
    ensures
        r == apply_reserved_shipment_confirmed_spec(*state, sku, quantity),
{
    if state.stock.sku() != sku {
        return Err(ValidationError::Invariant("reserved-shipment-confirmed SKU mismatch"));
    }
    match confirm_reserved_shipment(&state.stock, quantity) {
        Err(e) => Err(e),
        Ok(stock) => Ok(ValidSystemState::new(stock, state.ledger.clone(), state.tax_liability, state.crm_event_count, state.logistics_event_count)),
    }
}

pub open spec fn apply_tax_liability_spec(state: ValidSystemState, amount: u128) -> DomainResult<ValidSystemState> {
    match add_result(state.spec_tax_liability() as int, amount as int, "apply_tax_liability_recorded_event") {
        Err(e) => Err(e),
        Ok(tax_liability) => Ok(ValidSystemState::spec_new(state.spec_stock(), state.spec_ledger(), tax_liability, state.spec_crm_event_count(), state.spec_logistics_event_count())),
    }
}

pub fn apply_tax_liability_recorded_event(state: &ValidSystemState, amount: Money) -> (r: DomainResult<ValidSystemState>)
    ensures
        r == apply_tax_liability_spec(*state, amount),
{
    match checked_add(state.tax_liability, amount, "apply_tax_liability_recorded_event") {
        Err(e) => Err(e),
        Ok(t) => Ok(ValidSystemState::new(state.stock, state.ledger.clone(), t, state.crm_event_count, state.logistics_event_count)),
    }
}

pub open spec fn apply_crm_projected_spec(state: ValidSystemState) -> DomainResult<ValidSystemState> {
    match add_result(state.spec_crm_event_count() as int, 1, "apply_crm_projected_event") {
        Err(e) => Err(e),
        Ok(crm_event_count) => Ok(ValidSystemState::spec_new(state.spec_stock(), state.spec_ledger(), state.spec_tax_liability(), crm_event_count, state.spec_logistics_event_count())),
    }
}

pub fn apply_crm_projected_event(state: &ValidSystemState) -> (r: DomainResult<ValidSystemState>)
    ensures
        r == apply_crm_projected_spec(*state),
{
    match checked_add(state.crm_event_count, 1, "apply_crm_projected_event") {
        Err(e) => Err(e),
        Ok(c) => Ok(ValidSystemState::new(state.stock, state.ledger.clone(), state.tax_liability, c, state.logistics_event_count)),
    }
}

pub open spec fn apply_logistics_projected_spec(state: ValidSystemState) -> DomainResult<ValidSystemState> {
    match add_result(state.spec_logistics_event_count() as int, 1, "apply_logistics_projected_event") {
        Err(e) => Err(e),
        Ok(logistics_event_count) => Ok(ValidSystemState::spec_new(state.spec_stock(), state.spec_ledger(), state.spec_tax_liability(), state.spec_crm_event_count(), logistics_event_count)),
    }
}

pub fn apply_logistics_projected_event(state: &ValidSystemState) -> (r: DomainResult<ValidSystemState>)
    ensures
        r == apply_logistics_projected_spec(*state),
{
    match checked_add(state.logistics_event_count, 1, "apply_logistics_projected_event") {
        Err(e) => Err(e),
        Ok(c) => Ok(ValidSystemState::new(state.stock, state.ledger.clone(), state.tax_liability, state.crm_event_count, c)),
    }
}

/// Capturing `amount` more on the ledger.
pub open spec fn record_captured_payment_spec(ledger: PaymentLedger, amount: u128) -> DomainResult<PaymentLedger> {
    if ledger.spec_captured() + amount > u128::MAX {
        Err(ValidationError::Overflow("record_captured_payment"))
    } else if ledger.spec_refunded() > ledger.spec_captured() + amount {
        Err(ValidationError::Invariant("refunded exceeds captured"))
    } else {
        Ok(PaymentLedger::spec_new((ledger.spec_captured() + amount) as u128, ledger.spec_refunded()))
    }
}

pub fn record_captured_payment(ledger: &PaymentLedger, amount: Money) -> (r: DomainResult<PaymentLedger>)
    ensures
        r == record_captured_payment_spec(*ledger, amount),
{
    match checked_add(ledger.captured(), amount, "record_captured_payment") {
        Err(e) => Err(e),
        Ok(c) => PaymentLedger::try_new(c, ledger.refunded()),
    }
}

/// The state after one event: money events move the ledger, stock events move
/// the stock of the state's SKU, tax events add to the liability, CRM and
/// logistics events are counted, and order events change nothing.
pub open spec fn apply_domain_event_spec(state: ValidSystemState, event: DomainEvent) -> DomainResult<ValidSystemState> {
    match event {
        DomainEvent::OrderPlaced(_, _) | DomainEvent::OrderShipped(_) => Ok(state),
        DomainEvent::PaymentCaptured(_, amount) => match record_captured_payment_spec(state.spec_ledger(), amount) {
            Err(e) => Err(e),
            Ok(ledger) => Ok(ValidSystemState::spec_new(state.spec_stock(), ledger, state.spec_tax_liability(), state.spec_crm_event_count(), state.spec_logistics_event_count())),
        },
        DomainEvent::RefundIssued(_, amount) => apply_refund_issued_spec(state, amount),
        DomainEvent::StockReserved(sku, q) => apply_stock_reserved_spec(state, sku, q),
        DomainEvent::ReservationReleased(sku, q) => apply_reservation_released_spec(state, sku, q),
        DomainEvent::ReservedShipmentConfirmed(sku, q) => apply_reserved_shipment_confirmed_spec(state, sku, q),
        DomainEvent::TaxLiabilityRecorded(_, amount) => apply_tax_liability_spec(state, amount),
        DomainEvent::LeadConverted(_, _) | DomainEvent::SupportCaseOpened(_, _) => apply_crm_projected_spec(state),
        DomainEvent::ShipmentPlanned(_, _) | DomainEvent::ShipmentDelivered(_) | DomainEvent::ReturnApproved(_, _, _) => apply_logistics_projected_spec(state),
    }
}

pub fn apply_domain_event(state: &ValidSystemState, event: &DomainEvent) -> (r: DomainResult<ValidSystemState>)
    ensures
        r == apply_domain_event_spec(*state, *event),
{
    match event {
        DomainEvent::OrderPlaced(_, _) | DomainEvent::OrderShipped(_) => Ok(state.clone()),
        DomainEvent::PaymentCaptured(_, amount) => match record_captured_payment(&state.ledger, *amount) {
            Err(e) => Err(e),
            Ok(ledger) => Ok(ValidSystemState::new(state.stock, ledger, state.tax_liability, state.crm_event_count, state.logistics_event_count)),
        },
        DomainEvent::RefundIssued(_, amount) => apply_refund_issued_event(state, *amount),
        DomainEvent::StockReserved(sku, quantity) => apply_stock_reserved_event(state, *sku, *quantity),
        DomainEvent::ReservationReleased(sku, quantity) => apply_reservation_released_event(state, *sku, *quantity),
        DomainEvent::ReservedShipmentConfirmed(sku, quantity) => apply_reserved_shipment_confirmed_event(state, *sku, *quantity),
        DomainEvent::TaxLiabilityRecorded(_, amount) => apply_tax_liability_recorded_event(state, *amount),
        _ => {
            if domain_event_is_crm(event) {
                apply_crm_projected_event(state)
            } else if domain_event_is_logistics(event) {
                apply_logistics_projected_event(state)
            } else {
                Ok(state.clone())
            }
        },
    }
}

pub open spec fn domain_event_step() -> spec_fn(ValidSystemState, DomainEvent) -> DomainResult<ValidSystemState> {
    |s: ValidSystemState, e: DomainEvent| apply_domain_event_spec(s, e)
}

pub fn replay_domain_events(state: ValidSystemState, events: &[DomainEvent]) -> (r: DomainResult<ValidSystemState>)
    ensures
        r == try_fold_spec(state, events@, domain_event_step()),
{
    let mut cur = state;
    let mut i: usize = 0;
    while i < events.len()
        invariant
            i <= events.len(),
            try_fold_spec(state, events@.take(i as int), domain_event_step()) == Ok::<ValidSystemState, ValidationError>(cur),
        decreases events.len() - i,
    {
        proof {
            lemma_try_fold_take_step(state, events@, domain_event_step(), i as int);
        }
        match apply_domain_event(&cur, &events[i]) {
            Ok(next) => {
                cur = next;
            },
            Err(e) => {
                proof {
                    lemma_try_fold_err_sticks(state, events@, domain_event_step(), i + 1);
                }
                return Err(e);
            },
        }
        i += 1;
    }
    proof {
        assert(events@.take(events.len() as int) =~= events@);
    }
    Ok(cur)
}

/// Applying an event under a key: a key seen before leaves everything as it
/// is; a new key applies the event and is then remembered.
pub open spec fn apply_idempotent_spec(key: IdempotencyKey, event: DomainEvent, state: ValidSystemState, processed: Seq<IdempotencyKey>) -> DomainResult<(ValidSystemState, Seq<IdempotencyKey>)> {
    if processed.contains(key) {
        Ok((state, processed))
    } else {
        match apply_domain_event_spec(state, event) {
            Err(e) => Err(e),
            Ok(next) => Ok((next, seq![key] + processed)),
        }
    }
}

pub fn apply_idempotent_domain_event(key: IdempotencyKey, event: &DomainEvent, state: ValidSystemState, idempotency: IdempotencyState) -> (r: DomainResult<(ValidSystemState, IdempotencyState)>)
    ensures
        match r {
            Ok(pair) => apply_idempotent_spec(key, *event, state, idempotency.spec_processed()@)
                == Ok::<(ValidSystemState, Seq<IdempotencyKey>), ValidationError>((pair.0, pair.1.spec_processed()@)),
            Err(e) => apply_idempotent_spec(key, *event, state, idempotency.spec_processed()@)
                == Err::<(ValidSystemState, Seq<IdempotencyKey>), ValidationError>(e),
        },
{
    if already_processed(key, &idempotency) {
        Ok((state, idempotency))
    } else {
        match apply_domain_event(&state, event) {
            Err(e) => Err(e),
            Ok(next) => Ok((next, mark_processed(key, &idempotency))),
        }
    }
}

/// Delivering an event again under a key that was already applied changes
/// neither the state nor the set of processed keys, whatever the event.
pub proof fn lemma_idempotent_redelivery_is_noop(key: IdempotencyKey, first: DomainEvent, again: DomainEvent, state: ValidSystemState, processed: Seq<IdempotencyKey>)
    requires
        apply_idempotent_spec(key, first, state, processed) is Ok,
    ensures
        apply_idempotent_spec(key, again, apply_idempotent_spec(key, first, state, processed)->Ok_0.0, apply_idempotent_spec(key, first, state, processed)->Ok_0.1)
            == apply_idempotent_spec(key, first, state, processed),
{
    if !processed.contains(key) {
        assert((seq![key] + processed)[0] == key);
    }
}

pub fn replay_from_snapshot(snapshot: &EventSnapshot, events: &[DomainEvent]) -> (r: DomainResult<ValidSystemState>)
    ensures
        r == try_fold_spec(snapshot.spec_state(), events@, domain_event_step()),
{
    replay_domain_events(snapshot.state.clone(), events)
}

/// Replaying two streams one after the other is replaying their concatenation;
/// a snapshot taken in between therefore loses nothing.
pub proof fn lemma_replay_concatenation(state: ValidSystemState, first: Seq<DomainEvent>, rest: Seq<DomainEvent>)
    ensures
        try_fold_spec(state, first + rest, domain_event_step()) == (match try_fold_spec(state, first, domain_event_step()) {
            Err(e) => Err(e),
            Ok(mid) => try_fold_spec(mid, rest, domain_event_step()),
        }),
{
    lemma_try_fold_append(state, first, rest, domain_event_step());
}

/// One event keeps a valid state valid.
pub proof fn lemma_apply_domain_event_keeps_valid(state: ValidSystemState, event: DomainEvent)
    requires
        state.valid(),
        apply_domain_event_spec(state, event) is Ok,
    ensures
        apply_domain_event_spec(state, event)->Ok_0.valid(),
{
}

/// Replay keeps a valid state valid.
pub proof fn lemma_replay_keeps_valid(state: ValidSystemState, events: Seq<DomainEvent>)
    requires
        state.valid(),
        try_fold_spec(state, events, domain_event_step()) is Ok,
    ensures
        try_fold_spec(state, events, domain_event_step())->Ok_0.valid(),
    decreases events.len(),
{
    if events.len() > 0 {
        lemma_replay_keeps_valid(state, events.drop_last());
        let mid = try_fold_spec(state, events.drop_last(), domain_event_step())->Ok_0;
        lemma_apply_domain_event_keeps_valid(mid, events.last());
    }
}

pub open spec fn captured_amount_value() -> spec_fn(DomainEvent) -> nat {
    |e: DomainEvent| match e {
        DomainEvent::PaymentCaptured(_, amount) => amount as nat,
        _ => 0,
    }
}

pub open spec fn refunded_amount_value() -> spec_fn(DomainEvent) -> nat {
    |e: DomainEvent| match e {
        DomainEvent::RefundIssued(_, amount) => amount as nat,
        _ => 0,
    }
}

pub open spec fn tax_amount_value() -> spec_fn(DomainEvent) -> nat {
    |e: DomainEvent| match e {
        DomainEvent::TaxLiabilityRecorded(_, amount) => amount as nat,
        _ => 0,
    }
}

/// `start` plus the amounts picked out by `f`, with an overflow error when the
/// sum leaves `u128`.
pub open spec fn projection_spec(start: u128, events: Seq<DomainEvent>, f: spec_fn(DomainEvent) -> nat, context: &'static str) -> DomainResult<u128> {
    total_result(start + sum_nat(events, f), context)
}

fn fold_amounts(start: Money, events: &[DomainEvent], which: u8, context: &'static str) -> (r: DomainResult<Money>)
    requires
        which < 3,
    ensures
        r == projection_spec(start, events@, if which == 0 { captured_amount_value() } else if which == 1 { refunded_amount_value() } else { tax_amount_value() }, context),
{
    let ghost f = if which == 0 { captured_amount_value() } else if which == 1 { refunded_amount_value() } else { tax_amount_value() };
    let mut acc: Money = start;
    let mut i: usize = 0;
    while i < events.len()
        invariant
            i <= events.len(),
            which < 3,
            acc == start + sum_nat(events@.take(i as int), f),
            f == (if which == 0 { captured_amount_value() } else if which == 1 { refunded_amount_value() } else { tax_amount_value() }),
        decreases events.len() - i,
    {
        proof {
            lemma_sum_nat_take_step(events@, f, i as int);
        }
        let ev = events[i];
        let amount: Money = match ev {
            DomainEvent::PaymentCaptured(_, a) => if which == 0 { a } else { 0 },
            DomainEvent::RefundIssued(_, a) => if which == 1 { a } else { 0 },
            DomainEvent::TaxLiabilityRecorded(_, a) => if which == 2 { a } else { 0 },
            _ => 0,
        };
        proof {
            assert(ev == events@[i as int]);
            if which == 0 {
                assert(f == captured_amount_value());
                assert(amount == captured_amount_value()(ev));
            } else if which == 1 {
                assert(f == refunded_amount_value());
                assert(amount == refunded_amount_value()(ev));
            } else {
                assert(f == tax_amount_value());
                assert(amount == tax_amount_value()(ev));
            }
            assert(amount == f(ev));
        }
        match acc.checked_add(amount) {
            Some(v) => {
                acc = v;
            },
            None => {
                proof {
                    lemma_sum_nat_prefix_le(events@, f, i + 1);
                }
                return Err(ValidationError::Overflow(context));
            },
        }
        i += 1;
    }
    proof {
        lemma_sum_nat_take_all(events@, f);
    }
    Ok(acc)
}

pub fn ledger_captured_fold(captured: Money, events: &[DomainEvent]) -> (r: DomainResult<Money>)
    ensures
        r == projection_spec(captured, events@, captured_amount_value(), "ledger_captured_fold"),
{
    fold_amounts(captured, events, 0, "ledger_captured_fold")
}

pub fn ledger_refunded_fold(refunded: Money, events: &[DomainEvent]) -> (r: DomainResult<Money>)
    ensures
        r == projection_spec(refunded, events@, refunded_amount_value(), "ledger_refunded_fold"),
{
    fold_amounts(refunded, events, 1, "ledger_refunded_fold")
}

pub fn tax_liability_fold(liability: Money, events: &[DomainEvent]) -> (r: DomainResult<Money>)
    ensures
        r == projection_spec(liability, events@, tax_amount_value(), "tax_liability_fold"),
{
    fold_amounts(liability, events, 2, "tax_liability_fold")
}

pub fn project_tax_liability(opening_liability: Money, events: &[DomainEvent]) -> (r: DomainResult<Money>)
    ensures
        r == projection_spec(opening_liability, events@, tax_amount_value(), "tax_liability_fold"),
{
    tax_liability_fold(opening_liability, events)
}

/// The ledger after one event: captures and refunds move it, nothing else does.
pub open spec fn project_ledger_step_spec(ledger: PaymentLedger, event: DomainEvent) -> DomainResult<PaymentLedger> {
    match event {
        DomainEvent::PaymentCaptured(_, amount) => record_captured_payment_spec(ledger, amount),
        DomainEvent::RefundIssued(_, amount) => issue_refund_spec(ledger, amount),
        _ => Ok(ledger),
    }
}

pub open spec fn ledger_step() -> spec_fn(PaymentLedger, DomainEvent) -> DomainResult<PaymentLedger> {
    |l: PaymentLedger, e: DomainEvent| project_ledger_step_spec(l, e)
}

pub fn project_ledger(ledger: PaymentLedger, events: &[DomainEvent]) -> (r: DomainResult<PaymentLedger>)
    ensures
        r == try_fold_spec(ledger, events@, ledger_step()),
{
    let mut cur = ledger;
    let mut i: usize = 0;
    while i < events.len()
        invariant
            i <= events.len(),
            try_fold_spec(ledger, events@.take(i as int), ledger_step()) == Ok::<PaymentLedger, ValidationError>(cur),
        decreases events.len() - i,
    {
        proof {
            lemma_try_fold_take_step(ledger, events@, ledger_step(), i as int);
        }
        let step = match events[i] {
            DomainEvent::PaymentCaptured(_, amount) => record_captured_payment(&cur, amount),
            DomainEvent::RefundIssued(_, amount) => issue_refund(&cur, amount),
            _ => Ok(cur.clone()),
        };
        match step {
            Ok(next) => {
                cur = next;
            },
            Err(e) => {
                proof {
                    lemma_try_fold_err_sticks(ledger, events@, ledger_step(), i + 1);
                }
                return Err(e);
            },
        }
        i += 1;
    }
    proof {
        assert(events@.take(events.len() as int) =~= events@);
    }
    Ok(cur)
}

/// Whenever a full replay succeeds, the ledger projection of the same stream
/// succeeds too and agrees with the replayed ledger.
pub proof fn lemma_ledger_projection_agrees_with_replay(state: ValidSystemState, events: Seq<DomainEvent>)
    requires
        try_fold_spec(state, events, domain_event_step()) is Ok,
    ensures
        try_fold_spec(state.spec_ledger(), events, ledger_step()) == Ok::<PaymentLedger, ValidationError>(try_fold_spec(state, events, domain_event_step())->Ok_0.spec_ledger()),
    decreases events.len(),
{
    if events.len() > 0 {
        lemma_ledger_projection_agrees_with_replay(state, events.drop_last());
    }
}

/// Whenever a full replay succeeds, the tax projection of the same stream
/// succeeds too and equals the replayed liability.
pub proof fn lemma_tax_projection_agrees_with_replay(state: ValidSystemState, events: Seq<DomainEvent>)
    requires
        try_fold_spec(state, events, domain_event_step()) is Ok,
    ensures
        projection_spec(state.spec_tax_liability(), events, tax_amount_value(), "tax_liability_fold")
            == Ok::<u128, ValidationError>(try_fold_spec(state, events, domain_event_step())->Ok_0.spec_tax_liability()),
    decreases events.len(),
{
    if events.len() > 0 {
        let p = events.drop_last();
        lemma_tax_projection_agrees_with_replay(state, p);
        assert(events.take(events.len() - 1) =~= p);
        lemma_sum_nat_take_step(events, tax_amount_value(), events.len() - 1);
        lemma_sum_nat_take_all(events, tax_amount_value());
        assert(events.take(events.len() as int) =~= events);
    }
}

/// The accessor lemmas for the records of this module.
pub broadcast group group_event_sourcing_record_fields {
    lemma_event_envelope_fields,
    lemma_event_stream_fields,
    lemma_webhook_ordering_state_fields,
    lemma_idempotency_state_fields,
    lemma_valid_system_state_fields,
    lemma_event_snapshot_fields,
}

} // verus!
