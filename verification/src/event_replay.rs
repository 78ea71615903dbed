//! Replays that also report how many steps they took, and single steps that
//! keep the state before and after an event.

use vstd::prelude::*;
use crate::event_sourcing::{DomainEvent, EventEnvelope, ValidSystemState, WebhookOrderingState, apply_crm_projected_event, apply_crm_projected_spec, apply_domain_event_spec, apply_logistics_projected_event, apply_logistics_projected_spec, apply_refund_issued_event, apply_refund_issued_spec, apply_reservation_released_event, apply_reservation_released_spec, apply_reserved_shipment_confirmed_event, apply_reserved_shipment_confirmed_spec, apply_stock_reserved_event, apply_stock_reserved_spec, apply_tax_liability_recorded_event, apply_tax_liability_spec, apply_webhook, apply_webhook_spec, domain_event_is_crm, domain_event_is_crm_spec, domain_event_is_logistics, domain_event_is_logistics_spec, replay_webhook_stream, webhook_step};
use crate::foundation::{DomainResult, Id, Money, Nat, OrderId, Quantity, Sku, ValidationError, lemma_try_fold_err_sticks, lemma_try_fold_take_step, try_fold_spec};

verus! {

/// A result together with the number of steps spent computing it.
#[derive(Clone, Debug, PartialEq, Eq)]
pub struct Timed<T> {
    pub ret: T,
    pub time: Nat,
}

impl<T> Timed<T> {
    pub open spec fn spec_ret(&self) -> T {
        self.ret
    }

    pub open spec fn spec_time(&self) -> Nat {
        self.time
    }
}

impl<T> Timed<T> {
    pub fn new(ret: T, time: Nat) -> (r: Self)
        ensures
            r.spec_ret() == ret,
            r.spec_time() == time,
    {
        Self { ret, time }
    }
}

/// Webhook replay, timed by the number of events read.
pub fn webhook_replay_in_steps(state: WebhookOrderingState, events: &[EventEnvelope]) -> (r: DomainResult<Timed<WebhookOrderingState>>)
    ensures
        match r {
            Ok(t) => try_fold_spec(state, events@, webhook_step()) == Ok::<WebhookOrderingState, ValidationError>(t.spec_ret()) && t.spec_time() == events.len(),
            Err(e) => try_fold_spec(state, events@, webhook_step()) == Err::<WebhookOrderingState, ValidationError>(e),
        },
{
    match replay_webhook_stream(state, events) {
        Err(e) => Err(e),
        Ok(next) => Ok(Timed::new(next, events.len() as Nat)),
    }
}

#[derive(Clone, Debug, PartialEq, Eq, Structural)]
pub enum WebhookOrderingStep {
    Accept { before: WebhookOrderingState, sequence: Nat, after: WebhookOrderingState },
}

impl WebhookOrderingStep {
    pub fn accept(before: WebhookOrderingState, sequence: Nat) -> (r: DomainResult<Self>)
        ensures
            r == (match apply_webhook_spec(before, sequence) {
                Err(e) => Err(e),
                Ok(after) => Ok(WebhookOrderingStep::Accept { before, sequence, after }),
            }),
    {
        match apply_webhook(&before, sequence) {
            Err(e) => Err(e),
            Ok(after) => Ok(Self::Accept { before, sequence, after }),
        }
    }

    pub fn before(&self) -> (r: &WebhookOrderingState)
        ensures
            *r == self->before,
    {
        match self {
            Self::Accept { before, .. } => before,
        }
    }

    pub fn after(&self) -> (r: &WebhookOrderingState)
        ensures
            *r == self->after,
    {
        match self {
            Self::Accept { after, .. } => after,
        }
    }
}

/// The timed webhook replay when it fits in `bound` steps, `None` when it does not.
pub fn webhook_replay_within_steps(state: WebhookOrderingState, events: &[EventEnvelope], bound: Nat) -> (r: DomainResult<Option<Timed<WebhookOrderingState>>>)
    ensures
        match r {
            Ok(Some(t)) => try_fold_spec(state, events@, webhook_step()) == Ok::<WebhookOrderingState, ValidationError>(t.spec_ret())
                && t.spec_time() == events.len() && events.len() <= bound,
            Ok(None) => try_fold_spec(state, events@, webhook_step()) is Ok && events.len() > bound,
            Err(e) => try_fold_spec(state, events@, webhook_step()) == Err::<WebhookOrderingState, ValidationError>(e),
        },
{
    match webhook_replay_in_steps(state, events) {
        Err(e) => Err(e),
        Ok(replay) => {
            if replay.time <= bound {
                Ok(Some(replay))
            } else {
                Ok(None)
            }
        },
    }
}

/// The events that move a system state without naming an order.
#[derive(Clone, Copy, Debug, PartialEq, Eq, Structural)]
pub enum ValidSystemEvent {
    StockReserved(Sku, Quantity),
    RefundIssued(Money),
    ReservationReleased(Sku, Quantity),
    ReservedShipmentConfirmed(Sku, Quantity),
    TaxLiabilityRecorded(Money),
    CrmProjected,
    LogisticsProjected,
}

pub open spec fn apply_valid_system_event_spec(state: ValidSystemState, event: ValidSystemEvent) -> DomainResult<ValidSystemState> {
    match event {
        ValidSystemEvent::StockReserved(sku, q) => apply_stock_reserved_spec(state, sku, q),
        ValidSystemEvent::RefundIssued(amount) => apply_refund_issued_spec(state, amount),
        ValidSystemEvent::ReservationReleased(sku, q) => apply_reservation_released_spec(state, sku, q),
        ValidSystemEvent::ReservedShipmentConfirmed(sku, q) => apply_reserved_shipment_confirmed_spec(state, sku, q),
        ValidSystemEvent::TaxLiabilityRecorded(amount) => apply_tax_liability_spec(state, amount),
        ValidSystemEvent::CrmProjected => apply_crm_projected_spec(state),
        ValidSystemEvent::LogisticsProjected => apply_logistics_projected_spec(state),
    }
}

pub open spec fn valid_system_step() -> spec_fn(ValidSystemState, ValidSystemEvent) -> DomainResult<ValidSystemState> {
    |s: ValidSystemState, e: ValidSystemEvent| apply_valid_system_event_spec(s, e)
}

fn apply_valid_system_event(state: &ValidSystemState, event: ValidSystemEvent) -> (r: DomainResult<ValidSystemState>)
    ensures
        r == apply_valid_system_event_spec(*state, event),
{
    match event {
        ValidSystemEvent::StockReserved(sku, quantity) => apply_stock_reserved_event(state, sku, quantity),
        ValidSystemEvent::RefundIssued(amount) => apply_refund_issued_event(state, amount),
        ValidSystemEvent::ReservationReleased(sku, quantity) => apply_reservation_released_event(state, sku, quantity),
        ValidSystemEvent::ReservedShipmentConfirmed(sku, quantity) => apply_reserved_shipment_confirmed_event(state, sku, quantity),
        ValidSystemEvent::TaxLiabilityRecorded(amount) => apply_tax_liability_recorded_event(state, amount),
        ValidSystemEvent::CrmProjected => apply_crm_projected_event(state),
        ValidSystemEvent::LogisticsProjected => apply_logistics_projected_event(state),
    }
}

/// Replays system events one by one, timed by the number of events read.
pub fn valid_system_replay_in_steps(state: ValidSystemState, events: &[ValidSystemEvent]) -> (r: DomainResult<Timed<ValidSystemState>>)
    ensures
        match r {
            Ok(t) => try_fold_spec(state, events@, valid_system_step()) == Ok::<ValidSystemState, ValidationError>(t.spec_ret()) && t.spec_time() == events.len(),
            Err(e) => try_fold_spec(state, events@, valid_system_step()) == Err::<ValidSystemState, ValidationError>(e),
        },
{
    let mut cur = state.clone();
    let mut i: usize = 0;
    while i < events.len()
        invariant
            i <= events.len(),
            try_fold_spec(state, events@.take(i as int), valid_system_step()) == Ok::<ValidSystemState, ValidationError>(cur),
        decreases events.len() - i,
    {
        proof {
            lemma_try_fold_take_step(state, events@, valid_system_step(), i as int);
        }
        match apply_valid_system_event(&cur, events[i]) {
            Ok(next) => {
                cur = next;
            },
            Err(e) => {
                proof {
                    lemma_try_fold_err_sticks(state, events@, valid_system_step(), i + 1);
                }
                return Err(e);
            },
        }
        i += 1;
    }
    proof {
        assert(events@.take(events.len() as int) =~= events@);
    }
    Ok(Timed::new(cur, events.len() as Nat))
}

/// A system event replayed on its own: the state before, the event's data
/// and the state after.
#[derive(Clone, Debug, PartialEq, Eq, Structural)]
pub enum ValidSystemEventStep {
    StockReserved { before: ValidSystemState, sku: Sku, quantity: Quantity, after: ValidSystemState },
    RefundIssued { before: ValidSystemState, amount: Money, after: ValidSystemState },
    ReservationReleased { before: ValidSystemState, sku: Sku, quantity: Quantity, after: ValidSystemState },
    ReservedShipmentConfirmed { before: ValidSystemState, sku: Sku, quantity: Quantity, after: ValidSystemState },
    TaxLiabilityRecorded { before: ValidSystemState, amount: Money, after: ValidSystemState },
    CrmProjected { before: ValidSystemState, after: ValidSystemState },
    LogisticsProjected { before: ValidSystemState, after: ValidSystemState },
}

impl ValidSystemEventStep {
    pub fn stock_reserved(before: ValidSystemState, sku: Sku, quantity: Quantity) -> (r: DomainResult<Self>)
        ensures
            r == (match apply_stock_reserved_spec(before, sku, quantity) {
                Err(e) => Err(e),
                Ok(after) => Ok(ValidSystemEventStep::StockReserved { before, sku, quantity, after }),
            }),
    {
        match apply_stock_reserved_event(&before, sku, quantity) {
            Err(e) => Err(e),
            Ok(after) => Ok(Self::StockReserved { before, sku, quantity, after }),
        }
    }

    pub fn refund_issued(before: ValidSystemState, amount: Money) -> (r: DomainResult<Self>)
        ensures
            r == (match apply_refund_issued_spec(before, amount) {
                Err(e) => Err(e),
                Ok(after) => Ok(ValidSystemEventStep::RefundIssued { before, amount, after }),
            }),
    {
        match apply_refund_issued_event(&before, amount) {
            Err(e) => Err(e),
            Ok(after) => Ok(Self::RefundIssued { before, amount, after }),
        }
    }

    pub fn reservation_released(before: ValidSystemState, sku: Sku, quantity: Quantity) -> (r: DomainResult<Self>)
        ensures
            r == (match apply_reservation_released_spec(before, sku, quantity) {
                Err(e) => Err(e),
                Ok(after) => Ok(ValidSystemEventStep::ReservationReleased { before, sku, quantity, after }),
            }),
    {
        match apply_reservation_released_event(&before, sku, quantity) {
            Err(e) => Err(e),
            Ok(after) => Ok(Self::ReservationReleased { before, sku, quantity, after }),
        }
    }

    pub fn reserved_shipment_confirmed(before: ValidSystemState, sku: Sku, quantity: Quantity) -> (r: DomainResult<Self>)
        ensures
            r == (match apply_reserved_shipment_confirmed_spec(before, sku, quantity) {
                Err(e) => Err(e),
                Ok(after) => Ok(ValidSystemEventStep::ReservedShipmentConfirmed { before, sku, quantity, after }),
            }),
    {
        match apply_reserved_shipment_confirmed_event(&before, sku, quantity) {
            Err(e) => Err(e),
            Ok(after) => Ok(Self::ReservedShipmentConfirmed { before, sku, quantity, after }),
        }
    }

    pub fn tax_liability_recorded(before: ValidSystemState, amount: Money) -> (r: DomainResult<Self>)
        ensures
            r == (match apply_tax_liability_spec(before, amount) {
                Err(e) => Err(e),
                Ok(after) => Ok(ValidSystemEventStep::TaxLiabilityRecorded { before, amount, after }),
            }),
    {
        match apply_tax_liability_recorded_event(&before, amount) {
            Err(e) => Err(e),
            Ok(after) => Ok(Self::TaxLiabilityRecorded { before, amount, after }),
        }
    }

    pub fn crm_projected(before: ValidSystemState) -> (r: DomainResult<Self>)
        ensures
            r == (match apply_crm_projected_spec(before) {
                Err(e) => Err(e),
                Ok(after) => Ok(ValidSystemEventStep::CrmProjected { before, after }),
            }),
    {
        match apply_crm_projected_event(&before) {
            Err(e) => Err(e),
            Ok(after) => Ok(Self::CrmProjected { before, after }),
        }
    }

    pub fn logistics_projected(before: ValidSystemState) -> (r: DomainResult<Self>)
        ensures
            r == (match apply_logistics_projected_spec(before) {
                Err(e) => Err(e),
                Ok(after) => Ok(ValidSystemEventStep::LogisticsProjected { before, after }),
            }),
    {
        match apply_logistics_projected_event(&before) {
            Err(e) => Err(e),
            Ok(after) => Ok(Self::LogisticsProjected { before, after }),
        }
    }
}

/// A domain event replayed on its own, for the events that move the state.
#[derive(Clone, Debug, PartialEq, Eq, Structural)]
pub enum ValidDomainEventStep {
    StockReserved { event: DomainEvent, before: ValidSystemState, after: ValidSystemState },
    RefundIssued { event: DomainEvent, before: ValidSystemState, after: ValidSystemState },
    ReservationReleased { event: DomainEvent, before: ValidSystemState, after: ValidSystemState },
    ReservedShipmentConfirmed { event: DomainEvent, before: ValidSystemState, after: ValidSystemState },
    TaxLiabilityRecorded { event: DomainEvent, before: ValidSystemState, after: ValidSystemState },
    CrmProjected { event: DomainEvent, before: ValidSystemState, after: ValidSystemState },
    LogisticsProjected { event: DomainEvent, before: ValidSystemState, after: ValidSystemState },
}

impl ValidDomainEventStep {
    pub open spec fn event_of(self) -> DomainEvent {
        match self {
            ValidDomainEventStep::StockReserved { event, .. }
            | ValidDomainEventStep::RefundIssued { event, .. }
            | ValidDomainEventStep::ReservationReleased { event, .. }
            | ValidDomainEventStep::ReservedShipmentConfirmed { event, .. }
            | ValidDomainEventStep::TaxLiabilityRecorded { event, .. }
            | ValidDomainEventStep::CrmProjected { event, .. }
            | ValidDomainEventStep::LogisticsProjected { event, .. } => event,
        }
    }

    pub open spec fn before_of(self) -> ValidSystemState {
        match self {
            ValidDomainEventStep::StockReserved { before, .. }
            | ValidDomainEventStep::RefundIssued { before, .. }
            | ValidDomainEventStep::ReservationReleased { before, .. }
            | ValidDomainEventStep::ReservedShipmentConfirmed { before, .. }
            | ValidDomainEventStep::TaxLiabilityRecorded { before, .. }
            | ValidDomainEventStep::CrmProjected { before, .. }
            | ValidDomainEventStep::LogisticsProjected { before, .. } => before,
        }
    }

    pub open spec fn after_of(self) -> ValidSystemState {
        match self {
            ValidDomainEventStep::StockReserved { after, .. }
            | ValidDomainEventStep::RefundIssued { after, .. }
            | ValidDomainEventStep::ReservationReleased { after, .. }
            | ValidDomainEventStep::ReservedShipmentConfirmed { after, .. }
            | ValidDomainEventStep::TaxLiabilityRecorded { after, .. }
            | ValidDomainEventStep::CrmProjected { after, .. }
            | ValidDomainEventStep::LogisticsProjected { after, .. } => after,
        }
    }

    pub fn stock_reserved(before: ValidSystemState, sku: Sku, quantity: Quantity) -> (r: DomainResult<Self>)
        ensures
            r == (match apply_stock_reserved_spec(before, sku, quantity) {
                Err(e) => Err(e),
                Ok(after) => Ok(ValidDomainEventStep::StockReserved { event: DomainEvent::StockReserved(sku, quantity), before, after }),
            }),
    {
        match apply_stock_reserved_event(&before, sku, quantity) {
            Err(e) => Err(e),
            Ok(after) => Ok(Self::StockReserved { event: DomainEvent::StockReserved(sku, quantity), before, after }),
        }
    }

    pub fn refund_issued(before: ValidSystemState, order_id: OrderId, amount: Money) -> (r: DomainResult<Self>)
        ensures
            r == (match apply_refund_issued_spec(before, amount) {
                Err(e) => Err(e),
                Ok(after) => Ok(ValidDomainEventStep::RefundIssued { event: DomainEvent::RefundIssued(order_id, amount), before, after }),
            }),
    {
        match apply_refund_issued_event(&before, amount) {
            Err(e) => Err(e),
            Ok(after) => Ok(Self::RefundIssued { event: DomainEvent::RefundIssued(order_id, amount), before, after }),
        }
    }

    pub fn reservation_released(before: ValidSystemState, sku: Sku, quantity: Quantity) -> (r: DomainResult<Self>)
        ensures
            r == (match apply_reservation_released_spec(before, sku, quantity) {
                Err(e) => Err(e),
                Ok(after) => Ok(ValidDomainEventStep::ReservationReleased { event: DomainEvent::ReservationReleased(sku, quantity), before, after }),
            }),
    {
        match apply_reservation_released_event(&before, sku, quantity) {
            Err(e) => Err(e),
            Ok(after) => Ok(Self::ReservationReleased { event: DomainEvent::ReservationReleased(sku, quantity), before, after }),
        }
    }

    pub fn reserved_shipment_confirmed(before: ValidSystemState, sku: Sku, quantity: Quantity) -> (r: DomainResult<Self>)
        ensures
            r == (match apply_reserved_shipment_confirmed_spec(before, sku, quantity) {
                Err(e) => Err(e),
                Ok(after) => Ok(ValidDomainEventStep::ReservedShipmentConfirmed { event: DomainEvent::ReservedShipmentConfirmed(sku, quantity), before, after }),
            }),
    {
        match apply_reserved_shipment_confirmed_event(&before, sku, quantity) {
            Err(e) => Err(e),
            Ok(after) => Ok(Self::ReservedShipmentConfirmed { event: DomainEvent::ReservedShipmentConfirmed(sku, quantity), before, after }),
        }
    }

    pub fn tax_liability_recorded(before: ValidSystemState, id: Id, amount: Money) -> (r: DomainResult<Self>)
        ensures
            r == (match apply_tax_liability_spec(before, amount) {
                Err(e) => Err(e),
                Ok(after) => Ok(ValidDomainEventStep::TaxLiabilityRecorded { event: DomainEvent::TaxLiabilityRecorded(id, amount), before, after }),
            }),
    {
        match apply_tax_liability_recorded_event(&before, amount) {
            Err(e) => Err(e),
            Ok(after) => Ok(Self::TaxLiabilityRecorded { event: DomainEvent::TaxLiabilityRecorded(id, amount), before, after }),
        }
    }

    pub fn crm_projected(before: ValidSystemState, event: DomainEvent) -> (r: DomainResult<Self>)
        ensures
            r == (if !domain_event_is_crm_spec(event) {
                Err(ValidationError::EventStreamInvalid)
            } else {
                match apply_crm_projected_spec(before) {
                    Err(e) => Err(e),
                    Ok(after) => Ok(ValidDomainEventStep::CrmProjected { event, before, after }),
                }
            }),
    {
        if !domain_event_is_crm(&event) {
            return Err(ValidationError::EventStreamInvalid);
        }
        match apply_crm_projected_event(&before) {
            Err(e) => Err(e),
            Ok(after) => Ok(Self::CrmProjected { event, before, after }),
        }
    }

    pub fn logistics_projected(before: ValidSystemState, event: DomainEvent) -> (r: DomainResult<Self>)
        ensures
            r == (if !domain_event_is_logistics_spec(event) {
                Err(ValidationError::EventStreamInvalid)
            } else {
                match apply_logistics_projected_spec(before) {
                    Err(e) => Err(e),
                    Ok(after) => Ok(ValidDomainEventStep::LogisticsProjected { event, before, after }),
                }
            }),
    {
        if !domain_event_is_logistics(&event) {
            return Err(ValidationError::EventStreamInvalid);
        }
        match apply_logistics_projected_event(&before) {
            Err(e) => Err(e),
            Ok(after) => Ok(Self::LogisticsProjected { event, before, after }),
        }
    }

    /// The step for any state-moving domain event; order and payment-capture
    /// events are refused with `EventStreamInvalid`.
    pub fn from_event(before: ValidSystemState, event: DomainEvent) -> (r: DomainResult<Self>)
        ensures
            (event is OrderPlaced || event is PaymentCaptured || event is OrderShipped)
                ==> r == Err::<Self, ValidationError>(ValidationError::EventStreamInvalid),
            !(event is OrderPlaced || event is PaymentCaptured || event is OrderShipped) ==> match r {
                Ok(step) => apply_domain_event_spec(before, event) == Ok::<ValidSystemState, ValidationError>(step.after_of())
                    && step.before_of() == before && step.event_of() == event,
                Err(e) => apply_domain_event_spec(before, event) == Err::<ValidSystemState, ValidationError>(e),
            },
    {
        match event {
            DomainEvent::StockReserved(sku, quantity) => Self::stock_reserved(before, sku, quantity),
            DomainEvent::RefundIssued(order_id, amount) => Self::refund_issued(before, order_id, amount),
            DomainEvent::ReservationReleased(sku, quantity) => Self::reservation_released(before, sku, quantity),
            DomainEvent::ReservedShipmentConfirmed(sku, quantity) => Self::reserved_shipment_confirmed(before, sku, quantity),
            DomainEvent::TaxLiabilityRecorded(id, amount) => Self::tax_liability_recorded(before, id, amount),
            _ => {
                if domain_event_is_crm(&event) {
                    Self::crm_projected(before, event)
                } else if domain_event_is_logistics(&event) {
                    Self::logistics_projected(before, event)
                } else {
                    Err(ValidationError::EventStreamInvalid)
                }
            },
        }
    }

    pub fn event(&self) -> (r: &DomainEvent)
        ensures
            *r == self.event_of(),
    {
        match self {
            Self::StockReserved { event, .. }
            | Self::RefundIssued { event, .. }
            | Self::ReservationReleased { event, .. }
            | Self::ReservedShipmentConfirmed { event, .. }
            | Self::TaxLiabilityRecorded { event, .. }
            | Self::CrmProjected { event, .. }
            | Self::LogisticsProjected { event, .. } => event,
        }
    }

    pub fn before(&self) -> (r: &ValidSystemState)
        ensures
            *r == self.before_of(),
    {
        match self {
            Self::StockReserved { before, .. }
            | Self::RefundIssued { before, .. }
            | Self::ReservationReleased { before, .. }
            | Self::ReservedShipmentConfirmed { before, .. }
            | Self::TaxLiabilityRecorded { before, .. }
            | Self::CrmProjected { before, .. }
            | Self::LogisticsProjected { before, .. } => before,
        }
    }

    pub fn after(&self) -> (r: &ValidSystemState)
        ensures
            *r == self.after_of(),
    {
        match self {
            Self::StockReserved { after, .. }
            | Self::RefundIssued { after, .. }
            | Self::ReservationReleased { after, .. }
            | Self::ReservedShipmentConfirmed { after, .. }
            | Self::TaxLiabilityRecorded { after, .. }
            | Self::CrmProjected { after, .. }
            | Self::LogisticsProjected { after, .. } => after,
        }
    }
}

/// The timed system replay when it fits in `bound` steps, `None` when it does not.
pub fn valid_system_replay_within_steps(state: ValidSystemState, events: &[ValidSystemEvent], bound: Nat) -> (r: DomainResult<Option<Timed<ValidSystemState>>>)
    ensures
        match r {
            Ok(Some(t)) => try_fold_spec(state, events@, valid_system_step()) == Ok::<ValidSystemState, ValidationError>(t.spec_ret())
                && t.spec_time() == events.len() && events.len() <= bound,
            Ok(None) => try_fold_spec(state, events@, valid_system_step()) is Ok && events.len() > bound,
            Err(e) => try_fold_spec(state, events@, valid_system_step()) == Err::<ValidSystemState, ValidationError>(e),
        },
{
    match valid_system_replay_in_steps(state, events) {
        Err(e) => Err(e),
        Ok(replay) => {
            if replay.time <= bound {
                Ok(Some(replay))
            } else {
                Ok(None)
            }
        },
    }
}

} // verus!
