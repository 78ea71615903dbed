//! The order-event language: each domain event read as a symbol, and a finite
//! automaton that accepts the words of a well-formed order history.

use vstd::prelude::*;
use crate::event_sourcing::{DomainEvent};

verus! {

#[derive(Clone, Copy, Debug, PartialEq, Eq, Structural)]
pub enum OrderEventSymbol {
    OrderPlaced,
    PaymentCaptured,
    RefundIssued,
    StockReserved,
    OrderShipped,
    Other,
}

#[derive(Clone, Copy, Debug, PartialEq, Eq, Structural)]
pub enum OrderEventValidationState {
    Start,
    Placed,
    Captured,
    Refunded,
    Shipped,
    Invalid,
}

#[derive(Clone, Copy, Debug, Default, PartialEq, Eq)]
pub struct OrderEventValidator;

pub open spec fn domain_event_symbol_spec(event: DomainEvent) -> OrderEventSymbol {
    match event {
        DomainEvent::OrderPlaced(_, _) => OrderEventSymbol::OrderPlaced,
        DomainEvent::PaymentCaptured(_, _) => OrderEventSymbol::PaymentCaptured,
        DomainEvent::RefundIssued(_, _) => OrderEventSymbol::RefundIssued,
        DomainEvent::StockReserved(_, _) => OrderEventSymbol::StockReserved,
        DomainEvent::OrderShipped(_) => OrderEventSymbol::OrderShipped,
        _ => OrderEventSymbol::Other,
    }
}

pub fn domain_event_symbol(event: &DomainEvent) -> (r: OrderEventSymbol)
    ensures
        r == domain_event_symbol_spec(*event),
{
    match event {
        DomainEvent::OrderPlaced(_, _) => OrderEventSymbol::OrderPlaced,
        DomainEvent::PaymentCaptured(_, _) => OrderEventSymbol::PaymentCaptured,
        DomainEvent::RefundIssued(_, _) => OrderEventSymbol::RefundIssued,
        DomainEvent::StockReserved(_, _) => OrderEventSymbol::StockReserved,
        DomainEvent::OrderShipped(_) => OrderEventSymbol::OrderShipped,
        DomainEvent::ReservationReleased(_, _)
        | DomainEvent::ReservedShipmentConfirmed(_, _)
        | DomainEvent::TaxLiabilityRecorded(_, _)
        | DomainEvent::LeadConverted(_, _)
        | DomainEvent::SupportCaseOpened(_, _)
        | DomainEvent::ShipmentPlanned(_, _)
        | DomainEvent::ShipmentDelivered(_)
        | DomainEvent::ReturnApproved(_, _, _) => OrderEventSymbol::Other,
    }
}

pub fn domain_event_symbols(events: &[DomainEvent]) -> (r: Vec<OrderEventSymbol>)
    ensures
        r@ == events@.map_values(|e: DomainEvent| domain_event_symbol_spec(e)),
{
    let mut out: Vec<OrderEventSymbol> = Vec::new();
    let mut i: usize = 0;
    while i < events.len()
        invariant
            i <= events.len(),
            out@ == events@.take(i as int).map_values(|e: DomainEvent| domain_event_symbol_spec(e)),
        decreases events.len() - i,
    {
        out.push(domain_event_symbol(&events[i]));
        proof {
            assert(events@.take(i as int + 1).map_values(|e: DomainEvent| domain_event_symbol_spec(e))
                =~= events@.take(i as int).map_values(|e: DomainEvent| domain_event_symbol_spec(e)).push(domain_event_symbol_spec(events@[i as int])));
        }
        i += 1;
    }
    proof {
        assert(events@.take(events.len() as int) =~= events@);
    }
    out
}

/// The automaton's transition: placed, then any stock reservations, then a
/// capture, then either a refund or a shipment. `Other` leaves the state as it
/// is; every other symbol out of place leads to `Invalid`.
pub open spec fn order_event_validation_step_spec(state: OrderEventValidationState, symbol: OrderEventSymbol) -> OrderEventValidationState {
    match (state, symbol) {
        (OrderEventValidationState::Start, OrderEventSymbol::OrderPlaced)
        | (OrderEventValidationState::Placed, OrderEventSymbol::StockReserved) => OrderEventValidationState::Placed,
        (OrderEventValidationState::Placed, OrderEventSymbol::PaymentCaptured)
        | (OrderEventValidationState::Captured, OrderEventSymbol::StockReserved) => OrderEventValidationState::Captured,
        (OrderEventValidationState::Captured, OrderEventSymbol::RefundIssued) => OrderEventValidationState::Refunded,
        (OrderEventValidationState::Captured, OrderEventSymbol::OrderShipped) => OrderEventValidationState::Shipped,
        (s, OrderEventSymbol::Other) => s,
        _ => OrderEventValidationState::Invalid,
    }
}

pub fn order_event_validation_step(state: OrderEventValidationState, symbol: OrderEventSymbol) -> (r: OrderEventValidationState)
    ensures
        r == order_event_validation_step_spec(state, symbol),
{
    match (state, symbol) {
        (OrderEventValidationState::Start, OrderEventSymbol::OrderPlaced)
        | (OrderEventValidationState::Placed, OrderEventSymbol::StockReserved) => OrderEventValidationState::Placed,
        (OrderEventValidationState::Placed, OrderEventSymbol::PaymentCaptured)
        | (OrderEventValidationState::Captured, OrderEventSymbol::StockReserved) => OrderEventValidationState::Captured,
        (OrderEventValidationState::Captured, OrderEventSymbol::RefundIssued) => OrderEventValidationState::Refunded,
        (OrderEventValidationState::Captured, OrderEventSymbol::OrderShipped) => OrderEventValidationState::Shipped,
        (s, OrderEventSymbol::Other) => s,
        _ => OrderEventValidationState::Invalid,
    }
}

/// The state the automaton reaches from `state` after reading `symbols`.
pub open spec fn run_validation(state: OrderEventValidationState, symbols: Seq<OrderEventSymbol>) -> OrderEventValidationState
    decreases symbols.len(),
{
    if symbols.len() == 0 {
        state
    } else {
        order_event_validation_step_spec(run_validation(state, symbols.drop_last()), symbols.last())
    }
}

pub open spec fn word_accepted_spec(symbols: Seq<OrderEventSymbol>) -> bool {
    let end = run_validation(OrderEventValidationState::Start, symbols);
    end == OrderEventValidationState::Shipped || end == OrderEventValidationState::Refunded
}

pub fn validate_order_event_symbols(symbols: &[OrderEventSymbol]) -> (r: OrderEventValidationState)
    ensures
        r == run_validation(OrderEventValidationState::Start, symbols@),
{
    let mut state = OrderEventValidationState::Start;
    let mut i: usize = 0;
    while i < symbols.len()
        invariant
            i <= symbols.len(),
            state == run_validation(OrderEventValidationState::Start, symbols@.take(i as int)),
        decreases symbols.len() - i,
    {
        proof {
            assert(symbols@.take(i as int + 1).drop_last() =~= symbols@.take(i as int));
        }
        state = order_event_validation_step(state, symbols[i]);
        i += 1;
    }
    proof {
        assert(symbols@.take(symbols.len() as int) =~= symbols@);
    }
    state
}

pub fn order_event_word_accepted(symbols: &[OrderEventSymbol]) -> (r: bool)
    ensures
        r == word_accepted_spec(symbols@),
{
    let end = validate_order_event_symbols(symbols);
    end == OrderEventValidationState::Shipped || end == OrderEventValidationState::Refunded
}

impl OrderEventValidator {
    pub fn start(self) -> (r: OrderEventValidationState)
        ensures
            r == OrderEventValidationState::Start,
    {
        OrderEventValidationState::Start
    }

    pub fn step(self, state: OrderEventValidationState, symbol: OrderEventSymbol) -> (r: OrderEventValidationState)
        ensures
            r == order_event_validation_step_spec(state, symbol),
    {
        order_event_validation_step(state, symbol)
    }

    pub fn run(self, symbols: &[OrderEventSymbol]) -> (r: OrderEventValidationState)
        ensures
            r == run_validation(OrderEventValidationState::Start, symbols@),
    {
        validate_order_event_symbols(symbols)
    }

    pub fn accepts(self, symbols: &[OrderEventSymbol]) -> (r: bool)
        ensures
            r == word_accepted_spec(symbols@),
    {
        order_event_word_accepted(symbols)
    }
}

pub fn order_event_validator() -> (r: OrderEventValidator)
    ensures
        r == OrderEventValidator,
{
    OrderEventValidator
}

/// Reading two words one after the other is reading their concatenation.
pub proof fn lemma_run_validation_append(state: OrderEventValidationState, a: Seq<OrderEventSymbol>, b: Seq<OrderEventSymbol>)
    ensures
        run_validation(state, a + b) == run_validation(run_validation(state, a), b),
    decreases b.len(),
{
    if b.len() == 0 {
        assert(a + b =~= a);
    } else {
        lemma_run_validation_append(state, a, b.drop_last());
        assert((a + b).drop_last() =~= a + b.drop_last());
    }
}

/// Once a history is invalid, no further symbols make it valid again.
pub proof fn lemma_invalid_is_absorbing(symbols: Seq<OrderEventSymbol>)
    ensures
        run_validation(OrderEventValidationState::Invalid, symbols) == OrderEventValidationState::Invalid,
    decreases symbols.len(),
{
    if symbols.len() > 0 {
        lemma_invalid_is_absorbing(symbols.drop_last());
    }
}

/// Events outside the order language may stand anywhere in a history without
/// changing what the automaton decides.
pub proof fn lemma_other_symbols_are_ignored(state: OrderEventValidationState, a: Seq<OrderEventSymbol>, b: Seq<OrderEventSymbol>)
    ensures
        run_validation(state, a + seq![OrderEventSymbol::Other] + b) == run_validation(state, a + b),
{
    lemma_run_validation_append(state, a + seq![OrderEventSymbol::Other], b);
    lemma_run_validation_append(state, a, seq![OrderEventSymbol::Other]);
    lemma_run_validation_append(state, a, b);
    let mid = run_validation(state, a);
    let other = seq![OrderEventSymbol::Other];
    assert(other.drop_last() =~= Seq::<OrderEventSymbol>::empty());
    assert(run_validation(mid, other.drop_last()) == mid);
    assert(other.last() == OrderEventSymbol::Other);
}

/// Nothing but ignored events may follow a shipment or a refund: any other
/// symbol turns an accepted history into an invalid one.
pub proof fn lemma_accepted_histories_are_final(symbols: Seq<OrderEventSymbol>, next: OrderEventSymbol)
    requires
        word_accepted_spec(symbols),
        next != OrderEventSymbol::Other,
    ensures
        run_validation(OrderEventValidationState::Start, symbols.push(next)) == OrderEventValidationState::Invalid,
{
    assert(symbols.push(next).drop_last() =~= symbols);
}

} // verus!
