//! Labelled transition systems for orders and dropship purchase orders, and
//! the execution of a trace of labels from a start state.

use vstd::prelude::*;
use crate::dropshipping::{DropshipPOStatus};
use crate::orders::{OrderStatus};

verus! {

#[derive(Clone, Copy, Debug, PartialEq, Eq, Structural)]
pub enum OrderTransitionLabel {
    CapturePayment,
    CancelBeforePayment,
    MarkBackordered,
    PackPaidOrder,
    RefundPaidOrder,
    ShipPackedOrder,
    ConfirmDelivery,
    RefundDeliveredOrder,
    ReceiveBackorderPayment,
    CancelBackorder,
}

#[derive(Clone, Copy, Debug, Default, PartialEq, Eq)]
pub struct OrderStatusLts;

#[derive(Clone, Copy, Debug, PartialEq, Eq, Structural)]
pub enum DropshipPOTransitionLabel {
    Submit,
    CancelBeforeSubmit,
    Accept,
    Reject,
    CancelSubmitted,
    ShipAccepted,
    CancelAccepted,
    ConfirmDelivery,
}

#[derive(Clone, Copy, Debug, Default, PartialEq, Eq)]
pub struct DropshipPoLts;

pub open spec fn order_transition_target_spec(source: OrderStatus, label: OrderTransitionLabel) -> Option<OrderStatus> {
    match (source, label) {
        (OrderStatus::New, OrderTransitionLabel::CapturePayment) => Some(OrderStatus::Paid),
        (OrderStatus::New, OrderTransitionLabel::CancelBeforePayment)
        | (OrderStatus::Backordered, OrderTransitionLabel::CancelBackorder) => Some(OrderStatus::Cancelled),
        (OrderStatus::New, OrderTransitionLabel::MarkBackordered) => Some(OrderStatus::Backordered),
        (OrderStatus::Paid, OrderTransitionLabel::PackPaidOrder) => Some(OrderStatus::Packed),
        (OrderStatus::Paid, OrderTransitionLabel::RefundPaidOrder) => Some(OrderStatus::Refunded),
        (OrderStatus::Packed, OrderTransitionLabel::ShipPackedOrder) => Some(OrderStatus::Shipped),
        (OrderStatus::Shipped, OrderTransitionLabel::ConfirmDelivery) => Some(OrderStatus::Delivered),
        (OrderStatus::Delivered, OrderTransitionLabel::RefundDeliveredOrder) => Some(OrderStatus::Refunded),
        (OrderStatus::Backordered, OrderTransitionLabel::ReceiveBackorderPayment) => Some(OrderStatus::Paid),
        _ => None,
    }
}

pub fn order_transition_target(source: OrderStatus, label: OrderTransitionLabel) -> (r: Option<OrderStatus>)
    ensures
        r == order_transition_target_spec(source, label),
{
    match (source, label) {
        (OrderStatus::New, OrderTransitionLabel::CapturePayment) => Some(OrderStatus::Paid),
        (OrderStatus::New, OrderTransitionLabel::CancelBeforePayment)
        | (OrderStatus::Backordered, OrderTransitionLabel::CancelBackorder) => Some(OrderStatus::Cancelled),
        (OrderStatus::New, OrderTransitionLabel::MarkBackordered) => Some(OrderStatus::Backordered),
        (OrderStatus::Paid, OrderTransitionLabel::PackPaidOrder) => Some(OrderStatus::Packed),
        (OrderStatus::Paid, OrderTransitionLabel::RefundPaidOrder) => Some(OrderStatus::Refunded),
        (OrderStatus::Packed, OrderTransitionLabel::ShipPackedOrder) => Some(OrderStatus::Shipped),
        (OrderStatus::Shipped, OrderTransitionLabel::ConfirmDelivery) => Some(OrderStatus::Delivered),
        (OrderStatus::Delivered, OrderTransitionLabel::RefundDeliveredOrder) => Some(OrderStatus::Refunded),
        (OrderStatus::Backordered, OrderTransitionLabel::ReceiveBackorderPayment) => Some(OrderStatus::Paid),
        _ => None,
    }
}

/// The states visited along `trace` from `start`, start included; `None` as
/// soon as a label does not apply.
pub open spec fn run_order_trace(start: OrderStatus, trace: Seq<OrderTransitionLabel>) -> Option<Seq<OrderStatus>>
    decreases trace.len(),
{
    if trace.len() == 0 {
        Some(seq![start])
    } else {
        match run_order_trace(start, trace.drop_last()) {
            None => None,
            Some(states) => match order_transition_target_spec(states.last(), trace.last()) {
                None => None,
                Some(next) => Some(states.push(next)),
            },
        }
    }
}

/// A run visits one more state than it has labels, starts at `start`, and
/// each state is the transition of the one before under its label.
pub open spec fn is_order_run(start: OrderStatus, trace: Seq<OrderTransitionLabel>, states: Seq<OrderStatus>) -> bool {
    &&& states.len() == trace.len() + 1
    &&& states[0] == start
    &&& forall|i: int| 0 <= i < trace.len() ==> order_transition_target_spec(states[i], #[trigger] trace[i]) == Some(states[i + 1])
}

/// Executing a trace yields exactly a run of the system, and fails exactly
/// when no run exists.
pub proof fn lemma_order_trace_is_run(start: OrderStatus, trace: Seq<OrderTransitionLabel>)
    ensures
        run_order_trace(start, trace) matches Some(states) ==> is_order_run(start, trace, states),
        run_order_trace(start, trace) is None ==> forall|states: Seq<OrderStatus>| !is_order_run(start, trace, states),
    decreases trace.len(),
{
    if trace.len() > 0 {
        let p = trace.drop_last();
        lemma_order_trace_is_run(start, p);
        if let Some(states) = run_order_trace(start, trace) {
            let prev = run_order_trace(start, p)->Some_0;
            assert forall|i: int| 0 <= i < trace.len() implies order_transition_target_spec(states[i], #[trigger] trace[i]) == Some(states[i + 1]) by {
                if i < trace.len() - 1 {
                    assert(trace[i] == p[i]);
                    assert(order_transition_target_spec(prev[i], p[i]) == Some(prev[i + 1]));
                }
            }
        } else {
            assert forall|states: Seq<OrderStatus>| !is_order_run(start, trace, states) by {
                if is_order_run(start, trace, states) {
                    let short = states.drop_last();
                    assert forall|i: int| 0 <= i < p.len() implies order_transition_target_spec(short[i], #[trigger] p[i]) == Some(short[i + 1]) by {
                        assert(p[i] == trace[i]);
                    }
                    assert(is_order_run(start, p, short));
                    let prev = run_order_trace(start, p)->Some_0;
                    assert(order_transition_target_spec(states[trace.len() - 1], trace[trace.len() - 1]) == Some(states[trace.len() as int]));
                    assert(prev == short) by {
                        lemma_order_runs_unique(start, p, prev, short);
                    }
                }
            }
        }
    }
}

proof fn lemma_order_runs_unique(start: OrderStatus, trace: Seq<OrderTransitionLabel>, a: Seq<OrderStatus>, b: Seq<OrderStatus>)
    requires
        is_order_run(start, trace, a),
        is_order_run(start, trace, b),
    ensures
        a == b,
{
    assert forall|i: int| 0 <= i < a.len() implies a[i] == b[i] by {
        lemma_order_runs_agree_up_to(start, trace, a, b, i);
    }
    assert(a =~= b);
}

proof fn lemma_order_runs_agree_up_to(start: OrderStatus, trace: Seq<OrderTransitionLabel>, a: Seq<OrderStatus>, b: Seq<OrderStatus>, i: int)
    requires
        is_order_run(start, trace, a),
        is_order_run(start, trace, b),
        0 <= i < a.len(),
    ensures
        a[i] == b[i],
    decreases i,
{
    if i > 0 {
        lemma_order_runs_agree_up_to(start, trace, a, b, i - 1);
        assert(order_transition_target_spec(a[i - 1], trace[i - 1]) == Some(a[i]));
        assert(order_transition_target_spec(b[i - 1], trace[i - 1]) == Some(b[i]));
    }
}

pub fn execute_order_trace(start: OrderStatus, trace: &[OrderTransitionLabel]) -> (r: Option<Vec<OrderStatus>>)
    ensures
        match r {
            Some(states) => run_order_trace(start, trace@) == Some(states@),
            None => run_order_trace(start, trace@) is None,
        },
{
    let mut states: Vec<OrderStatus> = Vec::new();
    states.push(start);
    let mut current = start;
    let mut i: usize = 0;
    while i < trace.len()
        invariant
            i <= trace.len(),
            run_order_trace(start, trace@.take(i as int)) == Some(states@),
            states@.len() > 0,
            current == states@.last(),
        decreases trace.len() - i,
    {
        proof {
            assert(trace@.take(i as int + 1).drop_last() =~= trace@.take(i as int));
        }
        match order_transition_target(current, trace[i]) {
            None => {
                proof {
                    lemma_order_trace_none_sticks(start, trace@, i as int + 1);
                }
                return None;
            },
            Some(next) => {
                states.push(next);
                current = next;
            },
        }
        i += 1;
    }
    proof {
        assert(trace@.take(trace.len() as int) =~= trace@);
    }
    Some(states)
}

proof fn lemma_order_trace_none_sticks(start: OrderStatus, trace: Seq<OrderTransitionLabel>, i: int)
    requires
        0 <= i <= trace.len(),
        run_order_trace(start, trace.take(i)) is None,
    ensures
        run_order_trace(start, trace) is None,
    decreases trace.len() - i,
{
    if i == trace.len() {
        assert(trace.take(i) =~= trace);
    } else {
        assert(trace.take(i + 1).drop_last() =~= trace.take(i));
        lemma_order_trace_none_sticks(start, trace, i + 1);
    }
}

/// Capture, pack, ship, deliver.
pub fn paid_fulfillment_trace() -> (r: Vec<OrderTransitionLabel>)
    ensures
        r@ == seq![OrderTransitionLabel::CapturePayment, OrderTransitionLabel::PackPaidOrder, OrderTransitionLabel::ShipPackedOrder, OrderTransitionLabel::ConfirmDelivery],
{
    let mut v: Vec<OrderTransitionLabel> = Vec::new();
    v.push(OrderTransitionLabel::CapturePayment);
    v.push(OrderTransitionLabel::PackPaidOrder);
    v.push(OrderTransitionLabel::ShipPackedOrder);
    v.push(OrderTransitionLabel::ConfirmDelivery);
    v
}

/// Cancel before payment.
pub fn unpaid_cancellation_trace() -> (r: Vec<OrderTransitionLabel>)
    ensures
        r@ == seq![OrderTransitionLabel::CancelBeforePayment],
{
    let mut v: Vec<OrderTransitionLabel> = Vec::new();
    v.push(OrderTransitionLabel::CancelBeforePayment);
    v
}

pub open spec fn terminal_order_status_spec(status: OrderStatus) -> bool {
    status == OrderStatus::Delivered || status == OrderStatus::Cancelled || status == OrderStatus::Refunded
}

pub fn terminal_order_status(status: OrderStatus) -> (r: bool)
    ensures
        r == terminal_order_status_spec(status),
{
    status == OrderStatus::Delivered || status == OrderStatus::Cancelled || status == OrderStatus::Refunded
}

/// Cancelled and refunded orders never move again; a delivered order can
/// only still be refunded.
pub proof fn lemma_terminal_orders_only_refund(label: OrderTransitionLabel)
    ensures
        order_transition_target_spec(OrderStatus::Cancelled, label) is None,
        order_transition_target_spec(OrderStatus::Refunded, label) is None,
        order_transition_target_spec(OrderStatus::Delivered, label) is None
            || order_transition_target_spec(OrderStatus::Delivered, label) == Some(OrderStatus::Refunded),
{
}

impl OrderStatusLts {
    pub fn transition(self, source: OrderStatus, label: OrderTransitionLabel) -> (r: Option<OrderStatus>)
        ensures
            r == order_transition_target_spec(source, label),
    {
        order_transition_target(source, label)
    }

    pub fn execute(self, start: OrderStatus, trace: &[OrderTransitionLabel]) -> (r: Option<Vec<OrderStatus>>)
        ensures
            match r {
                Some(states) => run_order_trace(start, trace@) == Some(states@),
                None => run_order_trace(start, trace@) is None,
            },
    {
        execute_order_trace(start, trace)
    }
}

pub fn order_status_lts() -> (r: OrderStatusLts)
    ensures
        r == OrderStatusLts,
{
    OrderStatusLts
}

pub open spec fn dropship_po_transition_target_spec(source: DropshipPOStatus, label: DropshipPOTransitionLabel) -> Option<DropshipPOStatus> {
    match (source, label) {
        (DropshipPOStatus::Created, DropshipPOTransitionLabel::Submit) => Some(DropshipPOStatus::Submitted),
        (DropshipPOStatus::Created, DropshipPOTransitionLabel::CancelBeforeSubmit)
        | (DropshipPOStatus::Submitted, DropshipPOTransitionLabel::CancelSubmitted)
        | (DropshipPOStatus::Accepted, DropshipPOTransitionLabel::CancelAccepted) => Some(DropshipPOStatus::Cancelled),
        (DropshipPOStatus::Submitted, DropshipPOTransitionLabel::Accept) => Some(DropshipPOStatus::Accepted),
        (DropshipPOStatus::Submitted, DropshipPOTransitionLabel::Reject) => Some(DropshipPOStatus::Rejected),
        (DropshipPOStatus::Accepted, DropshipPOTransitionLabel::ShipAccepted) => Some(DropshipPOStatus::Shipped),
        (DropshipPOStatus::Shipped, DropshipPOTransitionLabel::ConfirmDelivery) => Some(DropshipPOStatus::Delivered),
        _ => None,
    }
}

pub fn dropship_po_transition_target(source: DropshipPOStatus, label: DropshipPOTransitionLabel) -> (r: Option<DropshipPOStatus>)
    ensures
        r == dropship_po_transition_target_spec(source, label),
{
    match (source, label) {
        (DropshipPOStatus::Created, DropshipPOTransitionLabel::Submit) => Some(DropshipPOStatus::Submitted),
        (DropshipPOStatus::Created, DropshipPOTransitionLabel::CancelBeforeSubmit)
        | (DropshipPOStatus::Submitted, DropshipPOTransitionLabel::CancelSubmitted)
        | (DropshipPOStatus::Accepted, DropshipPOTransitionLabel::CancelAccepted) => Some(DropshipPOStatus::Cancelled),
        (DropshipPOStatus::Submitted, DropshipPOTransitionLabel::Accept) => Some(DropshipPOStatus::Accepted),
        (DropshipPOStatus::Submitted, DropshipPOTransitionLabel::Reject) => Some(DropshipPOStatus::Rejected),
        (DropshipPOStatus::Accepted, DropshipPOTransitionLabel::ShipAccepted) => Some(DropshipPOStatus::Shipped),
        (DropshipPOStatus::Shipped, DropshipPOTransitionLabel::ConfirmDelivery) => Some(DropshipPOStatus::Delivered),
        _ => None,
    }
}

/// The purchase-order states visited along `trace` from `start`.
pub open spec fn run_dropship_po_trace(start: DropshipPOStatus, trace: Seq<DropshipPOTransitionLabel>) -> Option<Seq<DropshipPOStatus>>
    decreases trace.len(),
{
    if trace.len() == 0 {
        Some(seq![start])
    } else {
        match run_dropship_po_trace(start, trace.drop_last()) {
            None => None,
            Some(states) => match dropship_po_transition_target_spec(states.last(), trace.last()) {
                None => None,
                Some(next) => Some(states.push(next)),
            },
        }
    }
}

proof fn lemma_po_trace_none_sticks(start: DropshipPOStatus, trace: Seq<DropshipPOTransitionLabel>, i: int)
    requires
        0 <= i <= trace.len(),
        run_dropship_po_trace(start, trace.take(i)) is None,
    ensures
        run_dropship_po_trace(start, trace) is None,
    decreases trace.len() - i,
{
    if i == trace.len() {
        assert(trace.take(i) =~= trace);
    } else {
        assert(trace.take(i + 1).drop_last() =~= trace.take(i));
        lemma_po_trace_none_sticks(start, trace, i + 1);
    }
}

/// Every state a purchase-order run visits follows from the one before it.
pub proof fn lemma_po_trace_steps(start: DropshipPOStatus, trace: Seq<DropshipPOTransitionLabel>)
    ensures
        run_dropship_po_trace(start, trace) matches Some(states) ==> {
            &&& states.len() == trace.len() + 1
            &&& states[0] == start
            &&& forall|i: int| 0 <= i < trace.len() ==> dropship_po_transition_target_spec(states[i], #[trigger] trace[i]) == Some(states[i + 1])
        },
    decreases trace.len(),
{
    if trace.len() > 0 {
        let p = trace.drop_last();
        lemma_po_trace_steps(start, p);
        if let Some(states) = run_dropship_po_trace(start, trace) {
            let prev = run_dropship_po_trace(start, p)->Some_0;
            assert forall|i: int| 0 <= i < trace.len() implies dropship_po_transition_target_spec(states[i], #[trigger] trace[i]) == Some(states[i + 1]) by {
                if i < trace.len() - 1 {
                    assert(trace[i] == p[i]);
                    assert(dropship_po_transition_target_spec(prev[i], p[i]) == Some(prev[i + 1]));
                }
            }
        }
    }
}

pub fn execute_dropship_po_trace(start: DropshipPOStatus, trace: &[DropshipPOTransitionLabel]) -> (r: Option<Vec<DropshipPOStatus>>)
    ensures
        match r {
            Some(states) => run_dropship_po_trace(start, trace@) == Some(states@),
            None => run_dropship_po_trace(start, trace@) is None,
        },
{
    let mut states: Vec<DropshipPOStatus> = Vec::new();
    states.push(start);
    let mut current = start;
    let mut i: usize = 0;
    while i < trace.len()
        invariant
            i <= trace.len(),
            run_dropship_po_trace(start, trace@.take(i as int)) == Some(states@),
            states@.len() > 0,
            current == states@.last(),
        decreases trace.len() - i,
    {
        proof {
            assert(trace@.take(i as int + 1).drop_last() =~= trace@.take(i as int));
        }
        match dropship_po_transition_target(current, trace[i]) {
            None => {
                proof {
                    lemma_po_trace_none_sticks(start, trace@, i as int + 1);
                }
                return None;
            },
            Some(next) => {
                states.push(next);
                current = next;
            },
        }
        i += 1;
    }
    proof {
        assert(trace@.take(trace.len() as int) =~= trace@);
    }
    Some(states)
}

/// Submit, accept, ship, deliver.
pub fn dropship_po_delivery_trace() -> (r: Vec<DropshipPOTransitionLabel>)
    ensures
        r@ == seq![DropshipPOTransitionLabel::Submit, DropshipPOTransitionLabel::Accept, DropshipPOTransitionLabel::ShipAccepted, DropshipPOTransitionLabel::ConfirmDelivery],
{
    let mut v: Vec<DropshipPOTransitionLabel> = Vec::new();
    v.push(DropshipPOTransitionLabel::Submit);
    v.push(DropshipPOTransitionLabel::Accept);
    v.push(DropshipPOTransitionLabel::ShipAccepted);
    v.push(DropshipPOTransitionLabel::ConfirmDelivery);
    v
}

pub open spec fn terminal_dropship_po_status_spec(status: DropshipPOStatus) -> bool {
    status == DropshipPOStatus::Delivered || status == DropshipPOStatus::Cancelled || status == DropshipPOStatus::Rejected
}

pub fn terminal_dropship_po_status(status: DropshipPOStatus) -> (r: bool)
    ensures
        r == terminal_dropship_po_status_spec(status),
{
    status == DropshipPOStatus::Delivered || status == DropshipPOStatus::Cancelled || status == DropshipPOStatus::Rejected
}

/// Terminal purchase-order statuses have no outgoing transition.
pub proof fn lemma_terminal_po_statuses_are_final(status: DropshipPOStatus, label: DropshipPOTransitionLabel)
    requires
        terminal_dropship_po_status_spec(status),
    ensures
        dropship_po_transition_target_spec(status, label) is None,
{
}

impl DropshipPoLts {
    pub fn transition(self, source: DropshipPOStatus, label: DropshipPOTransitionLabel) -> (r: Option<DropshipPOStatus>)
        ensures
            r == dropship_po_transition_target_spec(source, label),
    {
        dropship_po_transition_target(source, label)
    }

    pub fn execute(self, start: DropshipPOStatus, trace: &[DropshipPOTransitionLabel]) -> (r: Option<Vec<DropshipPOStatus>>)
        ensures
            match r {
                Some(states) => run_dropship_po_trace(start, trace@) == Some(states@),
                None => run_dropship_po_trace(start, trace@) is None,
            },
    {
        execute_dropship_po_trace(start, trace)
    }
}

pub fn dropship_po_lts() -> (r: DropshipPoLts)
    ensures
        r == DropshipPoLts,
{
    DropshipPoLts
}

pub fn dropship_polts() -> (r: DropshipPoLts)
    ensures
        r == DropshipPoLts,
{
    DropshipPoLts
}

} // verus!
