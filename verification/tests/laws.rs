use commerce_theory::accounting::{BalancedJournalEntry, LedgerAccount, credit, credit_total, debit, debit_total};
use commerce_theory::crm::{CRMAccountStatus, can_crm_account_transition};
use commerce_theory::dropship_profit::{DropshipProfitCosts};
use commerce_theory::dropshipping::{DropshipLine, DropshipOffer, DropshipPOStatus, DropshipSupplier, dropship_line_customer_net, dropship_line_supplier_cost};
use commerce_theory::event_language::{OrderEventSymbol, OrderEventValidationState, domain_event_symbols, order_event_word_accepted, validate_order_event_symbols};
use commerce_theory::event_sourcing::{DomainEvent, EventEnvelope, EventSnapshot, IdempotencyState, ValidSystemState, WebhookOrderingState, already_processed, apply_domain_event, apply_idempotent_domain_event, ledger_captured_fold, ledger_refunded_fold, project_ledger, project_tax_liability, replay_domain_events, replay_from_snapshot, replay_webhook_stream, stream_sequences_strictly_increase_from, tax_liability_fold};
use commerce_theory::foundation::{Currency, Id, IdempotencyKey, LeadId, Money, Nat, OpportunityId, OrderId, Quantity, ShipmentId, Sku, SupplierId, Timestamp, ValidationError, days, timestamp_age, timestamp_from_ymdhms, unix_epoch_timestamp};
use commerce_theory::inventory::{Allocation, FulfillmentPlan, InventoryNode, StockState, Warehouse, allocations_available_total, allocations_total, confirm_reserved_shipment, release_reserved_stock, reserve_stock};
use commerce_theory::keyed_totals::{allocation_key_support, allocation_quantity_by_key, allocation_quantity_for_key};
use commerce_theory::logistics::{ShipmentStatus, TrackingEventKind, can_shipment_transition, can_tracking_progress};
use commerce_theory::marketplace::{SalesChannel};
use commerce_theory::opportunity_portfolio::{DropshipOpportunityCandidate};
use commerce_theory::opportunity_ranking::{rank_opportunity_keys};
use commerce_theory::orders::{Order, OrderStatus, PaymentLedger, issue_refund, remaining_refund_amount};
use commerce_theory::pricing::{CartLine, ShippingMethod, cart_gross_total, line_gross_total, line_net_total, order_total};
use commerce_theory::validation::{RawCartLine, RawChannelPricePolicy, RawOrder, RawPaymentLedger, RawProductFeedLine, RawStockState, validate_basis_points, validate_channel_price_policy, validate_feed_line, validate_order, validate_payment_ledger, validate_stock_state};
use commerce_theory::workflow::{DropshipPOTransitionLabel, OrderTransitionLabel, dropship_po_transition_target, execute_order_trace, order_transition_target, paid_fulfillment_trace};

fn sku(n: Nat) -> Sku {
    Sku::new(n)
}

fn epoch() -> Timestamp {
    unix_epoch_timestamp()
}

fn state() -> ValidSystemState {
    ValidSystemState::new(
        StockState::try_new(sku(1), 10, 2).unwrap(),
        PaymentLedger::try_new(100, 20).unwrap(),
        5,
        0,
        0,
    )
}

fn envelope(sequence: Nat) -> EventEnvelope {
    EventEnvelope::new(sequence, DomainEvent::OrderShipped(OrderId::new(1)))
}

#[test]
fn webhook_replay_accepts_exactly_increasing_streams() {
    let ok = replay_webhook_stream(WebhookOrderingState::new(0), &[envelope(1), envelope(4), envelope(9)]).unwrap();
    assert_eq!(ok.last_sequence(), 9);
    assert!(stream_sequences_strictly_increase_from(0, &[envelope(1), envelope(4), envelope(9)]));
    assert!(replay_webhook_stream(WebhookOrderingState::new(0), &[envelope(1), envelope(4), envelope(4)]).is_err());
    assert!(!stream_sequences_strictly_increase_from(0, &[envelope(1), envelope(4), envelope(4)]));
    assert!(replay_webhook_stream(WebhookOrderingState::new(5), &[envelope(5)]).is_err());
    let unchanged = replay_webhook_stream(WebhookOrderingState::new(7), &[]).unwrap();
    assert_eq!(unchanged.last_sequence(), 7);
}

#[test]
fn idempotent_redelivery_changes_nothing() {
    let key = IdempotencyKey::new(5);
    let (first, seen) = apply_idempotent_domain_event(
        key,
        &DomainEvent::RefundIssued(OrderId::new(1), 30),
        state(),
        IdempotencyState::new(vec![IdempotencyKey::new(1)]),
    )
    .unwrap();
    assert_eq!(first.ledger().refunded(), 50);
    assert_eq!(seen.processed(), &[IdempotencyKey::new(5), IdempotencyKey::new(1)][..]);
    let (again, seen_again) = apply_idempotent_domain_event(
        key,
        &DomainEvent::PaymentCaptured(OrderId::new(1), 999),
        first.clone(),
        seen.clone(),
    )
    .unwrap();
    assert_eq!(again, first);
    assert_eq!(seen_again.processed(), seen.processed());
    assert!(already_processed(key, &seen_again));
}

#[test]
fn replay_of_concatenation_is_replay_from_the_middle() {
    let first = vec![
        DomainEvent::PaymentCaptured(OrderId::new(1), 50),
        DomainEvent::StockReserved(sku(1), 3),
    ];
    let rest = vec![
        DomainEvent::ReservationReleased(sku(1), 1),
        DomainEvent::TaxLiabilityRecorded(4, 6),
        DomainEvent::ShipmentDelivered(ShipmentId::new(2)),
    ];
    let mut all = first.clone();
    all.extend(rest.iter().copied());
    let whole = replay_domain_events(state(), &all).unwrap();
    let middle = replay_domain_events(state(), &first).unwrap();
    let snapshot = EventSnapshot::new(middle, 2);
    let resumed = replay_from_snapshot(&snapshot, &rest).unwrap();
    assert_eq!(whole, resumed);
    assert_eq!(whole.stock().reserved(), 4);
    assert!(whole.stock().reserved() <= whole.stock().total());
    assert_eq!(whole.logistics_event_count(), 1);
}

#[test]
fn projections_agree_with_replay() {
    let events = vec![
        DomainEvent::PaymentCaptured(OrderId::new(1), 50),
        DomainEvent::RefundIssued(OrderId::new(1), 30),
        DomainEvent::TaxLiabilityRecorded(1, 7),
        DomainEvent::LeadConverted(LeadId::new(1), OpportunityId::new(2)),
        DomainEvent::TaxLiabilityRecorded(2, 3),
    ];
    let replayed = replay_domain_events(state(), &events).unwrap();
    let ledger = project_ledger(state().ledger().clone(), &events).unwrap();
    assert_eq!(&ledger, replayed.ledger());
    assert_eq!(ledger.captured(), 150);
    assert_eq!(ledger.refunded(), 50);
    assert_eq!(project_tax_liability(5, &events).unwrap(), replayed.tax_liability());
    assert_eq!(replayed.tax_liability(), 15);
    assert_eq!(ledger_captured_fold(100, &events).unwrap(), 150);
    assert_eq!(ledger_refunded_fold(20, &events).unwrap(), 50);
    assert_eq!(tax_liability_fold(Nat::MAX, &events).unwrap_err(), ValidationError::Overflow("tax_liability_fold"));
}

#[test]
fn refused_events_leave_no_partial_state() {
    let events = vec![
        DomainEvent::PaymentCaptured(OrderId::new(1), 10),
        DomainEvent::RefundIssued(OrderId::new(1), 1_000),
    ];
    assert_eq!(
        replay_domain_events(state(), &events).unwrap_err(),
        ValidationError::Invariant("refund exceeds captured amount")
    );
    assert_eq!(
        apply_domain_event(&state(), &DomainEvent::StockReserved(sku(2), 1)).unwrap_err(),
        ValidationError::Invariant("stock-reserved SKU mismatch")
    );
    assert_eq!(apply_domain_event(&state(), &DomainEvent::OrderPlaced(OrderId::new(1), 5)).unwrap(), state());
}

#[test]
fn order_event_language_laws() {
    let accepted = [OrderEventSymbol::OrderPlaced, OrderEventSymbol::StockReserved, OrderEventSymbol::PaymentCaptured, OrderEventSymbol::OrderShipped];
    assert!(order_event_word_accepted(&accepted));
    assert_eq!(validate_order_event_symbols(&accepted), OrderEventValidationState::Shipped);
    let with_other = [OrderEventSymbol::OrderPlaced, OrderEventSymbol::Other, OrderEventSymbol::StockReserved, OrderEventSymbol::PaymentCaptured, OrderEventSymbol::Other, OrderEventSymbol::OrderShipped, OrderEventSymbol::Other];
    assert!(order_event_word_accepted(&with_other));
    let after_end = [OrderEventSymbol::OrderPlaced, OrderEventSymbol::PaymentCaptured, OrderEventSymbol::OrderShipped, OrderEventSymbol::RefundIssued];
    assert_eq!(validate_order_event_symbols(&after_end), OrderEventValidationState::Invalid);
    let invalid_then_more = [OrderEventSymbol::PaymentCaptured, OrderEventSymbol::OrderPlaced, OrderEventSymbol::PaymentCaptured, OrderEventSymbol::OrderShipped];
    assert_eq!(validate_order_event_symbols(&invalid_then_more), OrderEventValidationState::Invalid);
    assert_eq!(
        domain_event_symbols(&[DomainEvent::OrderPlaced(OrderId::new(1), 5), DomainEvent::ShipmentDelivered(ShipmentId::new(1))]),
        vec![OrderEventSymbol::OrderPlaced, OrderEventSymbol::Other]
    );
}

#[test]
fn merge_sort_orders_keys_and_counts_comparisons() {
    let costs = DropshipProfitCosts::new(40, 5, 3, 2, 0, 1, 0, 0);
    let candidate = |profit: Money| DropshipOpportunityCandidate::try_new(sku(profit), 1, 60, 10, profit, 5, 70, costs.clone()).unwrap();
    let candidates = [candidate(30), candidate(10), candidate(20), candidate(10)];
    let ranked = rank_opportunity_keys(&candidates);
    assert_eq!(ranked.ret, vec![10, 10, 20, 30]);
    assert_eq!(ranked.time, 5);
    assert!(ranked.time <= 16);
    assert!(ranked.time <= 8);
    let single = rank_opportunity_keys(&candidates[..1]);
    assert_eq!(single.ret, vec![30]);
    assert_eq!(single.time, 0);
}

#[test]
fn traces_are_runs_and_terminal_states_stay_put() {
    let states = execute_order_trace(OrderStatus::New, &paid_fulfillment_trace()).unwrap();
    assert_eq!(
        states,
        vec![OrderStatus::New, OrderStatus::Paid, OrderStatus::Packed, OrderStatus::Shipped, OrderStatus::Delivered]
    );
    assert_eq!(
        execute_order_trace(OrderStatus::Delivered, &[OrderTransitionLabel::RefundDeliveredOrder]).unwrap(),
        vec![OrderStatus::Delivered, OrderStatus::Refunded]
    );
    assert!(execute_order_trace(OrderStatus::Refunded, &[OrderTransitionLabel::CapturePayment]).is_none());
    assert_eq!(execute_order_trace(OrderStatus::Paid, &[]).unwrap(), vec![OrderStatus::Paid]);
    assert!(order_transition_target(OrderStatus::Cancelled, OrderTransitionLabel::CancelBackorder).is_none());
    assert!(dropship_po_transition_target(DropshipPOStatus::Rejected, DropshipPOTransitionLabel::Submit).is_none());
    assert!(!can_crm_account_transition(CRMAccountStatus::Closed, CRMAccountStatus::Active));
    assert!(!can_shipment_transition(ShipmentStatus::Delivered, ShipmentStatus::Exception));
    assert!(!can_tracking_progress(TrackingEventKind::DeliveredScan, TrackingEventKind::InTransitScan));
}

#[test]
fn order_total_stays_within_gross_shipping_and_tax() {
    let items = vec![
        CartLine::try_new(sku(1), 100, 40, 2, 30, 1).unwrap(),
        CartLine::try_new(sku(2), 50, 10, 1, 0, 1).unwrap(),
    ];
    let method = ShippingMethod::new(15, 1_000, 20);
    let total = order_total(&method, 20, 7, &items).unwrap();
    assert_eq!(total, 250 - 30 - 20 + 15 + 7);
    assert!(total <= cart_gross_total(&items).unwrap() + method.price() + 7);
}

#[test]
fn refunds_respect_what_remains() {
    let ledger = PaymentLedger::try_new(100, 30).unwrap();
    let next = issue_refund(&ledger, 70).unwrap();
    assert_eq!(next.refunded(), 100);
    assert_eq!(remaining_refund_amount(&next), 0);
    assert_eq!(issue_refund(&ledger, 71).unwrap_err(), ValidationError::Invariant("refund exceeds captured amount"));
    assert_eq!(issue_refund(&next, 1).unwrap_err(), ValidationError::Invariant("refund exceeds captured amount"));
}

#[test]
fn release_undoes_reserve_and_plans_fit_availability() {
    let stock = StockState::try_new(sku(1), 10, 3).unwrap();
    let reserved = reserve_stock(&stock, 4).unwrap();
    assert_eq!(reserved.reserved(), 7);
    assert_eq!(release_reserved_stock(&reserved, 4).unwrap(), stock);
    assert!(reserve_stock(&stock, 8).is_err());
    let confirmed = confirm_reserved_shipment(&reserved, 7).unwrap();
    assert_eq!((confirmed.total(), confirmed.reserved()), (3, 0));

    let a = Allocation::try_new(InventoryNode::new(Warehouse::new(1, "a".to_owned()), stock), 5).unwrap();
    let b = Allocation::try_new(InventoryNode::new(Warehouse::new(2, "b".to_owned()), StockState::try_new(sku(1), 4, 0).unwrap()), 4).unwrap();
    let plan = FulfillmentPlan::try_new(9, vec![a.clone(), b.clone()]).unwrap();
    assert!(plan.requested() <= allocations_available_total(plan.allocations()).unwrap());
    assert_eq!(allocations_available_total(&[a, b]).unwrap(), 11);
}

#[test]
fn stock_release_is_refused_exactly_past_the_reservation() {
    let stock = StockState::try_new(sku(1), 10, 4).unwrap();
    assert_eq!(release_reserved_stock(&stock, 5).unwrap_err(), ValidationError::InventoryInvariantFailed);
    let released = release_reserved_stock(&stock, 4).unwrap();
    assert_eq!((released.sku(), released.total(), released.reserved()), (sku(1), 10, 0));
    assert_eq!(confirm_reserved_shipment(&stock, 5).unwrap_err(), ValidationError::InventoryInvariantFailed);
    let shipped = confirm_reserved_shipment(&stock, 3).unwrap();
    assert_eq!((shipped.total(), shipped.reserved()), (7, 1));
    assert!(reserve_stock(&stock, 7).is_err());
    assert_eq!(reserve_stock(&stock, 6).unwrap().reserved(), 10);
    assert!(StockState::try_new(sku(1), 1, 5).is_err());
}

#[test]
fn keyed_totals_group_by_warehouse_and_sku() {
    let node = |wh: Id, s: Nat| InventoryNode::new(Warehouse::new(wh, "w".to_owned()), StockState::try_new(sku(s), 100, 0).unwrap());
    let allocations = vec![
        Allocation::try_new(node(2, 5), 3).unwrap(),
        Allocation::try_new(node(1, 9), 4).unwrap(),
        Allocation::try_new(node(2, 5), 6).unwrap(),
        Allocation::try_new(node(1, 7), 1).unwrap(),
    ];
    assert_eq!(allocation_key_support(&allocations), vec![(1, 7), (1, 9), (2, 5)]);
    assert_eq!(allocation_quantity_for_key(&allocations, (2, 5)).unwrap(), 9);
    assert_eq!(allocation_quantity_for_key(&allocations, (3, 3)).unwrap(), 0);
    let totals = allocation_quantity_by_key(&allocations).unwrap();
    assert_eq!(totals.len(), 3);
    assert_eq!(totals[&(2, 5)], 9);
    assert_eq!(totals.values().copied().sum::<u128>(), allocations_total(&allocations).unwrap());
}

#[test]
fn dropship_lines_keep_supplier_cost_within_net() {
    let supplier = DropshipSupplier::new(SupplierId::new(1), "s".to_owned(), Currency::USD, true, false, days(2), true, 10);
    let offer = DropshipOffer::try_new(sku(1), supplier, 40, 100, 1, 10, Currency::USD, true).unwrap();
    let line = DropshipLine::try_new(offer.clone(), 3, 180).unwrap();
    assert_eq!(dropship_line_supplier_cost(&line).unwrap(), 120);
    assert_eq!(dropship_line_customer_net(&line).unwrap(), 120);
    assert!(DropshipLine::try_new(offer, 3, 181).is_err());
}

#[test]
fn validated_journals_balance() {
    let account = |id: Id| LedgerAccount::new(id, format!("a{id}"));
    let journal = BalancedJournalEntry::try_new(vec![
        debit(account(1), 70),
        debit(account(2), 30),
        credit(account(3), 100),
    ])
    .unwrap();
    assert_eq!(debit_total(journal.postings()).unwrap(), credit_total(journal.postings()).unwrap());
    assert!(BalancedJournalEntry::try_new(vec![debit(account(1), 70), credit(account(3), 69)]).is_err());
}

#[test]
fn error_messages_name_the_failure() {
    assert_eq!(ValidationError::Invariant("x").message(), "invariant failed: x");
    assert_eq!(ValidationError::Overflow("sum").message(), "arithmetic overflow: sum");
    assert_eq!(ValidationError::DivisionByZero("d").message(), "division by zero: d");
    assert_eq!(ValidationError::RefundExceedsRemaining.message(), "refund exceeds remaining amount");
    assert_eq!(ValidationError::B2BInvariantFailed.message(), "B2B invariant failed");
}

#[test]
fn calendar_dates_map_to_unix_seconds() {
    assert_eq!(timestamp_from_ymdhms(1970, 1, 1, 0, 0, 0).unwrap().unix_seconds(), 0);
    assert_eq!(timestamp_from_ymdhms(2024, 2, 29, 12, 0, 0).unwrap().unix_seconds(), 1_709_208_000);
    assert_eq!(timestamp_from_ymdhms(1969, 12, 31, 23, 59, 59).unwrap().unix_seconds(), -1);
    assert!(timestamp_from_ymdhms(2023, 2, 29, 0, 0, 0).is_none());
    assert!(timestamp_from_ymdhms(2024, 4, 31, 0, 0, 0).is_none());
    assert!(timestamp_from_ymdhms(2024, 4, 30, 24, 0, 0).is_none());
    assert!(timestamp_from_ymdhms(1900, 2, 29, 0, 0, 0).is_none());
    assert_eq!(timestamp_from_ymdhms(-4713, 11, 24, 0, 0, 0).unwrap().unix_seconds(), -210_866_803_200);
    assert_eq!(timestamp_from_ymdhms(2000, 1, 1, 0, 0, 0).unwrap().unix_seconds(), 946_684_800);
    assert_eq!(timestamp_from_ymdhms(-9999, 1, 1, 0, 0, 0).unwrap().unix_seconds(), -377_705_116_800);
    assert_eq!(timestamp_from_ymdhms(9999, 12, 31, 0, 0, 0).unwrap().unix_seconds(), 253_402_214_400);
    assert!(timestamp_from_ymdhms(2000, 2, 29, 0, 0, 0).is_some());
    assert!(timestamp_from_ymdhms(9999, 12, 31, 0, 0, 0).is_some());
    assert!(timestamp_from_ymdhms(10_000, 1, 1, 0, 0, 0).is_none());
    assert!(timestamp_from_ymdhms(-10_000, 1, 1, 0, 0, 0).is_none());
    assert!(timestamp_from_ymdhms(2024, 13, 1, 0, 0, 0).is_none());
    let later = epoch().checked_add_duration(days(3)).unwrap();
    assert_eq!(timestamp_age(later, epoch()), days(3));
}

#[test]
fn validators_report_one_error_each() {
    assert_eq!(validate_basis_points(10_001).unwrap_err(), ValidationError::BasisPointsOutOfRange);
    assert_eq!(
        validate_stock_state(RawStockState { sku: sku(1), total: 1, reserved: 2 }).unwrap_err(),
        ValidationError::StockReservedExceedsTotal
    );
    assert_eq!(
        validate_channel_price_policy(RawChannelPricePolicy { min_price: 5, max_price: 4 }).unwrap_err(),
        ValidationError::PricePolicyInvalid
    );
    assert_eq!(
        validate_payment_ledger(RawPaymentLedger { captured: 1, refunded: 2 }).unwrap_err(),
        ValidationError::LedgerRefundedExceedsCaptured
    );
    let feed = |sku_n: Nat, price: Money, stock: Quantity| RawProductFeedLine {
        sku: sku(sku_n),
        channel: SalesChannel::OwnWebsite,
        price,
        currency: Currency::USD,
        stock,
        stock_state: RawStockState { sku: sku(1), total: 10, reserved: 4 },
        price_policy: RawChannelPricePolicy { min_price: 10, max_price: 20 },
    };
    assert_eq!(validate_feed_line(feed(2, 15, 1)).unwrap_err(), ValidationError::FeedSkuMismatch);
    assert_eq!(validate_feed_line(feed(1, 25, 1)).unwrap_err(), ValidationError::FeedPriceOutOfPolicy);
    assert_eq!(validate_feed_line(feed(1, 15, 7)).unwrap_err(), ValidationError::FeedStockUnavailable);
    assert_eq!(validate_feed_line(feed(1, 15, 6)).unwrap().stock(), 6);
    assert_eq!(
        validate_order(RawOrder {
            id: OrderId::new(1),
            items: vec![RawCartLine { sku: sku(1), price: 10, cost: 5, quantity: 1, discount: 0, weight: 1 }],
            coupon_amount: 11,
            shipping_method: ShippingMethod::new(0, 0, 10),
            tax: 0,
            currency: Currency::USD,
            status: OrderStatus::New,
            total: 0,
        })
        .unwrap_err(),
        ValidationError::CouponExceedsSubtotal
    );
}

#[test]
fn documented_cart_and_order_example() {
    let line = CartLine::try_new(Sku::new(1), 100, 40, 2, 20, 3).unwrap();
    assert_eq!(line_gross_total(&line).unwrap(), 200);
    assert_eq!(line_net_total(&line).unwrap(), 180);
    let shipping = ShippingMethod::new(15, 500, 20);
    let items = vec![line];
    let total = order_total(&shipping, 10, 5, &items).unwrap();
    assert_eq!(total, 190);
    let order = Order::try_new(OrderId::new(7), items, 10, shipping, 5, Currency::USD, OrderStatus::New, total).unwrap();
    assert_eq!(order.total(), total);
}
