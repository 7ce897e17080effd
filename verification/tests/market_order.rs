use indexmap::IndexMap;
use order_lifecycle::enums::{
    ContingencyType, LiquiditySide, OrderSide, OrderStatus, OrderType, PositionSide, TimeInForce,
};
use order_lifecycle::errors::{OrderError, ValidationError};
use order_lifecycle::events::{
    OrderAccepted, OrderCanceled, OrderDenied, OrderEventAny, OrderFilled, OrderInitialized,
    OrderRejected, OrderSubmitted, OrderUpdated,
};
use order_lifecycle::identifiers::{
    AccountId, ClientOrderId, InstrumentId, PositionId, StrategyId, Symbol, TradeId, TraderId,
    Venue, VenueOrderId,
};
use order_lifecycle::market::MarketOrder;
use order_lifecycle::order_any::OrderAny;
use order_lifecycle::types::{Currency, Money, Price, Quantity, UnixNanos, UUID4};

fn instrument() -> InstrumentId {
    InstrumentId::new(
        Symbol::new("AUD/USD".to_string()),
        Venue::new("SIM".to_string()),
    )
}

fn buy_order(client_order_id: &str, quantity: u64) -> MarketOrder {
    MarketOrder::new_checked(
        TraderId::new("TRADER-001".to_string()),
        StrategyId::new("EMA-CROSS".to_string()),
        instrument(),
        ClientOrderId::new(client_order_id.to_string()),
        OrderSide::Buy,
        Quantity::new(quantity, 0),
        TimeInForce::Gtc,
        UUID4::new(1),
        UnixNanos::new(1),
        false,
        false,
        None,
        None,
        None,
        None,
        None,
        None,
        None,
        None,
    )
    .unwrap()
}

fn submitted(order: &MarketOrder, ts: u64) -> OrderEventAny {
    OrderEventAny::Submitted(OrderSubmitted {
        trader_id: order.trader_id(),
        strategy_id: order.strategy_id(),
        instrument_id: order.instrument_id(),
        client_order_id: order.client_order_id(),
        account_id: AccountId::new("SIM-001".to_string()),
        event_id: UUID4::new(10),
        ts_event: UnixNanos::new(ts),
        ts_init: UnixNanos::new(ts),
    })
}

fn accepted(order: &MarketOrder, ts: u64) -> OrderEventAny {
    OrderEventAny::Accepted(OrderAccepted {
        trader_id: order.trader_id(),
        strategy_id: order.strategy_id(),
        instrument_id: order.instrument_id(),
        client_order_id: order.client_order_id(),
        venue_order_id: VenueOrderId::new("V-001".to_string()),
        account_id: AccountId::new("SIM-001".to_string()),
        event_id: UUID4::new(11),
        ts_event: UnixNanos::new(ts),
        ts_init: UnixNanos::new(ts),
    })
}

fn filled(order: &MarketOrder, last_qty: u64, commission: Option<Money>, ts: u64) -> OrderEventAny {
    OrderEventAny::Filled(OrderFilled {
        trader_id: order.trader_id(),
        strategy_id: order.strategy_id(),
        instrument_id: order.instrument_id(),
        client_order_id: order.client_order_id(),
        venue_order_id: VenueOrderId::new("V-001".to_string()),
        account_id: AccountId::new("SIM-001".to_string()),
        trade_id: TradeId::new(format!("T-{ts}")),
        position_id: Some(PositionId::new("P-001".to_string())),
        order_side: OrderSide::Buy,
        order_type: OrderType::Market,
        last_qty: Quantity::new(last_qty, 0),
        last_px: Price::new(100_000, 5),
        currency: Currency::new("USD".to_string()),
        commission,
        liquidity_side: LiquiditySide::Taker,
        event_id: UUID4::new(12),
        ts_event: UnixNanos::new(ts),
        ts_init: UnixNanos::new(ts),
    })
}

fn updated(order: &MarketOrder, quantity: u64, price: Option<Price>, ts: u64) -> OrderEventAny {
    OrderEventAny::Updated(OrderUpdated {
        trader_id: order.trader_id(),
        strategy_id: order.strategy_id(),
        instrument_id: order.instrument_id(),
        client_order_id: order.client_order_id(),
        venue_order_id: None,
        account_id: None,
        quantity: Quantity::new(quantity, 0),
        price,
        trigger_price: None,
        event_id: UUID4::new(13),
        ts_event: UnixNanos::new(ts),
        ts_init: UnixNanos::new(ts),
    })
}

#[test]
fn test_zero_quantity_is_rejected() {
    let r = MarketOrder::new_checked(
        TraderId::new("TRADER-001".to_string()),
        StrategyId::new("EMA-CROSS".to_string()),
        instrument(),
        ClientOrderId::new("O-1".to_string()),
        OrderSide::Buy,
        Quantity::new(0, 0),
        TimeInForce::Gtc,
        UUID4::new(1),
        UnixNanos::new(1),
        false,
        false,
        None,
        None,
        None,
        None,
        None,
        None,
        None,
        None,
    );
    assert!(matches!(r, Err(ValidationError::QuantityNotPositive)));
}

#[test]
fn test_gtd_time_in_force_is_rejected() {
    let r = MarketOrder::new_checked(
        TraderId::new("TRADER-001".to_string()),
        StrategyId::new("EMA-CROSS".to_string()),
        instrument(),
        ClientOrderId::new("O-1".to_string()),
        OrderSide::Buy,
        Quantity::new(100, 0),
        TimeInForce::Gtd,
        UUID4::new(1),
        UnixNanos::new(1),
        false,
        false,
        None,
        None,
        None,
        None,
        None,
        None,
        None,
        None,
    );
    assert!(matches!(r, Err(ValidationError::TimeInForceNotSupported)));
}

#[test]
fn test_initialized_state() {
    let order = buy_order("O-1", 100);
    assert_eq!(order.status(), OrderStatus::Initialized);
    assert_eq!(order.quantity(), Quantity::new(100, 0));
    assert_eq!(order.filled_qty(), Quantity::new(0, 0));
    assert_eq!(order.leaves_qty(), Quantity::new(100, 0));
    assert_eq!(order.order_type(), OrderType::Market);
    assert_eq!(order.order_side(), OrderSide::Buy);
    assert_eq!(order.time_in_force(), TimeInForce::Gtc);
    assert_eq!(order.events().len(), 1);
    assert!(order.venue_order_id().is_none());
    assert!(order.account_id().is_none());
    assert!(order.position_id().is_none());
    assert!(order.previous_status().is_none());
    assert!(order.price().is_none());
    assert!(order.trigger_price().is_none());
    assert!(order.expire_time().is_none());
    assert!(order.display_qty().is_none());
    assert!(order.limit_offset().is_none());
    assert!(order.trailing_offset().is_none());
    assert!(!order.is_post_only());
    assert!(!order.has_price());
    assert!(order.is_triggered().is_none());
    assert_eq!(order.ts_init(), UnixNanos::new(1));
    assert_eq!(order.ts_last(), UnixNanos::new(1));
    assert!(order.ts_closed().is_none());
    assert_eq!(order.commissions().len(), 0);
}

#[test]
fn test_quantity_accounting_through_lifecycle() {
    let mut order = buy_order("O-1", 100);
    let check = |o: &MarketOrder| {
        assert_eq!(
            o.filled_qty().raw + o.leaves_qty().raw,
            o.quantity().raw,
            "quantity accounting broken"
        );
    };
    check(&order);
    let e = submitted(&order, 2);
    order.apply(e).unwrap();
    check(&order);
    let e = accepted(&order, 3);
    order.apply(e).unwrap();
    check(&order);
    let e = filled(&order, 30, None, 4);
    order.apply(e).unwrap();
    check(&order);
    assert_eq!(order.status(), OrderStatus::PartiallyFilled);
    let e = filled(&order, 70, None, 5);
    order.apply(e).unwrap();
    check(&order);
    assert_eq!(order.status(), OrderStatus::Filled);
}

#[test]
fn test_canonical_sequence_to_filled() {
    let mut order = buy_order("O-1", 100);
    let e = submitted(&order, 2);
    order.apply(e).unwrap();
    assert_eq!(order.status(), OrderStatus::Submitted);
    assert_eq!(order.ts_submitted(), Some(UnixNanos::new(2)));
    let e = accepted(&order, 3);
    order.apply(e).unwrap();
    assert_eq!(order.status(), OrderStatus::Accepted);
    assert_eq!(order.ts_accepted(), Some(UnixNanos::new(3)));
    assert_eq!(
        order.venue_order_id(),
        Some(VenueOrderId::new("V-001".to_string()))
    );
    let e = filled(&order, 100, None, 4);
    order.apply(e).unwrap();
    assert_eq!(order.status(), OrderStatus::Filled);
    assert_eq!(order.leaves_qty(), Quantity::new(0, 0));
    assert_eq!(order.filled_qty(), Quantity::new(100, 0));
    assert_eq!(order.ts_closed(), Some(UnixNanos::new(4)));
    assert_eq!(order.previous_status(), Some(OrderStatus::Accepted));
    assert_eq!(order.events().len(), 4);
    // The order is closed: a further fill must be refused.
    let e = filled(&order, 1, None, 5);
    assert_eq!(order.apply(e), Err(OrderError::InvalidStateTransition));
    assert_eq!(order.status(), OrderStatus::Filled);
    assert_eq!(order.events().len(), 4);
}

#[test]
fn test_time_regression_is_refused() {
    let mut order = buy_order("O-1", 100);
    let e = submitted(&order, 5);
    order.apply(e).unwrap();
    assert_eq!(order.ts_last(), UnixNanos::new(5));
    // An accepted-shaped event carrying an earlier time is
    // desynchronized delivery.
    let e = accepted(&order, 4);
    assert_eq!(order.apply(e), Err(OrderError::InvalidOrderEvent));
    assert_eq!(order.ts_last(), UnixNanos::new(5));
    assert_eq!(order.status(), OrderStatus::Submitted);
}

#[test]
fn test_apply_from_illegal_state_is_refused() {
    let mut order = buy_order("O-1", 100);
    // Accepted is only legal from Submitted.
    let e = accepted(&order, 2);
    assert_eq!(order.apply(e), Err(OrderError::InvalidStateTransition));
    assert_eq!(order.status(), OrderStatus::Initialized);
    assert_eq!(order.events().len(), 1);
}

#[test]
fn test_overfill_is_refused() {
    let mut order = buy_order("O-1", 100);
    let e = submitted(&order, 2);
    order.apply(e).unwrap();
    let e = accepted(&order, 3);
    order.apply(e).unwrap();
    let e = filled(&order, 101, None, 4);
    assert_eq!(order.apply(e), Err(OrderError::InvalidOrderEvent));
    assert_eq!(order.filled_qty(), Quantity::new(0, 0));
    assert_eq!(order.status(), OrderStatus::Accepted);
}

#[test]
fn test_update_reduces_quantity_and_refuses_price() {
    let mut order = buy_order("O-1", 100);
    let e = submitted(&order, 2);
    order.apply(e).unwrap();
    let e = accepted(&order, 3);
    order.apply(e).unwrap();
    // An amendment to 60 with no price or trigger present.
    let e = updated(&order, 60, None, 4);
    order.apply(e).unwrap();
    assert_eq!(order.quantity(), Quantity::new(60, 0));
    assert_eq!(order.leaves_qty(), Quantity::new(60, 0));
    assert_eq!(order.status(), OrderStatus::Accepted);
    // A subsequent amendment carrying a price is a contract violation.
    let e = updated(&order, 50, Some(Price::new(99, 2)), 5);
    assert_eq!(order.apply(e), Err(OrderError::InvalidOrderEvent));
    assert_eq!(order.quantity(), Quantity::new(60, 0));
    assert_eq!(order.status(), OrderStatus::Accepted);
}

#[test]
fn test_update_method_recomputes_leaves() {
    let mut order = buy_order("O-1", 100);
    let e = OrderEventAny::Updated(OrderUpdated {
        trader_id: order.trader_id(),
        strategy_id: order.strategy_id(),
        instrument_id: order.instrument_id(),
        client_order_id: order.client_order_id(),
        venue_order_id: None,
        account_id: None,
        quantity: Quantity::new(25, 0),
        price: None,
        trigger_price: None,
        event_id: UUID4::new(13),
        ts_event: UnixNanos::new(2),
        ts_init: UnixNanos::new(2),
    });
    order.apply(e).unwrap();
    assert_eq!(order.quantity(), Quantity::new(25, 0));
    assert_eq!(order.leaves_qty(), Quantity::new(25, 0));
    // The direct amendment entry point refuses a trigger price.
    let u = OrderUpdated {
        trader_id: order.trader_id(),
        strategy_id: order.strategy_id(),
        instrument_id: order.instrument_id(),
        client_order_id: order.client_order_id(),
        venue_order_id: None,
        account_id: None,
        quantity: Quantity::new(30, 0),
        price: None,
        trigger_price: Some(Price::new(101, 2)),
        event_id: UUID4::new(14),
        ts_event: UnixNanos::new(3),
        ts_init: UnixNanos::new(3),
    };
    assert_eq!(order.update(&u), Err(OrderError::InvalidOrderEvent));
    assert_eq!(order.quantity(), Quantity::new(25, 0));
}

#[test]
fn test_commissions_accumulate_by_currency() {
    let mut order = buy_order("O-1", 100);
    let e = submitted(&order, 2);
    order.apply(e).unwrap();
    let e = accepted(&order, 3);
    order.apply(e).unwrap();
    let usd = || Currency::new("USD".to_string());
    let eur = || Currency::new("EUR".to_string());
    let e = filled(&order, 30, Some(Money::new(250, usd())), 4);
    order.apply(e).unwrap();
    let e = filled(&order, 30, Some(Money::new(150, usd())), 5);
    order.apply(e).unwrap();
    let e = filled(&order, 40, Some(Money::new(75, eur())), 6);
    order.apply(e).unwrap();
    assert_eq!(order.status(), OrderStatus::Filled);
    assert_eq!(order.commissions().get("USD").copied(), Some(400));
    assert_eq!(order.commissions().get("EUR").copied(), Some(75));
    assert_eq!(order.commissions().len(), 2);
    assert_eq!(order.trade_ids().len(), 3);
    assert_eq!(
        order.last_trade_id(),
        Some(TradeId::new("T-6".to_string()))
    );
    // The first fill assigned the default position linkage.
    assert_eq!(
        order.position_id(),
        Some(PositionId::new("P-001".to_string()))
    );
    assert_eq!(order.liquidity_side(), Some(LiquiditySide::Taker));
}

#[test]
fn test_denied_and_rejected_are_terminal() {
    let mut order = buy_order("O-1", 100);
    let e = OrderEventAny::Denied(OrderDenied {
        trader_id: order.trader_id(),
        strategy_id: order.strategy_id(),
        instrument_id: order.instrument_id(),
        client_order_id: order.client_order_id(),
        reason: "insufficient margin".to_string(),
        event_id: UUID4::new(20),
        ts_event: UnixNanos::new(2),
        ts_init: UnixNanos::new(2),
    });
    order.apply(e).unwrap();
    assert_eq!(order.status(), OrderStatus::Denied);
    assert_eq!(order.ts_closed(), Some(UnixNanos::new(2)));
    let e = submitted(&order, 3);
    assert_eq!(order.apply(e), Err(OrderError::InvalidStateTransition));

    let mut order = buy_order("O-2", 100);
    let e = submitted(&order, 2);
    order.apply(e).unwrap();
    let e = OrderEventAny::Rejected(OrderRejected {
        trader_id: order.trader_id(),
        strategy_id: order.strategy_id(),
        instrument_id: order.instrument_id(),
        client_order_id: order.client_order_id(),
        account_id: AccountId::new("SIM-001".to_string()),
        reason: "unknown symbol".to_string(),
        event_id: UUID4::new(21),
        ts_event: UnixNanos::new(3),
        ts_init: UnixNanos::new(3),
    });
    order.apply(e).unwrap();
    assert_eq!(order.status(), OrderStatus::Rejected);
    let e = accepted(&order, 4);
    assert_eq!(order.apply(e), Err(OrderError::InvalidStateTransition));
}

#[test]
fn test_cancel_requires_open_leaves() {
    let mut order = buy_order("O-1", 100);
    let e = submitted(&order, 2);
    order.apply(e).unwrap();
    let e = accepted(&order, 3);
    order.apply(e).unwrap();
    let cancel = |o: &MarketOrder, ts: u64| {
        OrderEventAny::Canceled(OrderCanceled {
            trader_id: o.trader_id(),
            strategy_id: o.strategy_id(),
            instrument_id: o.instrument_id(),
            client_order_id: o.client_order_id(),
            venue_order_id: o.venue_order_id(),
            account_id: o.account_id(),
            event_id: UUID4::new(30),
            ts_event: UnixNanos::new(ts),
            ts_init: UnixNanos::new(ts),
        })
    };
    let e = cancel(&order, 4);
    order.apply(e).unwrap();
    assert_eq!(order.status(), OrderStatus::Canceled);
    assert_eq!(order.leaves_qty(), Quantity::new(100, 0));
    // A canceled order is terminal: no further cancel.
    let e = cancel(&order, 5);
    assert_eq!(order.apply(e), Err(OrderError::InvalidStateTransition));
}

#[test]
fn test_round_trip_from_initialized_event() {
    let mut params = IndexMap::new();
    params.insert("horizon".to_string(), "10".to_string());
    let o1 = MarketOrder::new_checked(
        TraderId::new("TRADER-001".to_string()),
        StrategyId::new("EMA-CROSS".to_string()),
        instrument(),
        ClientOrderId::new("O-1".to_string()),
        OrderSide::Sell,
        Quantity::new(42, 0),
        TimeInForce::Ioc,
        UUID4::new(7),
        UnixNanos::new(9),
        true,
        false,
        Some(ContingencyType::Oto),
        None,
        Some(vec![ClientOrderId::new("O-2".to_string())]),
        Some(ClientOrderId::new("O-0".to_string())),
        None,
        Some(params.clone()),
        None,
        Some(vec!["tag-a".to_string()]),
    )
    .unwrap();
    // Rebuild purely from the logged Initialized snapshot's fields.
    let logged = match &o1.events()[0] {
        OrderEventAny::Initialized(e) => OrderInitialized {
            trader_id: e.trader_id.clone(),
            strategy_id: e.strategy_id.clone(),
            instrument_id: e.instrument_id.clone(),
            client_order_id: e.client_order_id.clone(),
            order_side: e.order_side,
            order_type: e.order_type,
            quantity: e.quantity,
            time_in_force: e.time_in_force,
            post_only: e.post_only,
            reduce_only: e.reduce_only,
            quote_quantity: e.quote_quantity,
            reconciliation: e.reconciliation,
            event_id: e.event_id,
            ts_event: e.ts_event,
            ts_init: e.ts_init,
            price: e.price,
            trigger_price: e.trigger_price,
            trigger_type: e.trigger_type,
            limit_offset: e.limit_offset,
            trailing_offset: e.trailing_offset,
            trailing_offset_type: e.trailing_offset_type,
            expire_time: e.expire_time,
            display_qty: e.display_qty,
            emulation_trigger: e.emulation_trigger,
            trigger_instrument_id: e.trigger_instrument_id.clone(),
            contingency_type: e.contingency_type,
            order_list_id: e.order_list_id.clone(),
            linked_order_ids: e.linked_order_ids.clone(),
            parent_order_id: e.parent_order_id.clone(),
            exec_algorithm_id: e.exec_algorithm_id.clone(),
            exec_algorithm_params: e.exec_algorithm_params.clone(),
            exec_spawn_id: e.exec_spawn_id.clone(),
            tags: e.tags.clone(),
        },
        _ => panic!("first event must be the Initialized snapshot"),
    };
    let o2 = MarketOrder::from_initialized(logged);
    assert_eq!(o1.status(), o2.status());
    assert_eq!(o1.trader_id(), o2.trader_id());
    assert_eq!(o1.strategy_id(), o2.strategy_id());
    assert_eq!(o1.instrument_id(), o2.instrument_id());
    assert_eq!(o1.symbol(), o2.symbol());
    assert_eq!(o1.venue(), o2.venue());
    assert_eq!(o1.client_order_id(), o2.client_order_id());
    assert_eq!(o1.order_side(), o2.order_side());
    assert_eq!(o1.order_type(), o2.order_type());
    assert_eq!(o1.quantity(), o2.quantity());
    assert_eq!(o1.filled_qty(), o2.filled_qty());
    assert_eq!(o1.leaves_qty(), o2.leaves_qty());
    assert_eq!(o1.time_in_force(), o2.time_in_force());
    assert_eq!(o1.is_reduce_only(), o2.is_reduce_only());
    assert_eq!(o1.is_quote_quantity(), o2.is_quote_quantity());
    assert_eq!(o1.contingency_type(), o2.contingency_type());
    assert_eq!(o1.order_list_id(), o2.order_list_id());
    assert_eq!(o1.linked_order_ids(), o2.linked_order_ids());
    assert_eq!(o1.parent_order_id(), o2.parent_order_id());
    assert_eq!(o1.exec_algorithm_id(), o2.exec_algorithm_id());
    assert_eq!(o1.exec_algorithm_params(), o2.exec_algorithm_params());
    assert_eq!(o1.exec_spawn_id(), o2.exec_spawn_id());
    assert_eq!(o1.tags(), o2.tags());
    assert_eq!(o1.init_id(), o2.init_id());
    assert_eq!(o1.ts_init(), o2.ts_init());
    assert_eq!(o1.ts_last(), o2.ts_last());
    assert_eq!(o1.events().len(), o2.events().len());
    assert!(o1 == o2);
}

#[test]
fn test_equality_is_identity_based() {
    // Identical fields, different client order ids: not equal.
    let a = buy_order("O-1", 100);
    let b = buy_order("O-2", 100);
    assert!(a != b);
    // Same client order id, different other fields: equal.
    let c = buy_order("O-3", 100);
    let mut d = buy_order("O-3", 500);
    assert!(c == d);
    // Still equal after d's state diverges further.
    let e = submitted(&d, 2);
    d.apply(e).unwrap();
    assert!(c == d);
}

#[test]
fn test_would_reduce_only() {
    let buy = buy_order("O-1", 100);
    assert!(buy.would_reduce_only(PositionSide::Short, Quantity::new(100, 0)));
    assert!(buy.would_reduce_only(PositionSide::Short, Quantity::new(150, 0)));
    assert!(!buy.would_reduce_only(PositionSide::Short, Quantity::new(50, 0)));
    assert!(!buy.would_reduce_only(PositionSide::Long, Quantity::new(100, 0)));
    assert!(!buy.would_reduce_only(PositionSide::Flat, Quantity::new(100, 0)));
}

#[test]
fn test_dispatch_set() {
    let order = buy_order("O-1", 100);
    let mut any = order.into_any();
    assert_eq!(any.status(), OrderStatus::Initialized);
    assert_eq!(
        any.client_order_id(),
        ClientOrderId::new("O-1".to_string())
    );
    let OrderAny::Market(inner) = &any;
    let e = submitted(inner, 2);
    any.apply(e).unwrap();
    assert_eq!(any.status(), OrderStatus::Submitted);
    assert_eq!(any.quantity(), Quantity::new(100, 0));
    assert_eq!(any.leaves_qty(), Quantity::new(100, 0));
    assert_eq!(any.filled_qty(), Quantity::new(0, 0));
}
