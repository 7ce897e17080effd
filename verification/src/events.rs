//! The event model: immutable, timestamped records, each describing one
//! lifecycle transition of an order.  The `OrderInitialized` record is a
//! complete snapshot of every construction-time field, so that any
//! variant can be rebuilt purely from it.

use vstd::prelude::*;
use indexmap::IndexMap;
use crate::enums::{
    ContingencyType, LiquiditySide, OrderSide, OrderType, TimeInForce, TrailingOffsetType,
    TriggerType,
};
use crate::identifiers::{
    AccountId, ClientOrderId, ExecAlgorithmId, InstrumentId, OrderListId, PositionId, StrategyId,
    TradeId, TraderId, VenueOrderId,
};
use crate::types::{Currency, Money, Price, Quantity, UnixNanos, UUID4};

verus! {

/// The complete construction-time snapshot of an order.
#[verifier::ext_equal]
pub struct OrderInitialized {
    pub trader_id: TraderId,
    pub strategy_id: StrategyId,
    pub instrument_id: InstrumentId,
    pub client_order_id: ClientOrderId,
    pub order_side: OrderSide,
    pub order_type: OrderType,
    pub quantity: Quantity,
    pub time_in_force: TimeInForce,
    pub post_only: bool,
    pub reduce_only: bool,
    pub quote_quantity: bool,
    pub reconciliation: bool,
    pub event_id: UUID4,
    pub ts_event: UnixNanos,
    pub ts_init: UnixNanos,
    pub price: Option<Price>,
    pub trigger_price: Option<Price>,
    pub trigger_type: Option<TriggerType>,
    pub limit_offset: Option<rust_decimal::Decimal>,
    pub trailing_offset: Option<rust_decimal::Decimal>,
    pub trailing_offset_type: Option<TrailingOffsetType>,
    pub expire_time: Option<UnixNanos>,
    pub display_qty: Option<Quantity>,
    pub emulation_trigger: Option<TriggerType>,
    pub trigger_instrument_id: Option<InstrumentId>,
    pub contingency_type: Option<ContingencyType>,
    pub order_list_id: Option<OrderListId>,
    pub linked_order_ids: Option<Vec<ClientOrderId>>,
    pub parent_order_id: Option<ClientOrderId>,
    pub exec_algorithm_id: Option<ExecAlgorithmId>,
    pub exec_algorithm_params: Option<IndexMap<String, String>>,
    pub exec_spawn_id: Option<ClientOrderId>,
    pub tags: Option<Vec<String>>,
}

/// The order was denied before ever leaving the trading system.
pub struct OrderDenied {
    pub trader_id: TraderId,
    pub strategy_id: StrategyId,
    pub instrument_id: InstrumentId,
    pub client_order_id: ClientOrderId,
    pub reason: String,
    pub event_id: UUID4,
    pub ts_event: UnixNanos,
    pub ts_init: UnixNanos,
}

/// The order was submitted to a venue through an account.
pub struct OrderSubmitted {
    pub trader_id: TraderId,
    pub strategy_id: StrategyId,
    pub instrument_id: InstrumentId,
    pub client_order_id: ClientOrderId,
    pub account_id: AccountId,
    pub event_id: UUID4,
    pub ts_event: UnixNanos,
    pub ts_init: UnixNanos,
}

/// The venue accepted the order and assigned its own order id.
pub struct OrderAccepted {
    pub trader_id: TraderId,
    pub strategy_id: StrategyId,
    pub instrument_id: InstrumentId,
    pub client_order_id: ClientOrderId,
    pub venue_order_id: VenueOrderId,
    pub account_id: AccountId,
    pub event_id: UUID4,
    pub ts_event: UnixNanos,
    pub ts_init: UnixNanos,
}

/// The venue rejected the submitted order.
pub struct OrderRejected {
    pub trader_id: TraderId,
    pub strategy_id: StrategyId,
    pub instrument_id: InstrumentId,
    pub client_order_id: ClientOrderId,
    pub account_id: AccountId,
    pub reason: String,
    pub event_id: UUID4,
    pub ts_event: UnixNanos,
    pub ts_init: UnixNanos,
}

/// The order was canceled while it still had leaves quantity.
pub struct OrderCanceled {
    pub trader_id: TraderId,
    pub strategy_id: StrategyId,
    pub instrument_id: InstrumentId,
    pub client_order_id: ClientOrderId,
    pub venue_order_id: Option<VenueOrderId>,
    pub account_id: Option<AccountId>,
    pub event_id: UUID4,
    pub ts_event: UnixNanos,
    pub ts_init: UnixNanos,
}

/// The order reached the end of its time in force and expired.
pub struct OrderExpired {
    pub trader_id: TraderId,
    pub strategy_id: StrategyId,
    pub instrument_id: InstrumentId,
    pub client_order_id: ClientOrderId,
    pub venue_order_id: Option<VenueOrderId>,
    pub account_id: Option<AccountId>,
    pub event_id: UUID4,
    pub ts_event: UnixNanos,
    pub ts_init: UnixNanos,
}

/// A contingent order's trigger condition was met.
pub struct OrderTriggered {
    pub trader_id: TraderId,
    pub strategy_id: StrategyId,
    pub instrument_id: InstrumentId,
    pub client_order_id: ClientOrderId,
    pub venue_order_id: Option<VenueOrderId>,
    pub account_id: Option<AccountId>,
    pub event_id: UUID4,
    pub ts_event: UnixNanos,
    pub ts_init: UnixNanos,
}

/// An amendment of the order's applicable fields.  A variant refuses the
/// fields it has no concept of: a market order, for instance, accepts
/// only the quantity and refuses a present price or trigger price.
pub struct OrderUpdated {
    pub trader_id: TraderId,
    pub strategy_id: StrategyId,
    pub instrument_id: InstrumentId,
    pub client_order_id: ClientOrderId,
    pub venue_order_id: Option<VenueOrderId>,
    pub account_id: Option<AccountId>,
    pub quantity: Quantity,
    pub price: Option<Price>,
    pub trigger_price: Option<Price>,
    pub event_id: UUID4,
    pub ts_event: UnixNanos,
    pub ts_init: UnixNanos,
}

/// A fill: `last_qty` of the order traded at `last_px`.  Whether the
/// order becomes partially or completely filled follows from the
/// quantity accounting, not from the record itself.
pub struct OrderFilled {
    pub trader_id: TraderId,
    pub strategy_id: StrategyId,
    pub instrument_id: InstrumentId,
    pub client_order_id: ClientOrderId,
    pub venue_order_id: VenueOrderId,
    pub account_id: AccountId,
    pub trade_id: TradeId,
    pub position_id: Option<PositionId>,
    pub order_side: OrderSide,
    pub order_type: OrderType,
    pub last_qty: Quantity,
    pub last_px: Price,
    pub currency: Currency,
    pub commission: Option<Money>,
    pub liquidity_side: LiquiditySide,
    pub event_id: UUID4,
    pub ts_event: UnixNanos,
    pub ts_init: UnixNanos,
}

/// Any lifecycle event, for uniform application and logging.
pub enum OrderEventAny {
    Initialized(OrderInitialized),
    Denied(OrderDenied),
    Submitted(OrderSubmitted),
    Accepted(OrderAccepted),
    Rejected(OrderRejected),
    Canceled(OrderCanceled),
    Expired(OrderExpired),
    Triggered(OrderTriggered),
    Updated(OrderUpdated),
    Filled(OrderFilled),
}

impl OrderEventAny {
    /// The venue-asserted time of the transition the event describes.
    pub open spec fn spec_ts_event(&self) -> UnixNanos {
        match self {
            OrderEventAny::Initialized(e) => e.ts_event,
            OrderEventAny::Denied(e) => e.ts_event,
            OrderEventAny::Submitted(e) => e.ts_event,
            OrderEventAny::Accepted(e) => e.ts_event,
            OrderEventAny::Rejected(e) => e.ts_event,
            OrderEventAny::Canceled(e) => e.ts_event,
            OrderEventAny::Expired(e) => e.ts_event,
            OrderEventAny::Triggered(e) => e.ts_event,
            OrderEventAny::Updated(e) => e.ts_event,
            OrderEventAny::Filled(e) => e.ts_event,
        }
    }

    /// Returns the venue-asserted time of the event.
    pub fn ts_event(&self) -> (r: UnixNanos)
        ensures
            r == self.spec_ts_event(),
    {
        match self {
            OrderEventAny::Initialized(e) => e.ts_event,
            OrderEventAny::Denied(e) => e.ts_event,
            OrderEventAny::Submitted(e) => e.ts_event,
            OrderEventAny::Accepted(e) => e.ts_event,
            OrderEventAny::Rejected(e) => e.ts_event,
            OrderEventAny::Canceled(e) => e.ts_event,
            OrderEventAny::Expired(e) => e.ts_event,
            OrderEventAny::Triggered(e) => e.ts_event,
            OrderEventAny::Updated(e) => e.ts_event,
            OrderEventAny::Filled(e) => e.ts_event,
        }
    }
}

} // verus!
