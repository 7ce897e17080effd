//! The immediate-execution (market) order variant: construction-time
//! validation, the uniform accessor surface, and the variant-specific
//! amendment rule — a market order accepts only quantity amendments and
//! refuses any amendment carrying a price or trigger price.

use vstd::prelude::*;
use vstd::std_specs::cmp::PartialEqSpecImpl;
use indexmap::IndexMap;
use crate::enums::{
    ContingencyType, LiquiditySide, OrderSide, OrderStatus, OrderType, PositionSide, TimeInForce,
    TrailingOffsetType, TriggerType,
};
use crate::errors::{OrderError, ValidationError};
use crate::events::{OrderEventAny, OrderInitialized, OrderUpdated};
use crate::identifiers::{
    AccountId, ClientOrderId, ExecAlgorithmId, InstrumentId, OrderListId, PositionId, StrategyId,
    Symbol, TradeId, TraderId, Venue, VenueOrderId,
};
use crate::order_any::OrderAny;
use crate::order_core::{
    apply_error, apply_model, init_model, inv, reduce_only_spec, CoreModel, OrderCore,
};
use crate::outside_specs::commission_totals;
use crate::types::{Price, Quantity, UnixNanos, UUID4};

verus! {

/// The `Initialized` snapshot a market order synthesizes at construction:
/// the caller's fields, plus the fixed shape of the variant — no price, no
/// trigger, no offsets, no expiry and no display quantity, since the
/// variant has no concept of them.
pub open spec fn market_init_event(
    trader_id: TraderId,
    strategy_id: StrategyId,
    instrument_id: InstrumentId,
    client_order_id: ClientOrderId,
    order_side: OrderSide,
    quantity: Quantity,
    time_in_force: TimeInForce,
    init_id: UUID4,
    ts_init: UnixNanos,
    reduce_only: bool,
    quote_quantity: bool,
    contingency_type: Option<ContingencyType>,
    order_list_id: Option<OrderListId>,
    linked_order_ids: Option<Vec<ClientOrderId>>,
    parent_order_id: Option<ClientOrderId>,
    exec_algorithm_id: Option<ExecAlgorithmId>,
    exec_algorithm_params: Option<IndexMap<String, String>>,
    exec_spawn_id: Option<ClientOrderId>,
    tags: Option<Vec<String>>,
) -> OrderInitialized {
    OrderInitialized {
        trader_id,
        strategy_id,
        instrument_id,
        client_order_id,
        order_side,
        order_type: OrderType::Market,
        quantity,
        time_in_force,
        post_only: false,
        reduce_only,
        quote_quantity,
        reconciliation: false,
        event_id: init_id,
        ts_event: ts_init,
        ts_init,
        price: None,
        trigger_price: None,
        trigger_type: Some(TriggerType::NoTrigger),
        limit_offset: None,
        trailing_offset: None,
        trailing_offset_type: None,
        expire_time: None,
        display_qty: None,
        emulation_trigger: None,
        trigger_instrument_id: None,
        contingency_type,
        order_list_id,
        linked_order_ids,
        parent_order_id,
        exec_algorithm_id,
        exec_algorithm_params,
        exec_spawn_id,
        tags,
    }
}

/// Whether an `Initialized` snapshot has the fixed shape of a market
/// order, so that the variant can be rebuilt faithfully from it.
pub open spec fn market_shape(e: OrderInitialized) -> bool {
    &&& e.order_type == OrderType::Market
    &&& !e.post_only
    &&& !e.reconciliation
    &&& e.price is None
    &&& e.trigger_price is None
    &&& e.trigger_type == Some(TriggerType::NoTrigger)
    &&& e.limit_offset is None
    &&& e.trailing_offset is None
    &&& e.trailing_offset_type is None
    &&& e.expire_time is None
    &&& e.display_qty is None
    &&& e.emulation_trigger is None
    &&& e.trigger_instrument_id is None
    &&& e.ts_event == e.ts_init
}

/// Whether a market order accepts an amendment: it must carry no price
/// and no trigger price, and its quantity must be positive, of the
/// aggregate's precision, and at least what is already filled.
pub open spec fn market_update_ok(m: CoreModel, u: OrderUpdated) -> bool {
    &&& u.price is None
    &&& u.trigger_price is None
    &&& u.quantity.raw > 0
    &&& u.quantity.precision == m.quantity.precision
    &&& u.quantity.raw >= m.filled_qty.raw
}

/// Why a market order refuses an event, or `None` where it accepts it:
/// an amendment breaking the variant's rule is an `InvalidOrderEvent`;
/// everything else follows the shared core.
pub open spec fn market_apply_error(m: CoreModel, e: OrderEventAny) -> Option<OrderError> {
    match e {
        OrderEventAny::Updated(u) => if !market_update_ok(m, u) {
            Some(OrderError::InvalidOrderEvent)
        } else {
            apply_error(m, e)
        },
        _ => apply_error(m, e),
    }
}

/// The effect of an accepted event on a market order: the shared-core
/// effect, plus — for an amendment — the new quantity with the leaves
/// quantity recomputed as quantity minus filled quantity.
pub open spec fn market_apply_model(m: CoreModel, e: OrderEventAny) -> CoreModel {
    match e {
        OrderEventAny::Updated(u) => CoreModel {
            quantity: u.quantity,
            leaves_qty: Quantity {
                raw: (u.quantity.raw - m.filled_qty.raw) as u64,
                precision: u.quantity.precision,
            },
            ..apply_model(m, e)
        },
        _ => apply_model(m, e),
    }
}

/// An immediate-execution order: it trades at whatever price the venue
/// offers, so it has no price, trigger, offset, expiry or display fields.
pub struct MarketOrder {
    pub core: OrderCore,
}

impl View for MarketOrder {
    type V = CoreModel;

    open spec fn view(&self) -> CoreModel {
        self.core@
    }
}

impl MarketOrder {
    /// A well-formed market order: the shared invariant, with the
    /// variant's classification.
    pub open spec fn wf(self) -> bool {
        inv(self@) && self@.order_type == OrderType::Market
    }

    /// Creates a market order, validating the variant's constraints:
    /// the quantity must be positive, and the time in force must not ask
    /// for a fixed expiry, which the variant has no concept of.  On
    /// failure no aggregate is created.
    pub fn new_checked(
        trader_id: TraderId,
        strategy_id: StrategyId,
        instrument_id: InstrumentId,
        client_order_id: ClientOrderId,
        order_side: OrderSide,
        quantity: Quantity,
        time_in_force: TimeInForce,
        init_id: UUID4,
        ts_init: UnixNanos,
        reduce_only: bool,
        quote_quantity: bool,
        contingency_type: Option<ContingencyType>,
        order_list_id: Option<OrderListId>,
        linked_order_ids: Option<Vec<ClientOrderId>>,
        parent_order_id: Option<ClientOrderId>,
        exec_algorithm_id: Option<ExecAlgorithmId>,
        exec_algorithm_params: Option<IndexMap<String, String>>,
        exec_spawn_id: Option<ClientOrderId>,
        tags: Option<Vec<String>>,
    ) -> (r: Result<Self, ValidationError>)
        ensures
            r is Ok <==> quantity.raw > 0 && time_in_force != TimeInForce::Gtd,
            quantity.raw == 0 ==> r == Err::<Self, _>(ValidationError::QuantityNotPositive),
            quantity.raw > 0 && time_in_force == TimeInForce::Gtd ==> r == Err::<Self, _>(
                ValidationError::TimeInForceNotSupported,
            ),
            r matches Ok(o) ==> o@ == init_model(
                market_init_event(
                    trader_id,
                    strategy_id,
                    instrument_id,
                    client_order_id,
                    order_side,
                    quantity,
                    time_in_force,
                    init_id,
                    ts_init,
                    reduce_only,
                    quote_quantity,
                    contingency_type,
                    order_list_id,
                    linked_order_ids,
                    parent_order_id,
                    exec_algorithm_id,
                    exec_algorithm_params,
                    exec_spawn_id,
                    tags,
                ),
            ) && o.wf(),
    {
        if quantity.raw == 0 {
            return Err(ValidationError::QuantityNotPositive);
        }
        if let TimeInForce::Gtd = time_in_force {
            return Err(ValidationError::TimeInForceNotSupported);
        }
        let init = OrderInitialized {
            trader_id,
            strategy_id,
            instrument_id,
            client_order_id,
            order_side,
            order_type: OrderType::Market,
            quantity,
            time_in_force,
            post_only: false,
            reduce_only,
            quote_quantity,
            reconciliation: false,
            event_id: init_id,
            ts_event: ts_init,
            ts_init,
            price: None,
            trigger_price: None,
            trigger_type: Some(TriggerType::NoTrigger),
            limit_offset: None,
            trailing_offset: None,
            trailing_offset_type: None,
            expire_time: None,
            display_qty: None,
            emulation_trigger: None,
            trigger_instrument_id: None,
            contingency_type,
            order_list_id,
            linked_order_ids,
            parent_order_id,
            exec_algorithm_id,
            exec_algorithm_params,
            exec_spawn_id,
            tags,
        };
        Ok(MarketOrder { core: OrderCore::new(init) })
    }

    /// Creates a market order from inputs already known to be valid.
    pub fn new(
        trader_id: TraderId,
        strategy_id: StrategyId,
        instrument_id: InstrumentId,
        client_order_id: ClientOrderId,
        order_side: OrderSide,
        quantity: Quantity,
        time_in_force: TimeInForce,
        init_id: UUID4,
        ts_init: UnixNanos,
        reduce_only: bool,
        quote_quantity: bool,
        contingency_type: Option<ContingencyType>,
        order_list_id: Option<OrderListId>,
        linked_order_ids: Option<Vec<ClientOrderId>>,
        parent_order_id: Option<ClientOrderId>,
        exec_algorithm_id: Option<ExecAlgorithmId>,
        exec_algorithm_params: Option<IndexMap<String, String>>,
        exec_spawn_id: Option<ClientOrderId>,
        tags: Option<Vec<String>>,
    ) -> (r: Self)
        requires
            quantity.raw > 0,
            time_in_force != TimeInForce::Gtd,
        ensures
            r@ == init_model(
                market_init_event(
                    trader_id,
                    strategy_id,
                    instrument_id,
                    client_order_id,
                    order_side,
                    quantity,
                    time_in_force,
                    init_id,
                    ts_init,
                    reduce_only,
                    quote_quantity,
                    contingency_type,
                    order_list_id,
                    linked_order_ids,
                    parent_order_id,
                    exec_algorithm_id,
                    exec_algorithm_params,
                    exec_spawn_id,
                    tags,
                ),
            ),
            r.wf(),
    {
        let r = Self::new_checked(
            trader_id,
            strategy_id,
            instrument_id,
            client_order_id,
            order_side,
            quantity,
            time_in_force,
            init_id,
            ts_init,
            reduce_only,
            quote_quantity,
            contingency_type,
            order_list_id,
            linked_order_ids,
            parent_order_id,
            exec_algorithm_id,
            exec_algorithm_params,
            exec_spawn_id,
            tags,
        );
        match r {
            Ok(o) => o,
            Err(_) => vstd::pervasive::unreached(),
        }
    }

    /// Rebuilds a market order purely from an `Initialized` snapshot,
    /// exactly as direct construction with the snapshot's fields would.
    pub fn from_initialized(event: OrderInitialized) -> (r: Self)
        requires
            event.quantity.raw > 0,
            event.time_in_force != TimeInForce::Gtd,
        ensures
            r@ == init_model(
                market_init_event(
                    event.trader_id,
                    event.strategy_id,
                    event.instrument_id,
                    event.client_order_id,
                    event.order_side,
                    event.quantity,
                    event.time_in_force,
                    event.event_id,
                    event.ts_event,
                    event.reduce_only,
                    event.quote_quantity,
                    event.contingency_type,
                    event.order_list_id,
                    event.linked_order_ids,
                    event.parent_order_id,
                    event.exec_algorithm_id,
                    event.exec_algorithm_params,
                    event.exec_spawn_id,
                    event.tags,
                ),
            ),
            r.wf(),
    {
        let OrderInitialized {
            trader_id,
            strategy_id,
            instrument_id,
            client_order_id,
            order_side,
            quantity,
            time_in_force,
            event_id,
            ts_event,
            reduce_only,
            quote_quantity,
            contingency_type,
            order_list_id,
            linked_order_ids,
            parent_order_id,
            exec_algorithm_id,
            exec_algorithm_params,
            exec_spawn_id,
            tags,
            ..
        } = event;
        Self::new(
            trader_id,
            strategy_id,
            instrument_id,
            client_order_id,
            order_side,
            quantity,
            time_in_force,
            event_id,
            ts_event,
            reduce_only,
            quote_quantity,
            contingency_type,
            order_list_id,
            linked_order_ids,
            parent_order_id,
            exec_algorithm_id,
            exec_algorithm_params,
            exec_spawn_id,
            tags,
        )
    }

    /// Applies a lifecycle event: variant-specific amendment checks
    /// first, then the shared core's transition and updates.  A refused
    /// event leaves the aggregate exactly as it was.
    pub fn apply(&mut self, event: OrderEventAny) -> (r: Result<(), OrderError>)
        requires
            old(self).wf(),
        ensures
            final(self).wf(),
            r is Ok <==> market_apply_error(old(self)@, event) is None,
            r is Ok ==> final(self)@ == market_apply_model(old(self)@, event),
            r is Err ==> *final(self) == *old(self) && Some(r->Err_0) == market_apply_error(
                old(self)@,
                event,
            ),
    {
        if let OrderEventAny::Updated(u) = &event {
            if u.price.is_some() || u.trigger_price.is_some() {
                return Err(OrderError::InvalidOrderEvent);
            }
            if u.quantity.raw == 0 || u.quantity.precision != self.core.quantity.precision
                || u.quantity.raw < self.core.filled_qty.raw {
                return Err(OrderError::InvalidOrderEvent);
            }
        }
        let upd_qty: Option<Quantity> = match &event {
            OrderEventAny::Updated(u) => Some(u.quantity),
            _ => None,
        };
        let ghost m0 = self@;
        match self.core.apply(event) {
            Ok(_) => {},
            Err(e) => {
                return Err(e);
            },
        }
        if let Some(q) = upd_qty {
            self.core.quantity = q;
            self.core.leaves_qty = Quantity {
                raw: q.raw - self.core.filled_qty.raw,
                precision: q.precision,
            };
            proof {
                assert(self@ =~= market_apply_model(m0, event));
            }
        }
        Ok(())
    }

    /// Amends the order.  The variant asserts exactly its applicable
    /// fields: the amendment must carry no price and no trigger price,
    /// and the leaves quantity is recomputed as quantity minus filled
    /// quantity.  A refused amendment mutates nothing.
    pub fn update(&mut self, event: &OrderUpdated) -> (r: Result<(), OrderError>)
        requires
            old(self).wf(),
        ensures
            final(self).wf(),
            r is Ok <==> market_update_ok(old(self)@, *event),
            r is Ok ==> final(self)@ == (CoreModel {
                quantity: event.quantity,
                leaves_qty: Quantity {
                    raw: (event.quantity.raw - old(self)@.filled_qty.raw) as u64,
                    precision: event.quantity.precision,
                },
                ..old(self)@
            }),
            r is Err ==> *final(self) == *old(self) && r->Err_0 == OrderError::InvalidOrderEvent,
    {
        if event.price.is_some() || event.trigger_price.is_some() {
            return Err(OrderError::InvalidOrderEvent);
        }
        if event.quantity.raw == 0 || event.quantity.precision != self.core.quantity.precision
            || event.quantity.raw < self.core.filled_qty.raw {
            return Err(OrderError::InvalidOrderEvent);
        }
        let ghost m0 = self@;
        self.core.quantity = event.quantity;
        self.core.leaves_qty = Quantity {
            raw: event.quantity.raw - self.core.filled_qty.raw,
            precision: event.quantity.precision,
        };
        proof {
            assert(self@ =~= CoreModel {
                quantity: event.quantity,
                leaves_qty: Quantity {
                    raw: (event.quantity.raw - m0.filled_qty.raw) as u64,
                    precision: event.quantity.precision,
                },
                ..m0
            });
        }
        Ok(())
    }

    /// Wraps this order into the closed dispatch set.
    pub fn into_any(self) -> (r: OrderAny)
        ensures
            r == OrderAny::Market(self),
    {
        OrderAny::Market(self)
    }
}

impl MarketOrder {
    /// The `Initialized` snapshot at the head of the event log.
    fn init_snapshot(&self) -> (r: &OrderInitialized)
        requires
            self.wf(),
        ensures
            *r == crate::order_core::init_event(self@),
    {
        match &self.core.events[0] {
            OrderEventAny::Initialized(e) => e,
            _ => {
                proof {
                    assert(false);
                }
                vstd::pervasive::unreached()
            },
        }
    }

    /// The current lifecycle status.
    pub fn status(&self) -> (r: OrderStatus)
        ensures
            r == self@.status,
    {
        self.core.status
    }

    /// The trader that owns the order.
    pub fn trader_id(&self) -> (r: TraderId)
        ensures
            r == self@.trader_id,
    {
        self.core.trader_id.duplicate()
    }

    /// The strategy that emitted the order.
    pub fn strategy_id(&self) -> (r: StrategyId)
        ensures
            r == self@.strategy_id,
    {
        self.core.strategy_id.duplicate()
    }

    /// The instrument the order trades.
    pub fn instrument_id(&self) -> (r: InstrumentId)
        ensures
            r == self@.instrument_id,
    {
        self.core.instrument_id.duplicate()
    }

    /// The symbol of the traded instrument.
    pub fn symbol(&self) -> (r: Symbol)
        ensures
            r == self@.instrument_id.symbol,
    {
        self.core.instrument_id.symbol.duplicate()
    }

    /// The venue of the traded instrument.
    pub fn venue(&self) -> (r: Venue)
        ensures
            r == self@.instrument_id.venue,
    {
        self.core.instrument_id.venue.duplicate()
    }

    /// The client-assigned order id: the aggregate's identity.
    pub fn client_order_id(&self) -> (r: ClientOrderId)
        ensures
            r == self@.client_order_id,
    {
        self.core.client_order_id.duplicate()
    }

    /// The venue-assigned order id, present once the order was accepted.
    pub fn venue_order_id(&self) -> (r: Option<VenueOrderId>)
        ensures
            r == self@.venue_order_id,
    {
        match &self.core.venue_order_id {
            Some(v) => Some(v.duplicate()),
            None => None,
        }
    }

    /// The position the order contributes to, if any.
    pub fn position_id(&self) -> (r: Option<PositionId>)
        ensures
            r == self@.position_id,
    {
        match &self.core.position_id {
            Some(v) => Some(v.duplicate()),
            None => None,
        }
    }

    /// The account the order trades against, present once submitted.
    pub fn account_id(&self) -> (r: Option<AccountId>)
        ensures
            r == self@.account_id,
    {
        match &self.core.account_id {
            Some(v) => Some(v.duplicate()),
            None => None,
        }
    }

    /// The id of the most recent fill, if any.
    pub fn last_trade_id(&self) -> (r: Option<TradeId>)
        ensures
            r == self@.last_trade_id,
    {
        match &self.core.last_trade_id {
            Some(v) => Some(v.duplicate()),
            None => None,
        }
    }

    /// The side of the order.
    pub fn order_side(&self) -> (r: OrderSide)
        ensures
            r == self@.side,
    {
        self.core.side
    }

    /// The classification of the order.
    pub fn order_type(&self) -> (r: OrderType)
        ensures
            r == self@.order_type,
    {
        self.core.order_type
    }

    /// The order quantity.
    pub fn quantity(&self) -> (r: Quantity)
        ensures
            r == self@.quantity,
    {
        self.core.quantity
    }

    /// The time in force.
    pub fn time_in_force(&self) -> (r: TimeInForce)
        ensures
            r == self@.time_in_force,
    {
        self.core.time_in_force
    }

    /// A market order has no expiry concept: always absent.
    pub fn expire_time(&self) -> (r: Option<UnixNanos>)
        ensures
            r is None,
    {
        None
    }

    /// A market order has no price field: always absent, never a
    /// default numeric value.
    pub fn price(&self) -> (r: Option<Price>)
        ensures
            r is None,
    {
        None
    }

    /// A market order has no trigger price: always absent.
    pub fn trigger_price(&self) -> (r: Option<Price>)
        ensures
            r is None,
    {
        None
    }

    /// A market order has no trigger type: always absent.
    pub fn trigger_type(&self) -> (r: Option<TriggerType>)
        ensures
            r is None,
    {
        None
    }

    /// The liquidity side of the most recent fill, if any.
    pub fn liquidity_side(&self) -> (r: Option<LiquiditySide>)
        ensures
            r == self@.liquidity_side,
    {
        self.core.liquidity_side
    }

    /// A market order can never be post-only.
    pub fn is_post_only(&self) -> (r: bool)
        ensures
            r == false,
    {
        false
    }

    /// Whether the order may only reduce an existing position.
    pub fn is_reduce_only(&self) -> (r: bool)
        ensures
            r == self@.is_reduce_only,
    {
        self.core.is_reduce_only
    }

    /// Whether the quantity is expressed in the quote currency.
    pub fn is_quote_quantity(&self) -> (r: bool)
        ensures
            r == self@.is_quote_quantity,
    {
        self.core.is_quote_quantity
    }

    /// A market order has no price.
    pub fn has_price(&self) -> (r: bool)
        ensures
            r == false,
    {
        false
    }

    /// A market order has no display quantity: always absent.
    pub fn display_qty(&self) -> (r: Option<Quantity>)
        ensures
            r is None,
    {
        None
    }

    /// A market order has no limit offset: always absent.
    pub fn limit_offset(&self) -> (r: Option<rust_decimal::Decimal>)
        ensures
            r is None,
    {
        None
    }

    /// A market order has no trailing offset: always absent.
    pub fn trailing_offset(&self) -> (r: Option<rust_decimal::Decimal>)
        ensures
            r is None,
    {
        None
    }

    /// A market order has no trailing-offset type: always absent.
    pub fn trailing_offset_type(&self) -> (r: Option<TrailingOffsetType>)
        ensures
            r is None,
    {
        None
    }

    /// A market order is never emulated: always absent.
    pub fn emulation_trigger(&self) -> (r: Option<TriggerType>)
        ensures
            r is None,
    {
        None
    }

    /// A market order has no trigger instrument: always absent.
    pub fn trigger_instrument_id(&self) -> (r: Option<InstrumentId>)
        ensures
            r is None,
    {
        None
    }

    /// The contingency relationship of the order, if any.
    pub fn contingency_type(&self) -> (r: Option<ContingencyType>)
        requires
            self.wf(),
        ensures
            r == crate::order_core::init_event(self@).contingency_type,
    {
        self.init_snapshot().contingency_type
    }

    /// The order list the order belongs to, if any.
    pub fn order_list_id(&self) -> (r: Option<OrderListId>)
        requires
            self.wf(),
        ensures
            r == crate::order_core::init_event(self@).order_list_id,
    {
        match &self.init_snapshot().order_list_id {
            Some(v) => Some(v.duplicate()),
            None => None,
        }
    }

    /// The client order ids linked to this order, if any.
    pub fn linked_order_ids(&self) -> (r: Option<&Vec<ClientOrderId>>)
        requires
            self.wf(),
        ensures
            match r {
                Some(v) => crate::order_core::init_event(self@).linked_order_ids == Some(*v),
                None => crate::order_core::init_event(self@).linked_order_ids is None,
            },
    {
        match &self.init_snapshot().linked_order_ids {
            Some(v) => Some(v),
            None => None,
        }
    }

    /// The parent order id, if this order is a child.
    pub fn parent_order_id(&self) -> (r: Option<ClientOrderId>)
        requires
            self.wf(),
        ensures
            r == crate::order_core::init_event(self@).parent_order_id,
    {
        match &self.init_snapshot().parent_order_id {
            Some(v) => Some(v.duplicate()),
            None => None,
        }
    }

    /// The execution algorithm managing this order, if any.
    pub fn exec_algorithm_id(&self) -> (r: Option<ExecAlgorithmId>)
        requires
            self.wf(),
        ensures
            r == crate::order_core::init_event(self@).exec_algorithm_id,
    {
        match &self.init_snapshot().exec_algorithm_id {
            Some(v) => Some(v.duplicate()),
            None => None,
        }
    }

    /// The execution algorithm's parameters, if any.
    pub fn exec_algorithm_params(&self) -> (r: Option<&IndexMap<String, String>>)
        requires
            self.wf(),
        ensures
            match r {
                Some(p) => crate::order_core::init_event(self@).exec_algorithm_params == Some(*p),
                None => crate::order_core::init_event(self@).exec_algorithm_params is None,
            },
    {
        match &self.init_snapshot().exec_algorithm_params {
            Some(p) => Some(p),
            None => None,
        }
    }

    /// The originating order of an algorithmic spawn, if any.
    pub fn exec_spawn_id(&self) -> (r: Option<ClientOrderId>)
        requires
            self.wf(),
        ensures
            r == crate::order_core::init_event(self@).exec_spawn_id,
    {
        match &self.init_snapshot().exec_spawn_id {
            Some(v) => Some(v.duplicate()),
            None => None,
        }
    }

    /// The free-form tags attached at construction, if any.
    pub fn tags(&self) -> (r: Option<&Vec<String>>)
        requires
            self.wf(),
        ensures
            match r {
                Some(t) => crate::order_core::init_event(self@).tags == Some(*t),
                None => crate::order_core::init_event(self@).tags is None,
            },
    {
        match &self.init_snapshot().tags {
            Some(t) => Some(t),
            None => None,
        }
    }

    /// The quantity filled so far.
    pub fn filled_qty(&self) -> (r: Quantity)
        ensures
            r == self@.filled_qty,
    {
        self.core.filled_qty
    }

    /// The quantity still open.
    pub fn leaves_qty(&self) -> (r: Quantity)
        ensures
            r == self@.leaves_qty,
    {
        self.core.leaves_qty
    }

    /// The id of the `Initialized` event.
    pub fn init_id(&self) -> (r: UUID4)
        ensures
            r == self@.init_id,
    {
        self.core.init_id
    }

    /// When the order was constructed.
    pub fn ts_init(&self) -> (r: UnixNanos)
        ensures
            r == self@.ts_init,
    {
        self.core.ts_init
    }

    /// When the order was submitted, once it was.
    pub fn ts_submitted(&self) -> (r: Option<UnixNanos>)
        ensures
            r == self@.ts_submitted,
    {
        self.core.ts_submitted
    }

    /// When the order was accepted, once it was.
    pub fn ts_accepted(&self) -> (r: Option<UnixNanos>)
        ensures
            r == self@.ts_accepted,
    {
        self.core.ts_accepted
    }

    /// When the order reached a terminal state, once it did.
    pub fn ts_closed(&self) -> (r: Option<UnixNanos>)
        ensures
            r == self@.ts_closed,
    {
        self.core.ts_closed
    }

    /// The time of the last applied event.
    pub fn ts_last(&self) -> (r: UnixNanos)
        ensures
            r == self@.ts_last,
    {
        self.core.ts_last
    }

    /// The append-only event log, starting with the `Initialized`
    /// snapshot: the authoritative replay source.
    pub fn events(&self) -> (r: &Vec<OrderEventAny>)
        ensures
            r@ == self@.events,
    {
        &self.core.events
    }

    /// Every venue order id the order has carried.
    pub fn venue_order_ids(&self) -> (r: &Vec<VenueOrderId>)
        ensures
            r@ == self@.venue_order_ids,
    {
        &self.core.venue_order_ids
    }

    /// The ids of every fill of the order.
    pub fn trade_ids(&self) -> (r: &Vec<TradeId>)
        ensures
            r@ == self@.trade_ids,
    {
        &self.core.trade_ids
    }

    /// The accumulated commissions, keyed by currency code.
    pub fn commissions(&self) -> (r: &IndexMap<String, i64>)
        ensures
            commission_totals(*r) == self@.commissions,
    {
        &self.core.commissions
    }

    /// A market order has no trigger: never triggered, reported as
    /// not applicable.
    pub fn is_triggered(&self) -> (r: Option<bool>)
        ensures
            r is None,
    {
        None
    }

    /// Assigns or clears the position linkage.
    pub fn set_position_id(&mut self, position_id: Option<PositionId>)
        ensures
            final(self)@ == (CoreModel { position_id, ..old(self)@ }),
    {
        self.core.position_id = position_id;
    }

    /// Overwrites the order quantity.  Callers must re-establish the
    /// quantity accounting by pairing this with `set_leaves_qty`.
    pub fn set_quantity(&mut self, quantity: Quantity)
        ensures
            final(self)@ == (CoreModel { quantity, ..old(self)@ }),
    {
        self.core.quantity = quantity;
    }

    /// Overwrites the leaves quantity.  Callers must keep the quantity
    /// accounting consistent.
    pub fn set_leaves_qty(&mut self, leaves_qty: Quantity)
        ensures
            final(self)@ == (CoreModel { leaves_qty, ..old(self)@ }),
    {
        self.core.leaves_qty = leaves_qty;
    }

    /// Sets or clears the emulation trigger.
    pub fn set_emulation_trigger(&mut self, emulation_trigger: Option<TriggerType>)
        ensures
            final(self)@ == (CoreModel { emulation_trigger, ..old(self)@ }),
    {
        self.core.emulation_trigger = emulation_trigger;
    }

    /// Sets the quote-quantity flag.
    pub fn set_is_quote_quantity(&mut self, is_quote_quantity: bool)
        ensures
            final(self)@ == (CoreModel { is_quote_quantity, ..old(self)@ }),
    {
        self.core.is_quote_quantity = is_quote_quantity;
    }

    /// Records the liquidity side of the order's executions.
    pub fn set_liquidity_side(&mut self, liquidity_side: LiquiditySide)
        ensures
            final(self)@ == (CoreModel { liquidity_side: Some(liquidity_side), ..old(self)@ }),
    {
        self.core.liquidity_side = Some(liquidity_side);
    }

    /// True iff this order can only shrink, never grow or flip, a
    /// position of the given side and quantity.
    pub fn would_reduce_only(&self, side: PositionSide, position_qty: Quantity) -> (r: bool)
        ensures
            r == reduce_only_spec(self@.side, self@.leaves_qty, side, position_qty),
    {
        self.core.would_reduce_only(side, position_qty)
    }

    /// The status before the most recently applied event: a one-slot
    /// cache, not a history — the event log is the authoritative source.
    pub fn previous_status(&self) -> (r: Option<OrderStatus>)
        ensures
            r == self@.previous_status,
    {
        self.core.previous_status
    }
}

impl PartialEq for MarketOrder {
    /// Identity-based equality: two orders are equal iff their client
    /// order ids match, regardless of every other field.
    fn eq(&self, other: &Self) -> (r: bool) {
        self.core.client_order_id.value == other.core.client_order_id.value
    }
}

impl PartialEqSpecImpl for MarketOrder {
    open spec fn obeys_eq_spec() -> bool {
        true
    }

    open spec fn eq_spec(&self, other: &Self) -> bool {
        self@.client_order_id.value@ == other@.client_order_id.value@
    }
}

/// Reconstructing the snapshot of a market-shaped `Initialized` event
/// from its own fields gives the event back unchanged: together with the
/// constructors' contracts, direct construction and reconstruction from
/// the logged event yield aggregates with one and the same model, hence
/// identical accessor outputs.
pub proof fn lemma_round_trip(e: OrderInitialized)
    requires
        market_shape(e),
    ensures
        market_init_event(
            e.trader_id,
            e.strategy_id,
            e.instrument_id,
            e.client_order_id,
            e.order_side,
            e.quantity,
            e.time_in_force,
            e.event_id,
            e.ts_event,
            e.reduce_only,
            e.quote_quantity,
            e.contingency_type,
            e.order_list_id,
            e.linked_order_ids,
            e.parent_order_id,
            e.exec_algorithm_id,
            e.exec_algorithm_params,
            e.exec_spawn_id,
            e.tags,
        ) == e,
{
    assert(market_init_event(
        e.trader_id,
        e.strategy_id,
        e.instrument_id,
        e.client_order_id,
        e.order_side,
        e.quantity,
        e.time_in_force,
        e.event_id,
        e.ts_event,
        e.reduce_only,
        e.quote_quantity,
        e.contingency_type,
        e.order_list_id,
        e.linked_order_ids,
        e.parent_order_id,
        e.exec_algorithm_id,
        e.exec_algorithm_params,
        e.exec_spawn_id,
        e.tags,
    ) =~= e);
}

/// For every event that is not an amendment, the market variant defers
/// to the shared core entirely: it refuses exactly what the core
/// refuses and advances exactly as the core does.  The canonical
/// submit–accept–fill sequence therefore holds of a market order just
/// as the shared core's lifecycle law states it.
pub proof fn lemma_market_delegates_to_core(m: CoreModel, e: OrderEventAny)
    requires
        !(e matches OrderEventAny::Updated(_)),
    ensures
        market_apply_error(m, e) == apply_error(m, e),
        market_apply_model(m, e) == apply_model(m, e),
{
}

/// Equality of market orders depends on the client order id alone:
/// orders with equal client order ids are equal, whatever their other
/// fields; orders with different client order ids are not.
pub proof fn lemma_equality_by_client_order_id(a: MarketOrder, b: MarketOrder)
    ensures
        vstd::std_specs::cmp::PartialEqSpec::eq_spec(&a, &b) <==> a@.client_order_id.value@
            == b@.client_order_id.value@,
{
}

} // verus!
