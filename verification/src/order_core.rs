//! The shared state core: the fields common to every order variant, the
//! transition table of the lifecycle state machine, and the variant-agnostic
//! part of event application.
//!
//! The core's behaviour is specified against an abstract model
//! ([`CoreModel`]): `apply` either refuses an event, leaving the aggregate
//! untouched, or advances the model exactly as [`apply_model`] says.

use vstd::prelude::*;
use indexmap::IndexMap;
use crate::enums::{LiquiditySide, OrderSide, OrderStatus, OrderType, PositionSide, TimeInForce, TriggerType};
use crate::errors::OrderError;
use crate::events::{OrderEventAny, OrderInitialized};
use crate::identifiers::{AccountId, ClientOrderId, InstrumentId, PositionId, StrategyId, TradeId, TraderId, VenueOrderId};
use crate::outside_specs::{commission_totals, commissions_get, commissions_insert, commissions_new, no_commissions};
use crate::types::{Money, Quantity, UnixNanos, UUID4};

verus! {

/// The abstract state of an order aggregate: every field a contract of the
/// core speaks about, with the event log as a sequence and the accumulated
/// commissions as a map from currency code to total.
#[verifier::ext_equal]
pub struct CoreModel {
    pub trader_id: TraderId,
    pub strategy_id: StrategyId,
    pub instrument_id: InstrumentId,
    pub client_order_id: ClientOrderId,
    pub venue_order_id: Option<VenueOrderId>,
    pub position_id: Option<PositionId>,
    pub account_id: Option<AccountId>,
    pub last_trade_id: Option<TradeId>,
    pub side: OrderSide,
    pub order_type: OrderType,
    pub quantity: Quantity,
    pub time_in_force: TimeInForce,
    pub liquidity_side: Option<LiquiditySide>,
    pub is_reduce_only: bool,
    pub is_quote_quantity: bool,
    pub emulation_trigger: Option<TriggerType>,
    pub filled_qty: Quantity,
    pub leaves_qty: Quantity,
    pub status: OrderStatus,
    pub previous_status: Option<OrderStatus>,
    pub init_id: UUID4,
    pub ts_init: UnixNanos,
    pub ts_submitted: Option<UnixNanos>,
    pub ts_accepted: Option<UnixNanos>,
    pub ts_closed: Option<UnixNanos>,
    pub ts_last: UnixNanos,
    pub events: Seq<OrderEventAny>,
    pub venue_order_ids: Seq<VenueOrderId>,
    pub trade_ids: Seq<TradeId>,
    pub commissions: Map<Seq<char>, i64>,
}

/// The well-formedness invariant of a reachable aggregate state: positive
/// quantity, exact quantity accounting, one precision across the three
/// quantity fields, and an event log that starts with the `Initialized`
/// snapshot whose identity fields the aggregate carries unchanged.
pub open spec fn inv(m: CoreModel) -> bool {
    &&& m.quantity.raw > 0
    &&& m.filled_qty.raw + m.leaves_qty.raw == m.quantity.raw
    &&& m.filled_qty.precision == m.quantity.precision
    &&& m.leaves_qty.precision == m.quantity.precision
    &&& m.events.len() >= 1
    &&& m.events[0] matches OrderEventAny::Initialized(e0)
        && e0.trader_id == m.trader_id
        && e0.strategy_id == m.strategy_id
        && e0.instrument_id == m.instrument_id
        && e0.client_order_id == m.client_order_id
        && e0.order_side == m.side
        && e0.order_type == m.order_type
        && e0.time_in_force == m.time_in_force
        && e0.event_id == m.init_id
        && e0.ts_init == m.ts_init
}

/// The `Initialized` snapshot at the head of the event log.
pub open spec fn init_event(m: CoreModel) -> OrderInitialized
    recommends
        inv(m),
{
    m.events[0]->Initialized_0
}

/// The model of a freshly constructed aggregate: every field taken from the
/// `Initialized` snapshot, the log holding exactly that snapshot, nothing
/// filled, no commissions, and no venue linkage yet.
pub open spec fn init_model(e: OrderInitialized) -> CoreModel {
    CoreModel {
        trader_id: e.trader_id,
        strategy_id: e.strategy_id,
        instrument_id: e.instrument_id,
        client_order_id: e.client_order_id,
        venue_order_id: None,
        position_id: None,
        account_id: None,
        last_trade_id: None,
        side: e.order_side,
        order_type: e.order_type,
        quantity: e.quantity,
        time_in_force: e.time_in_force,
        liquidity_side: None,
        is_reduce_only: e.reduce_only,
        is_quote_quantity: e.quote_quantity,
        emulation_trigger: e.emulation_trigger,
        filled_qty: Quantity { raw: 0, precision: e.quantity.precision },
        leaves_qty: e.quantity,
        status: OrderStatus::Initialized,
        previous_status: None,
        init_id: e.event_id,
        ts_init: e.ts_init,
        ts_submitted: None,
        ts_accepted: None,
        ts_closed: None,
        ts_last: e.ts_init,
        events: seq![OrderEventAny::Initialized(e)],
        venue_order_ids: Seq::empty(),
        trade_ids: Seq::empty(),
        commissions: no_commissions(),
    }
}

/// The transition table.  For a legal event the resulting status; `None`
/// where the event is not permitted from the current state.  A fill's
/// resulting status follows from the quantity accounting: it closes the
/// order exactly when it trades the whole leaves quantity.
pub open spec fn next_status_spec(m: CoreModel, e: OrderEventAny) -> Option<OrderStatus> {
    match e {
        OrderEventAny::Initialized(_) => None,
        OrderEventAny::Denied(_) => if m.status == OrderStatus::Initialized {
            Some(OrderStatus::Denied)
        } else {
            None
        },
        OrderEventAny::Submitted(_) => if m.status == OrderStatus::Initialized {
            Some(OrderStatus::Submitted)
        } else {
            None
        },
        OrderEventAny::Accepted(_) => if m.status == OrderStatus::Submitted {
            Some(OrderStatus::Accepted)
        } else {
            None
        },
        OrderEventAny::Rejected(_) => if m.status == OrderStatus::Submitted {
            Some(OrderStatus::Rejected)
        } else {
            None
        },
        OrderEventAny::Triggered(_) => if m.status == OrderStatus::Accepted || m.status
            == OrderStatus::Triggered {
            Some(OrderStatus::Triggered)
        } else {
            None
        },
        OrderEventAny::Updated(_) => if !m.status.is_terminal() {
            Some(m.status)
        } else {
            None
        },
        OrderEventAny::Canceled(_) => if !m.status.is_terminal() && m.leaves_qty.raw > 0 {
            Some(OrderStatus::Canceled)
        } else {
            None
        },
        OrderEventAny::Expired(_) => if m.status == OrderStatus::Accepted || m.status
            == OrderStatus::Triggered || m.status == OrderStatus::PendingUpdate || m.status
            == OrderStatus::PendingCancel || m.status == OrderStatus::PartiallyFilled {
            Some(OrderStatus::Expired)
        } else {
            None
        },
        OrderEventAny::Filled(f) => if m.status == OrderStatus::Accepted || m.status
            == OrderStatus::Triggered || m.status == OrderStatus::PartiallyFilled {
            Some(
                if f.last_qty.raw == m.leaves_qty.raw {
                    OrderStatus::Filled
                } else {
                    OrderStatus::PartiallyFilled
                },
            )
        } else {
            None
        },
    }
}

/// The commission total already recorded for a currency code, zero when
/// none is.
pub open spec fn prior_commission(cm: Map<Seq<char>, i64>, code: Seq<char>) -> int {
    if cm.dom().contains(code) {
        cm[code] as int
    } else {
        0
    }
}

/// Whether a fill's commission, if any, can be accumulated without
/// leaving the range of the stored totals.
pub open spec fn commission_fits(cm: Map<Seq<char>, i64>, c: Option<Money>) -> bool {
    match c {
        None => true,
        Some(mny) => i64::MIN <= prior_commission(cm, mny.currency.code@) + mny.raw
            <= i64::MAX,
    }
}

/// The commission map after accumulating a fill's commission, if any.
pub open spec fn commissions_after(cm: Map<Seq<char>, i64>, c: Option<Money>) -> Map<
    Seq<char>,
    i64,
> {
    match c {
        None => cm,
        Some(mny) => cm.insert(
            mny.currency.code@,
            (prior_commission(cm, mny.currency.code@) + mny.raw) as i64,
        ),
    }
}

/// Whether a fill record is semantically sound for the aggregate: it
/// trades a positive amount, in the aggregate's precision, of no more
/// than the leaves quantity, and its commission can be accumulated.
pub open spec fn fill_well_formed(m: CoreModel, e: OrderEventAny) -> bool {
    e matches OrderEventAny::Filled(f) ==> {
        &&& f.last_qty.raw > 0
        &&& f.last_qty.precision == m.quantity.precision
        &&& f.last_qty.raw <= m.leaves_qty.raw
        &&& commission_fits(m.commissions, f.commission)
    }
}

/// Why the core refuses an event, or `None` where it accepts it: an event
/// illegal under the transition table is an `InvalidStateTransition`; a
/// legal event that is desynchronized — its time precedes the last
/// applied event's — or a legal fill whose content is semantically
/// unsound is an `InvalidOrderEvent`.  Refusing time regressions keeps
/// the last-activity time non-decreasing in every reachable state.
pub open spec fn apply_error(m: CoreModel, e: OrderEventAny) -> Option<OrderError> {
    if next_status_spec(m, e) is None {
        Some(OrderError::InvalidStateTransition)
    } else if e.spec_ts_event().value < m.ts_last.value {
        Some(OrderError::InvalidOrderEvent)
    } else if !fill_well_formed(m, e) {
        Some(OrderError::InvalidOrderEvent)
    } else {
        None
    }
}

/// The variant-agnostic effect of applying an accepted event: the status
/// advances per the transition table, the previous status is cached, the
/// event time becomes the last-activity time, the event is appended to
/// the log, and the event-specific field updates are made — account and
/// venue capture on submission and acceptance, close timestamps on
/// terminal transitions, and quantity accounting, trade linkage, default
/// position assignment and commission accumulation on fills.
pub open spec fn apply_model(m: CoreModel, e: OrderEventAny) -> CoreModel {
    let base = CoreModel {
        status: next_status_spec(m, e).unwrap(),
        previous_status: Some(m.status),
        ts_last: e.spec_ts_event(),
        events: m.events.push(e),
        ..m
    };
    match e {
        OrderEventAny::Initialized(_) => base,
        OrderEventAny::Denied(d) => CoreModel { ts_closed: Some(d.ts_event), ..base },
        OrderEventAny::Submitted(s) => CoreModel {
            account_id: Some(s.account_id),
            ts_submitted: Some(s.ts_event),
            ..base
        },
        OrderEventAny::Accepted(a) => CoreModel {
            venue_order_id: Some(a.venue_order_id),
            account_id: Some(a.account_id),
            venue_order_ids: m.venue_order_ids.push(a.venue_order_id),
            ts_accepted: Some(a.ts_event),
            ..base
        },
        OrderEventAny::Rejected(x) => CoreModel { ts_closed: Some(x.ts_event), ..base },
        OrderEventAny::Canceled(c) => CoreModel { ts_closed: Some(c.ts_event), ..base },
        OrderEventAny::Expired(x) => CoreModel { ts_closed: Some(x.ts_event), ..base },
        OrderEventAny::Triggered(_) => base,
        OrderEventAny::Updated(_) => base,
        OrderEventAny::Filled(f) => CoreModel {
            filled_qty: Quantity {
                raw: (m.filled_qty.raw + f.last_qty.raw) as u64,
                precision: m.quantity.precision,
            },
            leaves_qty: Quantity {
                raw: (m.leaves_qty.raw - f.last_qty.raw) as u64,
                precision: m.quantity.precision,
            },
            trade_ids: m.trade_ids.push(f.trade_id),
            last_trade_id: Some(f.trade_id),
            liquidity_side: Some(f.liquidity_side),
            position_id: if m.position_id is Some {
                m.position_id
            } else {
                f.position_id
            },
            commissions: commissions_after(m.commissions, f.commission),
            ts_closed: if f.last_qty.raw == m.leaves_qty.raw {
                Some(f.ts_event)
            } else {
                m.ts_closed
            },
            ..base
        },
    }
}

/// True iff an order on `order_side` with `leaves` quantity still open can
/// only shrink, never grow or flip, a position of `side` and
/// `position_qty`: it must trade against the position's side and for no
/// more than the position holds.
pub open spec fn reduce_only_spec(
    order_side: OrderSide,
    leaves: Quantity,
    side: PositionSide,
    position_qty: Quantity,
) -> bool {
    match (order_side, side) {
        (OrderSide::Buy, PositionSide::Short) => leaves.raw <= position_qty.raw,
        (OrderSide::Sell, PositionSide::Long) => leaves.raw <= position_qty.raw,
        _ => false,
    }
}

/// The shared state core of an order aggregate.
pub struct OrderCore {
    pub trader_id: TraderId,
    pub strategy_id: StrategyId,
    pub instrument_id: InstrumentId,
    pub client_order_id: ClientOrderId,
    pub venue_order_id: Option<VenueOrderId>,
    pub position_id: Option<PositionId>,
    pub account_id: Option<AccountId>,
    pub last_trade_id: Option<TradeId>,
    pub side: OrderSide,
    pub order_type: OrderType,
    pub quantity: Quantity,
    pub time_in_force: TimeInForce,
    pub liquidity_side: Option<LiquiditySide>,
    pub is_reduce_only: bool,
    pub is_quote_quantity: bool,
    pub emulation_trigger: Option<TriggerType>,
    pub filled_qty: Quantity,
    pub leaves_qty: Quantity,
    pub status: OrderStatus,
    pub previous_status: Option<OrderStatus>,
    pub init_id: UUID4,
    pub ts_init: UnixNanos,
    pub ts_submitted: Option<UnixNanos>,
    pub ts_accepted: Option<UnixNanos>,
    pub ts_closed: Option<UnixNanos>,
    pub ts_last: UnixNanos,
    pub events: Vec<OrderEventAny>,
    pub venue_order_ids: Vec<VenueOrderId>,
    pub trade_ids: Vec<TradeId>,
    pub commissions: IndexMap<String, i64>,
}

impl View for OrderCore {
    type V = CoreModel;

    open spec fn view(&self) -> CoreModel {
        CoreModel {
            trader_id: self.trader_id,
            strategy_id: self.strategy_id,
            instrument_id: self.instrument_id,
            client_order_id: self.client_order_id,
            venue_order_id: self.venue_order_id,
            position_id: self.position_id,
            account_id: self.account_id,
            last_trade_id: self.last_trade_id,
            side: self.side,
            order_type: self.order_type,
            quantity: self.quantity,
            time_in_force: self.time_in_force,
            liquidity_side: self.liquidity_side,
            is_reduce_only: self.is_reduce_only,
            is_quote_quantity: self.is_quote_quantity,
            emulation_trigger: self.emulation_trigger,
            filled_qty: self.filled_qty,
            leaves_qty: self.leaves_qty,
            status: self.status,
            previous_status: self.previous_status,
            init_id: self.init_id,
            ts_init: self.ts_init,
            ts_submitted: self.ts_submitted,
            ts_accepted: self.ts_accepted,
            ts_closed: self.ts_closed,
            ts_last: self.ts_last,
            events: self.events@,
            venue_order_ids: self.venue_order_ids@,
            trade_ids: self.trade_ids@,
            commissions: commission_totals(self.commissions),
        }
    }
}

impl OrderCore {
    /// Builds the shared core from its `Initialized` snapshot, recording
    /// the snapshot as the first entry of the event log.
    pub fn new(init: OrderInitialized) -> (r: Self)
        requires
            init.quantity.raw > 0,
        ensures
            r@ == init_model(init),
            inv(r@),
    {
        let ghost snap = init;
        let trader_id = init.trader_id.duplicate();
        let strategy_id = init.strategy_id.duplicate();
        let instrument_id = init.instrument_id.duplicate();
        let client_order_id = init.client_order_id.duplicate();
        let side = init.order_side;
        let order_type = init.order_type;
        let quantity = init.quantity;
        let time_in_force = init.time_in_force;
        let is_reduce_only = init.reduce_only;
        let is_quote_quantity = init.quote_quantity;
        let emulation_trigger = init.emulation_trigger;
        let init_id = init.event_id;
        let ts_init = init.ts_init;
        let mut events: Vec<OrderEventAny> = Vec::new();
        events.push(OrderEventAny::Initialized(init));
        let r = OrderCore {
            trader_id,
            strategy_id,
            instrument_id,
            client_order_id,
            venue_order_id: None,
            position_id: None,
            account_id: None,
            last_trade_id: None,
            side,
            order_type,
            quantity,
            time_in_force,
            liquidity_side: None,
            is_reduce_only,
            is_quote_quantity,
            emulation_trigger,
            filled_qty: Quantity { raw: 0, precision: quantity.precision },
            leaves_qty: quantity,
            status: OrderStatus::Initialized,
            previous_status: None,
            init_id,
            ts_init,
            ts_submitted: None,
            ts_accepted: None,
            ts_closed: None,
            ts_last: ts_init,
            events,
            venue_order_ids: Vec::new(),
            trade_ids: Vec::new(),
            commissions: commissions_new(),
        };
        proof {
            assert(r@ =~= init_model(snap));
        }
        r
    }

    /// Validates an event against the transition table and the fill
    /// soundness checks, returning the status the aggregate would take,
    /// without mutating anything.
    pub fn check_event(&self, event: &OrderEventAny) -> (r: Result<OrderStatus, OrderError>)
        ensures
            match r {
                Ok(s) => apply_error(self@, *event) is None && Some(s) == next_status_spec(
                    self@,
                    *event,
                ),
                Err(e) => Some(e) == apply_error(self@, *event),
            },
    {
        let next: Option<OrderStatus> = match event {
            OrderEventAny::Initialized(_) => None,
            OrderEventAny::Denied(_) => if self.status == OrderStatus::Initialized {
                Some(OrderStatus::Denied)
            } else {
                None
            },
            OrderEventAny::Submitted(_) => if self.status == OrderStatus::Initialized {
                Some(OrderStatus::Submitted)
            } else {
                None
            },
            OrderEventAny::Accepted(_) => if self.status == OrderStatus::Submitted {
                Some(OrderStatus::Accepted)
            } else {
                None
            },
            OrderEventAny::Rejected(_) => if self.status == OrderStatus::Submitted {
                Some(OrderStatus::Rejected)
            } else {
                None
            },
            OrderEventAny::Triggered(_) => if self.status == OrderStatus::Accepted || self.status
                == OrderStatus::Triggered {
                Some(OrderStatus::Triggered)
            } else {
                None
            },
            OrderEventAny::Updated(_) => if !self.status.is_terminal_status() {
                Some(self.status)
            } else {
                None
            },
            OrderEventAny::Canceled(_) => if !self.status.is_terminal_status()
                && self.leaves_qty.raw > 0 {
                Some(OrderStatus::Canceled)
            } else {
                None
            },
            OrderEventAny::Expired(_) => if self.status == OrderStatus::Accepted || self.status
                == OrderStatus::Triggered || self.status == OrderStatus::PendingUpdate
                || self.status == OrderStatus::PendingCancel || self.status
                == OrderStatus::PartiallyFilled {
                Some(OrderStatus::Expired)
            } else {
                None
            },
            OrderEventAny::Filled(f) => if self.status == OrderStatus::Accepted || self.status
                == OrderStatus::Triggered || self.status == OrderStatus::PartiallyFilled {
                if f.last_qty.raw == self.leaves_qty.raw {
                    Some(OrderStatus::Filled)
                } else {
                    Some(OrderStatus::PartiallyFilled)
                }
            } else {
                None
            },
        };
        let next_status = match next {
            Some(s) => s,
            None => {
                return Err(OrderError::InvalidStateTransition);
            },
        };
        if event.ts_event().value < self.ts_last.value {
            return Err(OrderError::InvalidOrderEvent);
        }
        if let OrderEventAny::Filled(f) = event {
            if !(f.last_qty.raw > 0) || f.last_qty.precision != self.quantity.precision
                || f.last_qty.raw > self.leaves_qty.raw {
                return Err(OrderError::InvalidOrderEvent);
            }
            if let Some(mny) = &f.commission {
                let prior: i64 = match commissions_get(&self.commissions, &mny.currency.code) {
                    Some(v) => v,
                    None => 0,
                };
                if (mny.raw >= 0 && prior > i64::MAX - mny.raw) || (mny.raw < 0 && prior
                    < i64::MIN - mny.raw) {
                    return Err(OrderError::InvalidOrderEvent);
                }
            }
        }
        Ok(next_status)
    }

    /// Applies a lifecycle event.  An event illegal from the current
    /// status, or semantically unsound, is refused with the matching
    /// error and the aggregate is left exactly as it was; an accepted
    /// event advances the aggregate as [`apply_model`] describes and
    /// preserves the invariant.
    pub fn apply(&mut self, event: OrderEventAny) -> (r: Result<(), OrderError>)
        requires
            inv(old(self)@),
        ensures
            r is Ok <==> apply_error(old(self)@, event) is None,
            r is Ok ==> final(self)@ == apply_model(old(self)@, event) && inv(final(self)@)
                && final(self)@.ts_last.value >= old(self)@.ts_last.value,
            r is Err ==> *final(self) == *old(self) && Some(r->Err_0) == apply_error(
                old(self)@,
                event,
            ),
    {
        let ghost m0 = self@;
        let next_status = match self.check_event(&event) {
            Ok(s) => s,
            Err(e) => {
                return Err(e);
            },
        };
        self.previous_status = Some(self.status);
        self.status = next_status;
        self.ts_last = event.ts_event();
        match &event {
            OrderEventAny::Initialized(_) => {},
            OrderEventAny::Denied(d) => {
                self.ts_closed = Some(d.ts_event);
            },
            OrderEventAny::Submitted(s) => {
                self.account_id = Some(s.account_id.duplicate());
                self.ts_submitted = Some(s.ts_event);
            },
            OrderEventAny::Accepted(a) => {
                self.venue_order_id = Some(a.venue_order_id.duplicate());
                self.account_id = Some(a.account_id.duplicate());
                self.venue_order_ids.push(a.venue_order_id.duplicate());
                self.ts_accepted = Some(a.ts_event);
            },
            OrderEventAny::Rejected(x) => {
                self.ts_closed = Some(x.ts_event);
            },
            OrderEventAny::Canceled(c) => {
                self.ts_closed = Some(c.ts_event);
            },
            OrderEventAny::Expired(x) => {
                self.ts_closed = Some(x.ts_event);
            },
            OrderEventAny::Triggered(_) => {},
            OrderEventAny::Updated(_) => {},
            OrderEventAny::Filled(f) => {
                let full = f.last_qty.raw == self.leaves_qty.raw;
                self.filled_qty = Quantity {
                    raw: self.filled_qty.raw + f.last_qty.raw,
                    precision: self.quantity.precision,
                };
                self.leaves_qty = Quantity {
                    raw: self.leaves_qty.raw - f.last_qty.raw,
                    precision: self.quantity.precision,
                };
                self.trade_ids.push(f.trade_id.duplicate());
                self.last_trade_id = Some(f.trade_id.duplicate());
                self.liquidity_side = Some(f.liquidity_side);
                if self.position_id.is_none() {
                    self.position_id = match &f.position_id {
                        Some(p) => Some(p.duplicate()),
                        None => None,
                    };
                }
                if let Some(mny) = &f.commission {
                    let prior: i64 = match commissions_get(&self.commissions, &mny.currency.code) {
                        Some(v) => v,
                        None => 0,
                    };
                    commissions_insert(
                        &mut self.commissions,
                        mny.currency.code.clone(),
                        prior + mny.raw,
                    );
                }
                if full {
                    self.ts_closed = Some(f.ts_event);
                }
            },
        }
        self.events.push(event);
        proof {
            assert(self@ =~= apply_model(m0, event));
        }
        Ok(())
    }

    /// True iff this order can only shrink, never grow or flip, a
    /// position of the given side and quantity.
    pub fn would_reduce_only(&self, side: PositionSide, position_qty: Quantity) -> (r: bool)
        ensures
            r == reduce_only_spec(self.side, self.leaves_qty, side, position_qty),
    {
        match (self.side, side) {
            (OrderSide::Buy, PositionSide::Short) => self.leaves_qty.raw <= position_qty.raw,
            (OrderSide::Sell, PositionSide::Long) => self.leaves_qty.raw <= position_qty.raw,
            _ => false,
        }
    }
}

/// Quantity accounting: in every well-formed aggregate state the filled
/// and leaves quantities are non-negative and sum exactly to the order
/// quantity, which is positive.
pub proof fn lemma_quantity_accounting(m: CoreModel)
    requires
        inv(m),
    ensures
        m.filled_qty.raw + m.leaves_qty.raw == m.quantity.raw,
        m.quantity.raw > 0,
{
}

/// Identity is stable under event application: whatever event the core
/// accepts, the identity fields, the classification and the head of the
/// event log are unchanged.
pub proof fn lemma_identity_stable(m: CoreModel, e: OrderEventAny)
    requires
        inv(m),
        apply_error(m, e) is None,
    ensures
        apply_model(m, e).trader_id == m.trader_id,
        apply_model(m, e).strategy_id == m.strategy_id,
        apply_model(m, e).instrument_id == m.instrument_id,
        apply_model(m, e).client_order_id == m.client_order_id,
        apply_model(m, e).side == m.side,
        apply_model(m, e).order_type == m.order_type,
        apply_model(m, e).time_in_force == m.time_in_force,
        apply_model(m, e).init_id == m.init_id,
        apply_model(m, e).ts_init == m.ts_init,
        apply_model(m, e).events[0] == m.events[0],
        inv(apply_model(m, e)),
{
    assert(apply_model(m, e).events[0] == m.events[0]);
}

/// The canonical happy path: from a fresh aggregate, submission, then
/// acceptance, then one full fill are all legal, leave the order with
/// status `Filled`, zero leaves quantity and everything filled — and a
/// further fill of the now-closed order is refused as an invalid state
/// transition.
pub proof fn lemma_canonical_fill_sequence(
    m0: CoreModel,
    es: crate::events::OrderSubmitted,
    ea: crate::events::OrderAccepted,
    ef: crate::events::OrderFilled,
)
    requires
        inv(m0),
        m0.status == OrderStatus::Initialized,
        ef.last_qty.raw == m0.leaves_qty.raw,
        ef.last_qty.raw > 0,
        ef.last_qty.precision == m0.quantity.precision,
        commission_fits(m0.commissions, ef.commission),
        m0.ts_last.value <= es.ts_event.value,
        es.ts_event.value <= ea.ts_event.value,
        ea.ts_event.value <= ef.ts_event.value,
    ensures
        apply_error(m0, OrderEventAny::Submitted(es)) is None,
        apply_error(
            apply_model(m0, OrderEventAny::Submitted(es)),
            OrderEventAny::Accepted(ea),
        ) is None,
        apply_error(
            apply_model(apply_model(m0, OrderEventAny::Submitted(es)), OrderEventAny::Accepted(ea)),
            OrderEventAny::Filled(ef),
        ) is None,
        apply_model(
            apply_model(apply_model(m0, OrderEventAny::Submitted(es)), OrderEventAny::Accepted(ea)),
            OrderEventAny::Filled(ef),
        ).status == OrderStatus::Filled,
        apply_model(
            apply_model(apply_model(m0, OrderEventAny::Submitted(es)), OrderEventAny::Accepted(ea)),
            OrderEventAny::Filled(ef),
        ).leaves_qty.raw == 0,
        apply_model(
            apply_model(apply_model(m0, OrderEventAny::Submitted(es)), OrderEventAny::Accepted(ea)),
            OrderEventAny::Filled(ef),
        ).filled_qty.raw == apply_model(
            apply_model(apply_model(m0, OrderEventAny::Submitted(es)), OrderEventAny::Accepted(ea)),
            OrderEventAny::Filled(ef),
        ).quantity.raw,
        forall|f2: crate::events::OrderFilled|
            apply_error(
                apply_model(
                    apply_model(
                        apply_model(m0, OrderEventAny::Submitted(es)),
                        OrderEventAny::Accepted(ea),
                    ),
                    OrderEventAny::Filled(ef),
                ),
                OrderEventAny::Filled(f2),
            ) == Some(OrderError::InvalidStateTransition),
{
}

} // verus!
