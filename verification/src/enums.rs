//! Enumerations shared by every order variant: sides, statuses, event-free
//! classifications and the values carried by lifecycle events.

use vstd::prelude::*;

verus! {

/// The side of an order: whether it buys or sells the instrument.
#[derive(Clone, Copy, PartialEq, Eq, Structural, Debug)]
pub enum OrderSide {
    Buy,
    Sell,
}

/// The side of an existing position that an order may reduce.
#[derive(Clone, Copy, PartialEq, Eq, Structural, Debug)]
pub enum PositionSide {
    Flat,
    Long,
    Short,
}

/// The classification of an order variant.
#[derive(Clone, Copy, PartialEq, Eq, Structural, Debug)]
pub enum OrderType {
    Market,
    Limit,
    StopMarket,
    StopLimit,
    MarketToLimit,
    MarketIfTouched,
    LimitIfTouched,
    TrailingStopMarket,
    TrailingStopLimit,
}

/// The finite set of lifecycle states of an order aggregate.
#[derive(Clone, Copy, PartialEq, Eq, Structural, Debug)]
pub enum OrderStatus {
    Initialized,
    Denied,
    Submitted,
    Accepted,
    Triggered,
    PendingUpdate,
    PendingCancel,
    PartiallyFilled,
    Filled,
    Canceled,
    Expired,
    Rejected,
}

impl OrderStatus {
    /// A terminal status accepts no further lifecycle event.
    pub open spec fn is_terminal(self) -> bool {
        self == OrderStatus::Denied || self == OrderStatus::Filled
            || self == OrderStatus::Canceled || self == OrderStatus::Expired
            || self == OrderStatus::Rejected
    }

    /// Reports whether this status is terminal.
    pub fn is_terminal_status(&self) -> (r: bool)
        ensures
            r == self.is_terminal(),
    {
        match self {
            OrderStatus::Denied => true,
            OrderStatus::Filled => true,
            OrderStatus::Canceled => true,
            OrderStatus::Expired => true,
            OrderStatus::Rejected => true,
            _ => false,
        }
    }
}

/// How long an order remains in force at the venue.
#[derive(Clone, Copy, PartialEq, Eq, Structural, Debug)]
pub enum TimeInForce {
    Gtc,
    Ioc,
    Fok,
    Gtd,
    Day,
    AtTheOpen,
    AtTheClose,
}

/// Whether a fill added or removed liquidity.
#[derive(Clone, Copy, PartialEq, Eq, Structural, Debug)]
pub enum LiquiditySide {
    NoLiquiditySide,
    Maker,
    Taker,
}

/// The kind of price that triggers a contingent order.
#[derive(Clone, Copy, PartialEq, Eq, Structural, Debug)]
pub enum TriggerType {
    NoTrigger,
    Default,
    BidAsk,
    LastPrice,
    DoubleLast,
    DoubleBidAsk,
    LastOrBidAsk,
    MidPoint,
    MarkPrice,
    IndexPrice,
}

/// How a trailing offset is expressed.
#[derive(Clone, Copy, PartialEq, Eq, Structural, Debug)]
pub enum TrailingOffsetType {
    NoTrailingOffset,
    Price,
    BasisPoints,
    Ticks,
    PriceTier,
}

/// The relationship an order has with other orders of a list.
#[derive(Clone, Copy, PartialEq, Eq, Structural, Debug)]
pub enum ContingencyType {
    NoContingency,
    Oco,
    Oto,
    Ouo,
}

} // verus!
