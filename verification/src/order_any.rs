//! The closed dispatch set: a sum type over every order variant, for
//! heterogeneous storage and exhaustive, compile-time-checked handling.

use vstd::prelude::*;
use crate::enums::OrderStatus;
use crate::errors::OrderError;
use crate::events::OrderEventAny;
use crate::identifiers::ClientOrderId;
use crate::market::{market_apply_error, market_apply_model, MarketOrder};
use crate::order_core::CoreModel;
use crate::types::Quantity;

verus! {

/// Any order variant.  Every behaviour is dispatched by exhaustive
/// matching, so a newly added variant is checked for completeness at
/// build time.
pub enum OrderAny {
    Market(MarketOrder),
}

impl OrderAny {
    /// The model of the wrapped aggregate.
    pub open spec fn model(self) -> CoreModel {
        match self {
            OrderAny::Market(o) => o@,
        }
    }

    /// A well-formed wrapped aggregate.
    pub open spec fn wf(self) -> bool {
        match self {
            OrderAny::Market(o) => o.wf(),
        }
    }

    /// Why the wrapped variant refuses an event, or `None` where it
    /// accepts it.
    pub open spec fn dispatch_apply_error(self, e: OrderEventAny) -> Option<OrderError> {
        match self {
            OrderAny::Market(o) => market_apply_error(o@, e),
        }
    }

    /// The effect of an accepted event on the wrapped variant.
    pub open spec fn dispatch_apply_model(self, e: OrderEventAny) -> CoreModel {
        match self {
            OrderAny::Market(o) => market_apply_model(o@, e),
        }
    }

    /// Applies a lifecycle event through the wrapped variant.
    pub fn apply(&mut self, event: OrderEventAny) -> (r: Result<(), OrderError>)
        requires
            old(self).wf(),
        ensures
            final(self).wf(),
            r is Ok <==> old(self).dispatch_apply_error(event) is None,
            r is Ok ==> final(self).model() == old(self).dispatch_apply_model(event),
            r is Err ==> *final(self) == *old(self) && Some(r->Err_0) == old(
                self,
            ).dispatch_apply_error(event),
    {
        match self {
            OrderAny::Market(o) => o.apply(event),
        }
    }

    /// The client order id of the wrapped aggregate.
    pub fn client_order_id(&self) -> (r: ClientOrderId)
        ensures
            r == self.model().client_order_id,
    {
        match self {
            OrderAny::Market(o) => o.core.client_order_id.duplicate(),
        }
    }

    /// The status of the wrapped aggregate.
    pub fn status(&self) -> (r: OrderStatus)
        ensures
            r == self.model().status,
    {
        match self {
            OrderAny::Market(o) => o.core.status,
        }
    }

    /// The order quantity of the wrapped aggregate.
    pub fn quantity(&self) -> (r: Quantity)
        ensures
            r == self.model().quantity,
    {
        match self {
            OrderAny::Market(o) => o.core.quantity,
        }
    }

    /// The filled quantity of the wrapped aggregate.
    pub fn filled_qty(&self) -> (r: Quantity)
        ensures
            r == self.model().filled_qty,
    {
        match self {
            OrderAny::Market(o) => o.core.filled_qty,
        }
    }

    /// The leaves quantity of the wrapped aggregate.
    pub fn leaves_qty(&self) -> (r: Quantity)
        ensures
            r == self.model().leaves_qty,
    {
        match self {
            OrderAny::Market(o) => o.core.leaves_qty,
        }
    }
}

} // verus!
