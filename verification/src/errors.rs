//! Typed failures surfaced by the order-lifecycle core.

use vstd::prelude::*;

verus! {

/// A construction-time failure: no aggregate is created when one is returned.
#[derive(Clone, Copy, PartialEq, Eq, Structural, Debug)]
pub enum ValidationError {
    /// The requested order quantity was zero.
    QuantityNotPositive,
    /// The requested time-in-force asks for a fixed expiry, which the
    /// variant has no concept of.
    TimeInForceNotSupported,
    /// An identifier value was empty or not ASCII.
    IdentifierInvalid,
}

/// An apply-time failure: the aggregate remains at its last valid state.
#[derive(Clone, Copy, PartialEq, Eq, Structural, Debug)]
pub enum OrderError {
    /// The event is not legal from the current status under the
    /// shared-core transition table.
    InvalidStateTransition,
    /// The event is legal as a transition but semantically mismatched for
    /// the order, e.g. a price carried by an amendment of a variant that
    /// has no price field.  Detected and refused as a recoverable error
    /// rather than halting the process.
    InvalidOrderEvent,
}

impl ValidationError {
    /// A short human-readable description of the failure.
    pub fn message(&self) -> (r: &'static str)
        ensures
            *self == ValidationError::QuantityNotPositive ==> r@ =~= "order quantity must be positive"@,
            *self == ValidationError::TimeInForceNotSupported ==> r@ =~= "time in force not supported for this order variant"@,
            *self == ValidationError::IdentifierInvalid ==> r@ =~= "identifier value must be non-empty ASCII"@,
    {
        match self {
            ValidationError::QuantityNotPositive => "order quantity must be positive",
            ValidationError::TimeInForceNotSupported => "time in force not supported for this order variant",
            ValidationError::IdentifierInvalid => "identifier value must be non-empty ASCII",
        }
    }
}

impl OrderError {
    /// A short human-readable description of the failure.
    pub fn message(&self) -> (r: &'static str)
        ensures
            *self == OrderError::InvalidStateTransition ==> r@ =~= "invalid state transition"@,
            *self == OrderError::InvalidOrderEvent ==> r@ =~= "invalid order event"@,
    {
        match self {
            OrderError::InvalidStateTransition => "invalid state transition",
            OrderError::InvalidOrderEvent => "invalid order event",
        }
    }
}

} // verus!
