//! An event-sourced order-lifecycle core for an algorithmic trading system.
//!
//! An order aggregate is created by a variant constructor, which records an
//! `OrderInitialized` event as the first entry of its append-only log, and is
//! mutated exclusively by applying further lifecycle events.  A strict
//! transition table and quantity-accounting invariants are enforced on every
//! step: an event that is illegal from the current status, or semantically
//! mismatched for the variant, is refused without partial mutation.

pub mod enums;
pub mod errors;
pub mod events;
pub mod identifiers;
pub mod market;
pub mod order_any;
pub mod order_core;
pub mod outside_specs;
pub mod types;
