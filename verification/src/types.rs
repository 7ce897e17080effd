//! Value types of the order core: timestamps, event ids, fixed-point
//! quantities and prices, currencies and monetary amounts.

use vstd::prelude::*;

verus! {

/// A nanosecond timestamp since the Unix epoch.
#[derive(Clone, Copy, PartialEq, Eq, Structural, Debug)]
pub struct UnixNanos {
    pub value: u64,
}

impl UnixNanos {
    pub fn new(value: u64) -> (r: Self)
        ensures
            r.value == value,
    {
        UnixNanos { value }
    }
}

/// A unique event identifier.
#[derive(Clone, Copy, PartialEq, Eq, Structural, Debug)]
pub struct UUID4 {
    pub value: u128,
}

impl UUID4 {
    pub fn new(value: u128) -> (r: Self)
        ensures
            r.value == value,
    {
        UUID4 { value }
    }
}

/// A non-negative fixed-point quantity: `raw` counts minimal units, of
/// which `10^precision` make one whole unit.
#[derive(Clone, Copy, PartialEq, Eq, Structural, Debug)]
pub struct Quantity {
    pub raw: u64,
    pub precision: u8,
}

impl Quantity {
    pub fn new(raw: u64, precision: u8) -> (r: Self)
        ensures
            r.raw == raw,
            r.precision == precision,
    {
        Quantity { raw, precision }
    }

    /// A zero quantity of the given precision.
    pub fn zero(precision: u8) -> (r: Self)
        ensures
            r.raw == 0,
            r.precision == precision,
    {
        Quantity { raw: 0, precision }
    }

    pub open spec fn is_positive(self) -> bool {
        self.raw > 0
    }
}

/// A signed fixed-point price.
#[derive(Clone, Copy, PartialEq, Eq, Structural, Debug)]
pub struct Price {
    pub raw: i64,
    pub precision: u8,
}

impl Price {
    pub fn new(raw: i64, precision: u8) -> (r: Self)
        ensures
            r.raw == raw,
            r.precision == precision,
    {
        Price { raw, precision }
    }
}

/// A currency, identified by its code (e.g. `"USD"`).  The code is the
/// key under which commissions are accumulated.
#[derive(Clone, PartialEq, Eq, Hash, Debug)]
pub struct Currency {
    pub code: String,
}

impl Currency {
    pub fn new(code: String) -> (r: Self)
        ensures
            r.code == code,
    {
        Currency { code }
    }

    /// An owned copy of this currency.
    pub fn duplicate(&self) -> (r: Self)
        ensures
            r == *self,
    {
        Currency { code: self.code.clone() }
    }
}

/// A signed monetary amount: `raw` counts minimal units of `currency`.
#[derive(Clone, PartialEq, Eq, Debug)]
pub struct Money {
    pub raw: i64,
    pub currency: Currency,
}

impl Money {
    pub fn new(raw: i64, currency: Currency) -> (r: Self)
        ensures
            r.raw == raw,
            r.currency == currency,
    {
        Money { raw, currency }
    }
}

} // verus!
