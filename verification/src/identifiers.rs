//! Identifier types of the order core.  Each wraps a textual value; the
//! client order id is the sole equality key of an order aggregate.

use vstd::prelude::*;
use vstd::string::{StrSliceExecFns, StringExecFns};
use crate::errors::ValidationError;

verus! {

/// Whether a symbol value is hierarchical: it holds a `.` separator.
pub open spec fn symbol_is_composite(s: Seq<char>) -> bool {
    exists|i: int| 0 <= i < s.len() && s[i] == '.'
}

/// Whether `r` is the root of symbol value `s`: the prefix up to, and
/// excluding, the first `.`, or the whole value when none occurs.
pub open spec fn is_symbol_root(s: Seq<char>, r: Seq<char>) -> bool {
    exists|i: int|
        #![trigger s.subrange(0, i)]
        {
            &&& 0 <= i <= s.len()
            &&& r == s.subrange(0, i)
            &&& forall|k: int| 0 <= k < i ==> s[k] != '.'
            &&& (i == s.len() || s[i] == '.')
        }
}

/// The trader that owns an order.
#[derive(Clone, PartialEq, Eq, Hash, Debug)]
pub struct TraderId {
    pub value: String,
}

impl TraderId {
    pub fn new(value: String) -> (r: Self)
        ensures
            r.value == value,
    {
        TraderId { value }
    }

    /// An owned copy of this identifier.
    pub fn duplicate(&self) -> (r: Self)
        ensures
            r == *self,
    {
        TraderId { value: self.value.clone() }
    }
}

/// The strategy that emitted an order.
#[derive(Clone, PartialEq, Eq, Hash, Debug)]
pub struct StrategyId {
    pub value: String,
}

impl StrategyId {
    pub fn new(value: String) -> (r: Self)
        ensures
            r.value == value,
    {
        StrategyId { value }
    }

    /// An owned copy of this identifier.
    pub fn duplicate(&self) -> (r: Self)
        ensures
            r == *self,
    {
        StrategyId { value: self.value.clone() }
    }
}

/// The client-assigned order identifier: immutable for the aggregate's
/// life and the sole equality key of an order.
#[derive(Clone, PartialEq, Eq, Hash, Debug)]
pub struct ClientOrderId {
    pub value: String,
}

impl ClientOrderId {
    pub fn new(value: String) -> (r: Self)
        ensures
            r.value == value,
    {
        ClientOrderId { value }
    }

    /// An owned copy of this identifier.
    pub fn duplicate(&self) -> (r: Self)
        ensures
            r == *self,
    {
        ClientOrderId { value: self.value.clone() }
    }
}

/// The venue-assigned order identifier, captured on acceptance.
#[derive(Clone, PartialEq, Eq, Hash, Debug)]
pub struct VenueOrderId {
    pub value: String,
}

impl VenueOrderId {
    pub fn new(value: String) -> (r: Self)
        ensures
            r.value == value,
    {
        VenueOrderId { value }
    }

    /// An owned copy of this identifier.
    pub fn duplicate(&self) -> (r: Self)
        ensures
            r == *self,
    {
        VenueOrderId { value: self.value.clone() }
    }
}

/// The account an order trades against.
#[derive(Clone, PartialEq, Eq, Hash, Debug)]
pub struct AccountId {
    pub value: String,
}

impl AccountId {
    pub fn new(value: String) -> (r: Self)
        ensures
            r.value == value,
    {
        AccountId { value }
    }

    /// An owned copy of this identifier.
    pub fn duplicate(&self) -> (r: Self)
        ensures
            r == *self,
    {
        AccountId { value: self.value.clone() }
    }
}

/// The identifier of a single trade (fill).
#[derive(Clone, PartialEq, Eq, Hash, Debug)]
pub struct TradeId {
    pub value: String,
}

impl TradeId {
    pub fn new(value: String) -> (r: Self)
        ensures
            r.value == value,
    {
        TradeId { value }
    }

    /// An owned copy of this identifier.
    pub fn duplicate(&self) -> (r: Self)
        ensures
            r == *self,
    {
        TradeId { value: self.value.clone() }
    }
}

/// The position an order contributes to.
#[derive(Clone, PartialEq, Eq, Hash, Debug)]
pub struct PositionId {
    pub value: String,
}

impl PositionId {
    pub fn new(value: String) -> (r: Self)
        ensures
            r.value == value,
    {
        PositionId { value }
    }

    /// An owned copy of this identifier.
    pub fn duplicate(&self) -> (r: Self)
        ensures
            r == *self,
    {
        PositionId { value: self.value.clone() }
    }
}

/// The order list an order belongs to.
#[derive(Clone, PartialEq, Eq, Hash, Debug)]
pub struct OrderListId {
    pub value: String,
}

impl OrderListId {
    pub fn new(value: String) -> (r: Self)
        ensures
            r.value == value,
    {
        OrderListId { value }
    }

    /// An owned copy of this identifier.
    pub fn duplicate(&self) -> (r: Self)
        ensures
            r == *self,
    {
        OrderListId { value: self.value.clone() }
    }
}

/// The execution algorithm that spawned or manages an order.
#[derive(Clone, PartialEq, Eq, Hash, Debug)]
pub struct ExecAlgorithmId {
    pub value: String,
}

impl ExecAlgorithmId {
    pub fn new(value: String) -> (r: Self)
        ensures
            r.value == value,
    {
        ExecAlgorithmId { value }
    }

    /// An owned copy of this identifier.
    pub fn duplicate(&self) -> (r: Self)
        ensures
            r == *self,
    {
        ExecAlgorithmId { value: self.value.clone() }
    }
}

/// A ticker symbol.  A composite symbol holds a `.`-separated hierarchy
/// (e.g. a futures chain); its root is the part before the first `.`.
#[derive(Clone, PartialEq, Eq, PartialOrd, Ord, Hash, Debug)]
pub struct Symbol {
    pub value: String,
}

impl Symbol {
    pub fn new(value: String) -> (r: Self)
        ensures
            r.value == value,
    {
        Symbol { value }
    }

    /// Creates a symbol, validating that the value is non-empty ASCII.
    /// On failure no symbol is created.
    pub fn new_checked(value: &str) -> (r: Result<Self, ValidationError>)
        ensures
            r matches Ok(s) ==> s.value@ == value@,
            r is Ok <==> value@.len() > 0 && vstd::string::is_ascii(value),
            r is Err ==> r == Err::<Self, _>(ValidationError::IdentifierInvalid),
    {
        if value.is_empty() || !value.is_ascii() {
            return Err(ValidationError::IdentifierInvalid);
        }
        Ok(Symbol { value: value.to_owned() })
    }

    /// An owned copy of this symbol.
    pub fn duplicate(&self) -> (r: Self)
        ensures
            r == *self,
    {
        Symbol { value: self.value.clone() }
    }

    /// Replaces the symbol's value in place.
    pub fn set_inner(&mut self, value: &str)
        ensures
            final(self).value@ == value@,
    {
        self.value = value.to_owned();
    }

    /// The symbol's value.
    pub fn as_str(&self) -> (r: &str)
        ensures
            r@ == self.value@,
    {
        self.value.as_str()
    }

    /// The symbol's value as an owned string.
    pub fn text(&self) -> (r: String)
        ensures
            r@ == self.value@,
    {
        self.value.clone()
    }

    /// Whether the symbol is hierarchical: it holds a `.` separator.
    pub fn is_composite(&self) -> (r: bool)
        ensures
            r == symbol_is_composite(self.value@),
    {
        let s = self.value.as_str();
        let n = s.unicode_len();
        let mut i: usize = 0;
        while i < n
            invariant
                n == s@.len(),
                s@ == self.value@,
                0 <= i <= n,
                forall|k: int| 0 <= k < i ==> s@[k] != '.',
            decreases n - i,
        {
            if s.get_char(i) == '.' {
                return true;
            }
            i += 1;
        }
        false
    }

    /// The symbol's root: the prefix up to the first `.`, or the whole
    /// value when the symbol is not composite.
    pub fn root(&self) -> (r: &str)
        ensures
            is_symbol_root(self.value@, r@),
    {
        let s = self.value.as_str();
        let n = s.unicode_len();
        let mut i: usize = 0;
        while i < n
            invariant
                n == s@.len(),
                s@ == self.value@,
                0 <= i <= n,
                forall|k: int| 0 <= k < i ==> s@[k] != '.',
            decreases n - i,
        {
            if s.get_char(i) == '.' {
                return s.substring_char(0, i);
            }
            i += 1;
        }
        let whole = s.substring_char(0, n);
        proof {
            assert(whole@ == self.value@.subrange(0, n as int));
        }
        whole
    }

    /// The subscription topic of the symbol: for a composite symbol its
    /// root followed by `.*`, else the plain value.
    pub fn topic(&self) -> (r: String)
        ensures
            symbol_is_composite(self.value@) ==> exists|p: Seq<char>|
                is_symbol_root(self.value@, p) && r@ == p + ".*"@,
            !symbol_is_composite(self.value@) ==> r@ == self.value@,
    {
        if self.is_composite() {
            let root = self.root();
            let owned = String::from_str(root);
            let r = owned.concat(".*");
            proof {
                assert(is_symbol_root(self.value@, root@) && r@ == root@ + ".*"@);
            }
            r
        } else {
            self.value.clone()
        }
    }
}

/// A trading venue.
#[derive(Clone, PartialEq, Eq, Hash, Debug)]
pub struct Venue {
    pub value: String,
}

impl Venue {
    pub fn new(value: String) -> (r: Self)
        ensures
            r.value == value,
    {
        Venue { value }
    }

    /// An owned copy of this venue.
    pub fn duplicate(&self) -> (r: Self)
        ensures
            r == *self,
    {
        Venue { value: self.value.clone() }
    }
}

/// The instrument an order trades: a symbol at a venue.
#[derive(Clone, PartialEq, Eq, Hash, Debug)]
pub struct InstrumentId {
    pub symbol: Symbol,
    pub venue: Venue,
}

impl InstrumentId {
    pub fn new(symbol: Symbol, venue: Venue) -> (r: Self)
        ensures
            r.symbol == symbol,
            r.venue == venue,
    {
        InstrumentId { symbol, venue }
    }

    /// An owned copy of this instrument id.
    pub fn duplicate(&self) -> (r: Self)
        ensures
            r == *self,
    {
        InstrumentId { symbol: self.symbol.duplicate(), venue: self.venue.duplicate() }
    }
}

} // verus!
