//! Declarations and contracts for the outside types the core stores:
//! `indexmap::IndexMap`, the insertion-ordered map that keeps accumulated
//! commissions and carries execution-algorithm parameters, and
//! `rust_decimal::Decimal`, the type in which offset accessors answer.

use vstd::prelude::*;
use indexmap::IndexMap;

verus! {

/// `indexmap::IndexMap`: an insertion-ordered hash map.
#[verifier::external_type_specification]
#[verifier::external_body]
#[verifier::reject_recursive_types(K)]
#[verifier::reject_recursive_types(V)]
#[verifier::reject_recursive_types(S)]
pub struct ExIndexMap<K, V, S>(IndexMap<K, V, S>);

/// `rust_decimal::Decimal`: a 96-bit fixed-point decimal number.  The
/// core only carries such values; it never computes with them.
#[verifier::external_type_specification]
#[verifier::external_body]
pub struct ExDecimal(rust_decimal::Decimal);

/// The commission total recorded for each currency code in a
/// commission map.  Insertion order, which the map also keeps, is not
/// modelled: no contract of the core depends on it.
pub uninterp spec fn commission_totals(m: IndexMap<String, i64>) -> Map<Seq<char>, i64>;

/// The totals of a map that holds no commissions yet.
pub open spec fn no_commissions() -> Map<Seq<char>, i64> {
    Map::empty()
}

/// Relies on `IndexMap::new`: creates an empty map.
#[verifier::external_body]
pub fn commissions_new() -> (r: IndexMap<String, i64>)
    ensures
        commission_totals(r) == no_commissions(),
{
    IndexMap::new()
}

/// Relies on `IndexMap::get`: returns the value recorded under an
/// equivalent key, or nothing when the key is absent.
#[verifier::external_body]
pub fn commissions_get(m: &IndexMap<String, i64>, key: &String) -> (r: Option<i64>)
    ensures
        commission_totals(*m).dom().contains(key@) ==> r == Some(commission_totals(*m)[key@]),
        !commission_totals(*m).dom().contains(key@) ==> r is None,
{
    m.get(key).copied()
}

/// Relies on `IndexMap::insert`: records `value` under `key`, replacing
/// any value an equivalent key held before.
#[verifier::external_body]
pub fn commissions_insert(m: &mut IndexMap<String, i64>, key: String, value: i64)
    ensures
        commission_totals(*final(m)) == commission_totals(*old(m)).insert(key@, value),
{
    m.insert(key, value);
}

} // verus!
