//! The values that the store holds.

use std::sync::Arc;
use vstd::prelude::*;

verus! {

/// A Nushell source span, carried through the store unchanged.
#[verifier::external_type_specification]
#[verifier::external_body]
pub struct ExSpan(nu_protocol::Span);

/// A Nushell value, carried through the store unchanged.
#[verifier::external_type_specification]
#[verifier::external_body]
pub struct ExValue(nu_protocol::Value);

/// A value held by the store.
///
/// The store reads two things of a value: whether it is an integer (and
/// which one), and whether it is `nothing`. Every other Nushell value is
/// carried as it came, in `Other`.
#[derive(Debug, PartialEq)]
pub enum StoredValue {
    Int { val: i64, span: nu_protocol::Span },
    Nothing { span: nu_protocol::Span },
    Other(CarriedValue),
}

/// A Nushell value that is neither an integer nor `nothing`, shared behind
/// a pointer. Its field is private: the only way to make one is
/// `StoredValue::from_value`, which gives integers and `nothing` their own
/// variants.
#[derive(Debug, PartialEq)]
pub struct CarriedValue(Arc<nu_protocol::Value>);

impl CarriedValue {
    /// The Nushell value carried.
    pub closed spec fn carried(self) -> nu_protocol::Value {
        *self.0
    }

    /// The Nushell value carried.
    pub fn as_value(&self) -> (r: &nu_protocol::Value)
        ensures
            *r == self.carried(),
    {
        &*self.0
    }
}

/// `Arc::clone`: the clone points at the same value.
#[verifier::external_body]
fn share(v: &Arc<nu_protocol::Value>) -> (r: Arc<nu_protocol::Value>)
    ensures
        r == *v,
{
    Arc::clone(v)
}

impl Clone for CarriedValue {
    /// Another handle on the same value.
    fn clone(&self) -> (r: CarriedValue)
        ensures
            r == *self,
    {
        CarriedValue(share(&self.0))
    }
}

/// Sorts a Nushell value into the store's representation: `Value::Int`
/// becomes `Int`, `Value::Nothing` becomes `Nothing`, and every other value
/// is carried in `Other` as it is (`Arc::new` points at the value given).
/// A `nu_protocol::Value` is opaque here, so the contract states only that
/// a carried value is the one given; which variant is picked, the body
/// shows.
#[verifier::external_body]
fn sort_value(v: nu_protocol::Value) -> (r: StoredValue)
    ensures
        r matches StoredValue::Other(c) ==> c.carried() == v,
{
    match v {
        nu_protocol::Value::Int { val, internal_span, .. } => StoredValue::Int { val, span: internal_span },
        nu_protocol::Value::Nothing { internal_span, .. } => StoredValue::Nothing { span: internal_span },
        other => StoredValue::Other(CarriedValue(Arc::new(other))),
    }
}

impl StoredValue {
    /// A Nushell value in the store's representation: integers and
    /// `nothing` get variants of their own, every other value is carried
    /// in `Other`, unchanged. Which variant a given value takes is not
    /// stated: Verus sees nothing inside a `nu_protocol::Value`.
    pub fn from_value(v: nu_protocol::Value) -> (r: StoredValue)
        ensures
            r matches StoredValue::Other(c) ==> c.carried() == v,
    {
        sort_value(v)
    }

    /// Whether this is Nushell's `nothing`.
    pub fn is_nothing(&self) -> (r: bool)
        ensures
            r == (*self is Nothing),
    {
        match self {
            StoredValue::Nothing { .. } => true,
            _ => false,
        }
    }
}

impl Clone for StoredValue {
    /// A copy of this value; a value carried from Nushell is shared, not
    /// copied.
    fn clone(&self) -> (r: StoredValue)
        ensures
            r == *self,
    {
        match self {
            StoredValue::Int { val, span } => StoredValue::Int { val: *val, span: *span },
            StoredValue::Nothing { span } => StoredValue::Nothing { span: *span },
            StoredValue::Other(v) => StoredValue::Other(v.clone()),
        }
    }
}

} // verus!
