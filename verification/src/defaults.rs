//! Runtime carrier types for default values.
//!
//! These generic structures are the statically-typed shells that hold one
//! concrete default per wrapper in a declared shape: an optional carries a
//! `set` flag and a content default, a feature switch an `enabled` flag and a
//! content default, and growable collections carry an element (or key/value)
//! default next to a list of literal defaults.

use vstd::prelude::*;

verus! {

/// A feature switch: either enabled with a payload, or disabled.
#[derive(Clone, Debug, PartialEq)]
pub enum Switch<T> {
    Enabled(T),
    Disabled,
}

impl<T> Switch<T> {
    /// The payload of an enabled switch, or nothing for a disabled one.
    pub fn into_option(self) -> (r: Option<T>)
        ensures
            match self {
                Switch::Enabled(t) => r == Some(t),
                Switch::Disabled => r is None,
            },
    {
        match self {
            Switch::Enabled(t) => Some(t),
            Switch::Disabled => None,
        }
    }
}

/// Default data for an optional value: whether it is set, and the default of
/// the wrapped content.
#[derive(Clone, Debug, PartialEq)]
pub struct OptionalDefault<C> {
    pub set: bool,
    pub content: C,
}

/// Default data for a feature switch: whether it is enabled, and the default
/// of the wrapped content.
#[derive(Clone, Debug, PartialEq)]
pub struct SwitchDefault<C> {
    pub enabled: bool,
    pub content: C,
}

/// Default data for a growable collection: one element default plus the
/// literal default contents.
#[derive(Clone, Debug, PartialEq)]
pub struct VectorDefault<C, D> {
    pub element: C,
    pub default: Vec<D>,
}

/// Default data for a keyed dictionary: a default key label, one value
/// default, plus the literal default entries.
#[derive(Clone, Debug, PartialEq)]
pub struct DictionaryDefault<V, D> {
    pub key: String,
    pub value: V,
    pub default: Vec<(String, D)>,
}

} // verus!
