//! Sizing: the three-way choice of how a container is sized along an axis,
//! vertical spacing amounts, and the encoding of sizing values into the
//! engine's dynamic value representation.

use vstd::prelude::*;
use crate::geom::RelAbs;

verus! {

/// A value that is either determined automatically or given explicitly.
#[derive(Debug, Clone, Copy, PartialEq, Eq, Hash)]
pub enum Smart<T> {
    /// The value is determined automatically from context.
    Auto,
    /// The value is given explicitly.
    Custom(T),
}

impl<T> Smart<T> {
    /// Whether this is the automatic variant.
    pub fn is_auto(&self) -> (b: bool)
        ensures
            b == (*self is Auto),
    {
        match self {
            Smart::Auto => true,
            Smart::Custom(_) => false,
        }
    }
}

/// A spacing amount: relative to a base length, or a fraction of leftover
/// space (a non-negative weight distributed among siblings).
#[derive(Debug, Clone, Copy, PartialEq, Eq, Hash)]
pub enum Spacing {
    /// An amount relative to a base length plus an absolute offset.
    Rel(RelAbs),
    /// A weight of the leftover space, distributed among siblings.
    Fr(i64),
}

/// Defines how to size a container along an axis.
#[derive(Debug, Clone, Copy, PartialEq, Eq, Hash)]
pub enum Sizing {
    /// Fit the contents: the content's natural size decides.
    Auto,
    /// A size relative to the base length of the axis, plus an absolute
    /// offset.
    Rel(RelAbs),
    /// A fraction of the remaining free space in the parent.
    Fr(i64),
}

/// The engine's dynamic value representation, as far as sizing values encode
/// into it.
#[derive(Debug, PartialEq, Eq)]
pub enum Value {
    /// The automatic value.
    Auto,
    /// A relative length.
    Relative(RelAbs),
    /// A fraction of leftover space.
    Fraction(i64),
    /// An array of values.
    Array(Vec<Value>),
}

/// What a spacing amount encodes to.
pub open spec fn spacing_encode_spec(s: Spacing) -> Value {
    match s {
        Spacing::Rel(rel) => Value::Relative(rel),
        Spacing::Fr(fr) => Value::Fraction(fr),
    }
}

/// What a sizing value encodes to.
pub open spec fn sizing_encode_spec(s: Sizing) -> Value {
    match s {
        Sizing::Auto => Value::Auto,
        Sizing::Rel(rel) => spacing_encode_spec(Spacing::Rel(rel)),
        Sizing::Fr(fr) => spacing_encode_spec(Spacing::Fr(fr)),
    }
}

/// Whether `v` is the array of the encodings of the sizings `s`, in order.
pub open spec fn is_encoded_slice(v: Value, s: Seq<Sizing>) -> bool {
    match v {
        Value::Array(items) => items@ == s.map(|i: int, sz: Sizing| sizing_encode_spec(sz)),
        _ => false,
    }
}

impl Spacing {
    /// Encodes this spacing amount into a dynamic value.
    pub fn encode(self) -> (v: Value)
        ensures
            v == spacing_encode_spec(self),
    {
        match self {
            Spacing::Rel(rel) => Value::Relative(rel),
            Spacing::Fr(fr) => Value::Fraction(fr),
        }
    }
}

impl Sizing {
    /// Whether this is fractional sizing.
    pub fn is_fractional(self) -> (b: bool)
        ensures
            b == (self is Fr),
    {
        match self {
            Sizing::Fr(_) => true,
            _ => false,
        }
    }

    /// Encodes this sizing value into a dynamic value.
    pub fn encode(self) -> (v: Value)
        ensures
            v == sizing_encode_spec(self),
    {
        match self {
            Sizing::Auto => Value::Auto,
            Sizing::Rel(rel) => Spacing::Rel(rel).encode(),
            Sizing::Fr(fr) => Spacing::Fr(fr).encode(),
        }
    }

    /// Encodes a slice of sizing values into a dynamic array value.
    pub fn encode_slice(values: &[Sizing]) -> (v: Value)
        ensures
            is_encoded_slice(v, values@),
    {
        let mut items: Vec<Value> = Vec::new();
        let mut i: usize = 0;
        while i < values.len()
            invariant
                i <= values@.len(),
                items@ == values@.take(i as int).map(
                    |j: int, sz: Sizing| sizing_encode_spec(sz),
                ),
            decreases values@.len() - i,
        {
            items.push(values[i].encode());
            proof {
                assert(values@.take(i + 1) == values@.take(i as int).push(values@[i as int]));
                assert(values@.take(i + 1).map(|j: int, sz: Sizing| sizing_encode_spec(sz))
                    =~= values@.take(i as int).map(|j: int, sz: Sizing| sizing_encode_spec(sz))
                        .push(sizing_encode_spec(values@[i as int])));
            }
            i = i + 1;
        }
        proof {
            assert(values@.take(values@.len() as int) =~= values@);
        }
        Value::Array(items)
    }
}

impl Default for Sizing {
    /// The default sizing fits the contents.
    fn default() -> (s: Self)
        ensures
            s == Sizing::Auto,
    {
        Sizing::Auto
    }
}

impl From<Spacing> for Sizing {
    /// A spacing amount carries over to the sizing of the same kind.
    fn from(spacing: Spacing) -> (s: Self)
        ensures
            s == (match spacing {
                Spacing::Rel(rel) => Sizing::Rel(rel),
                Spacing::Fr(fr) => Sizing::Fr(fr),
            }),
    {
        match spacing {
            Spacing::Rel(rel) => Sizing::Rel(rel),
            Spacing::Fr(fr) => Sizing::Fr(fr),
        }
    }
}

impl vstd::std_specs::convert::FromSpecImpl<Spacing> for Sizing {
    open spec fn obeys_from_spec() -> bool {
        true
    }

    open spec fn from_spec(spacing: Spacing) -> Sizing {
        match spacing {
            Spacing::Rel(rel) => Sizing::Rel(rel),
            Spacing::Fr(fr) => Sizing::Fr(fr),
        }
    }
}

} // verus!
