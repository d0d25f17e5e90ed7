//! Strongly-typed property keys and values for VNU constraint math.
//!
//! Property names are resolved to integer `PropertyKey`s at load time, and
//! values are stored in the strongly-typed `PropertyValue` enum.
use std::num::NonZeroU32;
use vstd::prelude::*;
use vstd::std_specs::cmp::PartialEqSpec;

verus! {

/// The storage of a property key: a `std::num::NonZeroU32`, held opaquely,
/// since the generic `NonZero` type cannot be declared for the proofs (its
/// bound is an unstable trait). Holding the `NonZeroU32` keeps its niche, so
/// `Option<PropertyKey>` takes no more room than `PropertyKey`.
#[verifier::external_body]
#[derive(Debug, Copy, PartialEq, Eq, Hash)]
pub struct NonZeroKey(NonZeroU32);

impl Clone for NonZeroKey {
    /// Copies the key.
    fn clone(&self) -> (r: Self)
        ensures
            r == *self,
    {
        *self
    }
}

/// The integer that `NonZeroU32::get` returns for the value held in `k`.
pub uninterp spec fn nonzero_key_value(k: NonZeroKey) -> u32;

/// Calls `NonZeroU32::new`. Trusted: as its documentation states, it gives a
/// value exactly when `v` is not zero, and that value holds `v`.
#[verifier::external_body]
fn nonzero_key_new(v: u32) -> (r: Option<NonZeroKey>)
    ensures
        r is Some <==> v != 0,
        r matches Some(k) ==> nonzero_key_value(k) == v,
{
    NonZeroU32::new(v).map(NonZeroKey)
}

/// Calls `NonZeroU32::get`. Trusted: it returns the held integer, which is
/// never zero, as the type's documentation states.
#[verifier::external_body]
fn nonzero_key_get(k: &NonZeroKey) -> (r: u32)
    ensures
        r == nonzero_key_value(*k),
        r != 0,
{
    k.0.get()
}

/// An integer-based key for property types.
///
/// The inner field is private so that keys are created through the central
/// Dictionary-Registry, which keeps unmapped keys out of the Constraint
/// Engine. A key is never zero.
#[derive(Debug, Clone, Copy, Eq, Hash)]
pub struct PropertyKey(NonZeroKey);

impl PartialEq for PropertyKey {
    /// Two keys are equal exactly when their raw integers are.
    fn eq(&self, other: &PropertyKey) -> (r: bool) {
        self.get() == other.get()
    }
}

impl vstd::std_specs::cmp::PartialEqSpecImpl for PropertyKey {
    open spec fn obeys_eq_spec() -> bool {
        true
    }

    open spec fn eq_spec(&self, other: &PropertyKey) -> bool {
        self@ == other@
    }
}

impl View for PropertyKey {
    type V = u32;

    /// The raw integer of the key.
    closed spec fn view(&self) -> u32 {
        nonzero_key_value(self.0)
    }
}

impl PropertyKey {
    /// Creates a key from a raw non-zero integer. Typically used only by the
    /// Dictionary loader.
    pub fn from_raw(raw: u32) -> (k: Self)
        requires
            raw != 0,
        ensures
            k@ == raw,
    {
        PropertyKey(nonzero_key_new(raw).unwrap())
    }

    /// Returns the underlying raw integer, for fast switch/match statements.
    pub fn get(self) -> (r: u32)
        ensures
            r == self@,
            r != 0,
    {
        nonzero_key_get(&self.0)
    }

    /// Well-known key 1: dimensionality.
    #[allow(non_snake_case)]
    pub fn DIMENSIONALITY() -> (k: Self)
        ensures
            k@ == 1,
    {
        Self::from_raw(1)
    }

    /// Well-known key 2: whether the unit has volume.
    #[allow(non_snake_case)]
    pub fn HAS_VOLUME() -> (k: Self)
        ensures
            k@ == 2,
    {
        Self::from_raw(2)
    }

    /// Well-known key 3: whether the unit has area.
    #[allow(non_snake_case)]
    pub fn HAS_AREA() -> (k: Self)
        ensures
            k@ == 3,
    {
        Self::from_raw(3)
    }

    /// Well-known key 4: whether the unit has parts.
    #[allow(non_snake_case)]
    pub fn HAS_PARTS() -> (k: Self)
        ensures
            k@ == 4,
    {
        Self::from_raw(4)
    }

    /// Well-known key 5: rest mass.
    #[allow(non_snake_case)]
    pub fn REST_MASS() -> (k: Self)
        ensures
            k@ == 5,
    {
        Self::from_raw(5)
    }

    /// Well-known key 6: coordinates.
    #[allow(non_snake_case)]
    pub fn COORDINATES() -> (k: Self)
        ensures
            k@ == 6,
    {
        Self::from_raw(6)
    }
}

/// Keys made from raw integers are equal exactly when the integers are: with
/// `a@ == ra` and `b@ == rb`, as `from_raw(ra)` and `from_raw(rb)` give,
/// `a == b` holds if and only if `ra == rb`. So `from_raw` is injective and
/// `from_raw(raw).get() == raw`, which is never zero.
pub proof fn lemma_key_identity(a: PropertyKey, b: PropertyKey, ra: u32, rb: u32)
    requires
        ra != 0,
        rb != 0,
        a@ == ra,
        b@ == rb,
    ensures
        a.eq_spec(&b) <==> ra == rb,
        a@ >= 1,
{
}

/// A strongly-typed property value for constraint math.
///
/// Floating-point payloads are held by their IEEE 754 bit patterns
/// (`f64::to_bits`), so that the value can be moved and inspected without
/// floating-point arithmetic; the conversion to and from `f64` is exact.
/// Since bit patterns do not compare as floats do (a NaN would equal itself,
/// `+0.0` would differ from `-0.0`), this type offers no `==`: float
/// comparisons belong to the `f64` form of the value, which also prints the
/// floats as numbers, where `Debug` here prints their bit patterns.
#[derive(Debug, Clone)]
pub enum PropertyValue {
    /// Boolean state (e.g. `has_volume = false`).
    Bool(bool),
    /// Exact integer counts (e.g. `dimensionality = 0`).
    Int(i64),
    /// Continuous physical measurement, by its `f64` bit pattern.
    Float(u64),
    /// Multi-dimensional observable, each coordinate by its `f64` bit pattern.
    Vector(Vec<u64>),
    /// UI artifacts, labels and descriptions, kept out of the math path.
    Text(String),
    /// Explicit absence of a value.
    Null,
}

impl PropertyValue {
    /// Attempts to extract a boolean value: `Some(b)` exactly for `Bool(b)`.
    pub fn as_bool(&self) -> (r: Option<bool>)
        ensures
            r == (match self {
                PropertyValue::Bool(b) => Some(*b),
                _ => None::<bool>,
            }),
    {
        match self {
            PropertyValue::Bool(b) => Some(*b),
            _ => None,
        }
    }

    /// Attempts to extract an integer value: `Some(i)` exactly for `Int(i)`.
    pub fn as_i64(&self) -> (r: Option<i64>)
        ensures
            r == (match self {
                PropertyValue::Int(i) => Some(*i),
                _ => None::<i64>,
            }),
    {
        match self {
            PropertyValue::Int(i) => Some(*i),
            _ => None,
        }
    }

    /// Returns `true` exactly when the value is `Null`.
    pub fn is_null(&self) -> (r: bool)
        ensures
            r == (self is Null),
    {
        match self {
            PropertyValue::Null => true,
            _ => false,
        }
    }
}

} // verus!
