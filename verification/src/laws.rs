//! Laws that relate the operations of [`crate::CompactOption`].
//!
//! The operations state their results over the raw value (`raw()`) and the
//! view (`@`, which is [`payload_of`] of the raw value); these lemmas state
//! what follows for sequences of calls.

use vstd::prelude::*;

use crate::option::{chained_by, mapped_by, CompactOption};
use crate::repr::{is_encoding, payload_of, CompactRepr};
use vstd::std_specs::cmp::PartialEqSpec;

verus! {

/// No payload is encoded as the sentinel.
pub open spec fn sentinel_unused<R: Copy + PartialEq, T: CompactRepr<R>>() -> bool {
    forall|value: T| #[trigger] value.encoding() != T::sentinel()
}

/// Storing a payload and reading it back gives the payload, where its encoding
/// is not the sentinel: `some(value)` has raw value `value.encoding()`, and
/// `try_unwrap`, `unwrap`, `expect` and `unwrap_unchecked` of it give `value`.
pub proof fn lemma_some_then_unwrap<R: Copy + PartialEq, T: CompactRepr<R>>(value: T)
    requires
        value.encoding() != T::sentinel(),
    ensures
        payload_of::<R, T>(value.encoding()) == Some(value),
{
    T::lemma_decode_encode(value);
}

/// A payload whose encoding is the sentinel collides with "none": `some(value)`
/// has the raw value of `none()`, reads as "none", and `try_unwrap` gives `None`.
pub proof fn lemma_sentinel_collision<R: Copy + PartialEq, T: CompactRepr<R>>(value: T)
    requires
        value.encoding() == T::sentinel(),
    ensures
        payload_of::<R, T>(value.encoding()) is None,
{
}

/// Where no payload is encoded as the sentinel, every payload reads back as stored.
pub proof fn lemma_round_trip_without_collisions<R: Copy + PartialEq, T: CompactRepr<R>>()
    requires
        sentinel_unused::<R, T>(),
    ensures
        forall|value: T| #[trigger] payload_of::<R, T>(value.encoding()) == Some(value),
{
    assert forall|value: T| #[trigger] payload_of::<R, T>(value.encoding()) == Some(value) by {
        lemma_some_then_unwrap::<R, T>(value);
    }
}

/// Two payloads are stored as the same raw value exactly when they are equal.
pub proof fn lemma_some_injective<R: Copy + PartialEq, T: CompactRepr<R>>(a: T, b: T)
    ensures
        (a.encoding() == b.encoding()) == (a == b),
{
    T::lemma_decode_encode(a);
    T::lemma_decode_encode(b);
}

/// A payload that is read back, stored again, gives the same raw value: for a
/// raw value that is an encoding and not the sentinel, `some(unwrap(o))` has
/// the raw value of `o`.
pub proof fn lemma_unwrap_then_some<R: Copy + PartialEq, T: CompactRepr<R>>(raw: R)
    requires
        is_encoding::<R, T>(raw),
        raw != T::sentinel(),
    ensures
        payload_of::<R, T>(raw) matches Some(value) && value.encoding() == raw,
{
}

/// A payload whose encoding is not the sentinel reads differently from "none".
pub proof fn lemma_some_differs_from_none<R: Copy + PartialEq, T: CompactRepr<R>>(value: T)
    requires
        value.encoding() != T::sentinel(),
    ensures
        payload_of::<R, T>(value.encoding()) != payload_of::<R, T>(T::sentinel()),
{
    lemma_some_then_unwrap::<R, T>(value);
}

/// `some(a) == some(b)` exactly when `a == b`: `==` compares raw values, and
/// `some` stores the encodings.
pub proof fn lemma_some_eq_some<R: Copy + PartialEq, T: CompactRepr<R>>(
    a: T,
    b: T,
    some_a: CompactOption<R, T>,
    some_b: CompactOption<R, T>,
)
    requires
        some_a.raw() == a.encoding(),
        some_b.raw() == b.encoding(),
    ensures
        some_a.eq_spec(&some_b) == (a == b),
{
    lemma_some_injective::<R, T>(a, b);
}

/// `none() == some(value)` exactly when the encoding of `value` is the sentinel.
pub proof fn lemma_none_eq_some<R: Copy + PartialEq, T: CompactRepr<R>>(
    value: T,
    none: CompactOption<R, T>,
    some: CompactOption<R, T>,
)
    requires
        none.raw() == T::sentinel(),
        some.raw() == value.encoding(),
    ensures
        none.eq_spec(&some) == (value.encoding() == T::sentinel()),
{
}

/// Chaining `Some` after a value gives the value read back: where every result
/// of `f` on `x` is `Some(x)`, `o.and_then(f)` is `o.try_unwrap()`.
pub proof fn lemma_and_then_some_is_try_unwrap<T, F: FnOnce(T) -> Option<T>>(
    value: Option<T>,
    f: F,
    result: Option<T>,
)
    requires
        forall|x: T, r: Option<T>| #[trigger] f.ensures((x,), r) ==> r == Some(x),
        chained_by(value, f, result),
    ensures
        result == value,
{
}

/// Chaining a function that wraps the result of `g` in `Some` gives what
/// mapping `g` gives, where `g` has a single possible result on each argument:
/// `o.and_then(|x| Some(g(x)))` is `o.map(g)`.
pub proof fn lemma_and_then_wrapping_is_map<T, U, G: FnOnce(T) -> U, F: FnOnce(T) -> Option<U>>(
    value: Option<T>,
    g: G,
    f: F,
    by_map: Option<U>,
    by_chain: Option<U>,
)
    requires
        forall|x: T, r: Option<U>| #[trigger] f.ensures((x,), r) ==> (r matches Some(u) && g.ensures((x,), u)),
        forall|x: T, u1: U, u2: U| #[trigger] g.ensures((x,), u1) && #[trigger] g.ensures((x,), u2) ==> u1 == u2,
        mapped_by(value, g, by_map),
        chained_by(value, f, by_chain),
    ensures
        by_map == by_chain,
{
}

} // verus!
