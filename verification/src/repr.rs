//! The contract between a payload type and its raw representation.

use vstd::laws_eq::obeys_concrete_eq;
use vstd::prelude::*;

verus! {

/// A payload type `Self` that can be stored as a raw value of type `R`.
///
/// An implementation chooses:
/// - a sentinel raw value, reserved for "none";
/// - an encoding of every payload as a raw value;
/// - a decoding of raw values back to payloads.
///
/// It must prove that decoding an encoding gives the payload back, and that
/// `==` on `R` is the equality of raw values.
///
/// The sentinel should not be the encoding of any payload that is stored as
/// "some": where it is, that payload cannot be told apart from "none"
/// (see [`crate::CompactOption::some`]).
pub trait CompactRepr<R: Copy + PartialEq>: Copy + Sized {
    /// The raw value reserved for "none".
    spec fn sentinel() -> R;

    /// The raw value that stores `self`.
    spec fn encoding(self) -> R;

    /// The payload that a raw value stores.
    spec fn decoding(raw: R) -> Self;

    /// `==` on raw values is their mathematical equality.
    proof fn lemma_raw_eq_is_equality()
        ensures
            obeys_concrete_eq::<R>(),
    ;

    /// Decoding the encoding of a payload gives that payload.
    proof fn lemma_decode_encode(value: Self)
        ensures
            Self::decoding(value.encoding()) == value,
    ;

    /// Returns the raw value reserved for "none".
    fn unused_sentinel() -> (raw: R)
        ensures
            raw == Self::sentinel(),
    ;

    /// Returns the raw value that stores `self`.
    fn encode(self) -> (raw: R)
        ensures
            raw == self.encoding(),
    ;

    /// Returns the payload stored in `raw`, which must be the encoding of a payload
    /// (the one it decodes to).
    fn decode(raw: R) -> (value: Self)
        requires
            Self::decoding(raw).encoding() == raw,
        ensures
            value == Self::decoding(raw),
    ;
}

/// `raw` is the encoding of some payload: the one it decodes to.
pub open spec fn is_encoding<R: Copy + PartialEq, T: CompactRepr<R>>(raw: R) -> bool {
    T::decoding(raw).encoding() == raw
}

/// What a raw value means: "none" for the sentinel, else the payload it decodes to.
pub open spec fn payload_of<R: Copy + PartialEq, T: CompactRepr<R>>(raw: R) -> Option<T> {
    if raw == T::sentinel() {
        None
    } else {
        Some(T::decoding(raw))
    }
}

} // verus!
