//! [`CompactOption`]: "none" or a payload, stored as one raw value.

use core::marker::PhantomData;
use vstd::laws_eq::obeys_concrete_eq;
use vstd::prelude::*;
use vstd::std_specs::cmp::PartialEqSpecImpl;

use crate::repr::{is_encoding, payload_of, CompactRepr};

verus! {

/// Stores either "none" or a payload `T` as a single raw value of type `R`.
///
/// The raw value equals [`CompactRepr::sentinel`] for "none" and is the
/// encoding of the payload otherwise. The value is `Copy` whenever `R` and `T`
/// are; `==` compares the raw values (see the `PartialEq` impl and its
/// `eq_spec`). `Hash` is derived.
#[derive(Copy, Eq, Hash, Debug)]
pub struct CompactOption<R: Copy + PartialEq, T: CompactRepr<R>> {
    raw_value: R,
    _marker: PhantomData<T>,
}

/// `result` is what mapping `f` over `value` may give: `None` for `None`, and
/// for `Some(x)` a `Some` of a value that `f` may return on `x`.
pub open spec fn mapped_by<T, U, F: FnOnce(T) -> U>(value: Option<T>, f: F, result: Option<U>) -> bool {
    match value {
        None => result is None,
        Some(x) => result matches Some(u) && f.ensures((x,), u),
    }
}

/// `result` is what chaining `f` after `value` may give: `None` for `None`, and
/// for `Some(x)` a value that `f` may return on `x`.
pub open spec fn chained_by<T, U, F: FnOnce(T) -> Option<U>>(value: Option<T>, f: F, result: Option<U>) -> bool {
    match value {
        None => result is None,
        Some(x) => f.ensures((x,), result),
    }
}

impl<R: Copy + PartialEq, T: CompactRepr<R>> CompactOption<R, T> {
    /// The stored raw value is the sentinel or the encoding of the payload it decodes to.
    #[verifier::type_invariant]
    spec fn raw_is_valid(self) -> bool {
        self.raw_value == T::sentinel() || is_encoding::<R, T>(self.raw_value)
    }

    /// The stored raw value.
    pub closed spec fn raw(self) -> R {
        self.raw_value
    }
}

impl<R: Copy + PartialEq, T: CompactRepr<R>> Clone for CompactOption<R, T> {
    /// A copy of the value.
    fn clone(&self) -> (result: Self)
        ensures
            result == *self,
    {
        *self
    }
}

impl<R: Copy + PartialEq, T: CompactRepr<R>> PartialEq for CompactOption<R, T> {
    /// Whether the two raw values are equal.
    fn eq(&self, other: &Self) -> (result: bool) {
        proof {
            T::lemma_raw_eq_is_equality();
            reveal(obeys_concrete_eq);
        }
        self.raw_value == other.raw_value
    }
}

impl<R: Copy + PartialEq, T: CompactRepr<R>> PartialEqSpecImpl for CompactOption<R, T> {
    open spec fn obeys_eq_spec() -> bool {
        true
    }

    open spec fn eq_spec(&self, other: &Self) -> bool {
        self.raw() == other.raw()
    }
}

impl<R: Copy + PartialEq, T: CompactRepr<R>> View for CompactOption<R, T> {
    type V = Option<T>;

    /// "None" for the sentinel, else the payload that the raw value decodes to.
    open spec fn view(&self) -> Option<T> {
        payload_of::<R, T>(self.raw())
    }
}

impl<R: Copy + PartialEq, T: CompactRepr<R>> CompactOption<R, T> {
    /// The empty value: its raw value is the sentinel.
    pub fn none() -> (result: Self)
        ensures
            result.raw() == T::sentinel(),
            result@ is None,
    {
        CompactOption { raw_value: T::unused_sentinel(), _marker: PhantomData }
    }

    /// Stores `value`: the raw value is its encoding.
    ///
    /// Where that encoding is the sentinel, the result cannot be told apart
    /// from [`Self::none`]: it reads as "none".
    pub fn some(value: T) -> (result: Self)
        ensures
            result.raw() == value.encoding(),
            result@ == (if value.encoding() == T::sentinel() {
                None
            } else {
                Some(value)
            }),
    {
        proof {
            T::lemma_decode_encode(value);
        }
        CompactOption { raw_value: value.encode(), _marker: PhantomData }
    }

    /// Whether the raw value is the sentinel.
    pub fn is_none(self) -> (result: bool)
        ensures
            result == (self.raw() == T::sentinel()),
            result == self@ is None,
    {
        proof {
            T::lemma_raw_eq_is_equality();
            reveal(obeys_concrete_eq);
        }
        self.raw_value == T::unused_sentinel()
    }

    /// Whether the raw value differs from the sentinel.
    pub fn is_some(self) -> (result: bool)
        ensures
            result == (self.raw() != T::sentinel()),
            result == self@ is Some,
    {
        !self.is_none()
    }

    /// The payload, or `None` where the raw value is the sentinel.
    pub fn try_unwrap(self) -> (result: Option<T>)
        ensures
            result == self@,
            result matches Some(value) ==> value.encoding() == self.raw(),
    {
        proof {
            use_type_invariant(&self);
        }
        if self.is_none() {
            None
        } else {
            Some(T::decode(self.raw_value))
        }
    }

    /// The payload of a value that is not "none".
    pub fn unwrap(self) -> (result: T)
        requires
            self@ is Some,
        ensures
            self@ == Some(result),
            result.encoding() == self.raw(),
    {
        self.try_unwrap().unwrap()
    }

    /// The payload of a value that is not "none"; `msg` is the message of the
    /// failure that the precondition rules out.
    pub fn expect(self, msg: &str) -> (result: T)
        requires
            self@ is Some,
        ensures
            self@ == Some(result),
            result.encoding() == self.raw(),
    {
        self.try_unwrap().expect(msg)
    }

    /// Applies `f` to the payload; "none" gives `None` and does not call `f`.
    pub fn map<U, F: FnOnce(T) -> U>(self, f: F) -> (result: Option<U>)
        requires
            self@ matches Some(value) ==> f.requires((value,)),
        ensures
            mapped_by(self@, f, result),
    {
        self.try_unwrap().map(f)
    }

    /// Runs `f` on the payload; "none" gives `None` and does not call `f`.
    pub fn and_then<U, F: FnOnce(T) -> Option<U>>(self, f: F) -> (result: Option<U>)
        requires
            self@ matches Some(value) ==> f.requires((value,)),
        ensures
            chained_by(self@, f, result),
    {
        self.try_unwrap().and_then(f)
    }

    /// The payload, decoded without testing the raw value against the sentinel.
    pub fn unwrap_unchecked(self) -> (result: T)
        requires
            self@ is Some,
        ensures
            self@ == Some(result),
            result.encoding() == self.raw(),
    {
        proof {
            use_type_invariant(&self);
        }
        T::decode(self.raw_value)
    }

    /// The stored raw value.
    pub fn raw_value(&self) -> (result: R)
        ensures
            result == self.raw(),
    {
        self.raw_value
    }
}

} // verus!
