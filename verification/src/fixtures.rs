//! Payload types with their [`CompactRepr`] implementations.
//!
//! They cover a fieldless enum, a one-byte newtype, a newtype over a raw value
//! that is itself a struct, and an enum whose sentinel collides with the
//! encoding of one of its payloads.

use vstd::laws_eq::obeys_concrete_eq;
use vstd::prelude::*;

use crate::option::CompactOption;
use crate::repr::CompactRepr;

verus! {

/// A fieldless enum stored in a `u8`: `Var1` as `0`, `Var2` as `1`; `0xFF` is "none".
#[derive(Clone, Copy, Debug, PartialEq, Eq, Hash, Structural)]
pub enum SmallEnum {
    Var1,
    Var2,
}

impl CompactRepr<u8> for SmallEnum {
    open spec fn sentinel() -> u8 {
        0xFF
    }

    open spec fn encoding(self) -> u8 {
        match self {
            SmallEnum::Var1 => 0,
            SmallEnum::Var2 => 1,
        }
    }

    open spec fn decoding(raw: u8) -> Self {
        if raw == 0 {
            SmallEnum::Var1
        } else {
            SmallEnum::Var2
        }
    }

    proof fn lemma_raw_eq_is_equality() {
        reveal(obeys_concrete_eq);
    }

    proof fn lemma_decode_encode(value: Self) {
    }

    fn unused_sentinel() -> (raw: u8) {
        0xFF
    }

    fn encode(self) -> (raw: u8) {
        match self {
            SmallEnum::Var1 => 0,
            SmallEnum::Var2 => 1,
        }
    }

    fn decode(raw: u8) -> (value: Self) {
        if raw == 0 {
            SmallEnum::Var1
        } else {
            SmallEnum::Var2
        }
    }
}

/// A [`SmallEnum`] stored in a `u8`.
pub type OptSmall = CompactOption<u8, SmallEnum>;

/// A one-byte newtype stored as its byte; `0xFE` is "none".
#[derive(Clone, Copy, Debug, PartialEq, Eq, Hash, Structural)]
pub struct ByteSlot(pub u8);

impl CompactRepr<u8> for ByteSlot {
    open spec fn sentinel() -> u8 {
        0xFE
    }

    open spec fn encoding(self) -> u8 {
        self.0
    }

    open spec fn decoding(raw: u8) -> Self {
        ByteSlot(raw)
    }

    proof fn lemma_raw_eq_is_equality() {
        reveal(obeys_concrete_eq);
    }

    proof fn lemma_decode_encode(value: Self) {
    }

    fn unused_sentinel() -> (raw: u8) {
        0xFE
    }

    fn encode(self) -> (raw: u8) {
        self.0
    }

    fn decode(raw: u8) -> (value: Self) {
        ByteSlot(raw)
    }
}

/// A [`ByteSlot`] stored in a `u8`.
pub type OptByte = CompactOption<u8, ByteSlot>;

/// A raw value that is a struct: a `u32` handle.
#[derive(Clone, Copy, Debug, Eq, Hash)]
pub struct Handle(pub u32);

impl PartialEq for Handle {
    fn eq(&self, other: &Self) -> (result: bool) {
        self.0 == other.0
    }
}

impl vstd::std_specs::cmp::PartialEqSpecImpl for Handle {
    open spec fn obeys_eq_spec() -> bool {
        true
    }

    open spec fn eq_spec(&self, other: &Self) -> bool {
        self.0 == other.0
    }
}

/// A `u32` identifier stored in a [`Handle`]; `Handle(u32::MAX)` is "none".
#[derive(Clone, Copy, Debug, PartialEq, Eq, Hash, Structural)]
pub struct Id(pub u32);

impl CompactRepr<Handle> for Id {
    open spec fn sentinel() -> Handle {
        Handle(u32::MAX)
    }

    open spec fn encoding(self) -> Handle {
        Handle(self.0)
    }

    open spec fn decoding(raw: Handle) -> Self {
        Id(raw.0)
    }

    proof fn lemma_raw_eq_is_equality() {
        reveal(obeys_concrete_eq);
    }

    proof fn lemma_decode_encode(value: Self) {
    }

    fn unused_sentinel() -> (raw: Handle) {
        Handle(u32::MAX)
    }

    fn encode(self) -> (raw: Handle) {
        Handle(self.0)
    }

    fn decode(raw: Handle) -> (value: Self) {
        Id(raw.0)
    }
}

/// An [`Id`] stored in a [`Handle`].
pub type OptId = CompactOption<Handle, Id>;

/// An enum whose only payload is encoded as `0`, which is also its sentinel:
/// "some" of it reads as "none".
#[derive(Clone, Copy, Debug, PartialEq, Eq, Hash, Structural)]
pub enum BadSentinel {
    A,
}

impl CompactRepr<u8> for BadSentinel {
    open spec fn sentinel() -> u8 {
        0
    }

    open spec fn encoding(self) -> u8 {
        0
    }

    open spec fn decoding(raw: u8) -> Self {
        BadSentinel::A
    }

    proof fn lemma_raw_eq_is_equality() {
        reveal(obeys_concrete_eq);
    }

    proof fn lemma_decode_encode(value: Self) {
    }

    fn unused_sentinel() -> (raw: u8) {
        0
    }

    fn encode(self) -> (raw: u8) {
        0
    }

    fn decode(raw: u8) -> (value: Self) {
        BadSentinel::A
    }
}

/// A [`BadSentinel`] stored in a `u8`.
pub type OptBad = CompactOption<u8, BadSentinel>;

} // verus!
