//! A niche-packing optional value.
//!
//! [`CompactOption<R, T>`] stores either "none" or a payload `T` in a single raw
//! value of type `R`. One raw value, the sentinel chosen by the payload type's
//! [`CompactRepr`] implementation, stands for "none"; every other stored raw
//! value is the encoding of a payload.
//!
//! - [`repr`]: the [`CompactRepr`] contract between a payload and its raw value.
//! - [`option`]: [`CompactOption`] and its operations.
//! - [`laws`]: what holds of sequences of operations (storing then reading back,
//!   collisions with the sentinel, injectivity of storage).
//! - [`fixtures`]: payload types with their representations.
//! - [`attr_args`]: the grammar of the arguments of `#[compact_option(...)]`,
//!   as a step function that a token reader drives.

pub mod attr_args;
pub mod fixtures;
pub mod laws;
pub mod option;
pub mod repr;

pub use option::CompactOption;
pub use repr::CompactRepr;
