# compact_option

`CompactOption<R, T>` stores either "none" or a payload `T` in exactly one raw
value of type `R`. The payload type says, through its `CompactRepr<R>`
implementation, which raw value is the sentinel for "none", how a payload is
encoded as a raw value and how a raw value is decoded; the implementation
proves that decoding an encoding gives the payload back.

Everything in `src/` is verified with Verus: each operation states its result
over the stored raw value and its view as an `Option<T>`, and `src/laws.rs`
proves the round trip (store then read back), the collision behaviour of a
payload encoded as the sentinel, and the injectivity of storage.

`src/attr_args.rs` holds the grammar of the arguments of the
`#[compact_option(repr(R = …, sentinel = …))]` attribute as a verified step
function, with a proof that running it accepts exactly the pieces that the
grammar describes. `app/` holds the code generation around it: a syn `Parse`
implementation that reads tokens and drives the step function, the attribute's
entry point over `proc_macro2` token streams, and the `quote!` templates that
emit the sentinel implementation. The emitted implementation has the shape of
an unverified, transmute-based `CompactRepr`; the verified `CompactRepr` of the
library is written by hand in verified code, with its encoding, decoding and
proofs.
