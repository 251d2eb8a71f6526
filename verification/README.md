# iroha_introspect

A verified library for two parts of a ledger client's data model.

* **Introspection.** `Metadata` describes how a type is laid out on the wire. The
  `Introspect` trait gives the description of the built-in types, and `derive`
  computes the description of a user type from its definition (fields, variants and
  their `#[codec(..)]` and `#[scale(index = n)]` attributes), as the `Introspect`
  derive does, together with the header of the generated implementation; `types`
  finds the description of a type as written in source text.
* **Queries.** The query types, the `QueryBox` that holds any of them, and the
  requests that carry them. A request's hash is the BLAKE2b-256 digest of the query's
  SCALE encoding followed by the little-endian bytes of its timestamp; the encoding
  and its decoding are verified here, the string codec and the digest come from the
  `parity-scale-codec` and `blake2` crates.

Layout: `src/` is the library. Its functions are verified, except three small
wrappers whose contracts are trusted: the string encoder and decoder of
`parity-scale-codec` and the BLAKE2b digest of `blake2`. `tests/` runs the library;
`app/` is a small command-line tool that reads type definitions from Rust source
and prints their generated headers and descriptions, and stamps requests with the
current time.
