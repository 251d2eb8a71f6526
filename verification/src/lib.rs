//! Type introspection metadata and the query data model of a ledger client.
//!
//! * [`metadata`] holds the description of a type's layout on the wire ([`Metadata`]).
//! * [`introspect`] describes the built-in types through the [`Introspect`] trait.
//! * [`derive`] computes the description of a user type from its definition, as the
//!   `Introspect` derive does.
//! * [`types`] describes a type as written in source text, by its name and arguments.
//! * [`scale`] writes and reads values in the SCALE binary encoding.
//! * [`model`] holds the identifiers of ledger entities that queries name.
//! * [`crypto`] holds hashes and signatures.
//! * [`query`] holds the queries, the requests that carry them, and their hashes.
pub mod crypto;
pub mod derive;
pub mod introspect;
pub mod metadata;
pub mod model;
pub mod prelude;
pub mod query;
pub mod scale;
pub mod types;

pub use introspect::Introspect;
pub use metadata::{
    Declaration, EnumMeta, EnumVariant, IntMeta, Metadata, Mode, ResultMeta, SingleContainer,
    StructMeta,
};
