//! The items most often used together: the trait and the description types.
pub use crate::introspect::Introspect;
pub use crate::metadata::{
    Declaration, EnumMeta, EnumVariant, IntMeta, Metadata, Mode, ResultMeta, SingleContainer,
    StructMeta,
};
