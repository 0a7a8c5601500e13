//! Read-only queries over a price oracle and market registry, and the check
//! that decides whether a fetched price may be acted on.

pub mod pair;
pub mod validate;
pub mod msgs;
