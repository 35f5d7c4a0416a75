//! A small user-account data model: two value types with well-defined
//! defaults, and a builder that collects required fields up front,
//! accepts optional fields through setters, and resolves every unset
//! optional field to its default when it produces a `User`.

pub mod account_type;
pub mod address;
pub mod user;
