//! A small persistent list of remote site records.
//!
//! The verified part of the store: the record type, the rule that gives a
//! record without an identifier a generated one, and the transformations that
//! saving, loading and deleting apply to the stored collection.

pub mod ident;
pub mod site;
pub mod store;
pub mod laws;
