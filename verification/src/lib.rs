//! Query and resolution engine for a remote file catalog.
//!
//! The catalog is the list of objects a blob store reports. This crate
//! filters that list by name substring, applies a limit policy, orders it
//! for display, and resolves a human-supplied name to exactly one object
//! identifier. All remote access stays outside: callers fetch the catalog
//! and hand it in as plain values.

pub mod catalog;
pub mod display;
pub mod order;
pub mod query;
pub mod resolve;
pub mod text;
