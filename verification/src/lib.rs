//! An in-memory product catalogue with verified CRUD operations.
//!
//! The library holds the whole behaviour of a small product service: a
//! store of records guarded by the caller, bounded accumulation of a
//! request body, and the handler decisions for listing, fetching,
//! creating, updating and deleting records.  Everything here is
//! verified; the HTTP plumbing around it lives outside the library.

pub mod body;
pub mod error;
pub mod handlers;
pub mod laws;
pub mod product;
pub mod seed;
pub mod store;
