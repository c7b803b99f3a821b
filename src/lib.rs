//! Field-search criteria, filter compilation and permission checks for a
//! small record service (users, capabilities and grants), over an in-memory
//! table store.
use vstd::prelude::*;

pub mod access;
pub mod errors;
pub mod filter;
pub mod handlers;
pub mod laws;
pub mod query;
pub mod search;
pub mod seqs;
pub mod store;
pub mod users;

verus! {

/// A list of items, as handed to callers of a listing operation.
pub struct ItemList<T> {
    pub items: Vec<T>,
}

} // verus!
