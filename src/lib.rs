//! Support-desk backend: user records with a support rank, and append-only
//! note threads about a user, addressed by record keys in a document store.
//!
//! Every operation here is the decision part of a request: it checks that a
//! session token was supplied, derives the record address, builds the exact
//! document to store, and interprets the store's reply. Performing the calls
//! against the database is left to the caller.
pub mod error;
pub mod key;
pub mod laws;
pub mod note;
pub mod security;
pub mod store;
pub mod time;
pub mod user;
pub mod web;
