//! Poems from a chain of three requests to a text-generation service.
//!
//! The crate holds what is decided and computed along the way: the wording of
//! each request, the order of the stages, what becomes of a reply, and the text
//! and name of the file a finished poem is kept in. Sending a request and
//! writing a file are left to the caller.

pub mod ai;
pub mod poem;
pub mod store;
pub mod text;
