//! A client for REST APIs that speak JSON, with the records of a placeholder
//! data set and of a lyrics service.
use vstd::prelude::*;

pub mod albums;
pub mod api_client;
pub mod auth;
pub mod codec;
pub mod comments;
pub mod error;
pub mod fixtures;
pub mod json;
pub mod lipl;
pub mod photos;
pub mod posts;
pub mod todos;
mod transport;
pub mod users;

verus! {

/// The base URI of the public placeholder service whose data the record
/// modules describe.
pub const PLACEHOLDER_BASE: &'static str = "https://jsonplaceholder.typicode.com/";

} // verus!
