//! Client library for a REST service that serves single JSON objects and
//! paginated JSON collections.
//!
//! The library builds every request (URL, authentication and static headers,
//! query, body), follows pagination through the `link` response header, and
//! reads the service's answers. Sending a request and receiving the answer is
//! left to the caller.

pub mod client;
pub mod error;
pub mod json;
pub mod link;
pub mod pagination;
pub mod responses;

pub use client::{
    Client, Method, PatchOp, Request, DEFAULT_API_CODEBASE, DEFAULT_API_URL, DEFAULT_API_VERSION,
};
pub use error::CwError;
pub use link::get_page_id;
pub use pagination::{first_page, receive_page};
pub use responses::{
    lookup_custom_field, lookup_custom_field_id, parse_single, patch_outcome, post_outcome,
};
