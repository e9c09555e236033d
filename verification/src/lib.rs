//! Pagination for a typed client of the Spotify Web API.
//!
//! The API returns lists in pages. Some endpoints address their pages by
//! offset and link them by URL ([`model::Page`]), others hand out cursor
//! tokens ([`model::CursorPage`]). This library decides how to get from one
//! page to the pages around it and how to collect the items of all of them:
//! which request to issue, when to pause, when to stop, and in which order the
//! items come out. It issues no request itself. A single step yields the
//! [`request::Request`] to issue; an aggregation ([`aggregate`]) is a state
//! machine that a client drives step by step.
//!
//! Every function is verified with Verus against the contract it carries.

pub mod aggregate;
pub mod endpoint;
pub mod error;
pub mod model;
pub mod request;
pub mod text;

pub use error::Error;
