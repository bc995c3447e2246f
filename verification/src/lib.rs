//! Authorization and pagination engine for a music-service client.
//!
//! The library holds the decisions of an OAuth 2.0 authorization-code flow
//! (capturing the redirect, building the token request, reading the answer)
//! and of the paginated reads and chunked writes that follow it. It performs
//! no input or output itself: callers carry out the requests it describes and
//! hand back what they observed.
//!
//! - [`authorize`]: the authorize address, and what to do with it.
//! - [`redirect`]: capturing the authorization code, from the local listener
//!   or, failing that, from manual entry.
//! - [`token`]: the token request for a code or a refresh token, and its answer.
//! - [`paginate`]: reading a whole collection page by page.
//! - [`batch`]: writing identifiers in bounded chunks.
//! - [`http`]: replies, status classification and the bearer header.
//! - [`error`]: the failures of the flow by stage.
//! - [`objects`]: the records of the service's answers.
//! - [`endpoints`]: the addresses and limits of the reference deployment.

pub mod authorize;
pub mod batch;
pub mod endpoints;
pub mod error;
pub mod http;
pub mod objects;
pub mod paginate;
pub mod redirect;
pub mod token;
