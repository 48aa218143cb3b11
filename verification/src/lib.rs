//! A typed client core for the Alor market-data HTTP API.
//!
//! The crate plans the requests of the API and interprets what a transport
//! hands back; it performs no I/O itself. A caller sends each planned
//! [`Request`] with the transport of its choice and reports the outcome as a
//! [`Reply`]. Every failure comes back as one variant of [`Error`].

pub mod api;
pub mod api_params;
pub mod api_traits;
pub mod json;
pub mod objects;
pub mod text;
pub mod transport;

pub use api::alor_api_impl::{Api, EncodeFailure, REQUEST_TIMEOUT_SECS};
pub use api::{
    Error, HttpError, BASE_API_URL, BASE_REFRESH_TOKEN_URL, NO_STATUS, UNREADABLE_BODY,
};
pub use api_params::{ResponseParameters, TokenResponse, MISSING_ACCESS_TOKEN};
pub use api_traits::{ErrorResponse, MethodResponse};
pub use objects::User;
pub use transport::{Failure, Header, HttpMethod, Reply, Request};
