//! Session and credential lifecycle of an authentication service: the
//! credential store, the revocation store, the two-factor challenge store,
//! the session token codec and the login flow that ties them together.

pub mod domain;
pub mod routes;
pub mod services;
pub mod utils;

pub use domain::error::ErrorResponse;
