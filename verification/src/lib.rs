//! The authentication and authorization gate of a fish-and-recipe REST
//! backend: the bearer-secret comparison, the credential verifier, the
//! identity extractor and the administrator gate, together with the few
//! request rules of the routes behind them.
//!
//! Every function here takes plain values. The server around the library
//! reads headers, cookies and database rows, hands them in, and performs what
//! the library decides.

pub mod authentication;
pub mod middleware;
pub mod routes;
pub mod startup;
pub mod utils;
