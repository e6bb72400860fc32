//! Client library for a vector database service: credentials, configuration,
//! request descriptors with their JSON bodies, response decoding and the
//! classification of service errors.
pub mod auth;
pub mod error;
pub mod mochow;
