//! A typed client library for the GreyNoise threat-intelligence REST API.
//!
//! The heart of the crate is a verified request pipeline: given the outcome
//! of one HTTP exchange, it validates the status code, deserializes the JSON
//! body into a caller-chosen shape, and classifies every failure into a small
//! error taxonomy.  The network call itself is left to the embedding
//! application; everything the library decides about an exchange is proved.

pub mod community;
pub mod get;
pub mod gnql;
pub mod ip_context;
pub mod json;
pub mod metadata;
pub mod ping;
pub mod quick_check;
pub mod riot;
