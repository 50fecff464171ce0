//! A registry of authenticity certificates for physical goods.
//!
//! The heart of the crate is [`registry::FashionAuthContract`], a store that
//! issues, verifies, transfers and revokes certificates, each bound to an
//! owning identity and a metadata hash. Every operation is specified against
//! the mathematical model in [`state`], and the laws the registry obeys are
//! proved in [`laws`]. Around the core sit verified helpers for the HTTP
//! envelope types ([`models`]), service configuration ([`config`]) and
//! secret-key format handling ([`keys`]).

pub mod config;
pub mod errors;
pub mod keys;
pub mod laws;
pub mod models;
pub mod registry;
pub mod state;
