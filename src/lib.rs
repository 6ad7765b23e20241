//! A client library for the Backblaze B2 cloud storage API.
//!
//! The library holds the session (the authorization record), builds every
//! request that the API is sent, and classifies every reply. Sending the
//! requests and decoding JSON bodies is left to the caller's transport.
pub mod auth;
pub mod buckets;
pub mod client;
pub mod config;
pub mod digest;
pub mod errors;
pub mod files;
pub mod models;
pub mod request;
pub mod text;
