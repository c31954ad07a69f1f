//! Pi-hole v6 REST API: wire types, errors, URL handling and the session client.
pub mod client;
pub mod error;
pub mod types;
pub mod web_url;
