//! Core logic of a small API gateway: a download proxy that only reaches
//! globally routable hosts, and the query handling of a game metadata search.

pub mod body;
pub mod dns;
pub mod endpoints;
pub mod errors;
pub mod ip;
pub mod relay;
pub mod util;
