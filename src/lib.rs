//! A small static file server's request pipeline: a request URI is turned
//! into path segments that cannot leave the served root, and the outcome of
//! the filesystem lookup is turned into a status, headers and a body.
pub mod config;
pub mod error;
pub mod laws;
pub mod listing;
pub mod mime;
pub mod response;
pub mod uri;
