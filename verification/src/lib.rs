//! A file cache served over HTTP: requests name files under a local cache
//! directory, and cached files can be mirrored to an S3 bucket.
//!
//! This crate holds the decisions of the service as verified functions:
//! where a request path is stored on disk, which file operations a request
//! needs and in what order, and what the client is answered for each outcome.
//! The program around it performs the I/O.

pub mod http;
pub mod util;

pub mod config;
pub mod middleware;
pub mod routes;
