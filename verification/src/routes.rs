//! Request handling: where requests are stored locally and remotely, and
//! what each request does.

pub mod cache;
pub mod cache_local;
pub mod cache_remote;
pub mod router;
