//! The configuration of the server, read from a TOML file at start-up.

use vstd::prelude::*;

verus! {

/// Where the server listens.
pub struct ServerConfig {
    pub host: String,
    pub port: u16,
    pub payload: usize,
}

/// The local cache.
pub struct CacheConfig {
    pub root: String,
}

/// The S3 bucket that mirrors the cache, and how to reach it.
pub struct S3Config {
    pub bucket: String,
    pub region: String,
    pub endpoint: String,
    pub access_key: String,
    pub secret_key: String,
}

/// The whole configuration.
pub struct Config {
    pub server: ServerConfig,
    pub cache: CacheConfig,
    pub s3: S3Config,
}

/// The configuration file read at start-up: `Config.prod.toml` when that
/// file exists, else `Config.toml`.
pub open spec fn config_file_spec(prod_exists: bool) -> Seq<char> {
    if prod_exists {
        "Config.prod.toml"@
    } else {
        "Config.toml"@
    }
}

/// The configuration file to read, given whether `Config.prod.toml` exists.
pub fn config_file(prod_exists: bool) -> (r: &'static str)
    ensures
        r@ == config_file_spec(prod_exists),
{
    let dev = "Config.toml";
    let prod = "Config.prod.toml";
    let mut f = dev;
    if prod_exists {
        f = prod;
    }
    f
}

} // verus!
