//! Startup configuration.
//!
//! Every value is required before the process may serve traffic: the bind
//! address, the database URL, the token signing secret, and the object
//! store's endpoint, credentials and bucket. The caller reads the process
//! environment and hands the raw findings in; a missing value is a fatal
//! startup error named after its variable, never a runtime error.

use vstd::prelude::*;

verus! {

/// The validated startup configuration, passed by reference into every
/// component; nothing reads configuration ambiently after startup.
#[derive(Debug, Clone)]
pub struct Config {
    pub address: String,
    pub database_url: String,
    pub jwt: String,
    pub s3_endpoint: String,
    pub s3_access_key: String,
    pub s3_secret_key: String,
    pub s3_bucket: String,
}

/// Most connections the database pool may hold at once.
pub const POOL_MAX_CONNECTIONS: u32 = 64;

/// Seconds to wait for a pooled connection before the request fails as
/// database-unavailable rather than hanging.
pub const POOL_ACQUIRE_TIMEOUT_SECONDS: u64 = 5;

/// Seconds a presigned read link stays valid.
pub const PRESIGN_TTL_SECONDS: u32 = 86400;

/// Which startup error a missing value raises, by the name of its
/// environment variable, checked in a fixed order.
pub open spec fn spec_missing_var(
    address: Option<String>,
    database_url: Option<String>,
    jwt: Option<String>,
    s3_endpoint: Option<String>,
    s3_access_key: Option<String>,
    s3_secret_key: Option<String>,
    s3_bucket: Option<String>,
) -> Option<Seq<char>> {
    if address is None {
        Some("SERVER_ADDRESS not found in env file"@)
    } else if database_url is None {
        Some("DATABASE_URL not found in env file"@)
    } else if jwt is None {
        Some("JWT_SECRET not found in env file"@)
    } else if s3_endpoint is None {
        Some("S3_ENDPOINT not found in env file"@)
    } else if s3_access_key is None {
        Some("S3_ACCESS_KEY not found in env file"@)
    } else if s3_secret_key is None {
        Some("S3_SECRET_KEY not found in env file"@)
    } else if s3_bucket is None {
        Some("S3_BUCKET not found in env file"@)
    } else {
        None
    }
}

/// Assemble the startup configuration from the raw environment findings.
///
/// Each value is required; the first missing one, in a fixed order,
/// produces the fatal startup message naming its variable.
pub fn init_config(
    address: Option<String>,
    database_url: Option<String>,
    jwt: Option<String>,
    s3_endpoint: Option<String>,
    s3_access_key: Option<String>,
    s3_secret_key: Option<String>,
    s3_bucket: Option<String>,
) -> (r: Result<Config, String>)
    ensures
        r matches Err(m) ==> spec_missing_var(
            address,
            database_url,
            jwt,
            s3_endpoint,
            s3_access_key,
            s3_secret_key,
            s3_bucket,
        ) == Some(m@),
        r matches Ok(c) ==> {
            &&& address matches Some(v) && c.address == v
            &&& database_url matches Some(v) && c.database_url == v
            &&& jwt matches Some(v) && c.jwt == v
            &&& s3_endpoint matches Some(v) && c.s3_endpoint == v
            &&& s3_access_key matches Some(v) && c.s3_access_key == v
            &&& s3_secret_key matches Some(v) && c.s3_secret_key == v
            &&& s3_bucket matches Some(v) && c.s3_bucket == v
        },
{
    let address = match address {
        Some(v) => v,
        None => {
            return Err(String::from_str("SERVER_ADDRESS not found in env file"));
        },
    };
    let database_url = match database_url {
        Some(v) => v,
        None => {
            return Err(String::from_str("DATABASE_URL not found in env file"));
        },
    };
    let jwt = match jwt {
        Some(v) => v,
        None => {
            return Err(String::from_str("JWT_SECRET not found in env file"));
        },
    };
    let s3_endpoint = match s3_endpoint {
        Some(v) => v,
        None => {
            return Err(String::from_str("S3_ENDPOINT not found in env file"));
        },
    };
    let s3_access_key = match s3_access_key {
        Some(v) => v,
        None => {
            return Err(String::from_str("S3_ACCESS_KEY not found in env file"));
        },
    };
    let s3_secret_key = match s3_secret_key {
        Some(v) => v,
        None => {
            return Err(String::from_str("S3_SECRET_KEY not found in env file"));
        },
    };
    let s3_bucket = match s3_bucket {
        Some(v) => v,
        None => {
            return Err(String::from_str("S3_BUCKET not found in env file"));
        },
    };
    Ok(
        Config {
            address,
            database_url,
            jwt,
            s3_endpoint,
            s3_access_key,
            s3_secret_key,
            s3_bucket,
        },
    )
}

} // verus!
