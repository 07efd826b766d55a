use vstd::prelude::*;

verus! {

/// Server settings.
#[derive(Debug)]
pub struct Config {
    pub host: String,
    pub port: u16,
    pub database_url: String,
    pub redis_url: String,
    pub jwt_private_key: Vec<u8>,
    pub jwt_public_key: Vec<u8>,
    pub access_token_minutes: i64,
    pub refresh_token_days: i64,
    pub allowed_origin: String,
}

/// Port used when none is configured.
pub const DEFAULT_PORT: u16 = 8080;

/// Minutes an access token lives when none is configured.
pub const DEFAULT_ACCESS_TOKEN_MINUTES: i64 = 15;

/// Days a refresh token lives when none is configured.
pub const DEFAULT_REFRESH_TOKEN_DAYS: i64 = 30;

/// Seconds an access token lives.
pub fn access_token_seconds(config: &Config) -> (r: i64)
    requires
        i64::MIN <= config.access_token_minutes * 60 <= i64::MAX,
    ensures
        r == config.access_token_minutes * 60,
{
    config.access_token_minutes * 60
}

/// Expiry, in seconds since the epoch, of an access token issued at `now`.
pub fn access_token_expiry(now: i64, access_minutes: i64) -> (r: i64)
    requires
        i64::MIN <= access_minutes * 60 <= i64::MAX,
        i64::MIN <= now + access_minutes * 60 <= i64::MAX,
    ensures
        r == now + access_minutes * 60,
{
    now + access_minutes * 60
}

} // verus!
