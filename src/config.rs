//! Settings, built once at start-up and handed to whatever needs them.

use vstd::prelude::*;

verus! {

pub const ERTFLIX_API_URL: &'static str = "https://api.ertflix.gr";

/// How long an upstream request may take.
pub const TIMEOUT_SECONDS: u64 = 30;

pub const SERVER_ID: &'static str = "optiplex-adapter";

pub const USER_ID: &'static str = "optiplex-user";

pub const USERNAME: &'static str = "antonis";

/// The toplist that lists every movie; the upstream has renamed it before.
pub const MOVIES_CODENAME: &'static str = "oles-oi-tainies-1";

/// The toplist that lists every complete series.
pub const TV_SHOWS_CODENAME: &'static str = "ert-seires-plereis";

#[derive(Debug, Clone)]
pub struct Config {
    pub ertflix: ErtflixConfig,
    pub redis: RedisConfig,
    pub cache: CacheConfig,
    pub server: ServerIdentity,
}

/// Where the upstream is and which of its toplists hold movies and shows.
#[derive(Debug, Clone)]
pub struct ErtflixConfig {
    pub base_url: String,
    pub movies_codename: String,
    pub tv_shows_codename: String,
    pub timeout_seconds: u64,
}

#[derive(Debug, Clone)]
pub struct RedisConfig {
    pub url: String,
    pub connection_pool_size: u32,
}

/// Time-to-live settings for a cache; nothing caches yet.
#[derive(Debug, Clone)]
pub struct CacheConfig {
    pub default_ttl_seconds: u64,
    pub movies_ttl_seconds: u64,
    pub tv_shows_ttl_seconds: u64,
    pub collections_ttl_seconds: u64,
}

/// How this server and its single user present themselves to clients.
#[derive(Debug, Clone)]
pub struct ServerIdentity {
    pub server_id: String,
    pub user_id: String,
    pub username: String,
}

impl Default for ServerIdentity {
    fn default() -> (r: ServerIdentity)
        ensures
            r.server_id@ == SERVER_ID@,
            r.user_id@ == USER_ID@,
            r.username@ == USERNAME@,
    {
        ServerIdentity {
            server_id: SERVER_ID.to_owned(),
            user_id: USER_ID.to_owned(),
            username: USERNAME.to_owned(),
        }
    }
}

impl Default for Config {
    fn default() -> (r: Config)
        ensures
            r.ertflix.base_url@ == ERTFLIX_API_URL@,
            r.ertflix.movies_codename@ == MOVIES_CODENAME@,
            r.ertflix.tv_shows_codename@ == TV_SHOWS_CODENAME@,
            r.ertflix.timeout_seconds == TIMEOUT_SECONDS,
            r.redis.url@ == "redis://127.0.0.1:6379"@,
            r.redis.connection_pool_size == 10,
            r.cache.default_ttl_seconds == 3600,
            r.cache.movies_ttl_seconds == 7200,
            r.cache.tv_shows_ttl_seconds == 3600,
            r.cache.collections_ttl_seconds == 1800,
            r.server.server_id@ == SERVER_ID@,
            r.server.user_id@ == USER_ID@,
            r.server.username@ == USERNAME@,
    {
        Config {
            ertflix: ErtflixConfig {
                base_url: ERTFLIX_API_URL.to_owned(),
                movies_codename: MOVIES_CODENAME.to_owned(),
                tv_shows_codename: TV_SHOWS_CODENAME.to_owned(),
                timeout_seconds: TIMEOUT_SECONDS,
            },
            redis: RedisConfig {
                url: "redis://127.0.0.1:6379".to_owned(),
                connection_pool_size: 10,
            },
            cache: CacheConfig {
                default_ttl_seconds: 3600,
                movies_ttl_seconds: 7200,
                tv_shows_ttl_seconds: 3600,
                collections_ttl_seconds: 1800,
            },
            server: ServerIdentity::default(),
        }
    }
}

} // verus!
