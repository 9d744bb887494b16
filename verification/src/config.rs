//! Application configuration and the public (unauthenticated) route table.

use vstd::prelude::*;
use crate::strutil::{spec_starts_with, str_starts_with};

verus! {

/// Application-wide configuration values.
#[derive(Debug, Clone)]
pub struct AppConfig {
    pub jwt_secret: String,
    pub jwt_expires_in: String,
    pub database_url: String,
    pub redis_url: Option<String>,
    pub server_port: u16,
}

impl AppConfig {
    pub fn new(
        jwt_secret: String,
        jwt_expires_in: String,
        database_url: String,
        redis_url: Option<String>,
        server_port: u16,
    ) -> (c: AppConfig)
        ensures
            c.jwt_secret == jwt_secret,
            c.jwt_expires_in == jwt_expires_in,
            c.database_url == database_url,
            c.redis_url == redis_url,
            c.server_port == server_port,
    {
        AppConfig { jwt_secret, jwt_expires_in, database_url, redis_url, server_port }
    }
}

/// Read-only access to the application configuration.
#[derive(Debug, Clone)]
pub struct ConfigService {
    pub config: AppConfig,
}

impl ConfigService {
    pub fn new(config: AppConfig) -> (s: ConfigService)
        ensures
            s.config == config,
    {
        ConfigService { config }
    }

    pub fn get_config(&self) -> (c: AppConfig)
        ensures
            c == self.config,
    {
        AppConfig {
            jwt_secret: self.config.jwt_secret.clone(),
            jwt_expires_in: self.config.jwt_expires_in.clone(),
            database_url: self.config.database_url.clone(),
            redis_url: match &self.config.redis_url {
                Some(u) => Some(u.clone()),
                None => None,
            },
            server_port: self.config.server_port,
        }
    }
}

/// The route prefixes that may be used without authentication.
pub fn get_public_routes() -> (r: Vec<&'static str>)
    ensures
        r@.len() == 5,
        r@[0]@ == "/api/v1/user/register"@,
        r@[1]@ == "/api/v1/user/login"@,
        r@[2]@ == "/api/v1/user/create_temp_user"@,
        r@[3]@ == "/api/v1/user/refresh-token"@,
        r@[4]@ == "/ws/"@,
{
    vec![
        "/api/v1/user/register",
        "/api/v1/user/login",
        "/api/v1/user/create_temp_user",
        "/api/v1/user/refresh-token",
        "/ws/",
    ]
}

/// Whether a request path begins with one of the public route prefixes.
pub open spec fn spec_is_public_path(path: Seq<char>) -> bool {
    ||| spec_starts_with(path, "/api/v1/user/register"@)
    ||| spec_starts_with(path, "/api/v1/user/login"@)
    ||| spec_starts_with(path, "/api/v1/user/create_temp_user"@)
    ||| spec_starts_with(path, "/api/v1/user/refresh-token"@)
    ||| spec_starts_with(path, "/ws/"@)
}

/// Whether a request path may be served without authentication.
pub fn is_public_path(path: &str) -> (r: bool)
    ensures
        r == spec_is_public_path(path@),
{
    str_starts_with(path, "/api/v1/user/register")
        || str_starts_with(path, "/api/v1/user/login")
        || str_starts_with(path, "/api/v1/user/create_temp_user")
        || str_starts_with(path, "/api/v1/user/refresh-token")
        || str_starts_with(path, "/ws/")
}

} // verus!
