use vstd::prelude::*;
use crate::error::AppError;
use crate::types::Environment;
use crate::validate::spec_starts_with;
use crate::validate::str_starts_with;

verus! {

/// Where the process listens and how it names itself.
#[derive(Debug, Clone)]
pub struct ServerConfig {
    pub env: Environment,
    pub host: String,
    pub port: u16,
    pub base_url: String,
    pub cookie_domain: String,
    pub app_name: String,
}

/// Connection settings for the backing store.
#[derive(Debug, Clone)]
pub struct DatabaseConfig {
    pub url: String,
    pub max_connections: u32,
    pub min_connections: u32,
}

/// Connection settings for the optional cache.
#[derive(Debug, Clone)]
pub struct RedisConfig {
    pub url: String,
}

/// Secrets, token lifetimes and cookie names for the session engine.
#[derive(Debug, Clone)]
pub struct AuthConfig {
    pub jwt_secret: String,
    pub refresh_secret: String,
    pub csrf_secret: String,
    pub access_token_ttl_minutes: u64,
    pub refresh_token_ttl_days: u64,
    pub access_cookie_name: String,
    pub refresh_cookie_name: String,
    pub csrf_cookie_name: String,
    pub cookie_secure: bool,
}

/// Log level and optional trace-export endpoint.
#[derive(Debug, Clone)]
pub struct TracingConfig {
    pub log_level: String,
    pub otel_endpoint: Option<String>,
}

/// The immutable configuration snapshot shared by all operations.
#[derive(Debug, Clone)]
pub struct AppConfig {
    pub server: ServerConfig,
    pub database: DatabaseConfig,
    pub auth: AuthConfig,
    pub tracing: TracingConfig,
    pub redis: Option<RedisConfig>,
}

fn default_host() -> (r: String)
    ensures
        r@ == "0.0.0.0"@,
{
    String::from_str("0.0.0.0")
}

fn default_port() -> (r: u16)
    ensures
        r == 3000,
{
    3000
}

fn default_base_url() -> (r: String)
    ensures
        r@ == "http://localhost:3000"@,
{
    String::from_str("http://localhost:3000")
}

fn default_cookie_domain() -> (r: String)
    ensures
        r@ == "localhost"@,
{
    String::from_str("localhost")
}

fn default_app_name() -> (r: String)
    ensures
        r@ == "leptos-app"@,
{
    String::from_str("leptos-app")
}

fn default_pool_size() -> (r: u32)
    ensures
        r == 10,
{
    10
}

fn default_min_pool_size() -> (r: u32)
    ensures
        r == 2,
{
    2
}

fn default_access_ttl() -> (r: u64)
    ensures
        r == 15,
{
    15
}

fn default_refresh_ttl() -> (r: u64)
    ensures
        r == 14,
{
    14
}

fn default_access_cookie() -> (r: String)
    ensures
        r@ == "access_token"@,
{
    String::from_str("access_token")
}

fn default_refresh_cookie() -> (r: String)
    ensures
        r@ == "refresh_token"@,
{
    String::from_str("refresh_token")
}

fn default_csrf_cookie() -> (r: String)
    ensures
        r@ == "csrf_token"@,
{
    String::from_str("csrf_token")
}

fn default_log_level() -> (r: String)
    ensures
        r@ == "info"@,
{
    String::from_str("info")
}

impl Default for ServerConfig {
    fn default() -> (r: Self)
        ensures
            r.env == Environment::Development,
            r.host@ == "0.0.0.0"@,
            r.port == 3000,
            r.base_url@ == "http://localhost:3000"@,
            r.cookie_domain@ == "localhost"@,
            r.app_name@ == "leptos-app"@,
    {
        ServerConfig {
            env: Environment::Development,
            host: default_host(),
            port: default_port(),
            base_url: default_base_url(),
            cookie_domain: default_cookie_domain(),
            app_name: default_app_name(),
        }
    }
}

impl Default for DatabaseConfig {
    fn default() -> (r: Self)
        ensures
            r.url@ == Seq::<char>::empty(),
            r.max_connections == 10,
            r.min_connections == 2,
    {
        DatabaseConfig {
            url: String::new(),
            max_connections: default_pool_size(),
            min_connections: default_min_pool_size(),
        }
    }
}

impl Default for AuthConfig {
    fn default() -> (r: Self)
        ensures
            r.jwt_secret@ == Seq::<char>::empty(),
            r.refresh_secret@ == Seq::<char>::empty(),
            r.csrf_secret@ == Seq::<char>::empty(),
            r.access_token_ttl_minutes == 15,
            r.refresh_token_ttl_days == 14,
            r.access_cookie_name@ == "access_token"@,
            r.refresh_cookie_name@ == "refresh_token"@,
            r.csrf_cookie_name@ == "csrf_token"@,
            r.cookie_secure == false,
    {
        AuthConfig {
            jwt_secret: String::new(),
            refresh_secret: String::new(),
            csrf_secret: String::new(),
            access_token_ttl_minutes: default_access_ttl(),
            refresh_token_ttl_days: default_refresh_ttl(),
            access_cookie_name: default_access_cookie(),
            refresh_cookie_name: default_refresh_cookie(),
            csrf_cookie_name: default_csrf_cookie(),
            cookie_secure: false,
        }
    }
}

impl Default for TracingConfig {
    fn default() -> (r: Self)
        ensures
            r.log_level@ == "info"@,
            r.otel_endpoint is None,
    {
        TracingConfig { log_level: default_log_level(), otel_endpoint: None }
    }
}

/// A URL acceptable as a base address: an `http` or `https` scheme with a
/// non-empty remainder.
pub open spec fn spec_url_shaped(s: Seq<char>) -> bool {
    ||| (spec_starts_with(s, "http://"@) && s.len() > "http://"@.len())
    ||| (spec_starts_with(s, "https://"@) && s.len() > "https://"@.len())
}

fn url_shaped(s: &str) -> (r: bool)
    ensures
        r == spec_url_shaped(s@),
{
    proof {
        reveal_strlit("http://");
        reveal_strlit("https://");
    }
    (str_starts_with(s, "http://") && s.unicode_len() > 7) || (str_starts_with(s, "https://")
        && s.unicode_len() > 8)
}

/// What a well-formed configuration snapshot must satisfy: minimum lengths
/// for hosts, names and secrets, and a URL-shaped base address.
pub open spec fn spec_config_valid(c: AppConfig) -> bool {
    &&& c.server.host@.len() >= 3
    &&& spec_url_shaped(c.server.base_url@)
    &&& c.server.cookie_domain@.len() >= 1
    &&& c.server.app_name@.len() >= 8
    &&& c.database.url@.len() >= 1
    &&& c.auth.jwt_secret@.len() >= 32
    &&& c.auth.refresh_secret@.len() >= 32
    &&& c.auth.csrf_secret@.len() >= 16
    &&& c.auth.access_cookie_name@.len() >= 1
    &&& c.auth.refresh_cookie_name@.len() >= 1
    &&& c.auth.csrf_cookie_name@.len() >= 1
    &&& c.tracing.log_level@.len() >= 1
    &&& match c.redis {
        Some(r) => r.url@.len() >= 1,
        None => true,
    }
}

impl AppConfig {
    /// Accepts exactly the snapshots that `spec_config_valid` allows;
    /// every rejection is a startup-time `Config` error.
    pub fn validate(&self) -> (r: Result<(), AppError>)
        ensures
            r is Ok <==> spec_config_valid(*self),
            r matches Err(e) ==> e is Config,
    {
        let ok = self.server.host.as_str().unicode_len() >= 3 && url_shaped(
            self.server.base_url.as_str(),
        ) && self.server.cookie_domain.as_str().unicode_len() >= 1
            && self.server.app_name.as_str().unicode_len() >= 8 && self.database.url.as_str().unicode_len()
            >= 1 && self.auth.jwt_secret.as_str().unicode_len() >= 32
            && self.auth.refresh_secret.as_str().unicode_len() >= 32
            && self.auth.csrf_secret.as_str().unicode_len() >= 16
            && self.auth.access_cookie_name.as_str().unicode_len() >= 1
            && self.auth.refresh_cookie_name.as_str().unicode_len() >= 1
            && self.auth.csrf_cookie_name.as_str().unicode_len() >= 1
            && self.tracing.log_level.as_str().unicode_len() >= 1 && match &self.redis {
            Some(r) => r.url.as_str().unicode_len() >= 1,
            None => true,
        };
        if ok {
            Ok(())
        } else {
            Err(AppError::Config(String::from_str("configuration validation failed")))
        }
    }
}

} // verus!
