use authcore::config::{
    AppConfig, AuthConfig, DatabaseConfig, RedisConfig, ServerConfig, TracingConfig,
};
use authcore::dto::{HealthStatus, Pagination};
use authcore::error::AppError;
use authcore::security::should_set_cookie_domain;
use authcore::types::Environment;

fn valid_config() -> AppConfig {
    AppConfig {
        server: ServerConfig {
            env: Environment::Development,
            host: "0.0.0.0".to_string(),
            port: 3000,
            base_url: "http://localhost:3000".to_string(),
            cookie_domain: "localhost".to_string(),
            app_name: "leptos-app".to_string(),
        },
        database: DatabaseConfig {
            url: "postgres://localhost/app".to_string(),
            max_connections: 10,
            min_connections: 2,
        },
        auth: AuthConfig {
            jwt_secret: "0123456789abcdef0123456789abcdef".to_string(),
            refresh_secret: "fedcba9876543210fedcba9876543210".to_string(),
            csrf_secret: "0123456789abcdef".to_string(),
            access_token_ttl_minutes: 15,
            refresh_token_ttl_days: 14,
            access_cookie_name: "access_token".to_string(),
            refresh_cookie_name: "refresh_token".to_string(),
            csrf_cookie_name: "csrf_token".to_string(),
            cookie_secure: false,
        },
        tracing: TracingConfig { log_level: "info".to_string(), otel_endpoint: None },
        redis: None,
    }
}

#[test]
fn defaults_match_the_documented_values() {
    let s = ServerConfig::default();
    assert_eq!(s.host, "0.0.0.0");
    assert_eq!(s.port, 3000);
    assert_eq!(s.base_url, "http://localhost:3000");
    assert_eq!(s.cookie_domain, "localhost");
    assert_eq!(s.app_name, "leptos-app");
    assert_eq!(s.env, Environment::Development);

    let d = DatabaseConfig::default();
    assert_eq!(d.max_connections, 10);
    assert_eq!(d.min_connections, 2);
    assert!(d.url.is_empty());

    let a = AuthConfig::default();
    assert_eq!(a.access_token_ttl_minutes, 15);
    assert_eq!(a.refresh_token_ttl_days, 14);
    assert_eq!(a.access_cookie_name, "access_token");
    assert_eq!(a.refresh_cookie_name, "refresh_token");
    assert_eq!(a.csrf_cookie_name, "csrf_token");
    assert!(!a.cookie_secure);

    let t = TracingConfig::default();
    assert_eq!(t.log_level, "info");
    assert!(t.otel_endpoint.is_none());

    let p = Pagination::default();
    assert_eq!(p.page, 1);
    assert_eq!(p.per_page, 20);

    assert!(!Environment::default().is_prod());
    assert!(Environment::Production.is_prod());
}

#[test]
fn validation_accepts_a_complete_snapshot() {
    assert!(valid_config().validate().is_ok());
    let mut with_redis = valid_config();
    with_redis.redis = Some(RedisConfig { url: "redis://localhost".to_string() });
    assert!(with_redis.validate().is_ok());
}

#[test]
fn validation_rejects_weak_or_missing_settings() {
    let mut short_secret = valid_config();
    short_secret.auth.jwt_secret = "too-short".to_string();
    let err = short_secret.validate().unwrap_err();
    assert!(matches!(err, AppError::Config(_)));
    assert_eq!(err.status(), 500);

    let mut no_db = valid_config();
    no_db.database.url = String::new();
    assert!(no_db.validate().is_err());

    let mut bad_url = valid_config();
    bad_url.server.base_url = "ftp://example.com".to_string();
    assert!(bad_url.validate().is_err());

    let mut empty_redis = valid_config();
    empty_redis.redis = Some(RedisConfig { url: String::new() });
    assert!(empty_redis.validate().is_err());

    let mut short_name = valid_config();
    short_name.server.app_name = "short".to_string();
    assert!(short_name.validate().is_err());
}

#[test]
fn cookie_domain_is_only_set_for_real_production_domains() {
    let mut c = valid_config();
    // Development never sets a domain.
    assert!(!should_set_cookie_domain(&c));

    c.server.env = Environment::Production;
    c.server.cookie_domain = "example.com".to_string();
    assert!(should_set_cookie_domain(&c));

    for local in ["localhost", " LOCALHOST ", "127.0.0.1", "0.0.0.0", "", "   "] {
        c.server.cookie_domain = local.to_string();
        assert!(!should_set_cookie_domain(&c), "{local:?} should not be set");
    }

    c.server.cookie_domain = "  example.com ".to_string();
    assert!(should_set_cookie_domain(&c));
}

#[test]
fn health_reports() {
    let (code, body) = HealthStatus::alive(true, "1.2.3".to_string());
    assert_eq!(code, 200);
    assert_eq!(body.status, "ok");
    assert!(!body.db);
    assert!(body.redis);
    assert_eq!(body.version, "1.2.3");

    let (code, body) = HealthStatus::readiness(true, false, "1.2.3".to_string());
    assert_eq!(code, 200);
    assert_eq!(body.status, "ok");
    assert!(body.db);

    let (code, body) = HealthStatus::readiness(false, true, "1.2.3".to_string());
    assert_eq!(code, 503);
    assert_eq!(body.status, "degraded");
}
