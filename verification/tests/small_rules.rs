use rre_backend::config::{
    default_app_env, default_bind_addr, default_db_max_connections, default_frontend_origin,
    default_git_commit, Settings,
};
use rre_backend::cors::{allow_origin, AllowOrigin};
use rre_backend::export_bundle::parse_env;
use rre_backend::schemas::health::{healthz_db_response, HealthResponse};
use rre_backend::schemas::site::validate_protocol;
use rre_backend::schemas::version::PublishEnvironment;
use rre_backend::text::trim;

fn settings(env: &str) -> Settings {
    Settings {
        database_url: "postgres://x".to_string(),
        app_env: env.to_string(),
        app_version: "0.1.0".to_string(),
        git_commit: default_git_commit(),
        frontend_origin: default_frontend_origin(),
        bind_addr: default_bind_addr(),
        db_max_connections: default_db_max_connections(),
    }
}

#[test]
fn dev_environments() {
    for env in ["dev", "development", "local"] {
        assert!(settings(env).is_dev(), "{env}");
    }
    for env in ["prod", "staging", "DEV", ""] {
        assert!(!settings(env).is_dev(), "{env}");
    }
    assert!(settings(&default_app_env()).is_dev());
}

#[test]
fn default_settings_values() {
    assert_eq!(default_app_env(), "dev");
    assert_eq!(default_git_commit(), "unknown");
    assert_eq!(default_frontend_origin(), "http://localhost:3000");
    assert_eq!(default_bind_addr(), "0.0.0.0:8000");
    assert_eq!(default_db_max_connections(), 10);
}

#[test]
fn health_responses() {
    let ok = HealthResponse::ok("1.2.3".to_string(), "abc".to_string());
    assert_eq!(ok.status, "ok");
    assert_eq!(ok.version.as_deref(), Some("1.2.3"));
    assert_eq!(ok.git_commit.as_deref(), Some("abc"));
    let (status, up) = healthz_db_response(true);
    assert_eq!((status, up.status.as_str()), (200, "ok"));
    assert!(up.version.is_none());
    let (status, down) = healthz_db_response(false);
    assert_eq!((status, down.status.as_str()), (503, "unavailable"));
}

#[test]
fn cors_origin_falls_back_to_any_on_invalid_value() {
    match allow_origin("http://localhost:3000") {
        AllowOrigin::Exact(o) => assert_eq!(o, "http://localhost:3000"),
        AllowOrigin::Any => panic!("valid origin rejected"),
    }
    assert!(matches!(allow_origin("http://bad\norigin"), AllowOrigin::Any));
    assert!(matches!(allow_origin("\u{7f}"), AllowOrigin::Any));
}

#[test]
fn export_env_parsing_is_strict() {
    assert_eq!(parse_env("live"), Ok(PublishEnvironment::Live));
    assert_eq!(parse_env("  Staging\n"), Ok(PublishEnvironment::Staging));
    assert_eq!(parse_env("LIVE"), Ok(PublishEnvironment::Live));
    assert_eq!(
        parse_env(" Prod "),
        Err("--env must be live or staging, got 'prod'".to_string())
    );
}

#[test]
fn trimming_strips_unicode_white_space() {
    assert_eq!(trim("  a b \t"), "a b");
    assert_eq!(trim("\u{3000}x\u{a0}"), "x");
    assert_eq!(trim(" \n "), "");
    assert_eq!(trim(""), "");
}

#[test]
fn protocols_are_http_or_https() {
    assert!(validate_protocol("http").is_ok());
    assert!(validate_protocol("https").is_ok());
    let err = validate_protocol("ftp").unwrap_err();
    assert_eq!(err.code, "protocol_invalid");
    assert!(err.message.is_none());
    assert!(validate_protocol("HTTP").is_err());
}
