use pdp::server::authn::{authenticate, AuthnDecision};
use pdp::server::cache::{create_cache, CacheError, CacheSelection, NullCache};
use pdp::server::config::cache::{CacheConfig, CacheStore, InMemoryConfig, RedisConfig};
use pdp::server::config::horizon::HorizonConfig;
use pdp::server::fallback::{fallback_failure, fallback_to_horizon, ForwardMethod};
use pdp::server::headers::{
    no_cache, no_cache_at, private_cache, private_cache_at, public_cache, public_cache_at, CacheControl,
    CacheHeaders, ClientCacheControl, ExpiresHeader,
};
use pdp::server::health::{
    cache_check_status, check_all_health, horizon_check_status, http_check_status,
    opa_health_url, timed_out_status, ComponentStatus, HealthStatusType,
};
use pdp::server::models::JsonValue;

const FORBIDDEN: &str = "You are not authorized to access this resource, please check your API key.";

#[test]
fn test_null_cache_operations() {
    let cache = NullCache::new();
    assert!(cache.set("test_key", "{\"field\":\"test\"}").is_ok());
    let result = cache.get("test_key").ok().unwrap();
    assert!(result.is_none());
    assert!(cache.delete("test_key").is_ok());
}

#[test]
fn null_test_health_check() {
    let cache = NullCache::new();
    assert!(cache.health_check().is_ok());
}

fn cache_config(store: CacheStore, url: &str) -> CacheConfig {
    CacheConfig {
        ttl: 3600,
        store,
        memory: InMemoryConfig { capacity: 128 },
        redis: RedisConfig { url: url.to_string() },
    }
}

#[test]
fn caches_are_chosen_by_the_store() {
    match create_cache(&cache_config(CacheStore::InMemory, "")) {
        Ok(CacheSelection::InMemory { ttl_secs, capacity_bytes }) => {
            assert_eq!(ttl_secs, 3600);
            assert_eq!(capacity_bytes, 128 * 1024 * 1024);
        }
        _ => panic!("expected an in-memory cache"),
    }
    match create_cache(&cache_config(CacheStore::Redis, "")) {
        Err(CacheError::Config(m)) => assert_eq!(m, "Redis URL is required for Redis cache"),
        _ => panic!("expected a configuration error"),
    }
    match create_cache(&cache_config(CacheStore::Redis, "redis://localhost:6379")) {
        Ok(CacheSelection::Redis { url, ttl_secs }) => {
            assert_eq!(url, "redis://localhost:6379");
            assert_eq!(ttl_secs, 3600);
        }
        _ => panic!("expected a redis cache"),
    }
    assert!(matches!(create_cache(&cache_config(CacheStore::Null, "")), Ok(CacheSelection::Null)));
}

#[test]
fn cache_control_directives_come_in_a_fixed_order() {
    let c = CacheControl::new().max_age(60).public().no_cache();
    assert_eq!(c.to_header_value(), "no-cache, public, max-age=60");
    let c = CacheControl::new()
        .s_maxage(5)
        .private()
        .must_revalidate()
        .no_store()
        .no_cache()
        .max_age(0);
    assert_eq!(c.to_header_value(), "no-cache, no-store, must-revalidate, private, max-age=0, s-maxage=5");
    assert_eq!(CacheControl::new().to_header_value(), "");
    let c = CacheControl::new().public().private();
    assert!(c.private && !c.public);
}

#[test]
fn cache_headers_fill_pragma_and_expires() {
    let h = no_cache_at(1_000_000);
    assert_eq!(h.expires, Some(1_000_000 - 3600));
    let v = h.apply();
    assert_eq!(v.cache_control, "no-cache, no-store, must-revalidate");
    assert!(v.pragma_no_cache);
    assert_eq!(v.expires, Some(ExpiresHeader::At(1_000_000 - 3600)));

    let v = public_cache_at(1_000_000, 300).apply();
    assert_eq!(v.cache_control, "public, max-age=300");
    assert!(!v.pragma_no_cache);
    assert_eq!(v.expires, Some(ExpiresHeader::At(1_000_300)));

    let v = private_cache_at(1_000_000, 60).apply();
    assert_eq!(v.cache_control, "private, max-age=60");
    assert_eq!(v.expires, Some(ExpiresHeader::At(1_000_060)));

    let v = CacheHeaders::new().cache_control(CacheControl::new().no_store()).apply();
    assert_eq!(v.expires, Some(ExpiresHeader::Zero));
    let v = CacheHeaders::new().cache_control(CacheControl::new().public()).apply();
    assert_eq!(v.expires, None);
}

#[test]
fn cache_headers_at_the_current_time() {
    let h = no_cache().ok().unwrap();
    assert!(h.cache_control.no_cache && h.expires.is_some());
    let h = public_cache(120).ok().unwrap();
    assert_eq!(h.cache_control.max_age, Some(120));
    assert!(h.expires.unwrap() > 1_600_000_000);
    let h = private_cache(30).ok().unwrap();
    assert!(h.cache_control.private && !h.cache_control.public);
}

#[test]
fn expiry_is_clamped_at_the_ends_of_the_range() {
    assert_eq!(no_cache_at(i64::MIN + 10).expires, Some(i64::MIN));
    assert_eq!(public_cache_at(i64::MAX - 10, 60).expires, Some(i64::MAX));
    assert_eq!(private_cache_at(-100, 60).expires, Some(-40));
}

#[test]
fn client_directives_are_read_from_the_header() {
    let c = ClientCacheControl::from_header_value(None);
    assert!(!c.no_cache && !c.no_store && c.max_age.is_none());
    assert!(c.should_use_cache());

    let c = ClientCacheControl::from_header_value(Some(" no-cache , max-age=30"));
    assert!(c.no_cache && !c.no_store);
    assert_eq!(c.max_age, Some(30));
    assert!(!c.should_use_cache());

    let c = ClientCacheControl::from_header_value(Some("no-store"));
    assert!(c.no_store);
    assert!(!c.should_use_cache());

    let c = ClientCacheControl::from_header_value(Some("max-age=0"));
    assert_eq!(c.max_age, Some(0));
    assert!(!c.should_use_cache());

    let c = ClientCacheControl::from_header_value(Some("max-age=abc, public"));
    assert_eq!(c.max_age, None);
    assert!(c.should_use_cache());

    let c = ClientCacheControl::from_header_value(Some("max-age=10"));
    assert!(c.should_use_cache());
}

#[test]
fn a_no_cache_directive_anywhere_bypasses_the_cache() {
    for v in ["no-cache", "public, no-cache", "max-age=10,no-cache, private"] {
        assert!(!ClientCacheControl::from_header_value(Some(v)).should_use_cache());
    }
}

#[test]
fn authentication_decisions() {
    match authenticate(None, "secret") {
        AuthnDecision::Reject(401, m) => assert_eq!(m, "Missing Authorization header"),
        _ => panic!("expected 401"),
    }
    match authenticate(Some(None), "secret") {
        AuthnDecision::Reject(403, m) => assert_eq!(m, FORBIDDEN),
        _ => panic!("expected 403"),
    }
    match authenticate(Some(Some("Basic secret")), "secret") {
        AuthnDecision::Reject(403, m) => assert_eq!(m, FORBIDDEN),
        _ => panic!("expected 403"),
    }
    match authenticate(Some(Some("Bearer wrong")), "secret") {
        AuthnDecision::Reject(403, m) => assert_eq!(m, FORBIDDEN),
        _ => panic!("expected 403"),
    }
    assert!(matches!(authenticate(Some(Some("Bearer secret")), "secret"), AuthnDecision::Allow));
    assert!(matches!(authenticate(Some(Some("bEaReR secret")), "secret"), AuthnDecision::Allow));
}

fn horizon() -> HorizonConfig {
    HorizonConfig {
        host: "localhost".to_string(),
        port: 7001,
        client_timeout: 60,
        python_path: "python3".to_string(),
        health_check_timeout: 1,
        health_check_interval: 5,
        health_check_failure_threshold: 12,
        startup_delay: 5,
        restart_interval: 1,
        termination_timeout: 30,
    }
}

#[test]
fn unmatched_requests_go_to_horizon() {
    match fallback_to_horizon(&horizon(), "GET", Some("/v1/foo?x=1")) {
        Ok((ForwardMethod::Get, url)) => assert_eq!(url, "http://localhost:7001/v1/foo?x=1"),
        _ => panic!("expected a forward"),
    }
    match fallback_to_horizon(&horizon(), "PATCH", None) {
        Ok((ForwardMethod::Patch, url)) => assert_eq!(url, "http://localhost:7001/"),
        _ => panic!("expected a forward"),
    }
    match fallback_to_horizon(&horizon(), "TRACE", Some("/x")) {
        Err((405, m)) => assert_eq!(m, "Unsupported HTTP method: TRACE"),
        _ => panic!("expected 405"),
    }
    assert_eq!(horizon().get_url("healthy"), "http://localhost:7001/healthy");
    assert_eq!(fallback_failure(Some(404), "x"), (404, "Error response from fallback server".to_string()));
    assert_eq!(fallback_failure(None, "refused"), (502, "Failed to send request: refused".to_string()));
}

fn healthy() -> ComponentStatus {
    ComponentStatus { status: HealthStatusType::Healthy, error: None, details: None }
}

#[test]
fn component_statuses() {
    let c = http_check_status("OPA", Ok((200, "200 OK")));
    assert_eq!(c.status, HealthStatusType::Healthy);
    let c = http_check_status("OPA", Ok((500, "500 Internal Server Error")));
    assert_eq!(c.error.as_deref(), Some("OPA returned status 500 Internal Server Error"));
    let c = http_check_status("Horizon", Err("refused"));
    assert_eq!(c.error.as_deref(), Some("Failed to connect to Horizon: refused"));
    let c = cache_check_status(Err("down".to_string()));
    assert_eq!(c.error.as_deref(), Some("Cache health check failed: down"));
    assert_eq!(cache_check_status(Ok(())).status, HealthStatusType::Healthy);
    let c = timed_out_status("OPA", "3");
    assert_eq!(c.status, HealthStatusType::Error);
    assert_eq!(c.error.as_deref(), Some("OPA health check timed out after 3 seconds"));
    assert_eq!(opa_health_url("http://localhost:8181"), "http://localhost:8181/health");
}

#[test]
fn horizon_status_carries_the_watchdog() {
    let c = horizon_check_status(Some(true), healthy());
    assert_eq!(c.status, HealthStatusType::Healthy);
    match c.details {
        Some(JsonValue::Object(t)) => {
            assert_eq!(t, "{\"direct_check\":\"success\",\"watchdog\":\"ok\"}")
        }
        _ => panic!("expected details"),
    }
    let c = horizon_check_status(None, http_check_status("Horizon", Err("refused")));
    assert_eq!(c.status, HealthStatusType::Error);
    assert_eq!(c.error.as_deref(), Some("Failed to connect to Horizon: refused"));
    match c.details {
        Some(JsonValue::Object(t)) => assert!(t.contains("\"status\":\"error\"")),
        _ => panic!("expected details"),
    }
}

#[test]
fn overall_health() {
    let r = check_all_health(Some(healthy()), Some(healthy()), false, None);
    assert_eq!(r.status, HealthStatusType::Healthy);
    assert_eq!(r.status_code, 200);
    assert!(r.components.cache.is_none());

    let r = check_all_health(Some(healthy()), Some(healthy()), true, None);
    assert_eq!(r.status_code, 503);
    assert_eq!(
        r.components.cache.unwrap().error.as_deref(),
        Some("Cache check task failed")
    );

    let r = check_all_health(None, Some(healthy()), true, Some(healthy()));
    assert_eq!(r.status, HealthStatusType::Error);
    assert_eq!(r.components.horizon.error.as_deref(), Some("Horizon check task failed"));

    let r = check_all_health(Some(healthy()), Some(healthy()), true, Some(healthy()));
    assert_eq!(r.status_code, 200);
}
