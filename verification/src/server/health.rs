//! Health of the server: the status of each component (Horizon, OPA, the
//! decision cache) and of the whole.

use crate::server::models::JsonValue;
use crate::text::concat2;
use vstd::prelude::*;

verus! {

/// Healthy or not.
#[derive(Debug, Clone, Copy, PartialEq, Eq, Structural)]
pub enum HealthStatusType {
    Healthy,
    Error,
}

/// The parameters of a health request.
#[derive(Debug, Clone)]
pub struct HealthQuery {
    /// Whether the cache is checked too.
    pub check_cache: bool,
}

/// The health of one component.
#[derive(Debug, Clone)]
pub struct ComponentStatus {
    pub status: HealthStatusType,
    pub error: Option<String>,
    pub details: Option<JsonValue>,
}

/// The health of every component checked.
#[derive(Debug, Clone)]
pub struct ComponentHealth {
    pub horizon: ComponentStatus,
    pub opa: ComponentStatus,
    pub cache: Option<ComponentStatus>,
}

/// The answer to a health request.
#[derive(Debug, Clone)]
pub struct HealthResponse {
    pub status: HealthStatusType,
    pub components: ComponentHealth,
    /// 200 when healthy, 503 otherwise.
    pub status_code: u16,
}

/// `c` is a failed component with the message given.
pub open spec fn failed_with(c: ComponentStatus, message: Seq<char>) -> bool {
    c.status == HealthStatusType::Error && (c.error matches Some(e) && e@ == message)
        && c.details is None
}

fn failed(message: String) -> (c: ComponentStatus)
    ensures
        failed_with(c, message@),
{
    ComponentStatus { status: HealthStatusType::Error, error: Some(message), details: None }
}

/// The health of a service that answered an HTTP health request: healthy
/// on a status of 200-299, else failed with the status; failed with the
/// error when the request did not go through.
pub fn http_check_status(service: &str, outcome: Result<(u16, &str), &str>) -> (c: ComponentStatus)
    ensures
        match outcome {
            Ok((code, text)) => if 200 <= code < 300 {
                c.status == HealthStatusType::Healthy && c.error is None && c.details is None
            } else {
                failed_with(c, service@ + " returned status "@ + text@)
            },
            Err(e) => failed_with(c, "Failed to connect to "@ + service@ + ": "@ + e@),
        },
{
    match outcome {
        Ok((code, text)) => if 200 <= code && code < 300 {
            ComponentStatus { status: HealthStatusType::Healthy, error: None, details: None }
        } else {
            failed(concat2(service, " returned status ").concat(text))
        },
        Err(e) => failed(concat2("Failed to connect to ", service).concat(": ").concat(e)),
    }
}

/// The health of the cache after its own check.
pub fn cache_check_status(result: Result<(), String>) -> (c: ComponentStatus)
    ensures
        match result {
            Ok(_) => c.status == HealthStatusType::Healthy && c.error is None && c.details is None,
            Err(e) => failed_with(c, "Cache health check failed: "@ + e@),
        },
{
    match result {
        Ok(_) => ComponentStatus { status: HealthStatusType::Healthy, error: None, details: None },
        Err(e) => failed(concat2("Cache health check failed: ", e.as_str())),
    }
}

/// The health of a check that did not finish in time; the timeout is given
/// as text.
pub fn timed_out_status(checker_name: &str, seconds: &str) -> (c: ComponentStatus)
    ensures
        failed_with(c, checker_name@ + " health check timed out after "@ + seconds@ + " seconds"@),
{
    failed(concat2(checker_name, " health check timed out after ").concat(seconds).concat(" seconds"))
}

/// The compact JSON of the watchdog details of a healthy Horizon.
pub open spec fn horizon_ok_details(watchdog_ok: bool) -> Seq<char> {
    if watchdog_ok {
        "{\"direct_check\":\"success\",\"watchdog\":\"ok\"}"@
    } else {
        "{\"direct_check\":\"success\",\"watchdog\":\"error\"}"@
    }
}

/// The compact JSON of the watchdog details of an unhealthy Horizon.
pub open spec fn horizon_failed_details(watchdog_ok: bool) -> Seq<char> {
    if watchdog_ok {
        "{\"watchdog\":{\"message\":\"Watchdog status when direct Horizon health check was not Ok.\",\"status\":\"ok\"}}"@
    } else {
        "{\"watchdog\":{\"message\":\"Watchdog status when direct Horizon health check was not Ok.\",\"status\":\"error\"}}"@
    }
}

/// The health of Horizon: that of its direct check, with the watchdog's
/// status in the details (a missing watchdog counts as unhealthy).
pub fn horizon_check_status(watchdog_healthy: Option<bool>, direct: ComponentStatus) -> (c:
    ComponentStatus)
    ensures
        ({
            let w = watchdog_healthy == Some(true);
            if direct.status == HealthStatusType::Healthy {
                &&& c.status == HealthStatusType::Healthy
                &&& c.error is None
                &&& c.details matches Some(JsonValue::Object(t)) && t@ == horizon_ok_details(w)
            } else {
                &&& c.status == direct.status
                &&& c.error == direct.error
                &&& c.details matches Some(JsonValue::Object(t)) && t@ == horizon_failed_details(w)
            }
        }),
{
    let w = match watchdog_healthy {
        Some(b) => b,
        None => false,
    };
    if direct.status == HealthStatusType::Healthy {
        let details = if w {
            "{\"direct_check\":\"success\",\"watchdog\":\"ok\"}"
        } else {
            "{\"direct_check\":\"success\",\"watchdog\":\"error\"}"
        };
        ComponentStatus {
            status: HealthStatusType::Healthy,
            error: None,
            details: Some(JsonValue::Object(details.to_owned())),
        }
    } else {
        let details = if w {
            "{\"watchdog\":{\"message\":\"Watchdog status when direct Horizon health check was not Ok.\",\"status\":\"ok\"}}"
        } else {
            "{\"watchdog\":{\"message\":\"Watchdog status when direct Horizon health check was not Ok.\",\"status\":\"error\"}}"
        };
        ComponentStatus {
            status: direct.status,
            error: direct.error,
            details: Some(JsonValue::Object(details.to_owned())),
        }
    }
}

/// The URL of OPA's health endpoint.
pub fn opa_health_url(opa_url: &str) -> (u: String)
    ensures
        u@ == opa_url@ + "/health"@,
{
    concat2(opa_url, "/health")
}

/// The status of a component whose check task did not deliver, if it did
/// not.
pub open spec fn delivered(s: Option<ComponentStatus>, name: Seq<char>, c: ComponentStatus) -> bool {
    match s {
        Some(x) => c == x,
        None => failed_with(c, name + " check task failed"@),
    }
}

/// Every component is healthy (the cache only if it was checked).
pub open spec fn all_healthy(c: ComponentHealth) -> bool {
    &&& c.horizon.status == HealthStatusType::Healthy
    &&& c.opa.status == HealthStatusType::Healthy
    &&& (c.cache matches Some(k) ==> k.status == HealthStatusType::Healthy)
}

/// The server is healthy only when every checked component is: an
/// unhealthy Horizon, an unhealthy OPA or an unhealthy checked cache each
/// make it unhealthy, and healthy components all round make it healthy.
pub proof fn lemma_health_needs_every_component(c: ComponentHealth)
    ensures
        c.horizon.status != HealthStatusType::Healthy ==> !all_healthy(c),
        c.opa.status != HealthStatusType::Healthy ==> !all_healthy(c),
        (c.cache matches Some(k) && k.status != HealthStatusType::Healthy) ==> !all_healthy(c),
        (c.horizon.status == HealthStatusType::Healthy && c.opa.status == HealthStatusType::Healthy && (
        c.cache is None || c.cache.unwrap().status == HealthStatusType::Healthy)) ==> all_healthy(c),
{
}

fn delivered_status(s: Option<ComponentStatus>, failure: &str) -> (c: ComponentStatus)
    ensures
        match s {
            Some(x) => c == x,
            None => failed_with(c, failure@),
        },
{
    match s {
        Some(x) => x,
        None => failed(failure.to_owned()),
    }
}

/// The health of the server from the results of the component checks
/// (`None` for a check task that failed): healthy, with 200, when every
/// checked component is healthy; unhealthy with 503 otherwise. The cache
/// counts only when it was checked.
pub fn check_all_health(
    horizon: Option<ComponentStatus>,
    opa: Option<ComponentStatus>,
    check_cache: bool,
    cache: Option<ComponentStatus>,
) -> (r: HealthResponse)
    ensures
        delivered(horizon, "Horizon"@, r.components.horizon),
        delivered(opa, "OPA"@, r.components.opa),
        check_cache ==> (r.components.cache matches Some(k) && delivered(cache, "Cache"@, k)),
        !check_cache ==> r.components.cache is None,
        all_healthy(r.components) ==> r.status == HealthStatusType::Healthy && r.status_code == 200,
        !all_healthy(r.components) ==> r.status == HealthStatusType::Error && r.status_code == 503,
        !(horizon matches Some(h) && h.status == HealthStatusType::Healthy) ==> (r.status
            == HealthStatusType::Error && r.status_code == 503),
        !(opa matches Some(o) && o.status == HealthStatusType::Healthy) ==> (r.status
            == HealthStatusType::Error && r.status_code == 503),
        (check_cache && !(cache matches Some(k) && k.status == HealthStatusType::Healthy)) ==> (r.status
            == HealthStatusType::Error && r.status_code == 503),
        ((horizon matches Some(h) && h.status == HealthStatusType::Healthy) && (opa matches Some(o)
            && o.status == HealthStatusType::Healthy) && (check_cache ==> (cache matches Some(k)
            && k.status == HealthStatusType::Healthy))) ==> (r.status == HealthStatusType::Healthy
            && r.status_code == 200),
{
    proof {
        reveal_strlit("Horizon check task failed");
        reveal_strlit("Horizon");
        reveal_strlit(" check task failed");
        reveal_strlit("OPA check task failed");
        reveal_strlit("OPA");
        reveal_strlit("Cache check task failed");
        reveal_strlit("Cache");
    }
    let h = delivered_status(horizon, "Horizon check task failed");
    let o = delivered_status(opa, "OPA check task failed");
    let c = if check_cache {
        Some(delivered_status(cache, "Cache check task failed"))
    } else {
        None
    };
    assert("Horizon check task failed"@ =~= "Horizon"@ + " check task failed"@);
    assert("OPA check task failed"@ =~= "OPA"@ + " check task failed"@);
    assert("Cache check task failed"@ =~= "Cache"@ + " check task failed"@);
    let healthy = h.status == HealthStatusType::Healthy && o.status == HealthStatusType::Healthy && match &c {
        Some(k) => k.status == HealthStatusType::Healthy,
        None => true,
    };
    let components = ComponentHealth { horizon: h, opa: o, cache: c };
    if healthy {
        HealthResponse { status: HealthStatusType::Healthy, components, status_code: 200 }
    } else {
        HealthResponse { status: HealthStatusType::Error, components, status_code: 503 }
    }
}

} // verus!
