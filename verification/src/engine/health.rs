//! The decisions of health monitoring: when waiting for health ends and how,
//! and what recovering an unhealthy process does next. The monitor itself
//! (requests, sleeps, restarts) drives these decisions.

use crate::engine::error::PDPError;
use vstd::prelude::*;

verus! {

/// The URL that a base URL and a relative path resolve to, if they do.
pub uninterp spec fn url_join(base: Seq<char>, path: Seq<char>) -> Option<Seq<char>>;

/// Parses `base` with `url::Url::parse` and resolves `path` against it with
/// `Url::join`. The contract claims only that the outcome is a function of
/// the two texts, named `url_join`.
#[verifier::external_body]
fn join_url(base: &str, path: &str) -> (r: Option<String>)
    ensures
        match r {
            Some(u) => url_join(base@, path@) == Some(u@),
            None => url_join(base@, path@) is None,
        },
{
    let u = url::Url::parse(base).ok()?;
    u.join(path).ok().map(|j| j.to_string())
}

/// The health endpoint of a PDP at `base_url`: `healthy` resolved against
/// it; none when it does not resolve (the process then counts as
/// unhealthy).
pub fn health_url(base_url: &str) -> (r: Option<String>)
    ensures
        match r {
            Some(u) => url_join(base_url@, "healthy"@) == Some(u@),
            None => url_join(base_url@, "healthy"@) is None,
        },
{
    join_url(base_url, "healthy")
}

/// Whether a health request that answered with `status` (none when it did
/// not go through) shows a healthy process: a status of 200-299.
pub fn is_healthy(status: Option<u16>) -> (b: bool)
    ensures
        b == (status matches Some(s) && 200 <= s < 300),
{
    match status {
        Some(s) => 200 <= s && s < 300,
        None => false,
    }
}

/// The pause between two health checks while waiting, in milliseconds.
pub const WAIT_CHECK_INTERVAL_MS: u64 = 500;

/// `r` is the failure of a wait that ran out of time.
pub open spec fn wait_timed_out(r: Result<(), PDPError>) -> bool {
    r matches Err(PDPError::HealthCheckTimeout(m)) && m@
        == "PDP failed to become healthy within the timeout period"@
}

/// The start of a round of waiting for health, `elapsed_ms` into a wait of
/// `timeout_ms`: a wait out of time fails with a timeout, a cancelled wait
/// with shutdown; otherwise (`None`) health is checked.
pub fn wait_round_start(elapsed_ms: u64, timeout_ms: u64, cancelled: bool) -> (r: Option<
    Result<(), PDPError>,
>)
    ensures
        elapsed_ms >= timeout_ms ==> (r matches Some(x) && wait_timed_out(x)),
        elapsed_ms < timeout_ms && cancelled ==> r matches Some(Err(PDPError::ShutdownTriggered)),
        elapsed_ms < timeout_ms && !cancelled ==> r is None,
{
    if elapsed_ms >= timeout_ms {
        return Some(
            Err(
                PDPError::HealthCheckTimeout(
                    "PDP failed to become healthy within the timeout period".to_owned(),
                ),
            ),
        );
    }
    if cancelled {
        return Some(Err(PDPError::ShutdownTriggered));
    }
    None
}

/// The end of a round: a healthy process ends the wait; otherwise the wait
/// pauses, and a cancellation during the pause ends it with shutdown
/// (`None`: another round follows).
pub fn wait_round_end(healthy: bool, cancelled_during_pause: bool) -> (r: Option<
    Result<(), PDPError>,
>)
    ensures
        healthy ==> r == Some(Ok::<(), PDPError>(())),
        !healthy && cancelled_during_pause ==> r matches Some(Err(PDPError::ShutdownTriggered)),
        !healthy && !cancelled_during_pause ==> r is None,
{
    if healthy {
        Some(Ok(()))
    } else if cancelled_during_pause {
        Some(Err(PDPError::ShutdownTriggered))
    } else {
        None
    }
}

/// The next step of recovering an unhealthy process.
#[derive(Debug, Clone, Copy, PartialEq, Eq, Structural)]
pub enum RecoveryStep {
    /// The process is healthy again.
    Recovered,
    /// Shutdown was requested: stop monitoring.
    Stop,
    /// Restart the process, then wait for its health again.
    Restart,
    /// The process was restarted: wait for its health again.
    AwaitHealth,
    /// Recovery failed.
    GiveUp,
}

/// The step after waiting for an unhealthy process to recover (before or
/// after its restart): health recovers it, shutdown stops; a failed wait
/// before the restart leads to the restart, after it to giving up.
pub open spec fn wait_step(restarted: bool, result: Result<(), PDPError>) -> RecoveryStep {
    match result {
        Ok(()) => RecoveryStep::Recovered,
        Err(PDPError::ShutdownTriggered) => RecoveryStep::Stop,
        Err(_) => if restarted {
            RecoveryStep::GiveUp
        } else {
            RecoveryStep::Restart
        },
    }
}

/// The step after a restart: a restarted process is waited for again; a
/// failed restart gives up.
pub open spec fn restart_step(result: Result<(), PDPError>) -> RecoveryStep {
    match result {
        Ok(()) => RecoveryStep::AwaitHealth,
        Err(_) => RecoveryStep::GiveUp,
    }
}

/// Whether recovery, with the outcomes of the first wait, of the restart
/// and of the wait after it, ends with a healthy process (`Some(true)`),
/// gives up (`Some(false)`), or stops for shutdown (`None`). The restart
/// and the second wait happen only when the first wait failed otherwise
/// than by shutdown.
pub open spec fn recovery_outcome(
    first: Result<(), PDPError>,
    restart: Result<(), PDPError>,
    second: Result<(), PDPError>,
) -> Option<bool> {
    match wait_step(false, first) {
        RecoveryStep::Recovered => Some(true),
        RecoveryStep::Stop => None,
        _ => match restart_step(restart) {
            RecoveryStep::AwaitHealth => match wait_step(true, second) {
                RecoveryStep::Recovered => Some(true),
                RecoveryStep::Stop => None,
                _ => Some(false),
            },
            _ => Some(false),
        },
    }
}

/// Recovery ends healthy when the first wait succeeds, stops when it is
/// cancelled, and ends unrecovered exactly when the first wait fails (not
/// by shutdown) and then the restart fails or the wait after it fails (not
/// by shutdown).
pub proof fn lemma_recovery_gives_up(
    first: Result<(), PDPError>,
    restart: Result<(), PDPError>,
    second: Result<(), PDPError>,
)
    ensures
        first is Ok ==> recovery_outcome(first, restart, second) == Some(true),
        first matches Err(PDPError::ShutdownTriggered) ==> recovery_outcome(first, restart, second) is None,
        recovery_outcome(first, restart, second) == Some(false) <==> (first is Err && !(first matches Err(
            PDPError::ShutdownTriggered,
        )) && (restart is Err || (second is Err && !(second matches Err(
            PDPError::ShutdownTriggered,
        ))))),
{
}

/// The step after waiting for an unhealthy process to recover.
pub fn recovery_after_wait(restarted: bool, result: &Result<(), PDPError>) -> (s: RecoveryStep)
    ensures
        s == wait_step(restarted, *result),
{
    match result {
        Ok(()) => RecoveryStep::Recovered,
        Err(PDPError::ShutdownTriggered) => RecoveryStep::Stop,
        Err(_) => if restarted {
            RecoveryStep::GiveUp
        } else {
            RecoveryStep::Restart
        },
    }
}

/// The step after restarting an unhealthy process.
pub fn recovery_after_restart(restart: &Result<(), PDPError>) -> (s: RecoveryStep)
    ensures
        s == restart_step(*restart),
{
    match restart {
        Ok(()) => RecoveryStep::AwaitHealth,
        Err(_) => RecoveryStep::GiveUp,
    }
}

/// Whether monitoring goes on after a health check: a healthy process that
/// was not cancelled during the pause keeps the monitor waiting for the
/// next check; `false` means the process needs recovery (or monitoring
/// ends, when cancelled).
pub fn check_health_and_wait(healthy: bool, cancelled_during_pause: bool) -> (b: bool)
    ensures
        b == (healthy && !cancelled_during_pause),
{
    healthy && !cancelled_during_pause
}

} // verus!
