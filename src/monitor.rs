//! One scheduler step for one service, as the scheduler runs it: the probe's
//! outcome is applied to the service's status at the current time, and the
//! sink hears of the new status and of the check.

use vstd::prelude::*;
use crate::health::{
    ProbeOutcome, apply_probe_outcome, next_status, transition_event_ok, transition_kinds,
};
use crate::aggregate::ErrorWindow;
use crate::metrics::{Metrics, Tally, increment_health_check, next_count, update_service_health_metric};
use crate::models::{EventType, HealthStatus, MonitorEvent, ServiceConfig, ServiceStatus};
use crate::text::owned;

verus! {

/// Relies on `chrono::Utc::now` and `DateTime::timestamp_millis`: the current
/// time in Unix milliseconds (whatever the clock says; `Utc::now` panics only
/// on a clock set before 1970).
#[verifier::external_body]
fn now_millis() -> i64 {
    chrono::Utc::now().timestamp_millis()
}

/// Label of a health check's outcome in the sink.
pub open spec fn check_label(s: HealthStatus) -> Seq<char> {
    match s {
        HealthStatus::Healthy => "healthy"@,
        HealthStatus::Degraded => "degraded"@,
        HealthStatus::Unhealthy => "unhealthy"@,
        HealthStatus::Unknown => "unknown"@,
    }
}

pub fn check_label_of(s: HealthStatus) -> (r: &'static str)
    ensures
        r@ == check_label(s),
{
    match s {
        HealthStatus::Healthy => "healthy",
        HealthStatus::Degraded => "degraded",
        HealthStatus::Unhealthy => "unhealthy",
        HealthStatus::Unknown => "unknown",
    }
}

/// Applies a completed probe now: updates the status, records a failure's
/// time in the service's error window, reports the new status and the check
/// to the sink, and returns the transition events, all stamped with the time
/// the status records.
pub fn record_probe(
    status: &mut ServiceStatus,
    failures: &mut ErrorWindow,
    config: &ServiceConfig,
    outcome: &ProbeOutcome,
    high_latency_threshold_ms: u64,
    metrics: &mut Metrics,
) -> (events: Vec<MonitorEvent>)
    ensures
        final(status).status == next_status(*outcome, config.expected_response_time_ms),
        final(status).status != HealthStatus::Unknown,
        final(status).id == old(status).id,
        final(status).name == old(status).name,
        final(status).uptime_seconds == old(status).uptime_seconds,
        final(status).service_type == old(status).service_type,
        final(status).critical == old(status).critical,
        final(failures)@ == match *outcome {
            ProbeOutcome::Success { .. } => old(failures)@,
            ProbeOutcome::Failure { .. } => old(failures)@.push(final(status).last_check),
        },
        final(status).response_time_ms == match *outcome {
            ProbeOutcome::Success { latency_ms } => Some(latency_ms),
            ProbeOutcome::Failure { .. } => None,
        },
        final(status).error_message == match *outcome {
            ProbeOutcome::Success { .. } => None,
            ProbeOutcome::Failure { error } => Some(error),
        },
        events@.map_values(|e: MonitorEvent| e.event_type) == transition_kinds(
            old(status).status,
            *outcome,
            config.expected_response_time_ms,
            high_latency_threshold_ms,
        ),
        forall|i: int|
            0 <= i < events@.len() ==> transition_event_ok(
                #[trigger] events@[i],
                *config,
                *outcome,
                final(status).last_check,
            ),
        final(metrics).counts() == (Tally {
            health_checks: next_count(old(metrics).counts().health_checks),
            ..old(metrics).counts()
        }),
{
    let now = now_millis();
    let events = apply_probe_outcome(status, config, outcome, high_latency_threshold_ms, now);
    if let ProbeOutcome::Failure { .. } = outcome {
        failures.record(status.last_check);
    }
    let new_status = status.status;
    update_service_health_metric(
        metrics,
        config.id.as_str(),
        config.name.as_str(),
        config.service_type.name(),
        config.critical,
        &new_status,
    );
    increment_health_check(
        metrics,
        config.id.as_str(),
        config.name.as_str(),
        check_label_of(new_status),
    );
    events
}

/// The system event raised on every metrics tick, stamped now.
pub fn metrics_update_event() -> (r: MonitorEvent)
    ensures
        r.event_type == EventType::MetricsUpdate,
        r.service_id is None,
        r.message@ == "System metrics updated"@,
        r.data is None,
{
    MonitorEvent {
        event_type: EventType::MetricsUpdate,
        service_id: None,
        message: owned("System metrics updated"),
        timestamp: now_millis(),
        data: None,
    }
}

} // verus!
