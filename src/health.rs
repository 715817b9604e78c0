//! Probe outcomes and what they do to a service's status: the retry schedule
//! of one probe, the classification of a latency, and the transition events
//! that a completed probe raises.

use vstd::prelude::*;
use crate::models::{
    EventData, EventType, HealthStatus, MonitorEvent, ServiceConfig, ServiceStatus,
    clone_opt_string,
};
use crate::text::{concat, decimal, decimal_string};

verus! {

/// Delay unit of the retry schedule: the wait after failed attempt `k` is `k` units.
pub const BACKOFF_BASE_MS: u64 = 1000;

/// The error reported when a probe was allowed no attempt at all.
pub const NO_ATTEMPT_ERROR: &'static str = "All health check attempts failed";

/// Status after a successful probe with the given latency.
pub open spec fn classify(latency_ms: u64, expected_ms: u64) -> HealthStatus {
    if latency_ms > expected_ms {
        HealthStatus::Degraded
    } else {
        HealthStatus::Healthy
    }
}

/// Status from a latency: within the expected response time it is healthy,
/// beyond it degraded.
pub fn classify_latency(latency_ms: u64, expected_ms: u64) -> (r: HealthStatus)
    ensures
        r == classify(latency_ms, expected_ms),
{
    if latency_ms > expected_ms {
        HealthStatus::Degraded
    } else {
        HealthStatus::Healthy
    }
}

/// Wait before the attempt that follows failed attempt `k` (1-based): linear in `k`.
pub open spec fn backoff_ms(k: nat) -> int {
    BACKOFF_BASE_MS * k
}

/// Progress of one probe: up to `attempts` sequential attempts, the first
/// success wins, otherwise the last error is the probe's error.
#[derive(Debug)]
pub struct ProbeRun {
    pub attempts: u32,
    pub failures: u32,
    pub last_error: Option<String>,
}

/// What a finished probe reports: success with the latency of the attempt
/// that succeeded; otherwise failure with the last error, or the no-attempt
/// error when no attempt was made.
pub open spec fn probe_result(r: ProbeOutcome, succeeded_in_ms: Option<u64>, last_error: Option<String>) -> bool {
    match succeeded_in_ms {
        Some(l) => r == ProbeOutcome::Success { latency_ms: l },
        None => match r {
            ProbeOutcome::Failure { error } => match last_error {
                Some(e) => error == e,
                None => error@ == NO_ATTEMPT_ERROR@,
            },
            _ => false,
        },
    }
}

impl ProbeRun {
    pub fn new(attempts: u32) -> (r: ProbeRun)
        ensures
            r.attempts == attempts,
            r.failures == 0,
            r.last_error is None,
    {
        ProbeRun { attempts, failures: 0, last_error: None }
    }

    /// Whether another attempt is due.
    pub fn can_attempt(&self) -> (r: bool)
        ensures
            r == (self.failures < self.attempts),
    {
        self.failures < self.attempts
    }

    /// Records a failed attempt. Returns the wait before the next attempt, or
    /// `None` when no attempt remains.
    pub fn record_failure(&mut self, error: String) -> (r: Option<u64>)
        requires
            old(self).failures < old(self).attempts,
        ensures
            final(self).attempts == old(self).attempts,
            final(self).failures == old(self).failures + 1,
            final(self).last_error == Some(error),
            r is None <==> final(self).failures == final(self).attempts,
            r matches Some(d) ==> d == backoff_ms(final(self).failures as nat),
    {
        self.failures = self.failures + 1;
        self.last_error = Some(error);
        if self.failures < self.attempts {
            Some(BACKOFF_BASE_MS * (self.failures as u64))
        } else {
            None
        }
    }

    /// The probe's outcome: the latency of the attempt that succeeded, or,
    /// when none did, the final error.
    pub fn outcome(&self, succeeded_in_ms: Option<u64>) -> (r: ProbeOutcome)
        ensures
            probe_result(r, succeeded_in_ms, self.last_error),
    {
        match succeeded_in_ms {
            Some(latency_ms) => ProbeOutcome::Success { latency_ms },
            None => ProbeOutcome::Failure { error: self.final_error() },
        }
    }

    /// The error of a probe whose attempts are exhausted.
    pub fn final_error(&self) -> (r: String)
        ensures
            self.last_error matches Some(e) ==> r == e,
            self.last_error is None ==> r@ == NO_ATTEMPT_ERROR@,
    {
        match &self.last_error {
            Some(e) => e.clone(),
            None => NO_ATTEMPT_ERROR.to_owned(),
        }
    }
}

/// The result of a completed probe.
#[derive(Debug)]
pub enum ProbeOutcome {
    Success { latency_ms: u64 },
    Failure { error: String },
}

/// Status that a completed probe sets.
pub open spec fn next_status(outcome: ProbeOutcome, expected_ms: u64) -> HealthStatus {
    match outcome {
        ProbeOutcome::Success { latency_ms } => classify(latency_ms, expected_ms),
        ProbeOutcome::Failure { .. } => HealthStatus::Unhealthy,
    }
}

pub open spec fn is_up(s: HealthStatus) -> bool {
    s == HealthStatus::Healthy || s == HealthStatus::Degraded
}

/// Types of the events that a probe raises, in order of emission.
pub open spec fn transition_kinds(
    prev: HealthStatus,
    outcome: ProbeOutcome,
    expected_ms: u64,
    high_latency_ms: u64,
) -> Seq<EventType> {
    match outcome {
        ProbeOutcome::Success { latency_ms } => {
            let up: Seq<EventType> = if prev == HealthStatus::Unhealthy && classify(
                latency_ms,
                expected_ms,
            ) == HealthStatus::Healthy {
                seq![EventType::ServiceUp]
            } else {
                seq![]
            };
            let slow: Seq<EventType> = if latency_ms > high_latency_ms {
                seq![EventType::HighLatency]
            } else {
                seq![]
            };
            up + slow
        },
        ProbeOutcome::Failure { .. } => if is_up(prev) {
            seq![EventType::ServiceDown]
        } else {
            seq![]
        },
    }
}

pub open spec fn up_message(name: Seq<char>) -> Seq<char> {
    "Service "@ + name + " is now healthy"@
}

pub open spec fn latency_message(latency_ms: u64) -> Seq<char> {
    "High latency: "@ + decimal(latency_ms as nat) + "ms"@
}

pub open spec fn down_message(name: Seq<char>, error: Seq<char>) -> Seq<char> {
    "Service "@ + name + " is unhealthy: "@ + error
}

/// What an event of each type raised by a probe carries.
pub open spec fn transition_event_ok(
    e: MonitorEvent,
    config: ServiceConfig,
    outcome: ProbeOutcome,
    now: i64,
) -> bool {
    &&& e.service_id == Some(config.id)
    &&& e.timestamp == now
    &&& match e.event_type {
        EventType::ServiceUp => e.message@ == up_message(config.name@) && e.data is None,
        EventType::HighLatency => match outcome {
            ProbeOutcome::Success { latency_ms } => e.message@ == latency_message(latency_ms)
                && e.data == Some(EventData::LatencyMs(latency_ms)),
            _ => false,
        },
        EventType::ServiceDown => match outcome {
            ProbeOutcome::Failure { error } => e.message@ == down_message(config.name@, error@)
                && e.data == Some(EventData::Error(error)),
            _ => false,
        },
        _ => false,
    }
}

/// Status of a service after a sequence of completed probes, oldest first:
/// `Unknown` before any, then the status the latest probe set.
pub open spec fn status_after(outcomes: Seq<ProbeOutcome>, expected_ms: u64) -> HealthStatus {
    if outcomes.len() == 0 {
        HealthStatus::Unknown
    } else {
        next_status(outcomes.last(), expected_ms)
    }
}

/// A service's status is `Unknown` exactly until its first probe completes;
/// from then on it is healthy, degraded or unhealthy.
pub proof fn unknown_only_before_first_probe(outcomes: Seq<ProbeOutcome>, expected_ms: u64)
    ensures
        (status_after(outcomes, expected_ms) == HealthStatus::Unknown) <==> outcomes.len() == 0,
        outcomes.len() > 0 ==> (status_after(outcomes, expected_ms) == HealthStatus::Healthy
            || status_after(outcomes, expected_ms) == HealthStatus::Degraded || status_after(
            outcomes,
            expected_ms,
        ) == HealthStatus::Unhealthy),
{
}

/// A probe within the expected response time makes the service healthy, a
/// slower one degraded, and a probe whose attempts all failed unhealthy.
pub proof fn probe_classification_law(latency_ms: u64, expected_ms: u64, error: String)
    ensures
        latency_ms <= expected_ms ==> next_status(ProbeOutcome::Success { latency_ms }, expected_ms)
            == HealthStatus::Healthy,
        latency_ms > expected_ms ==> next_status(ProbeOutcome::Success { latency_ms }, expected_ms)
            == HealthStatus::Degraded,
        next_status(ProbeOutcome::Failure { error }, expected_ms) == HealthStatus::Unhealthy,
{
}

/// Applies a completed probe to the service's status and returns the
/// transition events it raises.
pub fn apply_probe_outcome(
    status: &mut ServiceStatus,
    config: &ServiceConfig,
    outcome: &ProbeOutcome,
    high_latency_threshold_ms: u64,
    now: i64,
) -> (events: Vec<MonitorEvent>)
    ensures
        final(status).status == next_status(*outcome, config.expected_response_time_ms),
        final(status).status != HealthStatus::Unknown,
        final(status).last_check == now,
        final(status).response_time_ms == match *outcome {
            ProbeOutcome::Success { latency_ms } => Some(latency_ms),
            ProbeOutcome::Failure { .. } => None,
        },
        final(status).error_message == match *outcome {
            ProbeOutcome::Success { .. } => None,
            ProbeOutcome::Failure { error } => Some(error),
        },
        final(status).id == old(status).id,
        final(status).name == old(status).name,
        final(status).uptime_seconds == old(status).uptime_seconds,
        final(status).service_type == old(status).service_type,
        final(status).critical == old(status).critical,
        events@.map_values(|e: MonitorEvent| e.event_type) == transition_kinds(
            old(status).status,
            *outcome,
            config.expected_response_time_ms,
            high_latency_threshold_ms,
        ),
        forall|i: int|
            0 <= i < events@.len() ==> transition_event_ok(
                #[trigger] events@[i],
                *config,
                *outcome,
                now,
            ),
        events@.map_values(|e: MonitorEvent| e.event_type).contains(EventType::ServiceUp) <==> (
        old(status).status == HealthStatus::Unhealthy && final(status).status
            == HealthStatus::Healthy),
        events@.map_values(|e: MonitorEvent| e.event_type).contains(EventType::ServiceDown) <==> (
        is_up(old(status).status) && final(status).status == HealthStatus::Unhealthy),
{
    let prev = status.status;
    let mut events: Vec<MonitorEvent> = Vec::new();
    match outcome {
        ProbeOutcome::Success { latency_ms } => {
            let latency_ms = *latency_ms;
            let new_status = classify_latency(latency_ms, config.expected_response_time_ms);
            status.status = new_status;
            status.last_check = now;
            status.response_time_ms = Some(latency_ms);
            status.error_message = None;
            if prev == HealthStatus::Unhealthy && new_status == HealthStatus::Healthy {
                let head = concat("Service ", config.name.as_str());
                let message = concat(head.as_str(), " is now healthy");
                events.push(
                    MonitorEvent {
                        event_type: EventType::ServiceUp,
                        service_id: Some(config.id.clone()),
                        message,
                        timestamp: now,
                        data: None,
                    },
                );
            }
            if latency_ms > high_latency_threshold_ms {
                let digits = decimal_string(latency_ms);
                let head = concat("High latency: ", digits.as_str());
                let message = concat(head.as_str(), "ms");
                events.push(
                    MonitorEvent {
                        event_type: EventType::HighLatency,
                        service_id: Some(config.id.clone()),
                        message,
                        timestamp: now,
                        data: Some(EventData::LatencyMs(latency_ms)),
                    },
                );
            }
        },
        ProbeOutcome::Failure { error } => {
            status.status = HealthStatus::Unhealthy;
            status.last_check = now;
            status.response_time_ms = None;
            status.error_message = Some(error.clone());
            if prev == HealthStatus::Healthy || prev == HealthStatus::Degraded {
                let head = concat("Service ", config.name.as_str());
                let middle = concat(head.as_str(), " is unhealthy: ");
                let message = concat(middle.as_str(), error.as_str());
                events.push(
                    MonitorEvent {
                        event_type: EventType::ServiceDown,
                        service_id: Some(config.id.clone()),
                        message,
                        timestamp: now,
                        data: Some(EventData::Error(error.clone())),
                    },
                );
            }
        },
    }
    let ghost kinds = events@.map_values(|e: MonitorEvent| e.event_type);
    assert(kinds =~= transition_kinds(
        prev,
        *outcome,
        config.expected_response_time_ms,
        high_latency_threshold_ms,
    ));
    proof {
        if kinds.contains(EventType::ServiceUp) {
            let i = choose|i: int| 0 <= i < kinds.len() && kinds[i] == EventType::ServiceUp;
            assert(kinds[i] == EventType::ServiceUp);
        }
        if prev == HealthStatus::Unhealthy && status.status == HealthStatus::Healthy {
            assert(kinds[0] == EventType::ServiceUp);
        }
        if kinds.contains(EventType::ServiceDown) {
            let i = choose|i: int| 0 <= i < kinds.len() && kinds[i] == EventType::ServiceDown;
            assert(kinds[i] == EventType::ServiceDown);
        }
        if is_up(prev) && status.status == HealthStatus::Unhealthy {
            assert(kinds[0] == EventType::ServiceDown);
        }
    }
    events
}

} // verus!
