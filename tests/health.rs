use fks_master::health::{BACKOFF_BASE_MS, ProbeOutcome, ProbeRun, apply_probe_outcome, classify_latency};
use fks_master::models::{EventData, EventType, HealthStatus, ServiceConfig, ServiceStatus, ServiceType};

fn config() -> ServiceConfig {
    ServiceConfig {
        id: "svc".into(),
        name: "Svc".into(),
        health_endpoint: "http://svc/health".into(),
        service_type: ServiceType::Api,
        docker_container: None,
        expected_response_time_ms: 500,
        critical: true,
    }
}

fn status_with(s: HealthStatus) -> ServiceStatus {
    let mut st = ServiceStatus::initial(&config(), 0);
    st.status = s;
    st
}

#[test]
fn initial_status_is_unknown() {
    let st = ServiceStatus::initial(&config(), 42);
    assert_eq!(st.status, HealthStatus::Unknown);
    assert_eq!(st.last_check, 42);
    assert_eq!(st.id, "svc");
}

#[test]
fn latency_classification() {
    assert_eq!(classify_latency(500, 500), HealthStatus::Healthy);
    assert_eq!(classify_latency(501, 500), HealthStatus::Degraded);
    assert_eq!(classify_latency(0, 0), HealthStatus::Healthy);
}

#[test]
fn first_probe_leaves_unknown() {
    let mut st = status_with(HealthStatus::Unknown);
    let events = apply_probe_outcome(&mut st, &config(), &ProbeOutcome::Success { latency_ms: 10 }, 2000, 7);
    assert_eq!(st.status, HealthStatus::Healthy);
    assert!(events.is_empty());
    let mut st = status_with(HealthStatus::Unknown);
    let events = apply_probe_outcome(&mut st, &config(), &ProbeOutcome::Failure { error: "boom".into() }, 2000, 7);
    assert_eq!(st.status, HealthStatus::Unhealthy);
    assert!(events.is_empty());
}

#[test]
fn recovery_raises_service_up() {
    let mut st = status_with(HealthStatus::Unhealthy);
    st.error_message = Some("old".into());
    let events = apply_probe_outcome(&mut st, &config(), &ProbeOutcome::Success { latency_ms: 120 }, 2000, 99);
    assert_eq!(st.status, HealthStatus::Healthy);
    assert_eq!(st.response_time_ms, Some(120));
    assert_eq!(st.error_message, None);
    assert_eq!(st.last_check, 99);
    assert_eq!(events.len(), 1);
    assert_eq!(events[0].event_type, EventType::ServiceUp);
    assert_eq!(events[0].message, "Service Svc is now healthy");
    assert_eq!(events[0].service_id.as_deref(), Some("svc"));
    assert_eq!(events[0].timestamp, 99);
}

#[test]
fn slow_recovery_is_degraded_without_service_up() {
    let mut st = status_with(HealthStatus::Unhealthy);
    let events = apply_probe_outcome(&mut st, &config(), &ProbeOutcome::Success { latency_ms: 800 }, 2000, 1);
    assert_eq!(st.status, HealthStatus::Degraded);
    assert!(events.is_empty());
}

#[test]
fn high_latency_fires_with_degraded() {
    let mut st = status_with(HealthStatus::Healthy);
    let events = apply_probe_outcome(&mut st, &config(), &ProbeOutcome::Success { latency_ms: 2500 }, 2000, 1);
    assert_eq!(st.status, HealthStatus::Degraded);
    assert_eq!(events.len(), 1);
    assert_eq!(events[0].event_type, EventType::HighLatency);
    assert_eq!(events[0].message, "High latency: 2500ms");
    assert!(matches!(events[0].data, Some(EventData::LatencyMs(2500))));
}

#[test]
fn up_and_high_latency_together() {
    let cfg = ServiceConfig { expected_response_time_ms: 5000, ..config() };
    let mut st = status_with(HealthStatus::Unhealthy);
    let events = apply_probe_outcome(&mut st, &cfg, &ProbeOutcome::Success { latency_ms: 3000 }, 2000, 1);
    let kinds: Vec<EventType> = events.iter().map(|e| e.event_type).collect();
    assert_eq!(kinds, vec![EventType::ServiceUp, EventType::HighLatency]);
}

#[test]
fn going_down_raises_service_down() {
    for prev in [HealthStatus::Healthy, HealthStatus::Degraded] {
        let mut st = status_with(prev);
        st.response_time_ms = Some(5);
        let events = apply_probe_outcome(&mut st, &config(), &ProbeOutcome::Failure { error: "HTTP 503".into() }, 2000, 3);
        assert_eq!(st.status, HealthStatus::Unhealthy);
        assert_eq!(st.response_time_ms, None);
        assert_eq!(st.error_message.as_deref(), Some("HTTP 503"));
        assert_eq!(events.len(), 1);
        assert_eq!(events[0].event_type, EventType::ServiceDown);
        assert_eq!(events[0].message, "Service Svc is unhealthy: HTTP 503");
        assert!(matches!(&events[0].data, Some(EventData::Error(e)) if e == "HTTP 503"));
    }
}

#[test]
fn repeated_states_raise_nothing() {
    let mut st = status_with(HealthStatus::Unhealthy);
    let events = apply_probe_outcome(&mut st, &config(), &ProbeOutcome::Failure { error: "x".into() }, 2000, 3);
    assert!(events.is_empty());
    let mut st = status_with(HealthStatus::Healthy);
    let events = apply_probe_outcome(&mut st, &config(), &ProbeOutcome::Success { latency_ms: 1 }, 2000, 3);
    assert!(events.is_empty());
}

#[test]
fn retry_schedule_is_linear_and_bounded() {
    let mut run = ProbeRun::new(3);
    assert!(run.can_attempt());
    assert_eq!(run.record_failure("a".into()), Some(BACKOFF_BASE_MS));
    assert_eq!(run.record_failure("b".into()), Some(2 * BACKOFF_BASE_MS));
    assert_eq!(run.record_failure("c".into()), None);
    assert!(!run.can_attempt());
    assert_eq!(run.final_error(), "c");
    assert!(matches!(run.outcome(None), ProbeOutcome::Failure { error } if error == "c"));
    assert!(matches!(run.outcome(Some(12)), ProbeOutcome::Success { latency_ms: 12 }));
}

#[test]
fn probe_without_attempts_fails() {
    let run = ProbeRun::new(0);
    assert!(!run.can_attempt());
    assert_eq!(run.final_error(), "All health check attempts failed");
    assert!(matches!(run.outcome(None), ProbeOutcome::Failure { error } if error == "All health check attempts failed"));
}
