use fks_master::metrics::{
    CounterFamily, GaugeFamily, Instruments, MetricCounter, MetricGauge, Metrics, decrement_websocket_connections,
    get_total_http_requests, increment_compose_action, increment_compose_unauthorized, increment_health_check,
    increment_restart_unauthorized, increment_service_restart, increment_websocket_connections, record_http_request,
    update_service_health_metric,
};
use fks_master::health::ProbeOutcome;
use fks_master::models::{EventType, HealthStatus, ServiceConfig, ServiceStatus, ServiceType};
use fks_master::monitor::{metrics_update_event, record_probe};
use prometheus::{IntCounter, IntCounterVec, IntGauge, IntGaugeVec, Opts, Registry};

fn sink(registry: &Registry) -> Metrics {
    let cv = |name: &str, labels: &[&str]| {
        let v = IntCounterVec::new(Opts::new(name, "help"), labels).unwrap();
        registry.register(Box::new(v.clone())).unwrap();
        CounterFamily { family: v }
    };
    let health = IntGaugeVec::new(Opts::new("health_status", "help"), &["service_id", "service_name", "service_type", "critical"]).unwrap();
    registry.register(Box::new(health.clone())).unwrap();
    let ws = IntGauge::new("ws", "help").unwrap();
    registry.register(Box::new(ws.clone())).unwrap();
    let ru = IntCounter::new("restart_unauthorized", "help").unwrap();
    registry.register(Box::new(ru.clone())).unwrap();
    Metrics::new(Instruments {
        service_health_status: GaugeFamily { family: health },
        health_checks: cv("checks", &["service_id", "service_name", "status"]),
        service_restarts: cv("restarts", &["service_id", "service_name", "success"]),
        websocket_connections: MetricGauge { gauge: ws },
        compose_actions: cv("compose", &["action", "success"]),
        compose_unauthorized: MetricCounter { counter: IntCounter::new("cu", "help").unwrap() },
        restart_unauthorized: MetricCounter { counter: ru },
        http_requests: cv("http", &["method", "path", "status"]),
    })
}

fn sample(registry: &Registry, name: &str) -> f64 {
    registry
        .gather()
        .iter()
        .filter(|f| f.name() == name)
        .flat_map(|f| f.get_metric().iter().map(|m| if m.get_gauge().value() != 0.0 { m.get_gauge().value() } else { m.get_counter().value() }).collect::<Vec<f64>>())
        .sum()
}

#[test]
fn health_gauge_encoding() {
    let r = Registry::new();
    let m = sink(&r);
    assert_eq!(update_service_health_metric(&m, "a", "A", "Api", true, &HealthStatus::Unknown), 0);
    assert_eq!(update_service_health_metric(&m, "a", "A", "Api", true, &HealthStatus::Healthy), 1);
    assert_eq!(update_service_health_metric(&m, "a", "A", "Api", true, &HealthStatus::Degraded), 2);
    assert_eq!(update_service_health_metric(&m, "a", "A", "Api", true, &HealthStatus::Unhealthy), 3);
    assert_eq!(sample(&r, "health_status"), 3.0);
}

#[test]
fn counters_reach_the_registry() {
    let r = Registry::new();
    let mut m = sink(&r);
    increment_health_check(&mut m, "a", "A", "healthy");
    increment_service_restart(&mut m, "a", "A", false);
    increment_compose_action(&mut m, "build", true);
    increment_compose_unauthorized(&mut m);
    increment_restart_unauthorized(&mut m);
    increment_restart_unauthorized(&mut m);
    record_http_request(&mut m, "GET", "/api/services", 200);
    record_http_request(&mut m, "GET", "/api/services", 404);
    let t = m.tally();
    assert_eq!(t.health_checks, 1);
    assert_eq!(t.service_restarts, 1);
    assert_eq!(t.compose_actions, 1);
    assert_eq!(t.compose_unauthorized, 1);
    assert_eq!(t.restart_unauthorized, 2);
    assert_eq!(get_total_http_requests(&m), 2);
    assert_eq!(sample(&r, "restart_unauthorized"), 2.0);
    assert_eq!(sample(&r, "http"), 2.0);
    assert_eq!(sample(&r, "checks"), 1.0);
}

#[test]
fn live_session_gauge() {
    let r = Registry::new();
    let mut m = sink(&r);
    increment_websocket_connections(&mut m);
    increment_websocket_connections(&mut m);
    decrement_websocket_connections(&mut m);
    assert_eq!(m.tally().websocket_connections, 1);
    assert_eq!(sample(&r, "ws"), 1.0);
}

#[test]
fn probe_recorded_now_with_check_counted() {
    let r = Registry::new();
    let mut m = sink(&r);
    let cfg = ServiceConfig {
        id: "a".into(),
        name: "A".into(),
        health_endpoint: String::new(),
        service_type: ServiceType::Api,
        docker_container: None,
        expected_response_time_ms: 100,
        critical: true,
    };
    let mut st = ServiceStatus::initial(&cfg, 0);
    st.status = HealthStatus::Healthy;
    let mut failures = fks_master::aggregate::ErrorWindow::new();
    let events = record_probe(&mut st, &mut failures, &cfg, &ProbeOutcome::Failure { error: "timeout".into() }, 2000, &mut m);
    assert_eq!(failures.len(), 1);
    assert_eq!(failures.prune(st.last_check, 300), 1);
    assert_eq!(st.status, HealthStatus::Unhealthy);
    assert!(st.last_check > 1_600_000_000_000);
    assert_eq!(events.len(), 1);
    assert_eq!(events[0].event_type, EventType::ServiceDown);
    assert_eq!(events[0].timestamp, st.last_check);
    assert_eq!(m.tally().health_checks, 1);
    assert_eq!(sample(&r, "health_status"), 3.0);
    let ok = record_probe(&mut st, &mut failures, &cfg, &ProbeOutcome::Success { latency_ms: 5 }, 2000, &mut m);
    assert_eq!(ok.len(), 1);
    assert_eq!(ok[0].event_type, EventType::ServiceUp);
    assert_eq!(failures.len(), 1);
    assert_eq!(st.name, "A");
    let tick = metrics_update_event();
    assert_eq!(tick.event_type, EventType::MetricsUpdate);
    assert!(tick.service_id.is_none());
    assert!(tick.timestamp > 1_600_000_000_000);
}
