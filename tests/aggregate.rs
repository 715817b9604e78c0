use fks_master::aggregate::{ERROR_WINDOW_SECS, ErrorWindow, OverallStatus, error_rate_millis, summarize_health, system_metrics};
use fks_master::models::{HealthStatus, ServiceStatus, ServiceType};

fn status(id: &str, s: HealthStatus, critical: bool, rt: Option<u64>) -> ServiceStatus {
    ServiceStatus {
        id: id.into(),
        name: id.into(),
        status: s,
        last_check: 0,
        uptime_seconds: None,
        response_time_ms: rt,
        error_message: None,
        service_type: ServiceType::Api,
        critical,
    }
}

#[test]
fn window_keeps_failures_up_to_five_minutes_old() {
    let mut w = ErrorWindow::new();
    w.record(0);
    w.record(290_000);
    assert_eq!(w.prune(300_000, ERROR_WINDOW_SECS), 2);
    assert_eq!(w.prune(301_000, ERROR_WINDOW_SECS), 1);
    assert_eq!(w.len(), 1);
}

#[test]
fn window_drops_failures_just_past_five_minutes() {
    let mut w = ErrorWindow::new();
    w.record(0);
    assert_eq!(w.prune(300_000, 300), 1);
    assert_eq!(w.prune(300_001, 300), 0);
    let mut w = ErrorWindow::new();
    w.record(0);
    assert_eq!(w.prune(300_500, 300), 0);
}

#[test]
fn error_rate_per_minute() {
    assert_eq!(error_rate_millis(2, 300), 400);
    assert_eq!(error_rate_millis(0, 300), 0);
    assert_eq!(error_rate_millis(1, 60), 1000);
}

#[test]
fn system_metrics_counts() {
    let statuses = vec![
        status("a", HealthStatus::Healthy, true, Some(100)),
        status("b", HealthStatus::Unhealthy, true, None),
        status("c", HealthStatus::Unhealthy, false, None),
        status("d", HealthStatus::Degraded, false, Some(300)),
        status("e", HealthStatus::Unknown, true, None),
    ];
    let m = system_metrics(&statuses, 17, 4);
    assert_eq!(m.total_services, 5);
    assert_eq!(m.healthy_services, 1);
    assert_eq!(m.unhealthy_services, 2);
    assert_eq!(m.critical_services_down, 1);
    assert_eq!(m.response_time_sum_ms, 400);
    assert_eq!(m.response_time_samples, 2);
    assert_eq!(m.total_requests, 17);
    assert_eq!(m.total_errors, 4);
}

#[test]
fn overall_verdicts() {
    let all_ok = vec![status("a", HealthStatus::Healthy, true, None)];
    assert_eq!(summarize_health(&all_ok).overall, OverallStatus::Healthy);
    let unknown = vec![status("a", HealthStatus::Healthy, true, None), status("b", HealthStatus::Unknown, false, None)];
    let s = summarize_health(&unknown);
    assert_eq!(s.overall, OverallStatus::Degraded);
    assert_eq!(s.unknown, 1);
    let down = vec![status("a", HealthStatus::Degraded, true, None), status("b", HealthStatus::Unhealthy, false, None)];
    let s = summarize_health(&down);
    assert_eq!(s.overall, OverallStatus::Critical);
    assert_eq!((s.total, s.healthy, s.degraded, s.unhealthy), (2, 0, 1, 1));
    assert_eq!(summarize_health(&vec![]).overall, OverallStatus::Healthy);
}

#[test]
fn aggregate_health_endpoint_returns_overall() {
    let cfg = fks_master::config::Config::default();
    let statuses = fks_master::schedule::initial_statuses(&cfg.services, 0);
    let summary = summarize_health(&statuses);
    assert_eq!(summary.overall, OverallStatus::Degraded);
    assert_eq!(summary.total, 11);
    assert_eq!(summary.unknown, 11);
}
