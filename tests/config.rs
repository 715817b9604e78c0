use fks_master::config::{Config, default_enable_docker_stats};

#[test]
fn default_fleet() {
    let cfg = Config::default();
    assert_eq!(cfg.services.len(), 11);
    assert!(cfg.services.iter().all(|s| s.expected_response_time_ms > 0));
    assert_eq!(cfg.services[0].id, "fks_api");
    assert_eq!(cfg.services[1].health_endpoint, "http://fks_auth:4100/health");
    assert_eq!(cfg.monitoring.batch_size, 5);
    assert_eq!(cfg.monitoring.retry_attempts, 3);
    assert_eq!(cfg.alerts.high_latency_threshold_ms, 2000);
    assert!(default_enable_docker_stats());
    let mut ids: Vec<&str> = cfg.services.iter().map(|s| s.id.as_str()).collect();
    ids.sort();
    ids.dedup();
    assert_eq!(ids.len(), 11);
}
