use fks_master::metrics::{
    CounterFamily, GaugeFamily, Instruments, MetricCounter, MetricGauge, Metrics, increment_compose_unauthorized,
    increment_restart_unauthorized,
};
use prometheus::{IntCounter, IntCounterVec, IntGauge, IntGaugeVec, Opts};
use fks_master::auth::{Claims, DEFAULT_ALLOWED_ROLES, bearer_token, parse_allowed_roles, request_authorized, roles_authorized, subtle_equals, token_gate};

fn sink() -> Metrics {
    let cv = |name: &str, labels: &[&str]| CounterFamily {
        family: IntCounterVec::new(Opts::new(name, "help"), labels).unwrap(),
    };
    Metrics::new(Instruments {
        service_health_status: GaugeFamily {
            family: IntGaugeVec::new(
                Opts::new("health_status", "help"),
                &["service_id", "service_name", "service_type", "critical"],
            )
            .unwrap(),
        },
        health_checks: cv("checks", &["service_id", "service_name", "status"]),
        service_restarts: cv("restarts", &["service_id", "service_name", "success"]),
        websocket_connections: MetricGauge { gauge: IntGauge::new("ws", "help").unwrap() },
        compose_actions: cv("compose", &["action", "success"]),
        compose_unauthorized: MetricCounter { counter: IntCounter::new("cu", "help").unwrap() },
        restart_unauthorized: MetricCounter { counter: IntCounter::new("ru", "help").unwrap() },
        http_requests: cv("http", &["method", "path", "status"]),
    })
}

fn claims(roles: Option<Vec<&str>>) -> Claims {
    Claims { sub: "u1".into(), exp: 2_000_000_000, iat: None, iss: None, aud: None, roles: roles.map(|r| r.into_iter().map(|s| s.to_string()).collect()) }
}

#[test]
fn allowed_roles_parsing() {
    let roles = parse_allowed_roles("admin, orchestrate");
    assert!(roles.iter().any(|r| r == "admin"));
    assert_eq!(roles, vec!["admin".to_string(), "orchestrate".to_string()]);
    assert_eq!(parse_allowed_roles(" , a ,,b,"), vec!["a".to_string(), "b".to_string()]);
    assert_eq!(parse_allowed_roles(DEFAULT_ALLOWED_ROLES), vec!["admin".to_string(), "orchestrate".to_string()]);
}

#[test]
fn role_matching_ignores_ascii_case() {
    let allowed = parse_allowed_roles("admin,orchestrate");
    assert!(roles_authorized(&claims(Some(vec!["viewer", "ADMIN"])), &allowed));
    assert!(!roles_authorized(&claims(Some(vec!["viewer"])), &allowed));
    assert!(!roles_authorized(&claims(None), &allowed));
}

#[test]
fn gate_decisions() {
    let allowed = parse_allowed_roles("admin");
    assert!(token_gate(false, false, &None, &allowed));
    assert!(!token_gate(true, false, &None, &allowed));
    assert!(!token_gate(true, true, &None, &allowed));
    assert!(token_gate(true, true, &Some(claims(Some(vec!["admin"]))), &allowed));
    assert!(!token_gate(true, true, &Some(claims(Some(vec!["viewer"]))), &allowed));
}

#[test]
fn bearer_headers() {
    assert_eq!(bearer_token("Bearer abc.def"), Some("abc.def".to_string()));
    assert_eq!(bearer_token("  bearer   tok  "), Some("tok".to_string()));
    assert_eq!(bearer_token("Basic abc"), None);
    assert_eq!(bearer_token("Bearer"), None);
    assert_eq!(bearer_token("Bearer a b"), None);
}

#[test]
fn key_comparison() {
    assert!(subtle_equals("secret", "secret"));
    assert!(!subtle_equals("secret", "secreT"));
    assert!(!subtle_equals("secret", "secrets"));
    assert!(subtle_equals("", ""));
}

#[test]
fn unauthorized_check_blocks_without_header() {
    let key = Some("secret".to_string());
    assert!(!request_authorized(&key, &None, false, false));
    assert!(!request_authorized(&key, &Some("wrong".into()), false, false));
    assert!(request_authorized(&key, &Some("secret".into()), false, false));
    assert!(request_authorized(&key, &None, true, false));
    assert!(request_authorized(&None, &None, false, false));
    assert!(!request_authorized(&None, &None, false, true));
}

#[test]
fn unauthorized_compose_increments_metric() {
    let mut metrics = sink();
    let before = metrics.tally().compose_unauthorized;
    assert!(!request_authorized(&Some("k".to_string()), &None, false, false));
    increment_compose_unauthorized(&mut metrics);
    assert!(metrics.tally().compose_unauthorized >= before + 1);
}

#[test]
fn unauthorized_restart_increments_metric() {
    let mut metrics = sink();
    let before = metrics.tally().restart_unauthorized;
    assert!(!request_authorized(&Some("k".to_string()), &None, false, false));
    increment_restart_unauthorized(&mut metrics);
    assert!(metrics.tally().restart_unauthorized >= before + 1);
}
