use fks_master::compose::{ComposeAction, ComposeRequest, compose_cli_args, default_compose_file, dry_run_result, exit_code};
use fks_master::metrics::{CounterFamily, GaugeFamily, Instruments, MetricCounter, MetricGauge, Metrics};
use prometheus::{IntCounter, IntCounterVec, IntGauge, IntGaugeVec, Opts};

fn sink() -> Metrics {
    let cv = |name: &str, labels: &[&str]| CounterFamily {
        family: IntCounterVec::new(Opts::new(name, "help"), labels).unwrap(),
    };
    Metrics::new(Instruments {
        service_health_status: GaugeFamily {
            family: IntGaugeVec::new(
                Opts::new("health_status", "help"),
                &["service_id", "service_name", "service_type", "critical"],
            )
            .unwrap(),
        },
        health_checks: cv("checks", &["service_id", "service_name", "status"]),
        service_restarts: cv("restarts", &["service_id", "service_name", "success"]),
        websocket_connections: MetricGauge { gauge: IntGauge::new("ws", "help").unwrap() },
        compose_actions: cv("compose", &["action", "success"]),
        compose_unauthorized: MetricCounter { counter: IntCounter::new("cu", "help").unwrap() },
        restart_unauthorized: MetricCounter { counter: IntCounter::new("ru", "help").unwrap() },
        http_requests: cv("http", &["method", "path", "status"]),
    })
}

#[test]
fn dry_run_short_circuits() {
    let mut metrics = sink();
    let req = ComposeRequest { action: ComposeAction::Up, services: vec!["svc".into()], file: "docker-compose.yml".into(), project: Some("proj".into()), detach: true, tail: None, dry_run: true };
    let result = dry_run_result(&mut metrics, req);
    assert!(result.success);
    assert_eq!(result.stdout, "dry-run");
    assert_eq!(result.action, "up");
    assert_eq!(result.services, vec!["svc".to_string()]);
    assert_eq!(result.status_code, Some(0));
    assert_eq!(metrics.tally().compose_actions, 1);
}

#[test]
fn action_names() {
    assert_eq!(ComposeAction::Build.as_str(), "build");
    assert_eq!(ComposeAction::Logs.as_str(), "logs");
    assert_eq!(ComposeAction::Ps.as_str(), "ps");
    assert_eq!(ComposeAction::Restart.as_str(), "restart");
    assert_eq!(default_compose_file(), "docker-compose.yml");
}

#[test]
fn cli_arguments_for_up() {
    let args = compose_cli_args(&"dc.yml".to_string(), &Some("proj".to_string()), ComposeAction::Up, &vec!["a".into(), "b".into()], true, None);
    assert_eq!(args, vec!["compose", "-f", "dc.yml", "-p", "proj", "up", "-d", "a", "b"]);
}

#[test]
fn cli_arguments_for_logs() {
    let args = compose_cli_args(&"dc.yml".to_string(), &Some(String::new()), ComposeAction::Logs, &vec!["web".into()], true, Some(25));
    assert_eq!(args, vec!["compose", "-f", "dc.yml", "logs", "-f", "--tail", "25", "web"]);
    let args = compose_cli_args(&"dc.yml".to_string(), &None, ComposeAction::Stop, &vec![], true, Some(3));
    assert_eq!(args, vec!["compose", "-f", "dc.yml", "stop"]);
}

#[test]
fn exit_codes() {
    assert_eq!(exit_code(Some(3), true), 3);
    assert_eq!(exit_code(None, true), 0);
    assert_eq!(exit_code(None, false), 1);
}

#[test]
fn compose_dry_run_returns_success() {
    let mut metrics = sink();
    let req = ComposeRequest { action: ComposeAction::Build, services: vec![], file: "docker-compose.yml".into(), project: None, detach: false, tail: None, dry_run: true };
    let result = dry_run_result(&mut metrics, req);
    assert!(result.success);
    assert_eq!(result.stdout, "dry-run");
    assert!(metrics.tally().compose_actions >= 1);
}
