//! The metrics sink: the named instruments that the engine updates, held in
//! one handle, together with the engine's own tally of what it reported.

use vstd::prelude::*;
use prometheus::{IntCounter, IntCounterVec, IntGauge, IntGaugeVec};
use crate::models::{HealthStatus, status_code};
use crate::text::{decimal_string, owned};

verus! {

/// One counter of the sink. Its value is shared with the registry that
/// exports it, so it is held opaquely.
#[verifier::external_body]
pub struct MetricCounter {
    pub counter: IntCounter,
}

/// One gauge of the sink, held opaquely as `MetricCounter` is.
#[verifier::external_body]
pub struct MetricGauge {
    pub gauge: IntGauge,
}

/// A family of counters keyed by label values. The builder type inside
/// `IntCounterVec` cannot be named outside its crate, so the family is held
/// opaquely.
#[verifier::external_body]
pub struct CounterFamily {
    pub family: IntCounterVec,
}

/// A family of gauges keyed by label values, held opaquely as `CounterFamily` is.
#[verifier::external_body]
pub struct GaugeFamily {
    pub family: IntGaugeVec,
}

/// Relies on `GenericCounter::inc`: adds one to the counter.
#[verifier::external_body]
fn counter_inc(c: &MetricCounter) {
    c.counter.inc()
}

/// Relies on `GenericGauge::inc`: adds one to the gauge.
#[verifier::external_body]
fn gauge_inc(g: &MetricGauge) {
    g.gauge.inc()
}

/// Relies on `GenericGauge::dec`: subtracts one from the gauge.
#[verifier::external_body]
fn gauge_dec(g: &MetricGauge) {
    g.gauge.dec()
}

/// Relies on `GenericGauge::set`: sets the gauge's value.
#[verifier::external_body]
fn gauge_set(g: &MetricGauge, v: i64) {
    g.gauge.set(v)
}

/// Relies on `MetricVec::get_metric_with_label_values` for counters: the child
/// for these label values, or `None` when their number does not match.
#[verifier::external_body]
fn counter_child(v: &CounterFamily, labels: &Vec<String>) -> Option<MetricCounter> {
    match v.family.get_metric_with_label_values(labels) {
        Ok(counter) => Some(MetricCounter { counter }),
        Err(_) => None,
    }
}

/// Relies on `MetricVec::get_metric_with_label_values` for gauges: the child
/// for these label values, or `None` when their number does not match.
#[verifier::external_body]
fn gauge_child(v: &GaugeFamily, labels: &Vec<String>) -> Option<MetricGauge> {
    match v.family.get_metric_with_label_values(labels) {
        Ok(gauge) => Some(MetricGauge { gauge }),
        Err(_) => None,
    }
}

/// The instruments the engine writes to, created and registered by the host.
/// Label names, in order: health status `service_id, service_name,
/// service_type, critical`; health checks `service_id, service_name, status`;
/// restarts `service_id, service_name, success`; compose actions `action,
/// success`; HTTP requests `method, path, status`.
pub struct Instruments {
    pub service_health_status: GaugeFamily,
    pub health_checks: CounterFamily,
    pub service_restarts: CounterFamily,
    pub websocket_connections: MetricGauge,
    pub compose_actions: CounterFamily,
    pub compose_unauthorized: MetricCounter,
    pub restart_unauthorized: MetricCounter,
    pub http_requests: CounterFamily,
}

/// What the engine has reported through the sink since it was created.
#[derive(Debug, Clone, Copy, PartialEq, Eq, Structural)]
pub struct Tally {
    pub health_checks: u64,
    pub service_restarts: u64,
    pub websocket_connections: i64,
    pub compose_actions: u64,
    pub compose_unauthorized: u64,
    pub restart_unauthorized: u64,
    pub http_requests: u64,
}

/// A count after one more event (wrapping, as the sink's counters do).
pub open spec fn next_count(x: u64) -> u64 {
    if x == u64::MAX {
        0
    } else {
        (x + 1) as u64
    }
}

/// A count after `k` more events.
pub open spec fn count_after(x: u64, k: nat) -> u64
    decreases k,
{
    if k == 0 {
        x
    } else {
        next_count(count_after(x, (k - 1) as nat))
    }
}

/// Counting `k` events one at a time adds exactly `k` while the count stays
/// within range.
pub proof fn count_after_law(x: u64, k: nat)
    requires
        x + k <= u64::MAX,
    ensures
        count_after(x, k) == x + k,
    decreases k,
{
    if k > 0 {
        count_after_law(x, (k - 1) as nat);
    }
}

fn bump(x: u64) -> (r: u64)
    ensures
        r == next_count(x),
{
    if x == u64::MAX {
        0
    } else {
        x + 1
    }
}

/// The metrics sink handle.
pub struct Metrics {
    instruments: Instruments,
    tally: Tally,
}

impl Metrics {
    pub closed spec fn counts(&self) -> Tally {
        self.tally
    }

    pub fn new(instruments: Instruments) -> (r: Metrics)
        ensures
            r.counts() == (Tally {
                health_checks: 0,
                service_restarts: 0,
                websocket_connections: 0,
                compose_actions: 0,
                compose_unauthorized: 0,
                restart_unauthorized: 0,
                http_requests: 0,
            }),
    {
        Metrics {
            instruments,
            tally: Tally {
                health_checks: 0,
                service_restarts: 0,
                websocket_connections: 0,
                compose_actions: 0,
                compose_unauthorized: 0,
                restart_unauthorized: 0,
                http_requests: 0,
            },
        }
    }

    pub fn tally(&self) -> (r: Tally)
        ensures
            r == self.counts(),
    {
        self.tally
    }
}

fn bool_label(b: bool) -> (r: String)
    ensures
        r@ == if b {
            "true"@
        } else {
            "false"@
        },
{
    if b {
        owned("true")
    } else {
        owned("false")
    }
}

/// Sets a service's health gauge to the status's numeric encoding
/// (0 unknown, 1 healthy, 2 degraded, 3 unhealthy) and returns that value.
pub fn update_service_health_metric(
    metrics: &Metrics,
    service_id: &str,
    service_name: &str,
    service_type: &str,
    critical: bool,
    status: &HealthStatus,
) -> (r: i64)
    ensures
        r == status_code(*status),
{
    let value = status.code();
    let labels = vec![owned(service_id), owned(service_name), owned(service_type), bool_label(critical)];
    if let Some(g) = gauge_child(&metrics.instruments.service_health_status, &labels) {
        gauge_set(&g, value);
    }
    value
}

/// Counts one health check with its outcome label.
pub fn increment_health_check(metrics: &mut Metrics, service_id: &str, service_name: &str, status: &str)
    ensures
        final(metrics).counts() == (Tally {
            health_checks: next_count(old(metrics).counts().health_checks),
            ..old(metrics).counts()
        }),
{
    let labels = vec![owned(service_id), owned(service_name), owned(status)];
    if let Some(c) = counter_child(&metrics.instruments.health_checks, &labels) {
        counter_inc(&c);
    }
    metrics.tally.health_checks = bump(metrics.tally.health_checks);
}

/// Counts one restart attempt with its outcome.
pub fn increment_service_restart(metrics: &mut Metrics, service_id: &str, service_name: &str, success: bool)
    ensures
        final(metrics).counts() == (Tally {
            service_restarts: next_count(old(metrics).counts().service_restarts),
            ..old(metrics).counts()
        }),
{
    let labels = vec![owned(service_id), owned(service_name), bool_label(success)];
    if let Some(c) = counter_child(&metrics.instruments.service_restarts, &labels) {
        counter_inc(&c);
    }
    metrics.tally.service_restarts = bump(metrics.tally.service_restarts);
}

/// One more live streaming session.
pub fn increment_websocket_connections(metrics: &mut Metrics)
    ensures
        final(metrics).counts() == (Tally {
            websocket_connections: old(metrics).counts().websocket_connections.wrapping_add(1),
            ..old(metrics).counts()
        }),
{
    gauge_inc(&metrics.instruments.websocket_connections);
    metrics.tally.websocket_connections = metrics.tally.websocket_connections.wrapping_add(1);
}

/// One live streaming session fewer.
pub fn decrement_websocket_connections(metrics: &mut Metrics)
    ensures
        final(metrics).counts() == (Tally {
            websocket_connections: old(metrics).counts().websocket_connections.wrapping_sub(1),
            ..old(metrics).counts()
        }),
{
    gauge_dec(&metrics.instruments.websocket_connections);
    metrics.tally.websocket_connections = metrics.tally.websocket_connections.wrapping_sub(1);
}

/// Counts one compose action with its outcome.
pub fn increment_compose_action(metrics: &mut Metrics, action: &str, success: bool)
    ensures
        final(metrics).counts() == (Tally {
            compose_actions: next_count(old(metrics).counts().compose_actions),
            ..old(metrics).counts()
        }),
{
    let labels = vec![owned(action), bool_label(success)];
    if let Some(c) = counter_child(&metrics.instruments.compose_actions, &labels) {
        counter_inc(&c);
    }
    metrics.tally.compose_actions = bump(metrics.tally.compose_actions);
}

/// Counts one rejected compose request.
pub fn increment_compose_unauthorized(metrics: &mut Metrics)
    ensures
        final(metrics).counts() == (Tally {
            compose_unauthorized: next_count(old(metrics).counts().compose_unauthorized),
            ..old(metrics).counts()
        }),
{
    counter_inc(&metrics.instruments.compose_unauthorized);
    metrics.tally.compose_unauthorized = bump(metrics.tally.compose_unauthorized);
}

/// Counts one rejected restart request.
pub fn increment_restart_unauthorized(metrics: &mut Metrics)
    ensures
        final(metrics).counts() == (Tally {
            restart_unauthorized: next_count(old(metrics).counts().restart_unauthorized),
            ..old(metrics).counts()
        }),
{
    counter_inc(&metrics.instruments.restart_unauthorized);
    metrics.tally.restart_unauthorized = bump(metrics.tally.restart_unauthorized);
}

/// Counts one served HTTP request by method, route and status code.
pub fn record_http_request(metrics: &mut Metrics, method: &str, path: &str, status: u16)
    ensures
        final(metrics).counts() == (Tally {
            http_requests: next_count(old(metrics).counts().http_requests),
            ..old(metrics).counts()
        }),
{
    let labels = vec![owned(method), owned(path), decimal_string(status as u64)];
    if let Some(c) = counter_child(&metrics.instruments.http_requests, &labels) {
        counter_inc(&c);
    }
    metrics.tally.http_requests = bump(metrics.tally.http_requests);
}

/// Number of HTTP requests recorded so far.
pub fn get_total_http_requests(metrics: &Metrics) -> (r: u64)
    ensures
        r == metrics.counts().http_requests,
{
    metrics.tally.http_requests
}

} // verus!
