//! Aggregation over time and over the fleet: the sliding window of failure
//! timestamps behind each service's error rate, the system-wide counts, and
//! the overall health verdict.

use vstd::prelude::*;
use crate::models::{HealthStatus, ServiceStatus, SystemMetrics};

verus! {

/// Length of the error-rate window, in seconds.
pub const ERROR_WINDOW_SECS: u64 = 300;

/// A failure at `ts` is still counted at `now` (both in milliseconds) when
/// it is at most `window_secs` seconds old.
pub open spec fn in_window(ts: i64, now: i64, window_secs: u64) -> bool {
    now - ts <= window_secs * 1000
}

/// The failures of `s` that are still counted at `now`, in order.
pub open spec fn recent(s: Seq<i64>, now: i64, window_secs: u64) -> Seq<i64> {
    s.filter(|ts: i64| in_window(ts, now, window_secs))
}

/// Failures per minute over the window, in thousandths, rounded down.
pub open spec fn rate_millis(count: nat, window_secs: u64) -> int {
    (count as int) * 60000 / (window_secs as int)
}

/// Failure timestamps of one service, oldest first.
#[derive(Debug)]
pub struct ErrorWindow {
    failures: Vec<i64>,
}

impl View for ErrorWindow {
    type V = Seq<i64>;

    closed spec fn view(&self) -> Seq<i64> {
        self.failures@
    }
}

impl ErrorWindow {
    pub fn new() -> (r: ErrorWindow)
        ensures
            r@ == Seq::<i64>::empty(),
    {
        ErrorWindow { failures: Vec::new() }
    }

    /// Records a failure observed at `ts`.
    pub fn record(&mut self, ts: i64)
        ensures
            final(self)@ == old(self)@.push(ts),
    {
        self.failures.push(ts);
    }

    pub fn len(&self) -> (r: usize)
        ensures
            r == self@.len(),
    {
        self.failures.len()
    }

    /// Drops the failures that fell out of the window at `now` and returns
    /// how many remain.
    pub fn prune(&mut self, now: i64, window_secs: u64) -> (r: usize)
        ensures
            final(self)@ == recent(old(self)@, now, window_secs),
            r == final(self)@.len(),
    {
        let ghost before = self@;
        let mut kept: Vec<i64> = Vec::new();
        let mut i: usize = 0;
        let limit: i128 = (window_secs as i128) * 1000;
        while i < self.failures.len()
            invariant
                i <= self.failures@.len(),
                self.failures@ == before,
                limit == window_secs * 1000,
                kept@ == recent(before.subrange(0, i as int), now, window_secs),
            decreases self.failures@.len() - i,
        {
            let ts = self.failures[i];
            proof {
                reveal(Seq::filter);
                assert(before.subrange(0, i + 1).drop_last() =~= before.subrange(0, i as int));
            }
            if (now as i128) - (ts as i128) <= limit {
                kept.push(ts);
            }
            i = i + 1;
        }
        assert(before.subrange(0, i as int) =~= before);
        self.failures = kept;
        self.failures.len()
    }
}

/// Error rate of `count` failures over a window of `window_secs` seconds, in
/// thousandths of a failure per minute.
pub fn error_rate_millis(count: usize, window_secs: u64) -> (r: u128)
    requires
        window_secs > 0,
    ensures
        r == rate_millis(count as nat, window_secs),
{
    (count as u128) * 60000 / (window_secs as u128)
}

pub open spec fn count_status(s: Seq<ServiceStatus>, st: HealthStatus) -> nat
    decreases s.len(),
{
    if s.len() == 0 {
        0
    } else {
        count_status(s.drop_last(), st) + if s.last().status == st {
            1nat
        } else {
            0nat
        }
    }
}

pub open spec fn count_critical_down(s: Seq<ServiceStatus>) -> nat
    decreases s.len(),
{
    if s.len() == 0 {
        0
    } else {
        count_critical_down(s.drop_last()) + if s.last().critical && s.last().status
            == HealthStatus::Unhealthy {
            1nat
        } else {
            0nat
        }
    }
}

/// Sum of the response times that are present.
pub open spec fn sum_response(s: Seq<ServiceStatus>) -> nat
    decreases s.len(),
{
    if s.len() == 0 {
        0
    } else {
        sum_response(s.drop_last()) + match s.last().response_time_ms {
            Some(v) => v as nat,
            None => 0nat,
        }
    }
}

/// Number of statuses that carry a response time.
pub open spec fn count_response(s: Seq<ServiceStatus>) -> nat
    decreases s.len(),
{
    if s.len() == 0 {
        0
    } else {
        count_response(s.drop_last()) + if s.last().response_time_ms is Some {
            1nat
        } else {
            0nat
        }
    }
}

proof fn lemma_counts_bounded(s: Seq<ServiceStatus>)
    ensures
        count_status(s, HealthStatus::Healthy) <= s.len(),
        count_status(s, HealthStatus::Unhealthy) <= s.len(),
        count_status(s, HealthStatus::Degraded) <= s.len(),
        count_status(s, HealthStatus::Unknown) <= s.len(),
        count_critical_down(s) <= s.len(),
        count_response(s) <= s.len(),
        sum_response(s) <= s.len() * 0x1_0000_0000_0000_0000,
    decreases s.len(),
{
    if s.len() > 0 {
        lemma_counts_bounded(s.drop_last());
    }
}

/// Fleet-wide figures over a snapshot of all statuses.
pub fn system_metrics(statuses: &Vec<ServiceStatus>, total_requests: u64, total_errors: u64) -> (r:
    SystemMetrics)
    requires
        statuses@.len() <= u32::MAX,
    ensures
        r.total_services == statuses@.len(),
        r.healthy_services == count_status(statuses@, HealthStatus::Healthy),
        r.unhealthy_services == count_status(statuses@, HealthStatus::Unhealthy),
        r.critical_services_down == count_critical_down(statuses@),
        r.response_time_sum_ms == sum_response(statuses@),
        r.response_time_samples == count_response(statuses@),
        r.total_requests == total_requests,
        r.total_errors == total_errors,
{
    let mut healthy: u32 = 0;
    let mut unhealthy: u32 = 0;
    let mut critical_down: u32 = 0;
    let mut sum: u128 = 0;
    let mut samples: u32 = 0;
    let mut i: usize = 0;
    while i < statuses.len()
        invariant
            i <= statuses@.len() <= u32::MAX,
            healthy == count_status(statuses@.subrange(0, i as int), HealthStatus::Healthy),
            unhealthy == count_status(statuses@.subrange(0, i as int), HealthStatus::Unhealthy),
            critical_down == count_critical_down(statuses@.subrange(0, i as int)),
            sum == sum_response(statuses@.subrange(0, i as int)),
            samples == count_response(statuses@.subrange(0, i as int)),
        decreases statuses@.len() - i,
    {
        let ghost pre = statuses@.subrange(0, i as int);
        let ghost next = statuses@.subrange(0, i + 1);
        assert(next.drop_last() =~= pre);
        proof {
            lemma_counts_bounded(pre);
        }
        let s = &statuses[i];
        if s.status == HealthStatus::Healthy {
            healthy = healthy + 1;
        }
        if s.status == HealthStatus::Unhealthy {
            unhealthy = unhealthy + 1;
            if s.critical {
                critical_down = critical_down + 1;
            }
        }
        match s.response_time_ms {
            Some(v) => {
                sum = sum + (v as u128);
                samples = samples + 1;
            },
            None => {},
        }
        i = i + 1;
    }
    assert(statuses@.subrange(0, i as int) =~= statuses@);
    SystemMetrics {
        total_services: statuses.len() as u32,
        healthy_services: healthy,
        unhealthy_services: unhealthy,
        critical_services_down: critical_down,
        response_time_sum_ms: sum,
        response_time_samples: samples,
        total_requests,
        total_errors,
    }
}

/// Overall verdict over the fleet.
#[derive(Debug, Clone, Copy, PartialEq, Eq, Structural)]
pub enum OverallStatus {
    Healthy,
    Degraded,
    Critical,
}

/// Counts of each health status, with the overall verdict.
#[derive(Debug, Clone, Copy, PartialEq, Eq, Structural)]
pub struct HealthSummary {
    pub total: usize,
    pub healthy: usize,
    pub degraded: usize,
    pub unhealthy: usize,
    pub unknown: usize,
    pub overall: OverallStatus,
}

/// Any unhealthy service makes the fleet critical; otherwise any degraded or
/// not yet probed service makes it degraded.
pub open spec fn overall_of(degraded: nat, unhealthy: nat, unknown: nat) -> OverallStatus {
    if unhealthy > 0 {
        OverallStatus::Critical
    } else if degraded > 0 || unknown > 0 {
        OverallStatus::Degraded
    } else {
        OverallStatus::Healthy
    }
}

/// Counts the statuses of a snapshot and gives the overall verdict.
pub fn summarize_health(statuses: &Vec<ServiceStatus>) -> (r: HealthSummary)
    ensures
        r.total == statuses@.len(),
        r.healthy == count_status(statuses@, HealthStatus::Healthy),
        r.degraded == count_status(statuses@, HealthStatus::Degraded),
        r.unhealthy == count_status(statuses@, HealthStatus::Unhealthy),
        r.unknown == count_status(statuses@, HealthStatus::Unknown),
        r.overall == overall_of(r.degraded as nat, r.unhealthy as nat, r.unknown as nat),
{
    let mut healthy: usize = 0;
    let mut degraded: usize = 0;
    let mut unhealthy: usize = 0;
    let mut unknown: usize = 0;
    let mut i: usize = 0;
    while i < statuses.len()
        invariant
            i <= statuses@.len(),
            healthy == count_status(statuses@.subrange(0, i as int), HealthStatus::Healthy),
            degraded == count_status(statuses@.subrange(0, i as int), HealthStatus::Degraded),
            unhealthy == count_status(statuses@.subrange(0, i as int), HealthStatus::Unhealthy),
            unknown == count_status(statuses@.subrange(0, i as int), HealthStatus::Unknown),
        decreases statuses@.len() - i,
    {
        let ghost pre = statuses@.subrange(0, i as int);
        assert(statuses@.subrange(0, i + 1).drop_last() =~= pre);
        proof {
            lemma_counts_bounded(pre);
        }
        match statuses[i].status {
            HealthStatus::Healthy => healthy = healthy + 1,
            HealthStatus::Degraded => degraded = degraded + 1,
            HealthStatus::Unhealthy => unhealthy = unhealthy + 1,
            HealthStatus::Unknown => unknown = unknown + 1,
        }
        i = i + 1;
    }
    assert(statuses@.subrange(0, i as int) =~= statuses@);
    let overall = if unhealthy > 0 {
        OverallStatus::Critical
    } else if degraded > 0 || unknown > 0 {
        OverallStatus::Degraded
    } else {
        OverallStatus::Healthy
    };
    HealthSummary { total: statuses.len(), healthy, degraded, unhealthy, unknown, overall }
}

} // verus!
