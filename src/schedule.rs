//! The scheduler's plan for one tick: services are probed in consecutive
//! batches, and a pause follows every full-sized batch.

use vstd::prelude::*;
use crate::models::{HealthStatus, ServiceConfig, ServiceStatus};

verus! {

/// Pause after a full batch, in milliseconds.
pub const BATCH_PAUSE_MS: u64 = 100;

/// Period of the metrics and aggregation tick, in seconds.
pub const METRICS_PERIOD_SECS: u64 = 60;

/// Bounds `[start, end)` of batch `k` over `n` services.
pub open spec fn batch(k: int, n: int, size: int) -> (usize, usize) {
    ((k * size) as usize, if (k + 1) * size < n {
        ((k + 1) * size) as usize
    } else {
        n as usize
    })
}

/// Splits `n` services into consecutive batches of `size`; the last one may
/// be shorter.
pub fn batch_bounds(n: usize, size: usize) -> (r: Vec<(usize, usize)>)
    requires
        size > 0,
    ensures
        r@.len() == (n + size - 1) / (size as int),
        forall|k: int| 0 <= k < r@.len() ==> #[trigger] r@[k] == batch(k, n as int, size as int),
{
    let mut r: Vec<(usize, usize)> = Vec::new();
    let mut start: usize = 0;
    assert(0 * size == 0);
    while start < n
        invariant
            size > 0,
            start == r@.len() * size,
            forall|k: int| 0 <= k < r@.len() ==> #[trigger] r@[k] == batch(k, n as int, size as int),
            r@.len() > 0 ==> start < n,
        decreases n - start,
    {
        let k: Ghost<int> = Ghost(r@.len() as int);
        let end: usize = if n - start > size {
            start + size
        } else {
            n
        };
        assert((k@ + 1) * size == start + size) by (nonlinear_arith)
            requires
                start == k@ * size,
        ;
        r.push((start, end));
        assert(r@[k@] == batch(k@, n as int, size as int));
        let next: usize = end;
        proof {
            assert(r@.len() == k@ + 1);
            if end == n {
                assert(n > k@ * size);
                assert(n <= (k@ + 1) * size);
                assert((n + size - 1) / (size as int) == k@ + 1) by (nonlinear_arith)
                    requires
                        n > k@ * size,
                        n <= (k@ + 1) * size,
                        size > 0,
                        k@ >= 0,
                ;
            }
        }
        if end == n {
            return r;
        }
        start = next;
    }
    proof {
        assert(r@.len() == 0);
        assert(n == 0);
        assert((size - 1) / (size as int) == 0) by (nonlinear_arith)
            requires
                size > 0,
        ;
    }
    r
}

/// Whether the scheduler pauses after a batch: only after a full-sized one.
pub fn pause_after_batch(batch_len: usize, size: usize) -> (r: bool)
    ensures
        r == (batch_len == size),
{
    batch_len == size
}

/// One status per configured service, in order, none probed yet.
pub fn initial_statuses(configs: &Vec<ServiceConfig>, now: i64) -> (r: Vec<ServiceStatus>)
    ensures
        r@.len() == configs@.len(),
        forall|i: int|
            0 <= i < r@.len() ==> {
                &&& (#[trigger] r@[i]).id == configs@[i].id
                &&& r@[i].name == configs@[i].name
                &&& r@[i].status == HealthStatus::Unknown
                &&& r@[i].response_time_ms is None
                &&& r@[i].error_message is None
                &&& r@[i].last_check == now
                &&& r@[i].service_type == configs@[i].service_type
                &&& r@[i].critical == configs@[i].critical
            },
{
    let mut r: Vec<ServiceStatus> = Vec::new();
    let mut i: usize = 0;
    while i < configs.len()
        invariant
            i <= configs@.len(),
            r@.len() == i,
            forall|j: int|
                0 <= j < i ==> {
                    &&& (#[trigger] r@[j]).id == configs@[j].id
                    &&& r@[j].name == configs@[j].name
                    &&& r@[j].status == HealthStatus::Unknown
                    &&& r@[j].response_time_ms is None
                    &&& r@[j].error_message is None
                    &&& r@[j].last_check == now
                    &&& r@[j].service_type == configs@[j].service_type
                    &&& r@[j].critical == configs@[j].critical
                },
        decreases configs@.len() - i,
    {
        r.push(ServiceStatus::initial(&configs[i], now));
        i = i + 1;
    }
    r
}

} // verus!
