//! Monitor configuration: the services to probe, the scheduler's parameters
//! and the alert thresholds, with the built-in fleet used when no file is given.

use vstd::prelude::*;
use crate::models::{ServiceConfig, ServiceType};
use crate::text::owned;

verus! {

#[derive(Debug, Clone)]
pub struct Config {
    pub services: Vec<ServiceConfig>,
    pub monitoring: MonitoringConfig,
    pub alerts: AlertConfig,
}

#[derive(Debug, Clone, Copy, PartialEq, Eq, Structural)]
pub struct MonitoringConfig {
    pub check_interval_seconds: u64,
    pub timeout_seconds: u64,
    pub retry_attempts: u32,
    pub batch_size: usize,
    pub enable_docker_stats: bool,
}

#[derive(Debug)]
pub struct AlertConfig {
    pub enable_notifications: bool,
    pub high_latency_threshold_ms: u64,
    pub consecutive_failures_threshold: u32,
    pub webhook_url: Option<String>,
}

impl Clone for AlertConfig {
    fn clone(&self) -> (r: Self)
        ensures
            r == *self,
    {
        AlertConfig {
            enable_notifications: self.enable_notifications,
            high_latency_threshold_ms: self.high_latency_threshold_ms,
            consecutive_failures_threshold: self.consecutive_failures_threshold,
            webhook_url: crate::models::clone_opt_string(&self.webhook_url),
        }
    }
}

/// Resource statistics are collected unless the configuration says otherwise.
pub fn default_enable_docker_stats() -> (r: bool)
    ensures
        r,
{
    true
}

/// A built-in service whose container carries the service's id.
fn builtin(
    id: &str,
    name: &str,
    endpoint: &str,
    service_type: ServiceType,
    expected_ms: u64,
    critical: bool,
) -> (r: ServiceConfig)
    ensures
        r.id@ == id@,
        r.name@ == name@,
        r.health_endpoint@ == endpoint@,
        r.service_type == service_type,
        r.docker_container matches Some(c) && c@ == id@,
        r.expected_response_time_ms == expected_ms,
        r.critical == critical,
{
    ServiceConfig {
        id: owned(id),
        name: owned(name),
        health_endpoint: owned(endpoint),
        service_type,
        docker_container: Some(owned(id)),
        expected_response_time_ms: expected_ms,
        critical,
    }
}

impl Default for Config {
    /// The built-in fleet of eleven services, probed every 30 s in batches of
    /// five with three attempts of 10 s each.
    fn default() -> (r: Self)
        ensures
            r.services@.len() == 11,
            forall|i: int, j: int|
                0 <= i < j < r.services@.len() ==> (#[trigger] r.services@[i]).id@
                    != (#[trigger] r.services@[j]).id@,
            forall|i: int|
                0 <= i < r.services@.len() ==> ((#[trigger] r.services@[i]).expected_response_time_ms
                    > 0 && (r.services@[i].docker_container matches Some(c) && c@
                    == r.services@[i].id@)),
            r.monitoring == (MonitoringConfig {
                check_interval_seconds: 30,
                timeout_seconds: 10,
                retry_attempts: 3,
                batch_size: 5,
                enable_docker_stats: true,
            }),
            r.alerts.enable_notifications,
            r.alerts.high_latency_threshold_ms == 2000,
            r.alerts.consecutive_failures_threshold == 3,
            r.alerts.webhook_url is None,
    {
        let services = vec![
            builtin("fks_api", "FKS API Service", "http://fks_api:8000/health", ServiceType::Api, 500, true),
            builtin(
                "fks_auth",
                "FKS Authentication Service",
                "http://fks_auth:4100/health",
                ServiceType::Auth,
                300,
                true,
            ),
            builtin("fks_data", "FKS Data Service", "http://fks_data:8002/health", ServiceType::Database, 800, true),
            builtin(
                "fks_engine",
                "FKS Trading Engine",
                "http://fks_engine:8003/health",
                ServiceType::Engine,
                200,
                true,
            ),
            builtin(
                "fks_transformer",
                "FKS Data Transformer",
                "http://fks_transformer:8004/health",
                ServiceType::Transformer,
                1000,
                false,
            ),
            builtin(
                "fks_training",
                "FKS ML Training Service",
                "http://fks_training:8005/health",
                ServiceType::Training,
                2000,
                false,
            ),
            builtin(
                "fks_worker",
                "FKS Background Worker",
                "http://fks_worker:8006/health",
                ServiceType::Worker,
                500,
                false,
            ),
            builtin("fks_web", "FKS Web Interface", "http://fks_web:3000/health", ServiceType::Web, 300, true),
            builtin(
                "fks_config",
                "FKS Configuration Service",
                "http://fks_config:8007/health",
                ServiceType::Config,
                200,
                true,
            ),
            builtin(
                "fks_execution",
                "FKS Execution Service",
                "http://fks_execution:8008/health",
                ServiceType::Execution,
                300,
                true,
            ),
            builtin("fks_nodes", "FKS Nodes Master", "http://fks_nodes:8081/health", ServiceType::Worker, 400, false),
        ];
        proof {
            reveal_strlit("fks_api");
            reveal_strlit("fks_auth");
            reveal_strlit("fks_data");
            reveal_strlit("fks_engine");
            reveal_strlit("fks_transformer");
            reveal_strlit("fks_training");
            reveal_strlit("fks_worker");
            reveal_strlit("fks_web");
            reveal_strlit("fks_config");
            reveal_strlit("fks_execution");
            reveal_strlit("fks_nodes");
            assert(services@[0].id@.len() == 7 && services@[0].id@[4] == 'a');
            assert(services@[1].id@.len() == 8 && services@[1].id@[4] == 'a');
            assert(services@[2].id@.len() == 8 && services@[2].id@[4] == 'd');
            assert(services@[3].id@.len() == 10 && services@[3].id@[4] == 'e');
            assert(services@[4].id@.len() == 15 && services@[4].id@[4] == 't');
            assert(services@[5].id@.len() == 12 && services@[5].id@[4] == 't');
            assert(services@[6].id@.len() == 10 && services@[6].id@[4] == 'w');
            assert(services@[7].id@.len() == 7 && services@[7].id@[4] == 'w');
            assert(services@[8].id@.len() == 10 && services@[8].id@[4] == 'c');
            assert(services@[9].id@.len() == 13 && services@[9].id@[4] == 'e');
            assert(services@[10].id@.len() == 9 && services@[10].id@[4] == 'n');
            assert forall|i: int, j: int|
                0 <= i < j < services@.len() implies (#[trigger] services@[i]).id@
                    != (#[trigger] services@[j]).id@ by {
                let a = services@[i].id@;
                let b = services@[j].id@;
                assert(a.len() != b.len() || a[4] != b[4]) by {
                    assert(0 <= i < 11 && 0 <= j < 11);
                }
            }
        }
        Config {
            services,
            monitoring: MonitoringConfig {
                check_interval_seconds: 30,
                timeout_seconds: 10,
                retry_attempts: 3,
                batch_size: 5,
                enable_docker_stats: default_enable_docker_stats(),
            },
            alerts: AlertConfig {
                enable_notifications: true,
                high_latency_threshold_ms: 2000,
                consecutive_failures_threshold: 3,
                webhook_url: None,
            },
        }
    }
}

} // verus!
