//! The data model: service configuration and status, health states, events,
//! restart results and resource / system metrics. Timestamps are Unix
//! milliseconds.

use vstd::prelude::*;

verus! {

#[derive(Clone, Copy, Debug, PartialEq, Eq, Structural)]
pub enum ServiceType {
    Api,
    Worker,
    Database,
    Auth,
    Engine,
    Transformer,
    Training,
    Config,
    Execution,
    Web,
    Nginx,
    Master,
}

/// The variant's name, as used in metric labels.
pub open spec fn service_type_name(t: ServiceType) -> Seq<char> {
    match t {
        ServiceType::Api => "Api"@,
        ServiceType::Worker => "Worker"@,
        ServiceType::Database => "Database"@,
        ServiceType::Auth => "Auth"@,
        ServiceType::Engine => "Engine"@,
        ServiceType::Transformer => "Transformer"@,
        ServiceType::Training => "Training"@,
        ServiceType::Config => "Config"@,
        ServiceType::Execution => "Execution"@,
        ServiceType::Web => "Web"@,
        ServiceType::Nginx => "Nginx"@,
        ServiceType::Master => "Master"@,
    }
}

impl ServiceType {
    /// The variant's name, as used in metric labels.
    pub fn name(&self) -> (r: &'static str)
        ensures
            r@ == service_type_name(*self),
    {
        match self {
            ServiceType::Api => "Api",
            ServiceType::Worker => "Worker",
            ServiceType::Database => "Database",
            ServiceType::Auth => "Auth",
            ServiceType::Engine => "Engine",
            ServiceType::Transformer => "Transformer",
            ServiceType::Training => "Training",
            ServiceType::Config => "Config",
            ServiceType::Execution => "Execution",
            ServiceType::Web => "Web",
            ServiceType::Nginx => "Nginx",
            ServiceType::Master => "Master",
        }
    }
}

#[derive(Clone, Copy, Debug, PartialEq, Eq, Structural)]
pub enum HealthStatus {
    Healthy,
    Degraded,
    Unhealthy,
    Unknown,
}

/// Numeric encoding of a health status in the metrics sink.
pub open spec fn status_code(s: HealthStatus) -> i64 {
    match s {
        HealthStatus::Unknown => 0,
        HealthStatus::Healthy => 1,
        HealthStatus::Degraded => 2,
        HealthStatus::Unhealthy => 3,
    }
}

/// The variant's name.
pub open spec fn health_status_name(s: HealthStatus) -> Seq<char> {
    match s {
        HealthStatus::Healthy => "Healthy"@,
        HealthStatus::Degraded => "Degraded"@,
        HealthStatus::Unhealthy => "Unhealthy"@,
        HealthStatus::Unknown => "Unknown"@,
    }
}

impl HealthStatus {
    pub fn code(&self) -> (r: i64)
        ensures
            r == status_code(*self),
    {
        match self {
            HealthStatus::Unknown => 0,
            HealthStatus::Healthy => 1,
            HealthStatus::Degraded => 2,
            HealthStatus::Unhealthy => 3,
        }
    }

    /// The variant's name.
    pub fn name(&self) -> (r: &'static str)
        ensures
            r@ == health_status_name(*self),
    {
        match self {
            HealthStatus::Healthy => "Healthy",
            HealthStatus::Degraded => "Degraded",
            HealthStatus::Unhealthy => "Unhealthy",
            HealthStatus::Unknown => "Unknown",
        }
    }
}

#[derive(Clone, Copy, Debug, PartialEq, Eq, Structural)]
pub enum EventType {
    ServiceUp,
    ServiceDown,
    ServiceRestarted,
    HighLatency,
    SystemAlert,
    MetricsUpdate,
}

/// The textual name of each event type, used by subscription filters.
pub open spec fn event_type_name(t: EventType) -> Seq<char> {
    match t {
        EventType::ServiceUp => seq!['S', 'e', 'r', 'v', 'i', 'c', 'e', 'U', 'p'],
        EventType::ServiceDown => seq!['S', 'e', 'r', 'v', 'i', 'c', 'e', 'D', 'o', 'w', 'n'],
        EventType::ServiceRestarted => seq![
            'S', 'e', 'r', 'v', 'i', 'c', 'e', 'R', 'e', 's', 't', 'a', 'r', 't', 'e', 'd'
        ],
        EventType::HighLatency => seq![
            'H', 'i', 'g', 'h', 'L', 'a', 't', 'e', 'n', 'c', 'y'
        ],
        EventType::SystemAlert => seq![
            'S', 'y', 's', 't', 'e', 'm', 'A', 'l', 'e', 'r', 't'
        ],
        EventType::MetricsUpdate => seq![
            'M', 'e', 't', 'r', 'i', 'c', 's', 'U', 'p', 'd', 'a', 't', 'e'
        ],
    }
}

impl EventType {
    /// The name of the event type, as clients write it in filters.
    pub fn name(&self) -> (r: Vec<char>)
        ensures
            r@ == event_type_name(*self),
    {
        let r = match self {
            EventType::ServiceUp => vec!['S', 'e', 'r', 'v', 'i', 'c', 'e', 'U', 'p'],
            EventType::ServiceDown => vec!['S', 'e', 'r', 'v', 'i', 'c', 'e', 'D', 'o', 'w', 'n'],
            EventType::ServiceRestarted => vec![
                'S', 'e', 'r', 'v', 'i', 'c', 'e', 'R', 'e', 's', 't', 'a', 'r', 't', 'e', 'd'
            ],
            EventType::HighLatency => vec!['H', 'i', 'g', 'h', 'L', 'a', 't', 'e', 'n', 'c', 'y'],
            EventType::SystemAlert => vec!['S', 'y', 's', 't', 'e', 'm', 'A', 'l', 'e', 'r', 't'],
            EventType::MetricsUpdate => vec![
                'M', 'e', 't', 'r', 'i', 'c', 's', 'U', 'p', 'd', 'a', 't', 'e'
            ],
        };
        assert(r@ =~= event_type_name(*self));
        r
    }
}

/// A copy of an optional string.
pub fn clone_opt_string(o: &Option<String>) -> (r: Option<String>)
    ensures
        r == *o,
{
    match o {
        Some(s) => Some(s.clone()),
        None => None,
    }
}

/// Static description of one monitored service.
#[derive(Debug)]
pub struct ServiceConfig {
    pub id: String,
    pub name: String,
    pub health_endpoint: String,
    pub service_type: ServiceType,
    pub docker_container: Option<String>,
    pub expected_response_time_ms: u64,
    pub critical: bool,
}

impl Clone for ServiceConfig {
    fn clone(&self) -> (r: Self)
        ensures
            r == *self,
    {
        ServiceConfig {
            id: self.id.clone(),
            name: self.name.clone(),
            health_endpoint: self.health_endpoint.clone(),
            service_type: self.service_type,
            docker_container: clone_opt_string(&self.docker_container),
            expected_response_time_ms: self.expected_response_time_ms,
            critical: self.critical,
        }
    }
}

/// Live status of one service.
#[derive(Debug)]
pub struct ServiceStatus {
    pub id: String,
    pub name: String,
    pub status: HealthStatus,
    pub last_check: i64,
    pub uptime_seconds: Option<u64>,
    pub response_time_ms: Option<u64>,
    pub error_message: Option<String>,
    pub service_type: ServiceType,
    pub critical: bool,
}

impl Clone for ServiceStatus {
    fn clone(&self) -> (r: Self)
        ensures
            r == *self,
    {
        ServiceStatus {
            id: self.id.clone(),
            name: self.name.clone(),
            status: self.status,
            last_check: self.last_check,
            uptime_seconds: self.uptime_seconds,
            response_time_ms: self.response_time_ms,
            error_message: clone_opt_string(&self.error_message),
            service_type: self.service_type,
            critical: self.critical,
        }
    }
}

impl ServiceStatus {
    /// The status a service starts with, before any probe has completed.
    pub fn initial(config: &ServiceConfig, now: i64) -> (r: ServiceStatus)
        ensures
            r.id == config.id,
            r.name == config.name,
            r.status == HealthStatus::Unknown,
            r.last_check == now,
            r.uptime_seconds is None,
            r.response_time_ms is None,
            r.error_message is None,
            r.service_type == config.service_type,
            r.critical == config.critical,
    {
        ServiceStatus {
            id: config.id.clone(),
            name: config.name.clone(),
            status: HealthStatus::Unknown,
            last_check: now,
            uptime_seconds: None,
            response_time_ms: None,
            error_message: None,
            service_type: config.service_type,
            critical: config.critical,
        }
    }
}

/// Structured payload attached to an event.
#[derive(Debug)]
pub enum EventData {
    LatencyMs(u64),
    Error(String),
}

impl Clone for EventData {
    fn clone(&self) -> (r: Self)
        ensures
            r == *self,
    {
        match self {
            EventData::LatencyMs(v) => EventData::LatencyMs(*v),
            EventData::Error(e) => EventData::Error(e.clone()),
        }
    }
}

/// An immutable domain event.
#[derive(Debug)]
pub struct MonitorEvent {
    pub event_type: EventType,
    pub service_id: Option<String>,
    pub message: String,
    pub timestamp: i64,
    pub data: Option<EventData>,
}

impl Clone for MonitorEvent {
    fn clone(&self) -> (r: Self)
        ensures
            r == *self,
    {
        MonitorEvent {
            event_type: self.event_type,
            service_id: clone_opt_string(&self.service_id),
            message: self.message.clone(),
            timestamp: self.timestamp,
            data: match &self.data {
                Some(d) => Some(d.clone()),
                None => None,
            },
        }
    }
}

/// Outcome of a restart request.
#[derive(Debug)]
pub struct RestartResult {
    pub service_id: String,
    pub success: bool,
    pub message: String,
    pub timestamp: i64,
}

/// Resource snapshot of one service. Each field is absent until collected.
/// CPU and disk usage are in hundredths of a percent; the error rate is in
/// thousandths of a failure per minute.
#[derive(Debug, Clone, Copy, PartialEq, Eq, Structural)]
pub struct ServiceMetrics {
    pub cpu_usage_centipercent: Option<u64>,
    pub memory_usage_mb: Option<u64>,
    pub disk_usage_centipercent: Option<u64>,
    pub network_in_bytes: Option<u64>,
    pub network_out_bytes: Option<u64>,
    pub request_count: Option<u64>,
    pub error_rate_millis: Option<u64>,
    pub block_read_bytes: Option<u64>,
    pub block_write_bytes: Option<u64>,
}

pub open spec fn metrics_empty(m: ServiceMetrics) -> bool {
    &&& m.cpu_usage_centipercent is None
    &&& m.memory_usage_mb is None
    &&& m.disk_usage_centipercent is None
    &&& m.network_in_bytes is None
    &&& m.network_out_bytes is None
    &&& m.request_count is None
    &&& m.error_rate_millis is None
    &&& m.block_read_bytes is None
    &&& m.block_write_bytes is None
}

impl Default for ServiceMetrics {
    fn default() -> (r: Self)
        ensures
            metrics_empty(r),
    {
        ServiceMetrics {
            cpu_usage_centipercent: None,
            memory_usage_mb: None,
            disk_usage_centipercent: None,
            network_in_bytes: None,
            network_out_bytes: None,
            request_count: None,
            error_rate_millis: None,
            block_read_bytes: None,
            block_write_bytes: None,
        }
    }
}

/// One detailed check of a service.
#[derive(Debug)]
pub struct HealthCheck {
    pub name: String,
    pub status: HealthStatus,
    pub response_time_ms: u64,
    pub message: Option<String>,
    pub timestamp: i64,
}

/// A service's health with its resource figures.
#[derive(Debug)]
pub struct ServiceHealth {
    pub service_id: String,
    pub status: HealthStatus,
    pub checks: Vec<HealthCheck>,
    pub metrics: ServiceMetrics,
    pub last_updated: i64,
}

/// The detailed health of a service from its status and, when collected,
/// its resource figures (all absent otherwise). Per-check history is not kept.
pub fn service_health(status: &ServiceStatus, metrics: Option<ServiceMetrics>) -> (r: ServiceHealth)
    ensures
        r.service_id == status.id,
        r.status == status.status,
        r.checks@.len() == 0,
        r.metrics == match metrics {
            Some(m) => m,
            None => ServiceMetrics {
                cpu_usage_centipercent: None,
                memory_usage_mb: None,
                disk_usage_centipercent: None,
                network_in_bytes: None,
                network_out_bytes: None,
                request_count: None,
                error_rate_millis: None,
                block_read_bytes: None,
                block_write_bytes: None,
            },
        },
        r.last_updated == status.last_check,
{
    let m = match metrics {
        Some(m) => m,
        None => ServiceMetrics::default(),
    };
    ServiceHealth {
        service_id: status.id.clone(),
        status: status.status,
        checks: Vec::new(),
        metrics: m,
        last_updated: status.last_check,
    }
}

/// Fleet-wide figures computed from a snapshot of all statuses. The average
/// response time is `response_time_sum_ms / response_time_samples`.
#[derive(Debug, Clone, Copy, PartialEq, Eq, Structural)]
pub struct SystemMetrics {
    pub total_services: u32,
    pub healthy_services: u32,
    pub unhealthy_services: u32,
    pub critical_services_down: u32,
    pub response_time_sum_ms: u128,
    pub response_time_samples: u32,
    pub total_requests: u64,
    pub total_errors: u64,
}

} // verus!
