//! Fleet health monitoring engine: service health state, transition events,
//! bounded event history, error-rate windows, resource statistics parsing,
//! streaming session decisions and the metrics sink.

pub mod aggregate;
pub mod auth;
pub mod compose;
pub mod config;
pub mod events;
pub mod health;
pub mod metrics;
pub mod models;
pub mod monitor;
pub mod restart;
pub mod schedule;
pub mod session;
pub mod stats;
pub mod text;
