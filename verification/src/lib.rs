//! Verified core of an SDK that captures errors, traces and logs of a service
//! and reports them to Middle-Monitor.

pub mod axum_middleware;
pub mod client;
pub mod config;
pub mod env;
pub mod error;
pub mod glob;
pub mod global;
pub mod json;
pub mod laws;
pub mod level;
pub mod monitor;
pub mod rate;
pub mod submission;
pub mod telemetry;
pub mod text;

pub use client::get_message_from_exception_body;
pub use config::{
    default_sampling_config, new_config, should_sample_log, should_sample_trace,
    LogsSamplingConfig, SamplingConfig, TracesSamplingConfig,
};
pub use env::config_from_env;
pub use global::{
    capture_panic_global, flush_logs_global, get_global_client, get_global_config, init,
    init_simple, init_with_config, log_global, report_error, report_error_with_details,
};
pub use level::LogLevel;
pub use monitor::MiddleMonitorClient;
