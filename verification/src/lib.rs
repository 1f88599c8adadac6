//! Telemetry plumbing for a small HTTP service: trace-context propagation,
//! request spans, bounded export queues and an orderly shutdown.

pub mod context;
pub mod demo;
pub mod export;
pub mod hex;
pub mod logging;
pub mod metrics;
pub mod propagation;
pub mod service;
pub mod settings;
pub mod shutdown;
pub mod span;
pub mod telemetry;
pub mod text_map;
pub mod wire;
