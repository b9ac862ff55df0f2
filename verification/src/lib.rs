//! A small payment service core, instrumented with distributed tracing.
//!
//! The crate verifies the tracing layer of the service: extracting a parent
//! trace context from HTTP-style header carriers, creating and ending spans
//! parented to that context, and configuring an exporter pipeline that
//! degrades to a no-op sink when no telemetry backend is configured. Around
//! it stand the verified compute parts of the request handlers and of the
//! startup configuration.

pub mod carrier;
pub mod config;
pub mod context;
pub mod exporter;
pub mod handlers;
pub mod hex;
pub mod payment;
pub mod propagator;
pub mod span;
