//! Client-side logic of a guardrails orchestrator.

pub mod ambient;
pub mod args;
pub mod client;
pub mod clock;
pub mod config;
pub mod detector;
pub mod errors;
pub mod generation_nlp;
pub mod grpc_client;
pub mod headers;
pub mod health;
pub mod health_cache;
pub mod hostname;
pub mod http_client;
pub mod metrics;
pub mod nlp;
pub mod orchestrator_errors;
pub mod propagation;
pub mod request;
pub mod request_info;
pub mod server;
pub mod status;
pub mod text;
pub mod tls;
pub mod trace_context;
pub mod tracing_config;
pub mod tracing_setup;
pub mod url;
