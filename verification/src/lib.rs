//! Helpers for kubectl plugins compiled to WebAssembly: resolve the
//! Kubernetes API server connection details from a kube configuration,
//! register the resulting TLS identity with the outbound HTTP capability,
//! and translate generic HTTP requests into the wire shape that capability
//! expects.

pub mod errors;
pub mod kube;
pub mod kube_config;
pub mod outbound;
pub mod request;
