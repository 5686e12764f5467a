//! Core of a code-execution sandbox and FaaS platform for JavaScript-family
//! workloads: the runtime catalog, request validation, the sandbox registry and
//! its state machine, host-port allocation, the deployment manager with idle
//! eviction, and the decision logic of the reverse proxy and the container
//! backends. All I/O (the container engine, HTTP, processes) is driven from
//! outside; this crate holds the state and the decisions, with their proofs.

pub mod admin;
pub mod api;
pub mod backend;
pub mod clock;
pub mod config;
pub mod docker;
pub mod errors;
pub mod faas;
pub mod laws;
pub mod manager;
pub mod nsjail;
pub mod ports;
pub mod proxy;
pub mod registry;
pub mod runtime;
pub mod sandbox;
pub mod stats;
pub mod text;
