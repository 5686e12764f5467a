//! Error taxonomy of the platform and its mapping to HTTP status classes.

use vstd::prelude::*;

verus! {

/// Everything that a platform operation can fail with. A one-shot execution
/// that runs out of wall-clock time is not an error: it is reported inside the
/// response with exit code 124.
#[derive(Debug)]
pub enum SandboxError {
    /// The runtime tag names no supported runtime.
    InvalidRuntime,
    /// The request breaks a data-model invariant (zero limits, a dev server
    /// outside persistent mode, a duplicate id).
    InvalidRequest,
    /// The backing technology is absent.
    Unavailable,
    /// Image pull or container creation failed.
    CreationFailed(String),
    /// A file write, the dependency install, or the dev-server start failed.
    SetupFailed(String),
    /// All stages of the readiness probe failed.
    HealthCheckFailed,
    /// No sandbox or deployment under that id.
    NotFound,
    /// Neither the allocator nor container inspection knows a backend port.
    ProxyNoPort,
    /// The forwarded request could not be sent upstream.
    ProxyUpstreamFailure,
    /// The request body could not be read.
    ProxyIOFailure,
}

impl SandboxError {
    /// The HTTP status that surfaces this error.
    pub fn status_code(&self) -> (code: u16)
        ensures
            code == match self {
                SandboxError::InvalidRuntime => 400u16,
                SandboxError::InvalidRequest => 400u16,
                SandboxError::Unavailable => 500u16,
                SandboxError::CreationFailed(_) => 500u16,
                SandboxError::SetupFailed(_) => 500u16,
                SandboxError::HealthCheckFailed => 500u16,
                SandboxError::NotFound => 404u16,
                SandboxError::ProxyNoPort => 404u16,
                SandboxError::ProxyUpstreamFailure => 502u16,
                SandboxError::ProxyIOFailure => 500u16,
            },
    {
        match self {
            SandboxError::InvalidRuntime => 400,
            SandboxError::InvalidRequest => 400,
            SandboxError::Unavailable => 500,
            SandboxError::CreationFailed(_) => 500,
            SandboxError::SetupFailed(_) => 500,
            SandboxError::HealthCheckFailed => 500,
            SandboxError::NotFound => 404,
            SandboxError::ProxyNoPort => 404,
            SandboxError::ProxyUpstreamFailure => 502,
            SandboxError::ProxyIOFailure => 500,
        }
    }

    /// A short stable name for logs and HTTP bodies.
    pub fn kind_name(&self) -> (r: &'static str)
        ensures
            r@ == match self {
                SandboxError::InvalidRuntime => "invalid_runtime"@,
                SandboxError::InvalidRequest => "invalid_request"@,
                SandboxError::Unavailable => "unavailable"@,
                SandboxError::CreationFailed(_) => "creation_failed"@,
                SandboxError::SetupFailed(_) => "setup_failed"@,
                SandboxError::HealthCheckFailed => "health_check_failed"@,
                SandboxError::NotFound => "not_found"@,
                SandboxError::ProxyNoPort => "proxy_no_port"@,
                SandboxError::ProxyUpstreamFailure => "proxy_upstream_failure"@,
                SandboxError::ProxyIOFailure => "proxy_io_failure"@,
            },
    {
        match self {
            SandboxError::InvalidRuntime => "invalid_runtime",
            SandboxError::InvalidRequest => "invalid_request",
            SandboxError::Unavailable => "unavailable",
            SandboxError::CreationFailed(_) => "creation_failed",
            SandboxError::SetupFailed(_) => "setup_failed",
            SandboxError::HealthCheckFailed => "health_check_failed",
            SandboxError::NotFound => "not_found",
            SandboxError::ProxyNoPort => "proxy_no_port",
            SandboxError::ProxyUpstreamFailure => "proxy_upstream_failure",
            SandboxError::ProxyIOFailure => "proxy_io_failure",
        }
    }
}

} // verus!
