//! The service configuration: its shape, its defaults, and how command-line
//! overrides are folded in. Reading files and the environment happens
//! outside; parsed values arrive here as plain options.

use vstd::prelude::*;
use crate::backend::SandboxBackendType;
use crate::text;

verus! {

pub struct Config {
    pub server: ServerConfig,
    pub sandbox: SandboxConfig,
    pub logging: LoggingConfig,
}

pub struct ServerConfig {
    pub host: String,
    pub port: u16,
    pub cors_origin: Option<String>,
}

pub struct SandboxConfig {
    pub backend: SandboxBackendType,
    pub default_timeout_ms: u64,
    pub default_memory_limit_mb: u64,
    pub max_concurrent_sandboxes: usize,
    pub cleanup_interval_seconds: u64,
}

pub struct LoggingConfig {
    pub level: String,
    pub format: String,
}

impl Default for Config {
    /// The built-in defaults: loopback on port 8070, the Docker backend,
    /// 30-second timeout, 256 MiB memory, JSON logs at `info`.
    fn default() -> (c: Config)
        ensures
            c.server.host@ == "127.0.0.1"@,
            c.server.port == 8070,
            c.server.cors_origin is None,
            c.sandbox.backend == SandboxBackendType::Docker,
            c.sandbox.default_timeout_ms == 30000,
            c.sandbox.default_memory_limit_mb == 256,
            c.sandbox.max_concurrent_sandboxes == 10,
            c.sandbox.cleanup_interval_seconds == 300,
            c.logging.level@ == "info"@,
            c.logging.format@ == "json"@,
    {
        Config {
            server: ServerConfig {
                host: String::from_str("127.0.0.1"),
                port: 8070,
                cors_origin: None,
            },
            sandbox: SandboxConfig {
                backend: SandboxBackendType::Docker,
                default_timeout_ms: 30000,
                default_memory_limit_mb: 256,
                max_concurrent_sandboxes: 10,
                cleanup_interval_seconds: 300,
            },
            logging: LoggingConfig {
                level: String::from_str("info"),
                format: String::from_str("json"),
            },
        }
    }
}

/// The backend an environment variable selects; anything unknown falls back
/// to Docker. The caller lowercases the raw value first.
pub open spec fn spec_backend_of_env_tag(tag: Seq<char>) -> SandboxBackendType {
    if tag == "nsjail"@ {
        SandboxBackendType::Nsjail
    } else {
        SandboxBackendType::Docker
    }
}

pub fn backend_of_env_tag(tag: &str) -> (b: SandboxBackendType)
    ensures
        b == spec_backend_of_env_tag(tag@),
{
    if text::str_eq(tag, "nsjail") {
        SandboxBackendType::Nsjail
    } else {
        SandboxBackendType::Docker
    }
}

/// The backend a command-line flag selects; anything unknown falls back to
/// the jail. The caller lowercases the raw value first.
pub open spec fn spec_backend_of_cli_tag(tag: Seq<char>) -> SandboxBackendType {
    if tag == "docker"@ {
        SandboxBackendType::Docker
    } else {
        SandboxBackendType::Nsjail
    }
}

pub fn backend_of_cli_tag(tag: &str) -> (b: SandboxBackendType)
    ensures
        b == spec_backend_of_cli_tag(tag@),
{
    if text::str_eq(tag, "docker") {
        SandboxBackendType::Docker
    } else {
        SandboxBackendType::Nsjail
    }
}

/// Folds command-line overrides into a configuration: each given flag
/// replaces its field, everything else stays.
pub fn apply_cli_overrides(
    config: Config,
    host: Option<String>,
    port: Option<u16>,
    backend: Option<SandboxBackendType>,
) -> (c: Config)
    ensures
        c.server.host == (match host {
            Some(h) => h,
            None => config.server.host,
        }),
        c.server.port == (match port {
            Some(p) => p,
            None => config.server.port,
        }),
        c.sandbox.backend == (match backend {
            Some(b) => b,
            None => config.sandbox.backend,
        }),
        c.server.cors_origin == config.server.cors_origin,
        c.sandbox.default_timeout_ms == config.sandbox.default_timeout_ms,
        c.sandbox.default_memory_limit_mb == config.sandbox.default_memory_limit_mb,
        c.sandbox.max_concurrent_sandboxes == config.sandbox.max_concurrent_sandboxes,
        c.sandbox.cleanup_interval_seconds == config.sandbox.cleanup_interval_seconds,
        c.logging == config.logging,
{
    let Config { server, sandbox, logging } = config;
    let ServerConfig { host: host0, port: port0, cors_origin } = server;
    let SandboxConfig {
        backend: backend0,
        default_timeout_ms,
        default_memory_limit_mb,
        max_concurrent_sandboxes,
        cleanup_interval_seconds,
    } = sandbox;
    Config {
        server: ServerConfig {
            host: match host {
                Some(h) => h,
                None => host0,
            },
            port: match port {
                Some(p) => p,
                None => port0,
            },
            cors_origin,
        },
        sandbox: SandboxConfig {
            backend: match backend {
                Some(b) => b,
                None => backend0,
            },
            default_timeout_ms,
            default_memory_limit_mb,
            max_concurrent_sandboxes,
            cleanup_interval_seconds,
        },
        logging,
    }
}

} // verus!
