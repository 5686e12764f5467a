//! The sandbox data model: submissions, live sandboxes, execution responses,
//! request validation, and the classification of execution outcomes.

use vstd::prelude::*;
use crate::api::SandboxInfo;
use crate::backend::SandboxBackendType;
use crate::clock;
use crate::errors::SandboxError;
use crate::registry::Keyed;
use crate::runtime::{spec_runtime_of_tag, runtime_of_tag, RuntimeType};
use crate::text;

verus! {

/// An auxiliary file of a submission.
pub struct SandboxFile {
    pub path: String,
    pub content: String,
    pub is_executable: Option<bool>,
}

#[derive(Clone, Copy, Debug, PartialEq, Eq, Structural)]
pub enum SandboxMode {
    /// Execute once and clean up.
    OneShot,
    /// Keep running until explicitly stopped.
    Persistent,
}

/// The submission unit.
pub struct SandboxRequest {
    pub id: String,
    pub runtime: String,
    pub code: String,
    pub entry_point: Option<String>,
    pub timeout_ms: u64,
    pub memory_limit_mb: u64,
    pub env_vars: Vec<(String, String)>,
    pub files: Option<Vec<SandboxFile>>,
    pub mode: Option<SandboxMode>,
    pub install_deps: Option<bool>,
    pub dev_server: Option<bool>,
}

/// The result of one execution attempt.
pub struct SandboxResponse {
    pub success: bool,
    pub stdout: String,
    pub stderr: String,
    pub exit_code: Option<i32>,
    pub execution_time_ms: u64,
    pub is_running: Option<bool>,
    pub dev_server_url: Option<String>,
}

#[derive(Clone, Copy, Debug, PartialEq, Eq, Structural)]
pub enum SandboxStatus {
    Created,
    Installing,
    Running,
    DevServer,
    Completed,
    Failed,
    Terminated,
}

/// A live sandbox: the request snapshot plus its lifecycle state.
pub struct Sandbox {
    pub id: String,
    pub request: SandboxRequest,
    pub backend_type: SandboxBackendType,
    pub created_at_ms: i64,
    pub status: SandboxStatus,
    pub container_id: Option<String>,
    pub dev_server_port: Option<u16>,
}

impl Keyed for Sandbox {
    open spec fn key(&self) -> Seq<char> {
        self.id@
    }

    fn key_matches(&self, k: &str) -> (b: bool) {
        text::str_eq(self.id.as_str(), k)
    }
}

/// The largest memory cap, in MiB, whose byte count still fits the engine's
/// signed 64-bit field: a machine limit, not a policy.
pub const MAX_MEMORY_LIMIT_MB: u64 = 8_796_093_022_207;

/// The largest timeout the backends handle; the jail adds a one-second grace
/// period to it, which must not overflow. A machine limit.
pub const MAX_TIMEOUT_MS: u64 = 18_446_744_073_709_550_615;

/// The resource bounds and mode constraints every accepted request meets:
/// positive timeout and memory cap within machine limits, and a dev server
/// only in persistent mode.
pub open spec fn spec_limits_ok(r: &SandboxRequest) -> bool {
    &&& 1 <= r.timeout_ms <= MAX_TIMEOUT_MS
    &&& 1 <= r.memory_limit_mb <= MAX_MEMORY_LIMIT_MB
    &&& (r.dev_server == Some(true) ==> r.mode == Some(SandboxMode::Persistent))
}

/// A request the platform accepts: a known runtime and limits in range.
pub open spec fn spec_request_valid(r: &SandboxRequest) -> bool {
    &&& spec_runtime_of_tag(r.runtime@) is Some
    &&& spec_limits_ok(r)
}

/// Checks a submission against the data-model invariants. An unknown runtime
/// tag is `InvalidRuntime`; any other violation is `InvalidRequest`.
pub fn validate_request(r: &SandboxRequest) -> (res: Result<RuntimeType, SandboxError>)
    ensures
        match res {
            Ok(rt) => spec_runtime_of_tag(r.runtime@) == Some(rt) && spec_limits_ok(r),
            Err(SandboxError::InvalidRuntime) => spec_runtime_of_tag(r.runtime@) is None,
            Err(SandboxError::InvalidRequest) => spec_runtime_of_tag(r.runtime@) is Some
                && !spec_limits_ok(r),
            Err(_) => false,
        },
        res is Ok <==> spec_request_valid(r),
{
    let rt = match runtime_of_tag(r.runtime.as_str()) {
        Some(rt) => rt,
        None => {
            return Err(SandboxError::InvalidRuntime);
        },
    };
    if r.timeout_ms == 0 || r.timeout_ms > MAX_TIMEOUT_MS {
        return Err(SandboxError::InvalidRequest);
    }
    if r.memory_limit_mb == 0 || r.memory_limit_mb > MAX_MEMORY_LIMIT_MB {
        return Err(SandboxError::InvalidRequest);
    }
    let dev = match r.dev_server {
        Some(d) => d,
        None => false,
    };
    let persistent = match r.mode {
        Some(SandboxMode::Persistent) => true,
        _ => false,
    };
    if dev && !persistent {
        return Err(SandboxError::InvalidRequest);
    }
    Ok(rt)
}

/// One-shot success: the process exited with code zero and wrote nothing to
/// stderr.
pub open spec fn spec_one_shot_success(exit_code: Option<i32>, stderr: Seq<char>) -> bool {
    exit_code == Some(0i32) && stderr.len() == 0
}

/// The response for a one-shot process that ran to completion.
pub fn process_exit_response(
    stdout: String,
    stderr: String,
    exit_code: Option<i32>,
    execution_time_ms: u64,
) -> (r: SandboxResponse)
    ensures
        r.success == spec_one_shot_success(exit_code, stderr@),
        r.stdout == stdout,
        r.stderr == stderr,
        r.exit_code == exit_code,
        r.execution_time_ms == execution_time_ms,
        r.is_running == Some(false),
        r.dev_server_url is None,
{
    let zero_exit = match exit_code {
        Some(c) => c == 0,
        None => false,
    };
    let success = zero_exit && stderr.as_str().is_empty();
    SandboxResponse {
        success,
        stdout,
        stderr,
        exit_code,
        execution_time_ms,
        is_running: Some(false),
        dev_server_url: None,
    }
}

/// The response for an execution stopped at its wall-clock deadline: not an
/// error, a result with exit code 124.
pub fn timeout_response(execution_time_ms: u64) -> (r: SandboxResponse)
    ensures
        r.success == false,
        r.stdout@.len() == 0,
        r.stderr@ == "Execution timed out"@,
        r.exit_code == Some(124i32),
        r.execution_time_ms == execution_time_ms,
        r.is_running == Some(false),
        r.dev_server_url is None,
{
    SandboxResponse {
        success: false,
        stdout: String::new(),
        stderr: String::from_str("Execution timed out"),
        exit_code: Some(124),
        execution_time_ms,
        is_running: Some(false),
        dev_server_url: None,
    }
}

/// The response for a process that could not run at all; `message` describes
/// the failure.
pub fn process_failure_response(message: String, execution_time_ms: u64) -> (r:
    SandboxResponse)
    ensures
        r.success == false,
        r.stdout@.len() == 0,
        r.stderr == message,
        r.exit_code == Some(1i32),
        r.execution_time_ms == execution_time_ms,
        r.is_running == Some(false),
        r.dev_server_url is None,
{
    SandboxResponse {
        success: false,
        stdout: String::new(),
        stderr: message,
        exit_code: Some(1),
        execution_time_ms,
        is_running: Some(false),
        dev_server_url: None,
    }
}

impl SandboxStatus {
    /// The stable name of this lifecycle state.
    pub open spec fn spec_name(&self) -> Seq<char> {
        match self {
            SandboxStatus::Created => "Created"@,
            SandboxStatus::Installing => "Installing"@,
            SandboxStatus::Running => "Running"@,
            SandboxStatus::DevServer => "DevServer"@,
            SandboxStatus::Completed => "Completed"@,
            SandboxStatus::Failed => "Failed"@,
            SandboxStatus::Terminated => "Terminated"@,
        }
    }

    pub fn name(&self) -> (r: &'static str)
        ensures
            r@ == self.spec_name(),
    {
        match self {
            SandboxStatus::Created => "Created",
            SandboxStatus::Installing => "Installing",
            SandboxStatus::Running => "Running",
            SandboxStatus::DevServer => "DevServer",
            SandboxStatus::Completed => "Completed",
            SandboxStatus::Failed => "Failed",
            SandboxStatus::Terminated => "Terminated",
        }
    }
}

impl Sandbox {
    /// A fresh sandbox record for an accepted request.
    pub fn new(request: SandboxRequest, backend_type: SandboxBackendType, now_ms: i64) -> (s:
        Sandbox)
        ensures
            s.id == request.id,
            s.request == request,
            s.backend_type == backend_type,
            s.created_at_ms == now_ms,
            s.status == SandboxStatus::Created,
            s.container_id is None,
            s.dev_server_port is None,
    {
        let id = request.id.clone();
        Sandbox {
            id,
            request,
            backend_type,
            created_at_ms: now_ms,
            status: SandboxStatus::Created,
            container_id: None,
            dev_server_port: None,
        }
    }

    /// The public summary of this sandbox.
    pub fn to_info(&self) -> (r: SandboxInfo)
        requires
            0 <= self.created_at_ms <= clock::MAX_TIMESTAMP_MS,
        ensures
            r.id == self.id,
            r.status@ == self.status.spec_name(),
            r.runtime == self.request.runtime,
            r.created_at@ == clock::rfc3339_of(self.created_at_ms),
            r.timeout_ms == self.request.timeout_ms,
            r.memory_limit_mb == self.request.memory_limit_mb,
    {
        SandboxInfo {
            id: self.id.clone(),
            status: String::from_str(self.status.name()),
            runtime: self.request.runtime.clone(),
            created_at: clock::format_rfc3339_millis(self.created_at_ms),
            timeout_ms: self.request.timeout_ms,
            memory_limit_mb: self.request.memory_limit_mb,
        }
    }
}

} // verus!
