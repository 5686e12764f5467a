//! The HTTP-facing request and response shapes, and their translation into
//! sandbox submissions with the documented defaults.

use vstd::prelude::*;
use crate::sandbox::{SandboxMode, SandboxRequest, SandboxResponse};
use crate::text;

verus! {

/// A file as it arrives over the API.
pub struct SandboxFile {
    pub path: String,
    pub content: String,
    pub is_executable: Option<bool>,
}

/// The body of a sandbox-creation or one-shot-execution call.
pub struct CreateSandboxRequest {
    pub runtime: String,
    pub code: String,
    pub entry_point: Option<String>,
    pub timeout_ms: Option<u64>,
    pub memory_limit_mb: Option<u64>,
    pub env_vars: Vec<(String, String)>,
    pub files: Option<Vec<SandboxFile>>,
    pub mode: Option<String>,
    pub install_deps: Option<bool>,
    pub dev_server: Option<bool>,
}

/// The public summary of a sandbox.
pub struct SandboxInfo {
    pub id: String,
    pub status: String,
    pub runtime: String,
    pub created_at: String,
    pub timeout_ms: u64,
    pub memory_limit_mb: u64,
}

/// The body answering an execution call.
pub struct ExecutionResult {
    pub sandbox_id: String,
    pub success: bool,
    pub stdout: String,
    pub stderr: String,
    pub exit_code: Option<i32>,
    pub execution_time_ms: u64,
}

/// The default timeout for API submissions that give none.
pub const DEFAULT_TIMEOUT_MS: u64 = 30_000;

/// The default memory cap, in MiB, for API submissions that give none.
pub const DEFAULT_MEMORY_LIMIT_MB: u64 = 512;

/// The mode a tag names: `persistent` by that exact name, one-shot otherwise.
pub open spec fn spec_mode_of_tag(tag: Seq<char>) -> SandboxMode {
    if tag == "persistent"@ {
        SandboxMode::Persistent
    } else {
        SandboxMode::OneShot
    }
}

pub fn mode_of_tag(tag: &str) -> (m: SandboxMode)
    ensures
        m == spec_mode_of_tag(tag@),
{
    if text::str_eq(tag, "persistent") {
        SandboxMode::Persistent
    } else {
        SandboxMode::OneShot
    }
}

/// The files of a submission, one for one.
fn convert_files(files: Vec<SandboxFile>) -> (r: Vec<crate::sandbox::SandboxFile>)
    ensures
        r@.len() == files@.len(),
        forall|i: int|
            0 <= i < files@.len() ==> r@[i].path == files@[i].path && r@[i].content
                == files@[i].content && r@[i].is_executable == files@[i].is_executable,
{
    let n = files.len();
    let mut converted: Vec<crate::sandbox::SandboxFile> = Vec::new();
    let mut i: usize = 0;
    while i < n
        invariant
            n == files@.len(),
            0 <= i <= n,
            converted@.len() == i,
            forall|p: int|
                0 <= p < i ==> converted@[p].path == files@[p].path && converted@[p].content
                    == files@[p].content && converted@[p].is_executable
                    == files@[p].is_executable,
        decreases n - i,
    {
        let f = &files[i];
        converted.push(
            crate::sandbox::SandboxFile {
                path: f.path.clone(),
                content: f.content.clone(),
                is_executable: f.is_executable,
            },
        );
        i += 1;
    }
    converted
}

/// The sandbox submission for an API request: documented defaults filled in,
/// the given id attached, and the mode forced to one-shot when the call is a
/// direct execution.
pub fn to_sandbox_request(req: CreateSandboxRequest, id: String, force_one_shot: bool) -> (r:
    SandboxRequest)
    ensures
        r.id == id,
        r.runtime == req.runtime,
        r.code == req.code,
        r.entry_point == req.entry_point,
        r.timeout_ms == match req.timeout_ms {
            Some(t) => t,
            None => DEFAULT_TIMEOUT_MS,
        },
        r.memory_limit_mb == match req.memory_limit_mb {
            Some(m) => m,
            None => DEFAULT_MEMORY_LIMIT_MB,
        },
        r.env_vars == req.env_vars,
        r.mode == (if force_one_shot {
            Some(SandboxMode::OneShot)
        } else {
            match req.mode {
                Some(tag) => Some(spec_mode_of_tag(tag@)),
                None => None,
            }
        }),
        r.install_deps == req.install_deps,
        r.dev_server == req.dev_server,
        match (r.files, req.files) {
            (Some(out), Some(given)) => out@.len() == given@.len() && forall|i: int|
                0 <= i < given@.len() ==> out@[i].path == given@[i].path && out@[i].content
                    == given@[i].content && out@[i].is_executable
                    == given@[i].is_executable,
            (None, None) => true,
            _ => false,
        },
{
    let timeout_ms = match req.timeout_ms {
        Some(t) => t,
        None => DEFAULT_TIMEOUT_MS,
    };
    let memory_limit_mb = match req.memory_limit_mb {
        Some(m) => m,
        None => DEFAULT_MEMORY_LIMIT_MB,
    };
    let mode = if force_one_shot {
        Some(SandboxMode::OneShot)
    } else {
        match &req.mode {
            Some(tag) => Some(mode_of_tag(tag.as_str())),
            None => None,
        }
    };
    let files = match req.files {
        Some(fs) => Some(convert_files(fs)),
        None => None,
    };
    SandboxRequest {
        id,
        runtime: req.runtime,
        code: req.code,
        entry_point: req.entry_point,
        timeout_ms,
        memory_limit_mb,
        env_vars: req.env_vars,
        files,
        mode,
        install_deps: req.install_deps,
        dev_server: req.dev_server,
    }
}

/// The execution-result body for a response of sandbox `id`.
pub fn execution_result(sandbox_id: String, r: SandboxResponse) -> (res: ExecutionResult)
    ensures
        res.sandbox_id == sandbox_id,
        res.success == r.success,
        res.stdout == r.stdout,
        res.stderr == r.stderr,
        res.exit_code == r.exit_code,
        res.execution_time_ms == r.execution_time_ms,
{
    ExecutionResult {
        sandbox_id,
        success: r.success,
        stdout: r.stdout,
        stderr: r.stderr,
        exit_code: r.exit_code,
        execution_time_ms: r.execution_time_ms,
    }
}

} // verus!
