//! The jail backend planner: the full argument list for the jail binary —
//! chroot, mounts, resource limits, wall-clock limit — computed and
//! specified here; the embedding program spawns the process over a temp
//! directory it owns. One-shot mode only.

use vstd::prelude::*;
use crate::backend::{SandboxBackend, SandboxBackendType};
use crate::runtime::RuntimeType;
use crate::text;

verus! {

pub struct NsjailBackend {}

impl NsjailBackend {
    pub fn new() -> (r: NsjailBackend) {
        NsjailBackend {  }
    }
}

impl SandboxBackend for NsjailBackend {
    open spec fn spec_backend_type(&self) -> SandboxBackendType {
        SandboxBackendType::Nsjail
    }

    open spec fn spec_supports_persistent(&self) -> bool {
        false
    }

    fn backend_type(&self) -> (t: SandboxBackendType) {
        SandboxBackendType::Nsjail
    }

    fn supports_persistent(&self) -> (b: bool) {
        false
    }
}

/// The grace period added to the request timeout before the spawned process
/// is abandoned: the jail gets the request's own wall-clock limit, the host
/// waits one second longer.
pub const JAIL_WAIT_GRACE_MS: u64 = 1000;

/// The command run inside the jail, by runtime.
pub open spec fn spec_runtime_argv(rt: RuntimeType) -> Seq<Seq<char>> {
    match rt {
        RuntimeType::Node => seq!["node"@, "index.js"@],
        RuntimeType::Bun => seq!["bun"@, "run"@, "index.js"@],
        RuntimeType::TypeScript => seq!["npx"@, "ts-node"@, "index.ts"@],
    }
}

/// The jail's argument list: once mode, chroot at the sandbox directory,
/// unprivileged user, a 50 MiB tmpfs root with the sandbox directory bound
/// at `/sandbox`, the request's memory cap as an address-space limit, fixed
/// CPU, file-size and open-file limits, dropped capabilities, and a
/// wall-clock limit of the request timeout in whole seconds; the runtime's
/// command follows the terminator.
pub open spec fn spec_nsjail_args(
    dir: Seq<char>,
    memory_limit_mb: u64,
    timeout_ms: u64,
    rt: RuntimeType,
) -> Seq<Seq<char>> {
    seq![
        "--mode"@,
        "o"@,
        "--chroot"@,
        dir,
        "--user"@,
        "nobody"@,
        "--group"@,
        "nogroup"@,
        "--hostname"@,
        "sandbox"@,
        "--cwd"@,
        "/"@,
        "--mount"@,
        "none,/,tmpfs,rw,size=50m"@,
        "--mount"@,
        dir + ",/sandbox,bind,rw"@,
        "--rlimit_as"@,
        text::dec_of(memory_limit_mb * 1024 * 1024),
        "--rlimit_cpu"@,
        "30"@,
        "--rlimit_fsize"@,
        "10485760"@,
        "--rlimit_nofile"@,
        "64"@,
        "--disable_no_new_privs"@,
        "--cap"@,
        "-all"@,
        "--seccomp_policy"@,
        "/dev/null"@,
        "--time_limit"@,
        text::dec_of(timeout_ms as int / 1000),
        "--really_quiet"@,
        "--"@,
    ] + spec_runtime_argv(rt)
}

/// Builds the jail's argument list for a run of `rt` over `sandbox_dir`.
pub fn nsjail_args(
    sandbox_dir: &str,
    memory_limit_mb: u64,
    timeout_ms: u64,
    rt: RuntimeType,
) -> (r: Vec<String>)
    requires
        memory_limit_mb <= crate::sandbox::MAX_MEMORY_LIMIT_MB,
    ensures
        r.deep_view() =~~= spec_nsjail_args(sandbox_dir@, memory_limit_mb, timeout_ms, rt),
{
    let mut args: Vec<String> = Vec::new();
    args.push(String::from_str("--mode"));
    args.push(String::from_str("o"));
    args.push(String::from_str("--chroot"));
    args.push(String::from_str(sandbox_dir));
    args.push(String::from_str("--user"));
    args.push(String::from_str("nobody"));
    args.push(String::from_str("--group"));
    args.push(String::from_str("nogroup"));
    args.push(String::from_str("--hostname"));
    args.push(String::from_str("sandbox"));
    args.push(String::from_str("--cwd"));
    args.push(String::from_str("/"));
    args.push(String::from_str("--mount"));
    args.push(String::from_str("none,/,tmpfs,rw,size=50m"));
    args.push(String::from_str("--mount"));
    let mut bind = String::from_str(sandbox_dir);
    bind.append(",/sandbox,bind,rw");
    args.push(bind);
    args.push(String::from_str("--rlimit_as"));
    args.push(text::u64_to_dec(memory_limit_mb * 1024 * 1024));
    args.push(String::from_str("--rlimit_cpu"));
    args.push(String::from_str("30"));
    args.push(String::from_str("--rlimit_fsize"));
    args.push(String::from_str("10485760"));
    args.push(String::from_str("--rlimit_nofile"));
    args.push(String::from_str("64"));
    args.push(String::from_str("--disable_no_new_privs"));
    args.push(String::from_str("--cap"));
    args.push(String::from_str("-all"));
    args.push(String::from_str("--seccomp_policy"));
    args.push(String::from_str("/dev/null"));
    args.push(String::from_str("--time_limit"));
    args.push(text::u64_to_dec(timeout_ms / 1000));
    args.push(String::from_str("--really_quiet"));
    args.push(String::from_str("--"));
    match rt {
        RuntimeType::Node => {
            args.push(String::from_str("node"));
            args.push(String::from_str("index.js"));
        },
        RuntimeType::Bun => {
            args.push(String::from_str("bun"));
            args.push(String::from_str("run"));
            args.push(String::from_str("index.js"));
        },
        RuntimeType::TypeScript => {
            args.push(String::from_str("npx"));
            args.push(String::from_str("ts-node"));
            args.push(String::from_str("index.ts"));
        },
    }
    proof {
        assert(args.deep_view() =~~= spec_nsjail_args(
            sandbox_dir@,
            memory_limit_mb,
            timeout_ms,
            rt,
        ));
    }
    args
}

/// How long the host waits for the jailed process: the request timeout plus
/// the grace period.
pub fn jail_wait_ms(timeout_ms: u64) -> (r: u64)
    requires
        timeout_ms <= crate::sandbox::MAX_TIMEOUT_MS,
    ensures
        r == timeout_ms + JAIL_WAIT_GRACE_MS,
{
    timeout_ms + JAIL_WAIT_GRACE_MS
}

/// The name of the main source file materialized for a jailed run.
pub fn main_source_name(rt: RuntimeType) -> (r: &'static str)
    ensures
        r@ == match rt {
            RuntimeType::Node => "index.js"@,
            RuntimeType::Bun => "index.js"@,
            RuntimeType::TypeScript => "index.ts"@,
        },
{
    match rt {
        RuntimeType::Node => "index.js",
        RuntimeType::Bun => "index.js",
        RuntimeType::TypeScript => "index.ts",
    }
}

} // verus!
