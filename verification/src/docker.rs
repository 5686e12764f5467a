//! The Docker backend planner: the container configuration and every shell
//! command the engine is asked to exec — file materialization, dependency
//! install, dev-server start and restart, and the readiness probe — are
//! computed and specified here; the embedding program sends them over the
//! engine's HTTP API. File contents travel base64-encoded through the shell,
//! so arbitrary payloads arrive byte for byte.

use vstd::prelude::*;
use vstd::string::StringSliceAdditionalSpecFns;
use vstd::utf8::encode_utf8;
use crate::backend::{SandboxBackend, SandboxBackendType};
use crate::errors::SandboxError;
use crate::runtime::RuntimeType;
use crate::sandbox::{SandboxFile, SandboxMode, SandboxRequest, SandboxResponse};
use crate::text;

verus! {

pub struct DockerBackend {}

impl DockerBackend {
    pub fn new() -> (r: DockerBackend) {
        DockerBackend {  }
    }
}

impl SandboxBackend for DockerBackend {
    open spec fn spec_backend_type(&self) -> SandboxBackendType {
        SandboxBackendType::Docker
    }

    open spec fn spec_supports_persistent(&self) -> bool {
        true
    }

    fn backend_type(&self) -> (t: SandboxBackendType) {
        SandboxBackendType::Docker
    }

    fn supports_persistent(&self) -> (b: bool) {
        true
    }
}

/// How long a restarted process family settles before the new command runs.
pub const RESTART_SETTLE_MS: u64 = 500;

/// How long a freshly started dev server is given before the probe runs.
pub const DEV_SERVER_STARTUP_WAIT_MS: u64 = 5000;

/// The container shape for a sandbox: everything the engine's create call
/// needs, as plain values.
pub struct ContainerConfig {
    pub image: String,
    pub container_name: String,
    pub working_dir: String,
    pub env: Vec<String>,
    pub idle_command: Option<Vec<String>>,
    pub memory_bytes: i64,
    pub cpu_quota: i64,
    pub cpu_period: i64,
    pub network_mode: String,
    pub readonly_rootfs: bool,
    pub host_port: Option<u16>,
    pub tmp_tmpfs: String,
    pub sandbox_tmpfs: String,
    pub expose_dev_port: bool,
}

/// Whether a request runs in persistent mode.
pub open spec fn spec_is_persistent(req: &SandboxRequest) -> bool {
    req.mode == Some(SandboxMode::Persistent)
}

/// Whether a request asks for a dev server.
pub open spec fn spec_wants_dev_server(req: &SandboxRequest) -> bool {
    req.dev_server == Some(true)
}

/// The container shape for `req`: memory capped at the request's byte count,
/// half a core, `/sandbox` as a tmpfs writable only in persistent mode,
/// network only for a persistent dev server, and port 3000 bound to the
/// given host port exactly then.
pub fn container_config(req: &SandboxRequest, image: &str, host_port: Option<u16>) -> (cc:
    ContainerConfig)
    requires
        req.memory_limit_mb <= crate::sandbox::MAX_MEMORY_LIMIT_MB,
    ensures
        cc.image@ == image@,
        cc.container_name == req.id,
        cc.working_dir@ == "/sandbox"@,
        cc.env@.len() == req.env_vars@.len(),
        forall|i: int|
            0 <= i < req.env_vars@.len() ==> (#[trigger] cc.env@[i])@ == req.env_vars@[i].0@
                + "="@ + req.env_vars@[i].1@,
        (match cc.idle_command {
            Some(v) => spec_is_persistent(req) && v@.len() == 3 && v@[0]@ == "tail"@
                && v@[1]@ == "-f"@ && v@[2]@ == "/dev/null"@,
            None => !spec_is_persistent(req),
        }),
        cc.memory_bytes == req.memory_limit_mb * 1024 * 1024,
        cc.cpu_quota == 50000,
        cc.cpu_period == 100000,
        cc.network_mode@ == (if spec_is_persistent(req) && spec_wants_dev_server(req) {
            "bridge"@
        } else {
            "none"@
        }),
        cc.readonly_rootfs == !spec_is_persistent(req),
        cc.host_port == (if spec_is_persistent(req) && spec_wants_dev_server(req) {
            host_port
        } else {
            None
        }),
        cc.tmp_tmpfs@ == "size=10m"@,
        cc.sandbox_tmpfs@ == (if spec_is_persistent(req) {
            "size=500m"@
        } else {
            "size=50m"@
        }),
        cc.expose_dev_port == (spec_is_persistent(req) && spec_wants_dev_server(req)),
{
    let is_persistent = match req.mode {
        Some(SandboxMode::Persistent) => true,
        _ => false,
    };
    let has_dev = match req.dev_server {
        Some(d) => d,
        None => false,
    };
    let n = req.env_vars.len();
    let mut env: Vec<String> = Vec::new();
    let mut i: usize = 0;
    while i < n
        invariant
            n == req.env_vars@.len(),
            0 <= i <= n,
            env@.len() == i,
            forall|p: int|
                0 <= p < i ==> (#[trigger] env@[p])@ == req.env_vars@[p].0@ + "="@
                    + req.env_vars@[p].1@,
        decreases n - i,
    {
        let pair = &req.env_vars[i];
        let mut entry = pair.0.clone();
        entry.append("=");
        entry.append(pair.1.as_str());
        env.push(entry);
        i += 1;
    }
    let idle_command = if is_persistent {
        let mut cmd: Vec<String> = Vec::new();
        cmd.push(String::from_str("tail"));
        cmd.push(String::from_str("-f"));
        cmd.push(String::from_str("/dev/null"));
        Some(cmd)
    } else {
        None
    };
    ContainerConfig {
        image: String::from_str(image),
        container_name: req.id.clone(),
        working_dir: String::from_str("/sandbox"),
        env,
        idle_command,
        memory_bytes: (req.memory_limit_mb * 1024 * 1024) as i64,
        cpu_quota: 50000,
        cpu_period: 100000,
        network_mode: if is_persistent && has_dev {
            String::from_str("bridge")
        } else {
            String::from_str("none")
        },
        readonly_rootfs: !is_persistent,
        host_port: if is_persistent && has_dev {
            host_port
        } else {
            None
        },
        tmp_tmpfs: String::from_str("size=10m"),
        sandbox_tmpfs: if is_persistent {
            String::from_str("size=500m")
        } else {
            String::from_str("size=50m")
        },
        expose_dev_port: is_persistent && has_dev,
    }
}

/// Whether the submitted files already provide a main source: any path
/// naming `index` or `main`.
pub open spec fn spec_main_file_provided(files: &Option<Vec<SandboxFile>>) -> bool {
    match files {
        Some(fs) => exists|i: int|
            0 <= i < fs@.len() && (text::contains_seq(#[trigger] fs@[i].path@, "index"@)
                || text::contains_seq(fs@[i].path@, "main"@)),
        None => false,
    }
}

pub fn main_file_provided(files: &Option<Vec<SandboxFile>>) -> (r: bool)
    ensures
        r == spec_main_file_provided(files),
{
    match files {
        Some(fs) => {
            let n = fs.len();
            let mut i: usize = 0;
            while i < n
                invariant
                    *files == Some(*fs),
                    n == fs@.len(),
                    0 <= i <= n,
                    forall|p: int|
                        0 <= p < i ==> !(text::contains_seq(
                            #[trigger] fs@[p].path@,
                            "index"@,
                        ) || text::contains_seq(fs@[p].path@, "main"@)),
                decreases n - i,
            {
                let f = &fs[i];
                if text::contains_str(f.path.as_str(), "index") || text::contains_str(
                    f.path.as_str(),
                    "main",
                ) {
                    proof {
                        assert(text::contains_seq(fs@[i as int].path@, "index"@)
                            || text::contains_seq(fs@[i as int].path@, "main"@));
                    }
                    return true;
                }
                i += 1;
            }
            false
        },
        None => false,
    }
}

/// Where a submitted file lands in the container: absolute paths as given,
/// relative ones under `/sandbox/`.
pub open spec fn spec_file_dest(path: Seq<char>) -> Seq<char> {
    if text::starts_with_seq(path, "/"@) {
        path
    } else {
        "/sandbox/"@ + path
    }
}

pub fn resolve_file_dest(path: &str) -> (r: String)
    ensures
        r@ == spec_file_dest(path@),
{
    if text::starts_with(path, "/") {
        String::from_str(path)
    } else {
        let mut dest = String::from_str("/sandbox/");
        dest.append(path);
        dest
    }
}

/// The shell command that writes `bytes` to `dest` byte for byte: parent
/// directories are created, and the payload travels base64-encoded, so no
/// byte of it can collide with shell syntax.
pub open spec fn spec_write_file_cmd(dest: Seq<char>, bytes: Seq<u8>) -> Seq<char> {
    (if text::spec_dir_split(dest) > 0 {
        "mkdir -p "@ + text::spec_shell_quoted(
            dest.subrange(0, text::spec_dir_split(dest)),
        ) + " && "@
    } else {
        Seq::<char>::empty()
    }) + "printf '%s' "@ + text::b64_of(bytes) + " | base64 -d > "@
        + text::spec_shell_quoted(dest)
}

/// The command materializing `content` at `dest`.
pub fn write_file_command(dest: &str, content: &str) -> (cmd: String)
    ensures
        cmd@ == spec_write_file_cmd(dest@, encode_utf8(content@)),
{
    let split = text::dir_split(dest);
    let mut cmd = String::new();
    if split > 0 {
        let dir = dest.substring_char(0, split);
        let quoted_dir = text::shell_quote(dir);
        cmd.append("mkdir -p ");
        cmd.append(quoted_dir.as_str());
        cmd.append(" && ");
    }
    cmd.append("printf '%s' ");
    let payload = text::base64_encode(content.as_bytes());
    cmd.append(payload.as_str());
    cmd.append(" | base64 -d > ");
    let quoted_dest = text::shell_quote(dest);
    cmd.append(quoted_dest.as_str());
    proof {
        assert(cmd@ =~= spec_write_file_cmd(dest@, encode_utf8(content@)));
    }
    cmd
}

/// The command marking `path` executable.
pub fn chmod_command(path: &str) -> (cmd: String)
    ensures
        cmd@ == "chmod +x "@ + text::spec_shell_quoted(path@),
{
    let mut cmd = String::from_str("chmod +x ");
    let quoted = text::shell_quote(path);
    cmd.append(quoted.as_str());
    cmd
}

/// The minimal `package.json` synthesized when a deployment brings none.
pub fn package_json(rt: RuntimeType) -> (r: &'static str)
    ensures
        r@ == match rt {
            RuntimeType::Bun => (
            "{\n  \"name\": \"faas-bun-app\",\n  \"version\": \"1.0.0\",\n  \"type\": \"module\",\n  \"scripts\": {\n    \"dev\": \"bun run index.js\",\n    \"start\": \"bun run index.js\"\n  },\n  \"dependencies\": {},\n  \"devDependencies\": {}\n}")@,
            RuntimeType::Node => (
            "{\n  \"name\": \"faas-node-app\",\n  \"version\": \"1.0.0\",\n  \"main\": \"index.js\",\n  \"scripts\": {\n    \"dev\": \"node index.js\",\n    \"start\": \"node index.js\"\n  },\n  \"dependencies\": {},\n  \"devDependencies\": {}\n}")@,
            RuntimeType::TypeScript => (
            "{\n  \"name\": \"faas-app\",\n  \"version\": \"1.0.0\",\n  \"main\": \"index.js\",\n  \"scripts\": {\n    \"dev\": \"node index.js\",\n    \"start\": \"node index.js\"\n  },\n  \"dependencies\": {},\n  \"devDependencies\": {}\n}")@,
        },
{
    match rt {
        RuntimeType::Bun => "{\n  \"name\": \"faas-bun-app\",\n  \"version\": \"1.0.0\",\n  \"type\": \"module\",\n  \"scripts\": {\n    \"dev\": \"bun run index.js\",\n    \"start\": \"bun run index.js\"\n  },\n  \"dependencies\": {},\n  \"devDependencies\": {}\n}",
        RuntimeType::Node => "{\n  \"name\": \"faas-node-app\",\n  \"version\": \"1.0.0\",\n  \"main\": \"index.js\",\n  \"scripts\": {\n    \"dev\": \"node index.js\",\n    \"start\": \"node index.js\"\n  },\n  \"dependencies\": {},\n  \"devDependencies\": {}\n}",
        RuntimeType::TypeScript => "{\n  \"name\": \"faas-app\",\n  \"version\": \"1.0.0\",\n  \"main\": \"index.js\",\n  \"scripts\": {\n    \"dev\": \"node index.js\",\n    \"start\": \"node index.js\"\n  },\n  \"dependencies\": {},\n  \"devDependencies\": {}\n}",
    }
}

/// The probe for an existing `package.json`.
pub fn check_package_command() -> (r: &'static str)
    ensures
        r@ == (
        "test -f /sandbox/package.json && echo 'package.json found' || echo 'package.json not found'")@,
{
    "test -f /sandbox/package.json && echo 'package.json found' || echo 'package.json not found'"
}

/// Reads the probe's answer: no `package.json` is present.
pub fn package_json_missing(output: &str) -> (r: bool)
    ensures
        r == text::contains_seq(output@, "package.json not found"@),
{
    text::contains_str(output, "package.json not found")
}

/// Whether setup installs dependencies: asked for directly or implied by a
/// dev server.
pub open spec fn spec_wants_install(req: &SandboxRequest) -> bool {
    req.install_deps == Some(true) || req.dev_server == Some(true)
}

pub fn wants_install(req: &SandboxRequest) -> (r: bool)
    ensures
        r == spec_wants_install(req),
{
    let install = match req.install_deps {
        Some(b) => b,
        None => false,
    };
    let dev = match req.dev_server {
        Some(b) => b,
        None => false,
    };
    install || dev
}

/// The dev-server command a persistent sandbox starts: the entry point
/// override, or the runtime default, run from `/sandbox`.
pub open spec fn spec_dev_command(req: &SandboxRequest) -> Seq<char> {
    match req.entry_point {
        Some(e) => "cd /sandbox && "@ + e@,
        None => if req.runtime@ == "bun"@ {
            "cd /sandbox && bun dev"@
        } else if req.runtime@ == "node"@ || req.runtime@ == "nodejs"@ {
            "cd /sandbox && npm run dev"@
        } else {
            "cd /sandbox && bun dev"@
        },
    }
}

pub fn dev_command(req: &SandboxRequest) -> (cmd: String)
    ensures
        cmd@ == spec_dev_command(req),
{
    match &req.entry_point {
        Some(e) => {
            let mut cmd = String::from_str("cd /sandbox && ");
            cmd.append(e.as_str());
            cmd
        },
        None => {
            let tag = req.runtime.as_str();
            if text::str_eq(tag, "bun") {
                String::from_str("cd /sandbox && bun dev")
            } else if text::str_eq(tag, "node") || text::str_eq(tag, "nodejs") {
                String::from_str("cd /sandbox && npm run dev")
            } else {
                String::from_str("cd /sandbox && bun dev")
            }
        },
    }
}

/// Detaches a command, sending both streams to the dev-server log.
pub fn background_command(cmd: &str) -> (r: String)
    ensures
        r@ == cmd@ + " > /sandbox/dev-server.log 2>&1 &"@,
{
    let mut out = String::from_str(cmd);
    out.append(" > /sandbox/dev-server.log 2>&1 &");
    out
}

/// The kill pattern for a dev-server restart, keyed on the command's root
/// word.
pub open spec fn spec_kill_command(command: Seq<char>) -> Seq<char> {
    if text::contains_seq(command, "bun"@) {
        "pkill -f 'bun.*dev' || true"@
    } else if text::contains_seq(command, "npm"@) {
        "pkill -f 'npm.*run' || true"@
    } else if text::contains_seq(command, "node"@) {
        "pkill -f 'node.*' || true"@
    } else {
        "pkill -f 'dev' || true"@
    }
}

pub fn kill_command(command: &str) -> (r: &'static str)
    ensures
        r@ == spec_kill_command(command@),
{
    if text::contains_str(command, "bun") {
        "pkill -f 'bun.*dev' || true"
    } else if text::contains_str(command, "npm") {
        "pkill -f 'npm.*run' || true"
    } else if text::contains_str(command, "node") {
        "pkill -f 'node.*' || true"
    } else {
        "pkill -f 'dev' || true"
    }
}

/// The command restarting a dev server after the settle interval: detached
/// under `nohup` from `/sandbox`, streams to the dev-server log.
pub fn restart_start_command(command: &str) -> (r: String)
    ensures
        r@ == "cd /sandbox && nohup "@ + command@ + " > /sandbox/dev-server.log 2>&1 &"@,
{
    let mut out = String::from_str("cd /sandbox && nohup ");
    out.append(command);
    out.append(" > /sandbox/dev-server.log 2>&1 &");
    out
}

/// How an exec's streamed output is judged during setup: clean, or empty,
/// stderr passes; stderr mentioning an error at any case fails.
pub open spec fn spec_exec_output_ok(stderr: Seq<char>) -> bool {
    stderr.len() == 0 || (!text::contains_seq(stderr, "error"@) && !text::contains_seq(
        stderr,
        "Error"@,
    ) && !text::contains_seq(stderr, "ERROR"@))
}

pub fn exec_output_ok(stderr: &str) -> (r: bool)
    ensures
        r == spec_exec_output_ok(stderr@),
{
    if stderr.is_empty() {
        return true;
    }
    !text::contains_str(stderr, "error") && !text::contains_str(stderr, "Error")
        && !text::contains_str(stderr, "ERROR")
}

/// The response for a one-shot exec whose streams were collected: success
/// exactly when stderr stayed empty, surfaced as exit code 0 or 1.
pub fn stream_response(stdout: String, stderr: String, execution_time_ms: u64) -> (r:
    SandboxResponse)
    ensures
        r.success == (stderr@.len() == 0),
        r.stdout == stdout,
        r.stderr == stderr,
        r.exit_code == Some(if stderr@.len() == 0 {
            0i32
        } else {
            1i32
        }),
        r.execution_time_ms == execution_time_ms,
        r.is_running == Some(false),
        r.dev_server_url is None,
{
    let success = stderr.as_str().is_empty();
    SandboxResponse {
        success,
        stdout,
        stderr,
        exit_code: Some(
            if success {
                0
            } else {
                1
            },
        ),
        execution_time_ms,
        is_running: Some(false),
        dev_server_url: None,
    }
}

/// The response when an exec detaches instead of attaching its streams.
pub fn detached_response(execution_time_ms: u64) -> (r: SandboxResponse)
    ensures
        r.success == false,
        r.stdout@.len() == 0,
        r.stderr@ == "Execution detached unexpectedly"@,
        r.exit_code == Some(1i32),
        r.execution_time_ms == execution_time_ms,
        r.is_running == Some(false),
        r.dev_server_url is None,
{
    SandboxResponse {
        success: false,
        stdout: String::new(),
        stderr: String::from_str("Execution detached unexpectedly"),
        exit_code: Some(1),
        execution_time_ms,
        is_running: Some(false),
        dev_server_url: None,
    }
}

/// The response once a persistent container's setup completed: the
/// container keeps running, reachable on its dev-server URL.
pub fn persistent_setup_response(dev_server: bool, execution_time_ms: u64) -> (r:
    SandboxResponse)
    ensures
        r.success == true,
        r.stdout@ == (if dev_server {
            "Persistent container with dev server setup completed"@
        } else {
            "Persistent container setup completed"@
        }),
        r.stderr@.len() == 0,
        r.exit_code == Some(0i32),
        r.execution_time_ms == execution_time_ms,
        r.is_running == Some(true),
        (match r.dev_server_url {
            Some(u) => u@ == "http://localhost:3000"@,
            None => false,
        }),
{
    SandboxResponse {
        success: true,
        stdout: if dev_server {
            String::from_str("Persistent container with dev server setup completed")
        } else {
            String::from_str("Persistent container setup completed")
        },
        stderr: String::new(),
        exit_code: Some(0),
        execution_time_ms,
        is_running: Some(true),
        dev_server_url: Some(String::from_str("http://localhost:3000")),
    }
}

/// Stage one of the readiness probe: a listener on port 3000.
pub fn port_check_command() -> (r: &'static str)
    ensures
        r@ == (
        "netstat -tlnp 2>/dev/null | grep ':3000' || ss -tlnp 2>/dev/null | grep ':3000' || echo 'No process on port 3000'")@,
{
    "netstat -tlnp 2>/dev/null | grep ':3000' || ss -tlnp 2>/dev/null | grep ':3000' || echo 'No process on port 3000'"
}

/// The diagnostic listing runtime processes when stage one fails.
pub fn process_check_command() -> (r: &'static str)
    ensures
        r@ == (
        "ps aux | grep -E '(node|bun|npm)' | grep -v grep || echo 'No Node/Bun processes running'")@,
{
    "ps aux | grep -E '(node|bun|npm)' | grep -v grep || echo 'No Node/Bun processes running'"
}

/// Stage two: an HTTP fetch, falling back to a raw connect.
pub fn http_check_command() -> (r: &'static str)
    ensures
        r@ == (
        "wget -q -O- --timeout=5 http://localhost:3000 2>/dev/null || nc -z localhost 3000 && echo 'PORT_ACCESSIBLE' || echo 'HTTP_CHECK_FAILED'")@,
{
    "wget -q -O- --timeout=5 http://localhost:3000 2>/dev/null || nc -z localhost 3000 && echo 'PORT_ACCESSIBLE' || echo 'HTTP_CHECK_FAILED'"
}

/// Stage three: the single retry after a short wait.
pub fn retry_check_command() -> (r: &'static str)
    ensures
        r@ == (
        "sleep 2 && nc -z localhost 3000 && echo 'PORT_ACCESSIBLE_RETRY' || echo 'HTTP_RETRY_FAILED'")@,
{
    "sleep 2 && nc -z localhost 3000 && echo 'PORT_ACCESSIBLE_RETRY' || echo 'HTTP_RETRY_FAILED'"
}

/// Stage one failed: no listener on port 3000.
pub open spec fn spec_port_check_failed(output: Seq<char>) -> bool {
    text::contains_seq(output, "No process on port 3000"@)
}

pub fn port_check_failed(output: &str) -> (r: bool)
    ensures
        r == spec_port_check_failed(output@),
{
    text::contains_str(output, "No process on port 3000")
}

/// Stage two failed: neither the fetch nor the raw connect answered.
pub open spec fn spec_http_check_failed(output: Seq<char>) -> bool {
    text::contains_seq(output, "HTTP_CHECK_FAILED"@)
}

pub fn http_check_failed(output: &str) -> (r: bool)
    ensures
        r == spec_http_check_failed(output@),
{
    text::contains_str(output, "HTTP_CHECK_FAILED")
}

/// Stage three failed: the retry could not connect either.
pub open spec fn spec_retry_failed(output: Seq<char>) -> bool {
    text::contains_seq(output, "HTTP_RETRY_FAILED"@)
}

pub fn retry_failed(output: &str) -> (r: bool)
    ensures
        r == spec_retry_failed(output@),
{
    text::contains_str(output, "HTTP_RETRY_FAILED")
}

/// The probe's verdict from its stage outputs: a missing listener fails; a
/// clean HTTP check passes; a failed HTTP check passes exactly when the
/// retry connects. Stages that never ran arrive as `None`.
pub fn health_outcome(
    port_output: &str,
    http_output: Option<&str>,
    retry_output: Option<&str>,
) -> (r: Result<(), SandboxError>)
    requires
        !spec_port_check_failed(port_output@) ==> http_output is Some,
        (http_output matches Some(h) && spec_http_check_failed(h@)) ==> retry_output is Some,
    ensures
        match r {
            Ok(_) => !spec_port_check_failed(port_output@) && (match (
                http_output,
                retry_output,
            ) {
                (Some(h), Some(t)) => !spec_http_check_failed(h@) || !spec_retry_failed(t@),
                (Some(h), None) => !spec_http_check_failed(h@),
                _ => false,
            }),
            Err(SandboxError::HealthCheckFailed) => spec_port_check_failed(port_output@) || (
            match (http_output, retry_output) {
                (Some(h), Some(t)) => spec_http_check_failed(h@) && spec_retry_failed(t@),
                _ => false,
            }),
            Err(_) => false,
        },
{
    if port_check_failed(port_output) {
        return Err(SandboxError::HealthCheckFailed);
    }
    // The preconditions guarantee the later stages' outputs are present
    // whenever the earlier ones call for them.
    let http = match http_output {
        Some(h) => h,
        None => {
            proof {
                assert(false);
            }
            return Err(SandboxError::HealthCheckFailed);
        },
    };
    if !http_check_failed(http) {
        return Ok(());
    }
    let retry = match retry_output {
        Some(t) => t,
        None => {
            proof {
                assert(false);
            }
            return Err(SandboxError::HealthCheckFailed);
        },
    };
    if retry_failed(retry) {
        Err(SandboxError::HealthCheckFailed)
    } else {
        Ok(())
    }
}

} // verus!
