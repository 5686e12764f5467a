//! The FaaS deployment manager: stable deployment identities layered over
//! the sandbox manager, URL issuance, host-port allocation, file-patch and
//! restart planning, and idle-eviction selection. Every live deployment
//! references exactly one live sandbox with an allocated dev-server port,
//! unique across deployments.

use vstd::prelude::*;
use crate::clock;
use crate::errors::SandboxError;
use crate::manager::{spec_files_or_empty, spec_same_but_files, SandboxManager};
use crate::ports::PortAllocator;
use crate::registry::{Keyed, Registry};
use crate::runtime::spec_runtime_of_tag;
use crate::sandbox::{
    Sandbox, SandboxFile, SandboxMode, SandboxRequest, SandboxResponse, SandboxStatus,
};
use crate::text;

verus! {

/// A request to deploy a serverless function.
pub struct DeploymentRequest {
    pub runtime: String,
    pub code: String,
    pub files: Option<Vec<FileSpec>>,
    pub env_vars: Option<Vec<(String, String)>>,
    pub memory_limit_mb: Option<u32>,
    pub entry_point: Option<String>,
    pub auto_scale: Option<AutoScaleConfig>,
    pub dev_server: Option<bool>,
}

/// An auxiliary file of a deployment.
pub struct FileSpec {
    pub path: String,
    pub content: String,
    pub executable: Option<bool>,
}

/// Auto-scaling settings; only the idle threshold drives behaviour here.
#[derive(Clone, Copy, Debug, PartialEq, Eq, Structural)]
pub struct AutoScaleConfig {
    pub min_instances: Option<u32>,
    pub max_instances: Option<u32>,
    pub scale_down_after_minutes: Option<u32>,
}

/// A request to patch files into a running deployment.
pub struct FileUpdateRequest {
    pub files: Vec<FileSpec>,
    pub restart_dev_server: Option<bool>,
}

#[derive(Clone, Copy, Debug, PartialEq, Eq, Structural)]
pub enum DeploymentStatus {
    Deploying,
    Running,
    Scaling,
    Stopped,
    Failed,
}

/// The public descriptor of a deployment.
pub struct DeploymentResponse {
    pub deployment_id: String,
    pub url: String,
    pub sandbox_id: String,
    pub status: DeploymentStatus,
    pub created_at_ms: i64,
    pub runtime: String,
    pub memory_mb: u32,
}

/// A live deployment record.
pub struct Deployment {
    pub id: String,
    pub sandbox_id: String,
    pub url: String,
    pub status: DeploymentStatus,
    pub created_at_ms: i64,
    pub last_accessed_ms: i64,
    pub runtime: String,
    pub memory_mb: u32,
    pub auto_scale: AutoScaleConfig,
    pub request: DeploymentRequest,
}

impl Keyed for Deployment {
    open spec fn key(&self) -> Seq<char> {
        self.id@
    }

    fn key_matches(&self, k: &str) -> (b: bool) {
        text::str_eq(self.id.as_str(), k)
    }
}

/// What the container work for one file update needs: the backing sandbox,
/// the files to write, and the dev-server command to restart with, if any.
pub struct FileUpdatePlan {
    pub sandbox_id: String,
    pub files: Vec<SandboxFile>,
    pub restart_command: Option<String>,
}

/// A deployment's memory grant: the requested cap or 256 MiB.
pub open spec fn spec_memory_mb(request: &DeploymentRequest) -> u32 {
    match request.memory_limit_mb {
        Some(m) => m,
        None => 256u32,
    }
}

/// The default dev command a deployment starts with, by runtime tag.
pub open spec fn spec_default_deploy_entry(tag: Seq<char>) -> Seq<char> {
    if tag == "bun"@ {
        "bun dev"@
    } else if tag == "node"@ || tag == "nodejs"@ {
        "npm run dev"@
    } else if tag == "typescript"@ || tag == "ts"@ {
        "bun dev"@
    } else {
        "npm run dev"@
    }
}

/// The entry point a deployment starts with: its override or the default.
pub open spec fn spec_deploy_entry(request: &DeploymentRequest) -> Seq<char> {
    match request.entry_point {
        Some(e) => e@,
        None => spec_default_deploy_entry(request.runtime@),
    }
}

/// The default command a dev server is restarted with, by runtime tag.
pub open spec fn spec_default_restart(tag: Seq<char>) -> Seq<char> {
    if tag == "bun"@ {
        "bun dev"@
    } else if tag == "node"@ || tag == "nodejs"@ {
        "npm run dev"@
    } else {
        "bun dev"@
    }
}

/// The command a deployment's dev server is restarted with.
pub open spec fn spec_restart_command(request: &DeploymentRequest) -> Seq<char> {
    match request.entry_point {
        Some(e) => e@,
        None => spec_default_restart(request.runtime@),
    }
}

/// The auto-scale settings in force: the given ones or the defaults.
pub open spec fn spec_auto_scale_of(request: &DeploymentRequest) -> AutoScaleConfig {
    match request.auto_scale {
        Some(a) => a,
        None => AutoScaleConfig {
            min_instances: Some(0u32),
            max_instances: Some(5u32),
            scale_down_after_minutes: Some(10u32),
        },
    }
}

/// The idle threshold of a deployment, in minutes.
pub open spec fn spec_idle_threshold_min(d: Deployment) -> int {
    match d.auto_scale.scale_down_after_minutes {
        Some(m) => m as int,
        None => 10,
    }
}

/// A deployment is idle at `now_ms` when whole minutes since its last access
/// exceed its threshold.
pub open spec fn spec_is_idle(d: Deployment, now_ms: i64) -> bool {
    now_ms > d.last_accessed_ms && (now_ms - d.last_accessed_ms) / 60000 > spec_idle_threshold_min(d)
}

/// The sandbox request built for a deployment has these fields: persistent
/// mode with a dev server, installs enabled, a five-minute timeout, and the
/// deployment's runtime, code, environment and memory grant.
pub open spec fn spec_faas_request_fields(
    sr: SandboxRequest,
    sandbox_id: Seq<char>,
    request: &DeploymentRequest,
) -> bool {
    &&& sr.id@ == sandbox_id
    &&& sr.runtime@ == request.runtime@
    &&& sr.code@ == request.code@
    &&& (match sr.entry_point {
        Some(e) => e@ == spec_deploy_entry(request),
        None => false,
    })
    &&& sr.timeout_ms == 300000
    &&& sr.memory_limit_mb == spec_memory_mb(request) as u64
    &&& sr.mode == Some(SandboxMode::Persistent)
    &&& sr.dev_server == Some(true)
    &&& sr.install_deps == Some(true)
    &&& (match (sr.files, request.files) {
        (Some(out), Some(given)) => out@.len() == given@.len() && forall|i: int|
            0 <= i < given@.len() ==> (#[trigger] out@[i]).path == given@[i].path
                && out@[i].content == given@[i].content && out@[i].is_executable
                == given@[i].executable,
        (None, None) => true,
        _ => false,
    })
    &&& sr.env_vars@ == (match request.env_vars {
        Some(e) => e@,
        None => Seq::<(String, String)>::empty(),
    })
}

/// A file update restarts the dev server when it asks to (the default) and
/// the deployment runs one.
pub open spec fn spec_should_restart(update: &FileUpdateRequest, d: Deployment) -> bool {
    (match update.restart_dev_server {
        Some(b) => b,
        None => true,
    }) && d.request.dev_server == Some(true)
}

/// Whether `d` is idle at `now_ms`.
fn is_idle_at(d: &Deployment, now_ms: i64) -> (b: bool)
    requires
        0 <= d.last_accessed_ms <= clock::MAX_TIMESTAMP_MS,
        0 <= now_ms <= clock::MAX_TIMESTAMP_MS,
    ensures
        b == spec_is_idle(*d, now_ms),
{
    if now_ms <= d.last_accessed_ms {
        return false;
    }
    let minutes = (now_ms - d.last_accessed_ms) / 60000;
    let threshold: i64 = match d.auto_scale.scale_down_after_minutes {
        Some(m) => m as i64,
        None => 10,
    };
    minutes > threshold
}

/// `resp` is the public descriptor of `d`.
pub open spec fn spec_response_matches(resp: DeploymentResponse, d: Deployment) -> bool {
    &&& resp.deployment_id == d.id
    &&& resp.url == d.url
    &&& resp.sandbox_id == d.sandbox_id
    &&& resp.status == d.status
    &&& resp.created_at_ms == d.created_at_ms
    &&& resp.runtime == d.runtime
    &&& resp.memory_mb == d.memory_mb
}

/// `a` and `b` agree on everything but `last_accessed_ms`.
pub open spec fn spec_same_but_accessed(a: Deployment, b: Deployment) -> bool {
    &&& a.id == b.id
    &&& a.sandbox_id == b.sandbox_id
    &&& a.url == b.url
    &&& a.status == b.status
    &&& a.created_at_ms == b.created_at_ms
    &&& a.runtime == b.runtime
    &&& a.memory_mb == b.memory_mb
    &&& a.auto_scale == b.auto_scale
    &&& a.request == b.request
}

fn clone_pairs(e: &Vec<(String, String)>) -> (r: Vec<(String, String)>)
    ensures
        r@ =~= e@,
{
    let n = e.len();
    let mut out: Vec<(String, String)> = Vec::new();
    let mut i: usize = 0;
    while i < n
        invariant
            n == e@.len(),
            0 <= i <= n,
            out@.len() == i,
            forall|p: int| 0 <= p < i ==> out@[p] == e@[p],
        decreases n - i,
    {
        let pair = &e[i];
        out.push((pair.0.clone(), pair.1.clone()));
        i += 1;
    }
    out
}

fn convert_filespecs(files: &Vec<FileSpec>) -> (r: Vec<SandboxFile>)
    ensures
        r@.len() == files@.len(),
        forall|i: int|
            0 <= i < files@.len() ==> (#[trigger] r@[i]).path == files@[i].path
                && r@[i].content == files@[i].content && r@[i].is_executable
                == files@[i].executable,
{
    let n = files.len();
    let mut out: Vec<SandboxFile> = Vec::new();
    let mut i: usize = 0;
    while i < n
        invariant
            n == files@.len(),
            0 <= i <= n,
            out@.len() == i,
            forall|p: int|
                0 <= p < i ==> (#[trigger] out@[p]).path == files@[p].path && out@[p].content
                    == files@[p].content && out@[p].is_executable == files@[p].executable,
        decreases n - i,
    {
        let f = &files[i];
        out.push(
            SandboxFile {
                path: f.path.clone(),
                content: f.content.clone(),
                is_executable: f.executable,
            },
        );
        i += 1;
    }
    out
}

/// The entry point a deployment starts with.
fn deploy_entry_point(request: &DeploymentRequest) -> (r: String)
    ensures
        r@ == spec_deploy_entry(request),
{
    match &request.entry_point {
        Some(e) => e.clone(),
        None => {
            let tag = request.runtime.as_str();
            if text::str_eq(tag, "bun") {
                String::from_str("bun dev")
            } else if text::str_eq(tag, "node") || text::str_eq(tag, "nodejs") {
                String::from_str("npm run dev")
            } else if text::str_eq(tag, "typescript") || text::str_eq(tag, "ts") {
                String::from_str("bun dev")
            } else {
                String::from_str("npm run dev")
            }
        },
    }
}

/// The command a deployment's dev server is restarted with.
pub fn restart_command_of(request: &DeploymentRequest) -> (r: String)
    ensures
        r@ == spec_restart_command(request),
{
    match &request.entry_point {
        Some(e) => e.clone(),
        None => {
            let tag = request.runtime.as_str();
            if text::str_eq(tag, "bun") {
                String::from_str("bun dev")
            } else if text::str_eq(tag, "node") || text::str_eq(tag, "nodejs") {
                String::from_str("npm run dev")
            } else {
                String::from_str("bun dev")
            }
        },
    }
}

/// The access time never moves backward through a file update followed by
/// a proxied access: under a monotone clock (`t_update <= t_proxy`), the
/// record after both operations carries the proxied access's time, which is
/// no earlier than the update's. `d0` is the deployment before the update,
/// `d1` after it (`update_files`' ensures), `d2` after the proxied access
/// (`get_deployment_for_proxy`'s ensures); a lookup then reads
/// `d2.last_accessed_ms`.
pub proof fn lemma_update_then_access_time(
    d0: Deployment,
    d1: Deployment,
    d2: Deployment,
    t_update: i64,
    t_proxy: i64,
)
    requires
        t_update <= t_proxy,
        spec_same_but_accessed(d0, d1),
        d1.last_accessed_ms == t_update,
        spec_same_but_accessed(d1, d2),
        d2.last_accessed_ms == t_proxy,
    ensures
        d2.last_accessed_ms >= t_update,
        spec_same_but_accessed(d0, d2),
{
}

pub struct FaasManager {
    deployments: Registry<Deployment>,
    sandboxes: SandboxManager,
    ports: PortAllocator,
    base_url: String,
}

impl FaasManager {
    /// The live deployments, by id.
    pub closed spec fn deployments(&self) -> Map<Seq<char>, Deployment> {
        self.deployments.to_map()
    }

    /// The live deployments in registration order.
    pub closed spec fn deployment_order(&self) -> Seq<Deployment> {
        self.deployments.elems()
    }

    /// The live sandboxes, by id.
    pub closed spec fn sandboxes(&self) -> Map<Seq<char>, Sandbox> {
        self.sandboxes.sandboxes()
    }

    /// The dev-server port of a sandbox, if allocated.
    pub closed spec fn spec_port_of(&self, id: Seq<char>) -> Option<u16> {
        self.ports.spec_port_of(id)
    }

    pub closed spec fn spec_base_url(&self) -> Seq<char> {
        self.base_url@
    }

    /// The backend every sandbox runs on.
    pub closed spec fn spec_sandbox_backend(&self) -> crate::backend::SandboxBackendType {
        self.sandboxes.spec_backend_type()
    }

    /// The port cursor; allocation fails only at its ceiling.
    pub closed spec fn spec_next_port(&self) -> u16 {
        self.ports.spec_next_port()
    }

    pub open spec fn spec_contains(&self, id: Seq<char>) -> bool {
        self.deployments().dom().contains(id)
    }

    pub open spec fn spec_sandbox_contains(&self, id: Seq<char>) -> bool {
        self.sandboxes().dom().contains(id)
    }

    /// Every live deployment references a live sandbox with an allocated
    /// port; backing sandboxes are unique across deployments; timestamps are
    /// representable.
    pub closed spec fn wf(&self) -> bool {
        &&& self.deployments.wf()
        &&& self.sandboxes.wf()
        &&& self.ports.wf()
        &&& forall|k: Seq<char>|
            #[trigger] self.deployments().dom().contains(k) ==> {
                let d = self.deployments()[k];
                self.sandboxes().dom().contains(d.sandbox_id@)
                    && self.ports.spec_port_of(d.sandbox_id@) is Some && 0 <= d.created_at_ms
                    <= clock::MAX_TIMESTAMP_MS && 0 <= d.last_accessed_ms
                    <= clock::MAX_TIMESTAMP_MS
            }
        &&& forall|k1: Seq<char>, k2: Seq<char>|
            #[trigger] self.deployments().dom().contains(k1)
                && #[trigger] self.deployments().dom().contains(k2) && k1 != k2
                ==> self.deployments()[k1].sandbox_id@ != self.deployments()[k2].sandbox_id@
    }

    /// A deployment manager over a sandbox manager, issuing URLs under
    /// `base_url` and dev-server ports from `start_port` upward.
    pub fn new(sandboxes: SandboxManager, base_url: String, start_port: u16) -> (r:
        FaasManager)
        requires
            sandboxes.wf(),
            sandboxes.sandboxes() =~= Map::<Seq<char>, Sandbox>::empty(),
        ensures
            r.wf(),
            r.deployments() =~= Map::<Seq<char>, Deployment>::empty(),
            r.sandboxes() =~= Map::<Seq<char>, Sandbox>::empty(),
            r.spec_base_url() == base_url@,
    {
        FaasManager {
            deployments: Registry::new(),
            sandboxes,
            ports: PortAllocator::new(start_port),
            base_url,
        }
    }

    /// The sandbox request a deployment materializes into: persistent, with
    /// a dev server, dependency installation, and a five-minute timeout.
    pub fn create_sandbox_request(sandbox_id: &str, request: &DeploymentRequest) -> (r:
        SandboxRequest)
        ensures
            spec_faas_request_fields(r, sandbox_id@, request),
    {
        let files = match &request.files {
            Some(fs) => Some(convert_filespecs(fs)),
            None => None,
        };
        let env_vars = match &request.env_vars {
            Some(e) => clone_pairs(e),
            None => Vec::new(),
        };
        let memory = match request.memory_limit_mb {
            Some(m) => m,
            None => 256,
        };
        SandboxRequest {
            id: String::from_str(sandbox_id),
            runtime: request.runtime.clone(),
            code: request.code.clone(),
            entry_point: Some(deploy_entry_point(request)),
            timeout_ms: 300000,
            memory_limit_mb: memory as u64,
            env_vars,
            files,
            mode: Some(SandboxMode::Persistent),
            install_deps: Some(true),
            dev_server: Some(true),
        }
    }

    /// The URL a deployment is published at.
    fn build_url(&self, deployment_id: &str) -> (r: String)
        ensures
            r@ == self.spec_base_url() + "/faas/"@ + deployment_id@,
    {
        let mut url = self.base_url.clone();
        url.append("/faas/");
        url.append(deployment_id);
        url
    }

    /// The success condition of a deploy: a known runtime, a non-zero memory
    /// grant, fresh identifiers, a free port, and a successful setup.
    pub open spec fn spec_deploy_ok(
        &self,
        request: &DeploymentRequest,
        deployment_id: Seq<char>,
        sandbox_id: Seq<char>,
        setup: SandboxResponse,
    ) -> bool {
        &&& spec_runtime_of_tag(request.runtime@) is Some
        &&& request.memory_limit_mb != Some(0u32)
        &&& !self.spec_contains(deployment_id)
        &&& !self.spec_sandbox_contains(sandbox_id)
        &&& self.spec_port_of(sandbox_id) is None
        &&& self.spec_next_port() < u16::MAX
        &&& setup.success
    }

    /// Commits a deployment whose sandbox setup ran outside with outcome
    /// `setup`: records the sandbox, allocates its port, and registers the
    /// deployment as running. On any failure nothing changes; the caller
    /// rolls back the container.
    pub fn deploy(
        &mut self,
        request: DeploymentRequest,
        deployment_id: String,
        sandbox_id: String,
        now_ms: i64,
        setup: SandboxResponse,
    ) -> (r: Result<DeploymentResponse, SandboxError>)
        requires
            old(self).wf(),
            0 <= now_ms <= clock::MAX_TIMESTAMP_MS,
        ensures
            final(self).wf(),
            final(self).spec_base_url() == old(self).spec_base_url(),
            match r {
                Ok(resp) => old(self).spec_deploy_ok(
                    &request,
                    deployment_id@,
                    sandbox_id@,
                    setup,
                ) && resp.deployment_id == deployment_id && resp.sandbox_id == sandbox_id
                    && resp.url@ == old(self).spec_base_url() + "/faas/"@ + deployment_id@
                    && resp.status == DeploymentStatus::Running && resp.created_at_ms
                    == now_ms && resp.runtime == request.runtime && resp.memory_mb
                    == spec_memory_mb(&request) && final(self).deployments() =~= old(self).deployments().insert(
                    deployment_id@,
                    (Deployment {
                        id: deployment_id,
                        sandbox_id: sandbox_id,
                        url: resp.url,
                        status: DeploymentStatus::Running,
                        created_at_ms: now_ms,
                        last_accessed_ms: now_ms,
                        runtime: request.runtime,
                        memory_mb: spec_memory_mb(&request),
                        auto_scale: spec_auto_scale_of(&request),
                        request: request,
                    }),
                ) && final(self).sandboxes().dom() =~= old(self).sandboxes().dom().insert(
                    sandbox_id@,
                ) && (forall|k: Seq<char>|
                    #[trigger] old(self).sandboxes().dom().contains(k) && k != sandbox_id@
                        ==> final(self).sandboxes()[k] == old(self).sandboxes()[k]) && {
                    let sb = final(self).sandboxes()[sandbox_id@];
                    spec_faas_request_fields(sb.request, sandbox_id@, &request) && sb.status
                        == SandboxStatus::DevServer && sb.created_at_ms == now_ms
                } && final(self).spec_port_of(sandbox_id@) is Some && (forall|k: Seq<char>|
                    k != sandbox_id@ ==> final(self).spec_port_of(k) == old(self).spec_port_of(k)),
                Err(SandboxError::InvalidRuntime) => spec_runtime_of_tag(
                    request.runtime@,
                ) is None && *final(self) == *old(self),
                Err(SandboxError::InvalidRequest) => (spec_runtime_of_tag(
                    request.runtime@,
                ) is Some) && (request.memory_limit_mb == Some(0u32) || old(self).spec_contains(deployment_id@) || old(self).spec_sandbox_contains(
                    sandbox_id@,
                ) || old(self).spec_port_of(sandbox_id@) is Some) && *final(self) == *old(self),
                Err(SandboxError::CreationFailed(_)) => old(self).spec_next_port()
                    == u16::MAX && *final(self) == *old(self),
                Err(SandboxError::SetupFailed(_)) => !setup.success && *final(self) == *old(self),
                Err(_) => false,
            },
    {
        if crate::runtime::runtime_of_tag(request.runtime.as_str()).is_none() {
            return Err(SandboxError::InvalidRuntime);
        }
        let zero_memory = match request.memory_limit_mb {
            Some(m) => m == 0,
            None => false,
        };
        if zero_memory {
            return Err(SandboxError::InvalidRequest);
        }
        if self.deployments.contains_key(deployment_id.as_str()) {
            return Err(SandboxError::InvalidRequest);
        }
        if self.sandboxes.contains_sandbox(sandbox_id.as_str()) {
            return Err(SandboxError::InvalidRequest);
        }
        if self.ports.get_port(sandbox_id.as_str()).is_some() {
            return Err(SandboxError::InvalidRequest);
        }
        if self.ports.next_port_value() == u16::MAX {
            return Err(SandboxError::CreationFailed(String::from_str("port range exhausted")));
        }
        if !setup.success {
            return Err(SandboxError::SetupFailed(setup.stderr));
        }

        let sandbox_request = Self::create_sandbox_request(sandbox_id.as_str(), &request);
        // The built request was validated above and its id checked fresh, so
        // the manager admits it; the fresh sandbox then exists for the
        // execute step, and its port, checked unallocated with the cursor
        // below its ceiling, allocates.
        match self.sandboxes.create_sandbox(sandbox_request, now_ms) {
            Ok(_) => (),
            Err(e) => {
                proof {
                    assert(false);
                }
                return Err(e);
            },
        }
        match self.sandboxes.execute_sandbox(sandbox_id.as_str(), setup) {
            Ok(_) => (),
            Err(e) => {
                proof {
                    assert(false);
                }
                return Err(e);
            },
        }
        let allocated = self.ports.allocate(sandbox_id.clone());
        proof {
            assert(allocated is Some);
        }

        let url = self.build_url(deployment_id.as_str());
        let memory_mb = match request.memory_limit_mb {
            Some(m) => m,
            None => 256,
        };
        let auto_scale = match request.auto_scale {
            Some(a) => a,
            None => AutoScaleConfig {
                min_instances: Some(0),
                max_instances: Some(5),
                scale_down_after_minutes: Some(10),
            },
        };
        let resp = DeploymentResponse {
            deployment_id: deployment_id.clone(),
            url: url.clone(),
            sandbox_id: sandbox_id.clone(),
            status: DeploymentStatus::Running,
            created_at_ms: now_ms,
            runtime: request.runtime.clone(),
            memory_mb,
        };
        let record = Deployment {
            id: deployment_id,
            sandbox_id,
            url,
            status: DeploymentStatus::Running,
            created_at_ms: now_ms,
            last_accessed_ms: now_ms,
            runtime: request.runtime.clone(),
            memory_mb,
            auto_scale,
            request,
        };
        self.deployments.insert_fresh(record);
        Ok(resp)
    }

    /// Looks a deployment up and touches its access time.
    pub fn get_deployment(&mut self, deployment_id: &str, now_ms: i64) -> (r: Option<
        DeploymentResponse,
    >)
        requires
            old(self).wf(),
            0 <= now_ms <= clock::MAX_TIMESTAMP_MS,
        ensures
            final(self).wf(),
            final(self).spec_base_url() == old(self).spec_base_url(),
            final(self).sandboxes() == old(self).sandboxes(),
            match r {
                Some(resp) => old(self).spec_contains(deployment_id@)
                    && spec_response_matches(resp, old(self).deployments()[deployment_id@])
                    && final(self).deployments().dom() =~= old(self).deployments().dom() && (
                forall|k: Seq<char>|
                    #[trigger] old(self).deployments().dom().contains(k) && k
                        != deployment_id@ ==> final(self).deployments()[k] == old(self).deployments()[k]) && spec_same_but_accessed(
                    old(self).deployments()[deployment_id@],
                    final(self).deployments()[deployment_id@],
                ) && final(self).deployments()[deployment_id@].last_accessed_ms == now_ms,
                None => !old(self).spec_contains(deployment_id@) && *final(self) == *old(self),
            },
    {
        match self.deployments.remove_key(deployment_id) {
            Some(d) => {
                proof {
                    crate::registry::lemma_map_of_key_consistent(
                        old(self).deployments.elems(),
                        deployment_id@,
                    );
                }
                let resp = DeploymentResponse {
                    deployment_id: d.id.clone(),
                    url: d.url.clone(),
                    sandbox_id: d.sandbox_id.clone(),
                    status: d.status,
                    created_at_ms: d.created_at_ms,
                    runtime: d.runtime.clone(),
                    memory_mb: d.memory_mb,
                };
                let touched = Deployment { last_accessed_ms: now_ms, ..d };
                self.deployments.insert_fresh(touched);
                proof {
                    assert(self.deployments().dom() =~= old(self).deployments().dom());
                }
                Some(resp)
            },
            None => None,
        }
    }

    /// Resolves a deployment to its backing sandbox for the proxy path and
    /// touches its access time.
    pub fn get_deployment_for_proxy(&mut self, deployment_id: &str, now_ms: i64) -> (r:
        Option<String>)
        requires
            old(self).wf(),
            0 <= now_ms <= clock::MAX_TIMESTAMP_MS,
        ensures
            final(self).wf(),
            final(self).spec_base_url() == old(self).spec_base_url(),
            final(self).sandboxes() == old(self).sandboxes(),
            match r {
                Some(id) => old(self).spec_contains(deployment_id@) && id == old(self).deployments()[deployment_id@].sandbox_id && final(self).deployments().dom() =~= old(self).deployments().dom() && (forall|
                    k: Seq<char>,
                |
                    #[trigger] old(self).deployments().dom().contains(k) && k
                        != deployment_id@ ==> final(self).deployments()[k] == old(self).deployments()[k]) && spec_same_but_accessed(
                    old(self).deployments()[deployment_id@],
                    final(self).deployments()[deployment_id@],
                ) && final(self).deployments()[deployment_id@].last_accessed_ms == now_ms,
                None => !old(self).spec_contains(deployment_id@) && *final(self) == *old(self),
            },
    {
        match self.deployments.remove_key(deployment_id) {
            Some(d) => {
                proof {
                    crate::registry::lemma_map_of_key_consistent(
                        old(self).deployments.elems(),
                        deployment_id@,
                    );
                }
                let sandbox_id = d.sandbox_id.clone();
                let touched = Deployment { last_accessed_ms: now_ms, ..d };
                self.deployments.insert_fresh(touched);
                proof {
                    assert(self.deployments().dom() =~= old(self).deployments().dom());
                }
                Some(sandbox_id)
            },
            None => None,
        }
    }

    /// The public descriptors of all deployments, in registration order.
    pub fn list_deployments(&self) -> (r: Vec<DeploymentResponse>)
        requires
            self.wf(),
        ensures
            r@.len() == self.deployment_order().len(),
            forall|i: int|
                0 <= i < r@.len() ==> spec_response_matches(
                    #[trigger] r@[i],
                    self.deployment_order()[i],
                ),
    {
        let n = self.deployments.len();
        let mut out: Vec<DeploymentResponse> = Vec::new();
        let mut i: usize = 0;
        while i < n
            invariant
                n == self.deployment_order().len(),
                0 <= i <= n,
                out@.len() == i,
                forall|p: int|
                    0 <= p < i ==> spec_response_matches(
                        #[trigger] out@[p],
                        self.deployment_order()[p],
                    ),
            decreases n - i,
        {
            let d = self.deployments.at(i);
            out.push(
                DeploymentResponse {
                    deployment_id: d.id.clone(),
                    url: d.url.clone(),
                    sandbox_id: d.sandbox_id.clone(),
                    status: d.status,
                    created_at_ms: d.created_at_ms,
                    runtime: d.runtime.clone(),
                    memory_mb: d.memory_mb,
                },
            );
            i += 1;
        }
        out
    }

    /// How many deployments are live.
    pub fn deployment_count(&self) -> (r: usize)
        requires
            self.wf(),
        ensures
            r == self.deployment_order().len(),
            r == self.deployments().len(),
            self.deployments().dom().finite(),
    {
        proof {
            crate::registry::lemma_map_of_len(self.deployments.elems());
        }
        self.deployments.len()
    }

    /// Every live deployment references a live sandbox, and that sandbox
    /// holds an allocated dev-server port.
    pub proof fn lemma_deployment_backing(&self, id: Seq<char>)
        requires
            self.wf(),
            self.spec_contains(id),
        ensures
            self.spec_sandbox_contains(self.deployments()[id].sandbox_id@),
            self.spec_port_of(self.deployments()[id].sandbox_id@) is Some,
    {
    }

    /// Distinct live deployments are backed by distinct sandboxes, and those
    /// sandboxes hold distinct dev-server ports.
    pub proof fn lemma_deployment_ports_unique(&self, id1: Seq<char>, id2: Seq<char>)
        requires
            self.wf(),
            self.spec_contains(id1),
            self.spec_contains(id2),
            id1 != id2,
        ensures
            self.deployments()[id1].sandbox_id@ != self.deployments()[id2].sandbox_id@,
            self.spec_port_of(self.deployments()[id1].sandbox_id@) != self.spec_port_of(
                self.deployments()[id2].sandbox_id@,
            ),
    {
        self.ports.lemma_ports_unique(
            self.deployments()[id1].sandbox_id@,
            self.deployments()[id2].sandbox_id@,
        );
    }

    /// Any two live sandboxes with allocated dev-server ports hold distinct
    /// ports.
    pub proof fn lemma_sandbox_ports_unique(&self, s1: Seq<char>, s2: Seq<char>)
        requires
            self.wf(),
            self.spec_port_of(s1) is Some,
            self.spec_port_of(s2) is Some,
            s1 != s2,
        ensures
            self.spec_port_of(s1) != self.spec_port_of(s2),
    {
        self.ports.lemma_ports_unique(s1, s2);
    }

    /// Patches files into a running deployment: the file list is appended to
    /// the backing sandbox's snapshot (later entries shadow earlier ones path
    /// for path), the access time advances, and the returned plan carries
    /// what the container work needs. An empty list is a no-op that still
    /// succeeds.
    pub fn update_files(
        &mut self,
        deployment_id: &str,
        update: FileUpdateRequest,
        now_ms: i64,
    ) -> (r: Result<FileUpdatePlan, SandboxError>)
        requires
            old(self).wf(),
            0 <= now_ms <= clock::MAX_TIMESTAMP_MS,
        ensures
            final(self).wf(),
            final(self).spec_base_url() == old(self).spec_base_url(),
            match r {
                Ok(plan) => old(self).spec_contains(deployment_id@) && {
                    let d = old(self).deployments()[deployment_id@];
                    let sb0 = old(self).sandboxes()[d.sandbox_id@];
                    let sb1 = final(self).sandboxes()[d.sandbox_id@];
                    &&& plan.sandbox_id == d.sandbox_id
                    &&& plan.files@.len() == update.files@.len()
                    &&& (forall|i: int|
                        0 <= i < update.files@.len() ==> (#[trigger] plan.files@[i]).path
                            == update.files@[i].path && plan.files@[i].content
                            == update.files@[i].content && plan.files@[i].is_executable
                            == update.files@[i].executable)
                    &&& (match plan.restart_command {
                        Some(cmd) => spec_should_restart(&update, d) && cmd@
                            == spec_restart_command(&d.request),
                        None => !spec_should_restart(&update, d),
                    })
                    &&& final(self).deployments().dom() =~= old(self).deployments().dom()
                    &&& (forall|k: Seq<char>|
                        #[trigger] old(self).deployments().dom().contains(k) && k
                            != deployment_id@ ==> final(self).deployments()[k] == old(self).deployments()[k])
                    &&& spec_same_but_accessed(
                        d,
                        final(self).deployments()[deployment_id@],
                    )
                    &&& final(self).deployments()[deployment_id@].last_accessed_ms == now_ms
                    &&& final(self).sandboxes().dom() =~= old(self).sandboxes().dom()
                    &&& (forall|k: Seq<char>|
                        #[trigger] old(self).sandboxes().dom().contains(k) && k
                            != d.sandbox_id@ ==> final(self).sandboxes()[k] == old(self).sandboxes()[k])
                    &&& spec_same_but_files(sb0, sb1)
                    &&& (match sb1.request.files {
                        Some(v) => v@ =~= spec_files_or_empty(sb0.request.files)
                            + plan.files@,
                        None => false,
                    })
                    &&& (forall|k: Seq<char>|
                        final(self).spec_port_of(k) == old(self).spec_port_of(k))
                },
                Err(SandboxError::NotFound) => !old(self).spec_contains(deployment_id@)
                    && *final(self) == *old(self),
                Err(_) => false,
            },
    {
        match self.deployments.remove_key(deployment_id) {
            Some(d) => {
                proof {
                    crate::registry::lemma_map_of_key_consistent(
                        old(self).deployments.elems(),
                        deployment_id@,
                    );
                }
                let converted = convert_filespecs(&update.files);
                // A live deployment's backing sandbox exists, so the append
                // cannot miss.
                match self.sandboxes.add_files_to_sandbox(d.sandbox_id.as_str(), converted) {
                    Ok(_) => (),
                    Err(_) => {
                        proof {
                            assert(false);
                        }
                        return Err(SandboxError::NotFound);
                    },
                }
                let plan_files = convert_filespecs(&update.files);
                let requested = match update.restart_dev_server {
                    Some(b) => b,
                    None => true,
                };
                let is_dev = match d.request.dev_server {
                    Some(b) => b,
                    None => false,
                };
                let restart_command = if requested && is_dev {
                    Some(restart_command_of(&d.request))
                } else {
                    None
                };
                let plan = FileUpdatePlan {
                    sandbox_id: d.sandbox_id.clone(),
                    files: plan_files,
                    restart_command,
                };
                let touched = Deployment { last_accessed_ms: now_ms, ..d };
                self.deployments.insert_fresh(touched);
                proof {
                    assert(self.deployments().dom() =~= old(self).deployments().dom());
                }
                Ok(plan)
            },
            None => Err(SandboxError::NotFound),
        }
    }

    /// The deployments whose idle time exceeds their threshold at `now_ms`:
    /// exactly those, by id.
    pub fn collect_idle(&self, now_ms: i64) -> (r: Vec<String>)
        requires
            self.wf(),
            0 <= now_ms <= clock::MAX_TIMESTAMP_MS,
        ensures
            forall|i: int|
                0 <= i < r@.len() ==> self.spec_contains((#[trigger] r@[i])@) && spec_is_idle(
                    self.deployments()[r@[i]@],
                    now_ms,
                ),
            forall|k: Seq<char>|
                #[trigger] self.deployments().dom().contains(k) && spec_is_idle(
                    self.deployments()[k],
                    now_ms,
                ) ==> exists|i: int| 0 <= i < r@.len() && (#[trigger] r@[i])@ == k,
    {
        let n = self.deployments.len();
        let mut out: Vec<String> = Vec::new();
        let mut i: usize = 0;
        while i < n
            invariant
                self.wf(),
                0 <= now_ms <= clock::MAX_TIMESTAMP_MS,
                n == self.deployment_order().len(),
                0 <= i <= n,
                forall|p: int|
                    0 <= p < out@.len() ==> self.spec_contains((#[trigger] out@[p])@)
                        && spec_is_idle(self.deployments()[out@[p]@], now_ms),
                forall|q: int|
                    0 <= q < i && spec_is_idle(#[trigger] self.deployment_order()[q], now_ms)
                        ==> exists|p: int|
                        0 <= p < out@.len() && (#[trigger] out@[p])@
                            == self.deployment_order()[q].id@,
            decreases n - i,
        {
            let d = self.deployments.at(i);
            proof {
                crate::registry::lemma_map_of_index(self.deployments.elems(), i as int);
            }
            let ghost out0 = out@;
            if is_idle_at(d, now_ms) {
                out.push(d.id.clone());
            }
            proof {
                assert forall|q: int|
                    0 <= q < i + 1 && spec_is_idle(
                        #[trigger] self.deployment_order()[q],
                        now_ms,
                    ) implies exists|p: int|
                    0 <= p < out@.len() && (#[trigger] out@[p])@
                        == self.deployment_order()[q].id@ by {
                    if q < i {
                        let p0 = choose|p: int|
                            0 <= p < out0.len() && (#[trigger] out0[p])@
                                == self.deployment_order()[q].id@;
                        assert(out@[p0]@ == self.deployment_order()[q].id@);
                    } else {
                        assert(out@[out@.len() - 1]@ == self.deployment_order()[q].id@);
                    }
                }
            }
            i += 1;
        }
        proof {
            assert forall|k: Seq<char>|
                #[trigger] self.deployments().dom().contains(k) && spec_is_idle(
                    self.deployments()[k],
                    now_ms,
                ) implies exists|p: int| 0 <= p < out@.len() && (#[trigger] out@[p])@
                == k by {
                crate::registry::lemma_map_of_contains(self.deployments.elems(), k);
                let q = choose|q: int|
                    0 <= q < self.deployment_order().len() && self.deployment_order()[q].key()
                        == k;
                crate::registry::lemma_map_of_index(self.deployments.elems(), q);
            }
        }
        out
    }

    /// Admits a sandbox submission, as the sandbox manager does.
    pub fn create_sandbox(&mut self, request: SandboxRequest, now_ms: i64) -> (r: Result<
        (),
        SandboxError,
    >)
        requires
            old(self).wf(),
            0 <= now_ms <= clock::MAX_TIMESTAMP_MS,
        ensures
            final(self).wf(),
            final(self).spec_base_url() == old(self).spec_base_url(),
            final(self).deployments() == old(self).deployments(),
            r is Ok <==> crate::sandbox::spec_request_valid(&request) && !old(self).spec_sandbox_contains(request.id@),
            r is Ok ==> final(self).sandboxes().dom() =~= old(self).sandboxes().dom().insert(request.id@) && final(self).sandboxes()[request.id@]
                == (Sandbox {
                id: request.id,
                request: request,
                backend_type: old(self).spec_sandbox_backend(),
                created_at_ms: now_ms,
                status: SandboxStatus::Created,
                container_id: None,
                dev_server_port: None,
            }) && (forall|k: Seq<char>|
                #[trigger] old(self).sandboxes().dom().contains(k) && k != request.id@
                    ==> final(self).sandboxes()[k] == old(self).sandboxes()[k]),
            !(r is Ok) ==> *final(self) == *old(self),
    {
        match self.sandboxes.create_sandbox(request, now_ms) {
            Ok(_) => Ok(()),
            Err(e) => Err(e),
        }
    }

    /// Records an execution outcome on a sandbox, as the sandbox manager
    /// does.
    pub fn execute_sandbox(&mut self, sandbox_id: &str, outcome: SandboxResponse) -> (r:
        Result<SandboxResponse, SandboxError>)
        requires
            old(self).wf(),
        ensures
            final(self).wf(),
            final(self).spec_base_url() == old(self).spec_base_url(),
            final(self).deployments() == old(self).deployments(),
            match r {
                Ok(resp) => old(self).spec_sandbox_contains(sandbox_id@) && resp == outcome
                    && final(self).sandboxes() =~= old(self).sandboxes().insert(
                    sandbox_id@,
                    (Sandbox {
                        status: crate::manager::spec_status_after(
                            old(self).sandboxes()[sandbox_id@],
                            outcome,
                        ),
                        ..old(self).sandboxes()[sandbox_id@]
                    }),
                ),
                Err(SandboxError::NotFound) => !old(self).spec_sandbox_contains(sandbox_id@)
                    && *final(self) == *old(self),
                Err(_) => false,
            },
    {
        self.sandboxes.execute_sandbox(sandbox_id, outcome)
    }

    /// Removes a sandbox; a deployment it backs is removed with it, and its
    /// port is released.
    pub fn delete_sandbox(&mut self, sandbox_id: &str) -> (r: Result<(), SandboxError>)
        requires
            old(self).wf(),
        ensures
            final(self).wf(),
            final(self).spec_base_url() == old(self).spec_base_url(),
            final(self).sandboxes() =~= old(self).sandboxes().remove(sandbox_id@),
            final(self).spec_port_of(sandbox_id@) is None,
            forall|k: Seq<char>|
                k != sandbox_id@ ==> final(self).spec_port_of(k) == old(self).spec_port_of(
                    k,
                ),
            forall|k: Seq<char>|
                #[trigger] final(self).deployments().dom().contains(k) <==> old(self).deployments().dom().contains(k) && old(self).deployments()[k].sandbox_id@
                    != sandbox_id@,
            forall|k: Seq<char>|
                #[trigger] final(self).deployments().dom().contains(k) ==> final(self).deployments()[k] == old(self).deployments()[k],
            r is Ok <==> old(self).spec_sandbox_contains(sandbox_id@),
            match r {
                Ok(_) => true,
                Err(SandboxError::NotFound) => true,
                Err(_) => false,
            },
    {
        let n = self.deployments.len();
        let mut victim: Option<usize> = None;
        let mut i: usize = 0;
        while i < n
            invariant
                self.wf(),
                n == self.deployment_order().len(),
                0 <= i <= n,
                match victim {
                    Some(v) => v < n && self.deployment_order()[v as int].sandbox_id@
                        == sandbox_id@,
                    None => forall|p: int|
                        0 <= p < i ==> (#[trigger] self.deployment_order()[p]).sandbox_id@
                            != sandbox_id@,
                },
            decreases n - i,
        {
            if victim.is_none() && text::str_eq(
                self.deployments.at(i).sandbox_id.as_str(),
                sandbox_id,
            ) {
                victim = Some(i);
            }
            i += 1;
        }
        match victim {
            Some(v) => {
                proof {
                    crate::registry::lemma_map_of_index(self.deployments.elems(), v as int);
                }
                let key = self.deployments.at(v).id.clone();
                let _ = self.deployments.remove_key(key.as_str());
            },
            None => {
                proof {
                    assert forall|k: Seq<char>|
                        #[trigger] self.deployments().dom().contains(k) implies self.deployments()[k].sandbox_id@
                        != sandbox_id@ by {
                        crate::registry::lemma_map_of_contains(self.deployments.elems(), k);
                        let q = choose|q: int|
                            0 <= q < self.deployment_order().len()
                                && self.deployment_order()[q].key() == k;
                        crate::registry::lemma_map_of_index(self.deployments.elems(), q);
                    }
                }
            },
        }
        self.ports.deallocate(sandbox_id);
        self.sandboxes.delete_sandbox(sandbox_id)
    }

    /// Appends files to a sandbox's request snapshot, as the sandbox manager
    /// does.
    pub fn add_files_to_sandbox(&mut self, sandbox_id: &str, files: Vec<SandboxFile>) -> (r:
        Result<(), SandboxError>)
        requires
            old(self).wf(),
        ensures
            final(self).wf(),
            final(self).spec_base_url() == old(self).spec_base_url(),
            final(self).deployments() == old(self).deployments(),
            forall|k: Seq<char>|
                final(self).spec_port_of(k) == old(self).spec_port_of(k),
            match r {
                Ok(_) => old(self).spec_sandbox_contains(sandbox_id@) && final(self).sandboxes().dom() =~= old(self).sandboxes().dom() && (forall|k: Seq<char>|
                    #[trigger] old(self).sandboxes().dom().contains(k) && k != sandbox_id@
                        ==> final(self).sandboxes()[k] == old(self).sandboxes()[k])
                    && spec_same_but_files(
                    old(self).sandboxes()[sandbox_id@],
                    final(self).sandboxes()[sandbox_id@],
                ) && (match final(self).sandboxes()[sandbox_id@].request.files {
                    Some(v) => v@ =~= spec_files_or_empty(
                        old(self).sandboxes()[sandbox_id@].request.files,
                    ) + files@,
                    None => false,
                }),
                Err(SandboxError::NotFound) => !old(self).spec_sandbox_contains(sandbox_id@)
                    && *final(self) == *old(self),
                Err(_) => false,
            },
    {
        self.sandboxes.add_files_to_sandbox(sandbox_id, files)
    }

    /// The public summary of one sandbox.
    pub fn get_sandbox_info(&self, sandbox_id: &str) -> (r: Option<
        crate::api::SandboxInfo,
    >)
        requires
            self.wf(),
        ensures
            r is Some <==> self.spec_sandbox_contains(sandbox_id@),
            match r {
                Some(info) => crate::manager::spec_info_matches(
                    info,
                    self.sandboxes()[sandbox_id@],
                ),
                None => true,
            },
    {
        self.sandboxes.get_sandbox_info(sandbox_id)
    }

    /// Summaries of all live sandboxes.
    pub fn list_sandboxes(&self) -> (r: Vec<crate::api::SandboxInfo>)
        requires
            self.wf(),
        ensures
            r@.len() == self.sandboxes().len(),
    {
        let _n = self.sandboxes.sandbox_count();
        self.sandboxes.list_sandboxes()
    }

    /// A read-only view of the sandbox manager, for listing and inspection.
    pub fn sandbox_manager_ref(&self) -> (r: &SandboxManager)
        ensures
            r.sandboxes() == self.sandboxes(),
            self.wf() ==> r.wf(),
    {
        &self.sandboxes
    }

    /// The dev-server port of a sandbox, if allocated.
    pub fn get_port(&self, sandbox_id: &str) -> (r: Option<u16>)
        requires
            self.wf(),
        ensures
            r == self.spec_port_of(sandbox_id@),
    {
        self.ports.get_port(sandbox_id)
    }

    /// Drops every deployment, allocation, and sandbox record; issued on
    /// shutdown after the backends' best-effort teardown.
    pub fn cleanup_all(&mut self)
        requires
            old(self).wf(),
        ensures
            final(self).wf(),
            final(self).spec_base_url() == old(self).spec_base_url(),
            final(self).deployments() =~= Map::<Seq<char>, Deployment>::empty(),
            final(self).sandboxes() =~= Map::<Seq<char>, Sandbox>::empty(),
    {
        self.deployments.clear_all();
        self.sandboxes.cleanup_all();
    }

    /// Removes a deployment, releases its port, and drops its sandbox
    /// record. The deployment is gone once the registry entry is removed;
    /// the container teardown outside is best-effort.
    pub fn undeploy(&mut self, deployment_id: &str) -> (r: Result<(), SandboxError>)
        requires
            old(self).wf(),
        ensures
            final(self).wf(),
            final(self).spec_base_url() == old(self).spec_base_url(),
            final(self).deployments() =~= old(self).deployments().remove(deployment_id@),
            !final(self).spec_contains(deployment_id@),
            r is Ok <==> old(self).spec_contains(deployment_id@),
            match r {
                Ok(_) => {
                    let d = old(self).deployments()[deployment_id@];
                    final(self).sandboxes() =~= old(self).sandboxes().remove(d.sandbox_id@)
                        && final(self).spec_port_of(d.sandbox_id@) is None && (forall|
                        k: Seq<char>,
                    |
                        k != d.sandbox_id@ ==> final(self).spec_port_of(k) == old(self).spec_port_of(k))
                },
                Err(SandboxError::NotFound) => *final(self) == *old(self),
                Err(_) => false,
            },
    {
        match self.deployments.remove_key(deployment_id) {
            Some(d) => {
                self.ports.deallocate(d.sandbox_id.as_str());
                let _ = self.sandboxes.delete_sandbox(d.sandbox_id.as_str());
                Ok(())
            },
            None => Err(SandboxError::NotFound),
        }
    }
}

} // verus!
