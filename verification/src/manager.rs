//! The sandbox manager: the registry of live sandboxes and their state
//! machine. Backend work (containers, processes) happens outside; its
//! outcomes arrive here as values and drive the recorded transitions.

use vstd::prelude::*;
use crate::api::SandboxInfo;
use crate::backend::SandboxBackendType;
use crate::clock;
use crate::errors::SandboxError;
use crate::registry::{
    lemma_map_of_index, lemma_map_of_key_consistent, lemma_map_of_len, Registry,
};
use crate::sandbox::{
    validate_request, Sandbox, SandboxFile, SandboxRequest, SandboxResponse, SandboxStatus,
};

verus! {

/// The files of a request, or none at all.
pub open spec fn spec_files_or_empty(files: Option<Vec<SandboxFile>>) -> Seq<SandboxFile> {
    match files {
        Some(fs) => fs@,
        None => Seq::empty(),
    }
}

/// `a` and `b` agree on everything but the `files` of their request.
pub open spec fn spec_same_but_files(a: Sandbox, b: Sandbox) -> bool {
    &&& a.id == b.id
    &&& a.backend_type == b.backend_type
    &&& a.created_at_ms == b.created_at_ms
    &&& a.status == b.status
    &&& a.container_id == b.container_id
    &&& a.dev_server_port == b.dev_server_port
    &&& a.request.id == b.request.id
    &&& a.request.runtime == b.request.runtime
    &&& a.request.code == b.request.code
    &&& a.request.entry_point == b.request.entry_point
    &&& a.request.timeout_ms == b.request.timeout_ms
    &&& a.request.memory_limit_mb == b.request.memory_limit_mb
    &&& a.request.env_vars == b.request.env_vars
    &&& a.request.mode == b.request.mode
    &&& a.request.install_deps == b.request.install_deps
    &&& a.request.dev_server == b.request.dev_server
}

/// `info` is the public summary of `sb`, its timestamp text aside.
pub open spec fn spec_info_matches(info: SandboxInfo, sb: Sandbox) -> bool {
    &&& info.id == sb.id
    &&& info.status@ == sb.status.spec_name()
    &&& info.runtime == sb.request.runtime
    &&& info.created_at@ == clock::rfc3339_of(sb.created_at_ms)
    &&& info.timeout_ms == sb.request.timeout_ms
    &&& info.memory_limit_mb == sb.request.memory_limit_mb
}

/// The status a sandbox reaches once its execution outcome is known: failure
/// on an unsuccessful outcome; otherwise a dev server keeps serving, and
/// one-shot work completes.
pub open spec fn spec_status_after(s: Sandbox, outcome: SandboxResponse) -> SandboxStatus {
    if !outcome.success {
        SandboxStatus::Failed
    } else if s.request.dev_server == Some(true) {
        SandboxStatus::DevServer
    } else {
        SandboxStatus::Completed
    }
}

pub struct SandboxManager {
    registry: Registry<Sandbox>,
    backend_type: SandboxBackendType,
}

impl SandboxManager {
    /// The live sandboxes, by id.
    pub closed spec fn sandboxes(&self) -> Map<Seq<char>, Sandbox> {
        self.registry.to_map()
    }

    /// The live sandboxes in registration order.
    pub closed spec fn order(&self) -> Seq<Sandbox> {
        self.registry.elems()
    }

    pub open spec fn spec_contains(&self, id: Seq<char>) -> bool {
        self.sandboxes().dom().contains(id)
    }

    pub closed spec fn spec_backend_type(&self) -> SandboxBackendType {
        self.backend_type
    }

    /// Ids are unique and every record carries a representable timestamp.
    pub closed spec fn wf(&self) -> bool {
        &&& self.registry.wf()
        &&& forall|k: Seq<char>|
            #[trigger] self.sandboxes().dom().contains(k) ==> 0
                <= self.sandboxes()[k].created_at_ms <= clock::MAX_TIMESTAMP_MS
    }

    /// A manager over the selected backend; refused when the backing
    /// technology's liveness probe failed.
    pub fn new(backend_type: SandboxBackendType, backend_available: bool) -> (r: Result<
        SandboxManager,
        SandboxError,
    >)
        ensures
            match r {
                Ok(m) => backend_available && m.wf() && m.spec_backend_type() == backend_type
                    && m.sandboxes() =~= Map::<Seq<char>, Sandbox>::empty() && m.order()
                    =~= Seq::<Sandbox>::empty(),
                Err(SandboxError::Unavailable) => !backend_available,
                Err(_) => false,
            },
    {
        if !backend_available {
            return Err(SandboxError::Unavailable);
        }
        Ok(SandboxManager { registry: Registry::new(), backend_type })
    }

    pub fn get_backend_type(&self) -> (t: SandboxBackendType)
        ensures
            t == self.spec_backend_type(),
    {
        self.backend_type
    }

    /// Admits a validated submission as a new sandbox in state `Created`.
    pub fn create_sandbox(&mut self, request: SandboxRequest, now_ms: i64) -> (r: Result<
        (),
        SandboxError,
    >)
        requires
            old(self).wf(),
            0 <= now_ms <= clock::MAX_TIMESTAMP_MS,
        ensures
            final(self).wf(),
            final(self).spec_backend_type() == old(self).spec_backend_type(),
            match r {
                Ok(_) => crate::sandbox::spec_request_valid(&request) && !old(self).spec_contains(request.id@) && final(self).sandboxes() =~= old(self).sandboxes().insert(
                    request.id@,
                    (Sandbox {
                        id: request.id,
                        request: request,
                        backend_type: old(self).spec_backend_type(),
                        created_at_ms: now_ms,
                        status: SandboxStatus::Created,
                        container_id: None,
                        dev_server_port: None,
                    }),
                ),
                Err(SandboxError::InvalidRuntime) => crate::runtime::spec_runtime_of_tag(
                    request.runtime@,
                ) is None && *final(self) == *old(self),
                Err(SandboxError::InvalidRequest) => (crate::runtime::spec_runtime_of_tag(
                    request.runtime@,
                ) is Some) && !(crate::sandbox::spec_limits_ok(&request) && !old(self).spec_contains(request.id@)) && *final(self) == *old(self),
                Err(_) => false,
            },
    {
        match validate_request(&request) {
            Ok(_) => (),
            Err(e) => {
                return Err(e);
            },
        }
        if self.registry.contains_key(request.id.as_str()) {
            return Err(SandboxError::InvalidRequest);
        }
        let sb = Sandbox::new(request, self.backend_type, now_ms);
        self.registry.insert_fresh(sb);
        Ok(())
    }

    /// Records the outcome of executing a sandbox and returns it. The final
    /// registry is the old one with that sandbox's status advanced by
    /// `spec_status_after`.
    pub fn execute_sandbox(&mut self, sandbox_id: &str, outcome: SandboxResponse) -> (r:
        Result<SandboxResponse, SandboxError>)
        requires
            old(self).wf(),
        ensures
            final(self).wf(),
            final(self).spec_backend_type() == old(self).spec_backend_type(),
            match r {
                Ok(resp) => old(self).spec_contains(sandbox_id@) && resp == outcome && final(self).sandboxes() =~= old(self).sandboxes().insert(
                    sandbox_id@,
                    (Sandbox {
                        status: spec_status_after(
                            old(self).sandboxes()[sandbox_id@],
                            outcome,
                        ),
                        ..old(self).sandboxes()[sandbox_id@]
                    }),
                ),
                Err(SandboxError::NotFound) => !old(self).spec_contains(sandbox_id@) && *final(self) == *old(self),
                Err(_) => false,
            },
    {
        match self.registry.remove_key(sandbox_id) {
            Some(sb) => {
                proof {
                    lemma_map_of_key_consistent(old(self).registry.elems(), sandbox_id@);
                }
                let dev = match sb.request.dev_server {
                    Some(d) => d,
                    None => false,
                };
                let status = if !outcome.success {
                    SandboxStatus::Failed
                } else if dev {
                    SandboxStatus::DevServer
                } else {
                    SandboxStatus::Completed
                };
                let updated = Sandbox { status, ..sb };
                self.registry.insert_fresh(updated);
                proof {
                    let k = sandbox_id@;
                    let orig = old(self).sandboxes()[k];
                    assert(updated == (Sandbox {
                        status: spec_status_after(orig, outcome),
                        ..orig
                    }));
                    assert(self.sandboxes() =~= old(self).sandboxes().insert(k, updated));
                }
                Ok(outcome)
            },
            None => Err(SandboxError::NotFound),
        }
    }

    /// Removes a sandbox record. The container teardown is issued outside;
    /// at registry level the final state is always the old one without `id`.
    pub fn delete_sandbox(&mut self, sandbox_id: &str) -> (r: Result<(), SandboxError>)
        requires
            old(self).wf(),
        ensures
            final(self).wf(),
            final(self).spec_backend_type() == old(self).spec_backend_type(),
            final(self).sandboxes() =~= old(self).sandboxes().remove(sandbox_id@),
            r is Ok <==> old(self).spec_contains(sandbox_id@),
            match r {
                Ok(_) => true,
                Err(SandboxError::NotFound) => true,
                Err(_) => false,
            },
    {
        match self.registry.remove_key(sandbox_id) {
            Some(_) => Ok(()),
            None => Err(SandboxError::NotFound),
        }
    }

    /// Whether a sandbox with this id is live.
    pub fn contains_sandbox(&self, sandbox_id: &str) -> (r: bool)
        ensures
            r == self.spec_contains(sandbox_id@),
    {
        self.registry.contains_key(sandbox_id)
    }

    /// The public summary of one sandbox.
    pub fn get_sandbox_info(&self, sandbox_id: &str) -> (r: Option<SandboxInfo>)
        requires
            self.wf(),
        ensures
            match r {
                Some(info) => self.spec_contains(sandbox_id@) && {
                    let sb = self.sandboxes()[sandbox_id@];
                    info.id == sb.id && info.status@ == sb.status.spec_name() && info.runtime
                        == sb.request.runtime && info.created_at@ == clock::rfc3339_of(
                        sb.created_at_ms,
                    ) && info.timeout_ms == sb.request.timeout_ms && info.memory_limit_mb
                        == sb.request.memory_limit_mb
                },
                None => !self.spec_contains(sandbox_id@),
            },
    {
        match self.registry.get(sandbox_id) {
            Some(sb) => Some(sb.to_info()),
            None => None,
        }
    }

    /// Summaries of all live sandboxes, in registration order.
    pub fn list_sandboxes(&self) -> (r: Vec<SandboxInfo>)
        requires
            self.wf(),
        ensures
            r@.len() == self.order().len(),
            forall|i: int|
                0 <= i < r@.len() ==> spec_info_matches(#[trigger] r@[i], self.order()[i]),
    {
        let n = self.registry.len();
        let mut out: Vec<SandboxInfo> = Vec::new();
        let mut i: usize = 0;
        while i < n
            invariant
                self.wf(),
                n == self.order().len(),
                0 <= i <= n,
                out@.len() == i,
                forall|p: int|
                    0 <= p < i ==> spec_info_matches(#[trigger] out@[p], self.order()[p]),
            decreases n - i,
        {
            proof {
                lemma_map_of_index(self.registry.elems(), i as int);
            }
            out.push(self.registry.at(i).to_info());
            i += 1;
        }
        out
    }

    /// All live sandbox records, in registration order.
    pub fn get_all_sandboxes(&self) -> (r: &Vec<Sandbox>)
        ensures
            r@ == self.order(),
    {
        self.registry.as_vec()
    }

    /// How many sandboxes are live.
    pub fn sandbox_count(&self) -> (r: usize)
        requires
            self.wf(),
        ensures
            r == self.order().len(),
            r == self.sandboxes().len(),
            self.sandboxes().dom().finite(),
    {
        proof {
            lemma_map_of_len(self.registry.elems());
        }
        self.registry.len()
    }

    /// Drops every record; issued on shutdown after the backends' best-effort
    /// teardown.
    pub fn cleanup_all(&mut self)
        requires
            old(self).wf(),
        ensures
            final(self).wf(),
            final(self).spec_backend_type() == old(self).spec_backend_type(),
            final(self).sandboxes() =~= Map::<Seq<char>, Sandbox>::empty(),
            final(self).order() =~= Seq::<Sandbox>::empty(),
    {
        self.registry.clear_all();
    }

    /// Appends files to a sandbox's request snapshot. Later entries shadow
    /// earlier ones path for path, so the effective contents is the file map
    /// of the concatenation.
    pub fn add_files_to_sandbox(&mut self, sandbox_id: &str, files: Vec<SandboxFile>) -> (r:
        Result<(), SandboxError>)
        requires
            old(self).wf(),
        ensures
            final(self).wf(),
            final(self).spec_backend_type() == old(self).spec_backend_type(),
            match r {
                Ok(_) => old(self).spec_contains(sandbox_id@) && final(self).sandboxes().dom() =~= old(self).sandboxes().dom() && (forall|k: Seq<char>|
                    #[trigger] old(self).sandboxes().dom().contains(k) && k != sandbox_id@
                        ==> final(self).sandboxes()[k] == old(self).sandboxes()[k])
                    && spec_same_but_files(
                    old(self).sandboxes()[sandbox_id@],
                    final(self).sandboxes()[sandbox_id@],
                ) && (match final(self).sandboxes()[sandbox_id@].request.files {
                    Some(v) => v@ =~= spec_files_or_empty(
                        old(self).sandboxes()[sandbox_id@].request.files,
                    ) + files@,
                    None => false,
                }),
                Err(SandboxError::NotFound) => !old(self).spec_contains(sandbox_id@) && *final(self) == *old(self),
                Err(_) => false,
            },
    {
        match self.registry.remove_key(sandbox_id) {
            Some(sb) => {
                proof {
                    lemma_map_of_key_consistent(old(self).registry.elems(), sandbox_id@);
                }
                let Sandbox {
                    id,
                    request,
                    backend_type,
                    created_at_ms,
                    status,
                    container_id,
                    dev_server_port,
                } = sb;
                let SandboxRequest {
                    id: request_id,
                    runtime,
                    code,
                    entry_point,
                    timeout_ms,
                    memory_limit_mb,
                    env_vars,
                    files: old_files,
                    mode,
                    install_deps,
                    dev_server,
                } = request;
                let mut new_files: Vec<SandboxFile> = match old_files {
                    Some(fs) => fs,
                    None => Vec::new(),
                };
                let mut incoming = files;
                new_files.append(&mut incoming);
                let updated = Sandbox {
                    id,
                    request: SandboxRequest {
                        id: request_id,
                        runtime,
                        code,
                        entry_point,
                        timeout_ms,
                        memory_limit_mb,
                        env_vars,
                        files: Some(new_files),
                        mode,
                        install_deps,
                        dev_server,
                    },
                    backend_type,
                    created_at_ms,
                    status,
                    container_id,
                    dev_server_port,
                };
                self.registry.insert_fresh(updated);
                proof {
                    let k = sandbox_id@;
                    let orig = old(self).sandboxes()[k];
                    assert(self.sandboxes() =~= old(self).sandboxes().insert(k, updated));
                    assert(self.sandboxes().dom() =~= old(self).sandboxes().dom());
                    assert(spec_same_but_files(orig, updated));
                }
                Ok(())
            },
            None => Err(SandboxError::NotFound),
        }
    }
}

} // verus!
