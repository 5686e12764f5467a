//! The backend capability set: which container technology runs a sandbox.
//! The planners in the `docker` and `nsjail` modules compute every command a
//! backend issues; the calls themselves are made by the embedding program.

use vstd::prelude::*;
use crate::docker::DockerBackend;
use crate::errors::SandboxError;
use crate::nsjail::NsjailBackend;

verus! {

#[derive(Clone, Copy, Debug, PartialEq, Eq, Structural)]
pub enum SandboxBackendType {
    Docker,
    Nsjail,
}

/// What every backend planner answers about itself.
pub trait SandboxBackend {
    spec fn spec_backend_type(&self) -> SandboxBackendType;

    /// Persistent sandboxes need a long-lived container; the jail runs
    /// one-shot work only.
    spec fn spec_supports_persistent(&self) -> bool;

    fn backend_type(&self) -> (t: SandboxBackendType)
        ensures
            t == self.spec_backend_type(),
    ;

    fn supports_persistent(&self) -> (b: bool)
        ensures
            b == self.spec_supports_persistent(),
    ;
}

/// The backend chosen at startup, fixed for the process lifetime.
pub enum Backend {
    Docker(DockerBackend),
    Nsjail(NsjailBackend),
}

impl Backend {
    pub open spec fn spec_backend_type(&self) -> SandboxBackendType {
        match self {
            Backend::Docker(_) => SandboxBackendType::Docker,
            Backend::Nsjail(_) => SandboxBackendType::Nsjail,
        }
    }

    pub fn backend_type(&self) -> (t: SandboxBackendType)
        ensures
            t == self.spec_backend_type(),
    {
        match self {
            Backend::Docker(b) => b.backend_type(),
            Backend::Nsjail(b) => b.backend_type(),
        }
    }
}

/// Builds the planner for the requested backend type.
pub fn create_backend(backend_type: SandboxBackendType) -> (r: Result<
    Backend,
    SandboxError,
>)
    ensures
        match r {
            Ok(b) => b.spec_backend_type() == backend_type,
            Err(_) => false,
        },
{
    match backend_type {
        SandboxBackendType::Docker => Ok(Backend::Docker(DockerBackend::new())),
        SandboxBackendType::Nsjail => Ok(Backend::Nsjail(NsjailBackend::new())),
    }
}

} // verus!
