//! Registry-level laws of the platform, stated over the map and sequence
//! models that the managers' contracts use.

use vstd::prelude::*;
use vstd::map_lib::*;
use crate::sandbox::SandboxFile;

verus! {

/// Removing a record is idempotent: `cleanup` run twice on the same id
/// leaves the registry exactly where the first run left it. The managers'
/// removal operations all ensure `final == old.remove(id)`, so this covers a
/// repeated cleanup of a sandbox or deployment.
pub proof fn lemma_cleanup_idempotent<V>(m: Map<Seq<char>, V>, id: Seq<char>)
    ensures
        m.remove(id).remove(id) =~= m.remove(id),
{
}

/// Creating a record under a fresh id and then cleaning it up is a no-op at
/// registry level: the creation operations ensure `final == old.insert(id,
/// v)` with `id` fresh, and cleanup ensures `final == old.remove(id)`.
pub proof fn lemma_create_then_cleanup<V>(m: Map<Seq<char>, V>, id: Seq<char>, v: V)
    requires
        !m.dom().contains(id),
    ensures
        m.insert(id, v).remove(id) =~= m,
{
}

/// Deploying and then undeploying restores all three registries — the
/// deployments, the sandboxes, and the port allocations — and with them the
/// deployment count. `deploy` inserts a deployment under a fresh id, its
/// sandbox under a fresh id, and a port for that sandbox; `undeploy` removes
/// exactly those three entries.
pub proof fn lemma_deploy_then_undeploy<A, B, C>(
    deployments: Map<Seq<char>, A>,
    sandboxes: Map<Seq<char>, B>,
    ports: Map<Seq<char>, C>,
    deployment_id: Seq<char>,
    sandbox_id: Seq<char>,
    d: A,
    sb: B,
    p: C,
)
    requires
        !deployments.dom().contains(deployment_id),
        !sandboxes.dom().contains(sandbox_id),
        !ports.dom().contains(sandbox_id),
    ensures
        deployments.insert(deployment_id, d).remove(deployment_id) =~= deployments,
        sandboxes.insert(sandbox_id, sb).remove(sandbox_id) =~= sandboxes,
        ports.insert(sandbox_id, p).remove(sandbox_id) =~= ports,
{
}

/// The effective contents of a sandbox's file list: later entries shadow
/// earlier ones, path for path.
pub open spec fn files_map(fs: Seq<SandboxFile>) -> Map<Seq<char>, SandboxFile>
    decreases fs.len(),
{
    if fs.len() == 0 {
        Map::empty()
    } else {
        files_map(fs.drop_last()).insert(fs.last().path@, fs.last())
    }
}

/// Appending one file updates the effective contents at its path.
pub proof fn lemma_files_map_push(fs: Seq<SandboxFile>, f: SandboxFile)
    ensures
        files_map(fs.push(f)) =~= files_map(fs).insert(f.path@, f),
{
    assert(fs.push(f).drop_last() =~= fs);
    assert(fs.push(f).last() == f);
}

/// The effective contents of a concatenation: the right-hand files win.
pub proof fn lemma_files_map_concat(a: Seq<SandboxFile>, b: Seq<SandboxFile>)
    ensures
        files_map(a + b) =~= files_map(a).union_prefer_right(files_map(b)),
    decreases b.len(),
{
    if b.len() == 0 {
        assert(a + b =~= a);
        assert(files_map(a).union_prefer_right(files_map(b)) =~= files_map(a));
    } else {
        lemma_files_map_concat(a, b.drop_last());
        assert(a + b =~= (a + b.drop_last()).push(b.last()));
        lemma_files_map_push(a + b.drop_last(), b.last());
        lemma_files_map_push(b.drop_last(), b.last());
        assert(files_map(b) =~= files_map(b.drop_last()).insert(b.last().path@, b.last()));
        assert(files_map(a).union_prefer_right(files_map(b.drop_last())).insert(
            b.last().path@,
            b.last(),
        ) =~= files_map(a).union_prefer_right(files_map(b)));
    }
}

/// Patching the same files twice is, in effect, patching them once: the
/// sandbox's file list grows by the update on each call, but the effective
/// contents — what the container ends up holding, byte for byte — is the
/// same after the second call as after the first.
pub proof fn lemma_update_files_idempotent(fs: Seq<SandboxFile>, add: Seq<SandboxFile>)
    ensures
        files_map((fs + add) + add) =~= files_map(fs + add),
{
    lemma_files_map_concat(fs, add);
    lemma_files_map_concat(fs + add, add);
    assert(files_map(fs).union_prefer_right(files_map(add)).union_prefer_right(
        files_map(add),
    ) =~= files_map(fs).union_prefer_right(files_map(add)));
}

} // verus!
