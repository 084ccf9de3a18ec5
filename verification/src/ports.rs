//! Capability contracts (ports): the infrastructure-provisioning contract the
//! orchestration layer consumes, the orchestration contract it exposes
//! upward, and the workload-runtime contract reserved for a later bootstrap
//! step.

use vstd::prelude::*;

use crate::cluster::Cluster;
use crate::error::FleetError;
use crate::node::{Node, NodeRole, NodeStatus};
use crate::text::spec_indexed_name;

verus! {

/// One creation request issued to an infrastructure provider, with its
/// outcome: `None` for success, `Some(message)` for the failure diagnostic.
pub struct CreateCall {
    pub name: Seq<char>,
    pub role: NodeRole,
    pub outcome: Option<Seq<char>>,
}

/// The creation requests, all successful, that a run of `create_cluster`
/// issues for `cp` control-plane nodes and `workers` worker nodes: names
/// `"{name}-cp-{i}"` for `i` in `0..cp`, in order, then `"{name}-worker-{i}"`
/// for `i` in `0..workers`, in order.
pub open spec fn planned_calls(name: Seq<char>, cp: nat, workers: nat) -> Seq<CreateCall> {
    Seq::new(
        cp,
        |i: int|
            CreateCall {
                name: spec_indexed_name(name, "-cp-"@, i as nat),
                role: NodeRole::ControlPlane,
                outcome: None,
            },
    ) + Seq::new(
        workers,
        |i: int|
            CreateCall {
                name: spec_indexed_name(name, "-worker-"@, i as nat),
                role: NodeRole::Worker,
                outcome: None,
            },
    )
}

/// Law: for all counts, the plan is exactly `cp` control-plane entries, with
/// names `"{name}-cp-{i}"` in index order, followed by `workers` worker
/// entries, with names `"{name}-worker-{i}"` in index order.
pub proof fn lemma_planned_calls_shape(name: Seq<char>, cp: nat, workers: nat)
    ensures
        planned_calls(name, cp, workers).len() == cp + workers,
        forall|i: int|
            0 <= i < cp ==> (#[trigger] planned_calls(name, cp, workers)[i]) == (CreateCall {
                name: spec_indexed_name(name, "-cp-"@, i as nat),
                role: NodeRole::ControlPlane,
                outcome: None,
            }),
        forall|i: int|
            cp <= i < cp + workers ==> (#[trigger] planned_calls(name, cp, workers)[i]) == (
            CreateCall {
                name: spec_indexed_name(name, "-worker-"@, (i - cp) as nat),
                role: NodeRole::Worker,
                outcome: None,
            }),
{
}

/// Law: no two entries of one plan share a name.
pub proof fn lemma_planned_names_distinct(name: Seq<char>, cp: nat, workers: nat)
    ensures
        forall|i: int, j: int|
            0 <= i < j < cp + workers ==> (#[trigger] planned_calls(name, cp, workers)[i]).name != (
            #[trigger] planned_calls(name, cp, workers)[j]).name,
{
    let plan = planned_calls(name, cp, workers);
    assert forall|i: int, j: int| 0 <= i < j < cp + workers implies plan[i].name
        != plan[j].name by {
        if j < cp {
            if plan[i].name == plan[j].name {
                crate::text::lemma_indexed_name_injective(name, "-cp-"@, i as nat, j as nat);
            }
        } else if i >= cp {
            if plan[i].name == plan[j].name {
                crate::text::lemma_indexed_name_injective(
                    name,
                    "-worker-"@,
                    (i - cp) as nat,
                    (j - cp) as nat,
                );
            }
        } else {
            crate::text::lemma_cp_worker_names_differ(name, i as nat, (j - cp) as nat);
        }
    }
}

/// Law: a node sequence that matches a plan role for role — as the nodes of
/// a successfully created cluster do — is exactly `cp` control-plane nodes
/// followed by `workers` worker nodes, in that relative order.
pub proof fn lemma_cluster_roles_shape(nodes: Seq<Node>, name: Seq<char>, cp: nat, workers: nat)
    requires
        nodes.len() == planned_calls(name, cp, workers).len(),
        forall|i: int|
            0 <= i < nodes.len() ==> (#[trigger] nodes[i]).role == planned_calls(
                name,
                cp,
                workers,
            )[i].role,
    ensures
        nodes.len() == cp + workers,
        forall|i: int| 0 <= i < cp ==> (#[trigger] nodes[i]).role == NodeRole::ControlPlane,
        forall|i: int| cp <= i < cp + workers ==> (#[trigger] nodes[i]).role == NodeRole::Worker,
{
    lemma_planned_calls_shape(name, cp, workers);
}

/// Law: a node sequence that matches a plan name for name — as the nodes of
/// a successfully created cluster do — carries pairwise distinct names.
pub proof fn lemma_cluster_node_names_distinct(
    nodes: Seq<Node>,
    name: Seq<char>,
    cp: nat,
    workers: nat,
)
    requires
        nodes.len() == planned_calls(name, cp, workers).len(),
        forall|i: int|
            0 <= i < nodes.len() ==> (#[trigger] nodes[i]).name@ == planned_calls(
                name,
                cp,
                workers,
            )[i].name,
    ensures
        forall|i: int, j: int|
            0 <= i < j < nodes.len() ==> (#[trigger] nodes[i]).name@ != (#[trigger] nodes[j]).name@,
{
    lemma_planned_names_distinct(name, cp, workers);
}

/// The capability contract for infrastructure provisioning: create, delete
/// and list compute instances, and resolve an instance address. Every
/// operation may fail with an infrastructure error carrying a free-text
/// diagnostic; nothing promises success, since the backend decides.
pub trait IaasPort: Sized {
    /// The creation requests this provider has received, oldest first.
    /// Providers verified here override this model; one implemented outside
    /// the library is its own warrant for the contract, as any unverified
    /// impl of a specified trait is.
    open spec fn history(&self) -> Seq<CreateCall> {
        Seq::empty()
    }

    /// The nodes the backend would currently list.
    open spec fn vms(&self) -> Seq<Node> {
        Seq::empty()
    }

    /// Request creation of one instance. On success the returned node
    /// carries the requested name and role and starts as `Provisioning`;
    /// either way the request is appended to the history with its outcome.
    fn create_vm(&mut self, name: &str, role: NodeRole) -> (r: Result<Node, FleetError>)
        ensures
            r matches Ok(node) ==> final(self).history() == old(self).history().push(
                CreateCall { name: name@, role, outcome: None },
            ) && node.name@ == name@ && node.role == role && node.status
                == NodeStatus::Provisioning,
            r matches Err(e) ==> (e matches FleetError::InternalServerError { message }
                && final(self).history() == old(self).history().push(
                CreateCall { name: name@, role, outcome: Some(message@) },
            )),
    ;

    /// Remove one instance. No creation request is recorded.
    fn delete_vm(&mut self, id: &str) -> (r: Result<(), FleetError>)
        ensures
            final(self).history() == old(self).history(),
    ;

    /// List the backend's instances as nodes. No creation request is
    /// recorded; on success the result is exactly the backend's listing.
    fn list_vms(&mut self) -> (r: Result<Vec<Node>, FleetError>)
        ensures
            final(self).history() == old(self).history(),
            r matches Ok(nodes) ==> nodes@ == final(self).vms(),
    ;

    /// Resolve the address of one instance. No creation request is recorded.
    fn get_vm_ip(&mut self, name: &str) -> (r: Result<String, FleetError>)
        ensures
            final(self).history() == old(self).history(),
    ;
}

/// The contract the orchestration layer exposes upward, to a CLI, an API or
/// a test harness.
pub trait ClusterService: Sized {
    /// The creation requests this service has issued to its backend.
    open spec fn issued(&self) -> Seq<CreateCall> {
        Seq::empty()
    }

    /// The nodes this service's backend would currently list.
    open spec fn backend_vms(&self) -> Seq<Node> {
        Seq::empty()
    }

    /// Provision a cluster of `control_planes` control-plane nodes followed
    /// by `workers` worker nodes, in that order, sequentially. On success
    /// the issued requests are exactly the plan and the returned cluster
    /// holds one `Provisioning` node per request, in creation order. On the
    /// first failure the service stops: the issued requests are a strict
    /// prefix of the plan plus the one failed request, whose diagnostic is
    /// returned unchanged.
    fn create_cluster(&mut self, name: &str, control_planes: usize, workers: usize) -> (r: Result<
        Cluster,
        FleetError,
    >)
        ensures
            r matches Ok(cluster) ==> ({
                let plan = planned_calls(name@, control_planes as nat, workers as nat);
                &&& final(self).issued() == old(self).issued() + plan
                &&& cluster.name@ == name@
                &&& cluster.nodes@.len() == plan.len()
                &&& (forall|i: int|
                    0 <= i < plan.len() ==> (#[trigger] cluster.nodes@[i]).name@ == plan[i].name
                        && cluster.nodes@[i].role == plan[i].role && cluster.nodes@[i].status
                        == NodeStatus::Provisioning)
            }),
            r matches Err(e) ==> ({
                let plan = planned_calls(name@, control_planes as nat, workers as nat);
                e matches FleetError::InternalServerError { message } && (exists|k: int|
                    0 <= k < plan.len() && final(self).issued() == old(self).issued()
                        + #[trigger] plan.take(k).push(
                        CreateCall { name: plan[k].name, role: plan[k].role, outcome: Some(message@) },
                    ))
            }),
    ;

    /// List the backend's instances, unmodified: no caching, no merging with
    /// any previously created cluster. No creation request is issued.
    fn list_vms(&mut self) -> (r: Result<Vec<Node>, FleetError>)
        ensures
            final(self).issued() == old(self).issued(),
            r matches Ok(nodes) ==> nodes@ == final(self).backend_vms(),
    ;
}

/// The capability contract for workload-runtime installation on a node. Not
/// yet consumed by the orchestration service; declared for the bootstrap
/// step that will need it.
pub trait K8sPort: Sized {
    fn install_single_node(&self, vm: &Node) -> Result<(), FleetError>;

    fn get_kubeconfig(&self, vm: &Node) -> Result<String, FleetError>;

    fn is_ready(&self, vm: &Node) -> Result<bool, FleetError>;

    fn uninstall(&self, vm: &Node) -> Result<(), FleetError>;
}

} // verus!
