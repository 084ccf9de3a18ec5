//! Domain entities for a cluster: a named, identified collection of nodes,
//! and the richer lifecycle variant used once a workload runtime is wired in.

use vstd::prelude::*;

use crate::node::Node;

verus! {

/// A named collection of nodes created by a single orchestration request.
/// Node ordering reflects creation order.
#[derive(Debug)]
pub struct Cluster {
    pub id: String,
    pub name: String,
    pub nodes: Vec<Node>,
}

impl Cluster {
    /// A cluster is created with zero nodes.
    pub fn new(id: String, name: String) -> (r: Self)
        ensures
            r.id == id,
            r.name == name,
            r.nodes@ == Seq::<Node>::empty(),
    {
        Self { id, name, nodes: Vec::new() }
    }

    /// Append a node; the order of the nodes already present is kept.
    pub fn add_node(&mut self, node: Node)
        ensures
            final(self).nodes@ == old(self).nodes@.push(node),
            final(self).id == old(self).id,
            final(self).name == old(self).name,
    {
        self.nodes.push(node);
    }
}

impl Clone for Cluster {
    /// A clone carries the same identity, name and node sequence.
    fn clone(&self) -> (r: Self)
        ensures
            r.id == self.id,
            r.name == self.name,
            r.nodes@ == self.nodes@,
    {
        let mut nodes: Vec<Node> = Vec::new();
        let mut i: usize = 0;
        while i < self.nodes.len()
            invariant
                i <= self.nodes.len(),
                nodes@ == self.nodes@.take(i as int),
            decreases self.nodes.len() - i,
        {
            nodes.push(self.nodes[i].clone());
            proof {
                assert(nodes@ =~= self.nodes@.take(i + 1));
            }
            i = i + 1;
        }
        proof {
            assert(nodes@ =~= self.nodes@);
        }
        Cluster { id: self.id.clone(), name: self.name.clone(), nodes }
    }
}

/// Cluster lifecycle once a workload runtime is bootstrapped:
/// `Creating` moves to `Ready` or `Failed`; `Ready` moves to `Updating` or
/// `Deleting`; `Updating` moves back to `Ready` or to `Failed`.
#[derive(Debug, Clone, Copy, PartialEq, Eq, Structural)]
pub enum K3sClusterStatus {
    Creating,
    Ready,
    Failed,
    Updating,
    Deleting,
}

/// A cluster with the richer lifecycle: a distinguished control-plane and
/// worker split, an optional access credential blob and an optional API
/// endpoint.
#[derive(Debug)]
pub struct K3sCluster {
    pub id: String,
    pub name: String,
    pub control_plane_nodes: Vec<Node>,
    pub worker_nodes: Vec<Node>,
    pub status: K3sClusterStatus,
    pub kubeconfig: Option<String>,
    pub api_endpoint: Option<String>,
}

impl K3sCluster {
    /// A fresh cluster starts empty, in the `Creating` status, with no
    /// credentials and no endpoint.
    pub fn new(id: String, name: String) -> (r: Self)
        ensures
            r.id == id,
            r.name == name,
            r.control_plane_nodes@ == Seq::<Node>::empty(),
            r.worker_nodes@ == Seq::<Node>::empty(),
            r.status == K3sClusterStatus::Creating,
            r.kubeconfig is None,
            r.api_endpoint is None,
    {
        Self {
            id,
            name,
            control_plane_nodes: Vec::new(),
            worker_nodes: Vec::new(),
            status: K3sClusterStatus::Creating,
            kubeconfig: None,
            api_endpoint: None,
        }
    }

    /// True exactly when the cluster is in the `Ready` status.
    pub fn is_ready(&self) -> (r: bool)
        ensures
            r == (self.status == K3sClusterStatus::Ready),
    {
        self.status == K3sClusterStatus::Ready
    }
}

} // verus!
