//! Domain entity for a provisioned compute instance: its role in the cluster
//! and its provisioning status.

use vstd::prelude::*;

verus! {

/// How a node participates in the cluster.
#[derive(Debug, Clone, Copy, PartialEq, Eq, Structural)]
pub enum NodeRole {
    ControlPlane,
    Worker,
}

/// Lifecycle status of a node: it starts as `Provisioning` and moves forward
/// to `Ready` or `Failed`; no automatic recovery transition exists.
#[derive(Debug, Clone, Copy, PartialEq, Eq, Structural)]
pub enum NodeStatus {
    Provisioning,
    Ready,
    Failed,
}

/// A provisioned compute instance participating in a cluster.
#[derive(Debug)]
pub struct Node {
    pub id: String,
    pub name: String,
    pub role: NodeRole,
    pub status: NodeStatus,
}

impl Node {
    /// A fresh node always starts in the `Provisioning` status.
    pub fn new(id: String, name: String, role: NodeRole) -> (r: Self)
        ensures
            r.id == id,
            r.name == name,
            r.role == role,
            r.status == NodeStatus::Provisioning,
    {
        Self { id, name, role, status: NodeStatus::Provisioning }
    }

    /// Move the node forward to `Ready`; every other field is unchanged.
    pub fn mark_ready(&mut self)
        ensures
            final(self).status == NodeStatus::Ready,
            final(self).id == old(self).id,
            final(self).name == old(self).name,
            final(self).role == old(self).role,
    {
        self.status = NodeStatus::Ready;
    }

    /// Move the node forward to `Failed`; every other field is unchanged.
    pub fn mark_failed(&mut self)
        ensures
            final(self).status == NodeStatus::Failed,
            final(self).id == old(self).id,
            final(self).name == old(self).name,
            final(self).role == old(self).role,
    {
        self.status = NodeStatus::Failed;
    }
}

impl Clone for Node {
    /// A clone is equal to the original, field for field.
    fn clone(&self) -> (r: Self)
        ensures
            r == *self,
    {
        Node {
            id: self.id.clone(),
            name: self.name.clone(),
            role: self.role,
            status: self.status,
        }
    }
}

} // verus!
