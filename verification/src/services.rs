//! The orchestration service: the one implementation of `ClusterService`,
//! driving node creation through exactly one infrastructure provider.

use vstd::prelude::*;

use crate::cluster::Cluster;
use crate::error::FleetError;
use crate::node::{Node, NodeRole, NodeStatus};
use crate::ports::{planned_calls, ClusterService, CreateCall, IaasPort};
use crate::text::indexed_name;

verus! {

/// Relies on uuid's `Uuid::new_v4` and its `Display` impl: a fresh random
/// UUID, rendered in the hyphenated form of 36 characters. Nothing else can
/// be promised of a random identifier.
#[verifier::external_body]
fn new_cluster_id() -> (r: String)
    ensures
        r@.len() == 36,
{
    uuid::Uuid::new_v4().to_string()
}

/// The orchestration service, composing exactly one infrastructure
/// provider.
pub struct FerrisFleetService<P: IaasPort> {
    pub iaas_repository: P,
}

impl<P: IaasPort> FerrisFleetService<P> {
    /// A service over the given provider.
    pub fn new(iaas_repository: P) -> (r: Self)
        ensures
            r.iaas_repository == iaas_repository,
    {
        Self { iaas_repository }
    }
}

impl<P: IaasPort> ClusterService for FerrisFleetService<P> {
    open spec fn issued(&self) -> Seq<CreateCall> {
        self.iaas_repository.history()
    }

    open spec fn backend_vms(&self) -> Seq<Node> {
        self.iaas_repository.vms()
    }

    fn create_cluster(&mut self, name: &str, control_planes: usize, workers: usize) -> (r: Result<
        Cluster,
        FleetError,
    >)
        ensures
            r matches Ok(cluster) ==> cluster.id@.len() == 36,
    {
        let ghost plan = planned_calls(name@, control_planes as nat, workers as nat);
        let mut cluster = Cluster::new(new_cluster_id(), String::from_str(name));
        let mut i: usize = 0;
        while i < control_planes
            invariant
                i <= control_planes,
                plan == planned_calls(name@, control_planes as nat, workers as nat),
                plan.len() == control_planes + workers,
                self.iaas_repository.history() == old(self).iaas_repository.history() + plan.take(
                    i as int,
                ),
                cluster.name@ == name@,
                cluster.id@.len() == 36,
                cluster.nodes@.len() == i,
                forall|j: int|
                    0 <= j < i ==> (#[trigger] cluster.nodes@[j]).name@ == plan[j].name
                        && cluster.nodes@[j].role == plan[j].role && cluster.nodes@[j].status
                        == NodeStatus::Provisioning,
            decreases control_planes - i,
        {
            let node_name = indexed_name(name, "-cp-", i);
            proof {
                assert(plan[i as int] == (CreateCall {
                    name: node_name@,
                    role: NodeRole::ControlPlane,
                    outcome: None,
                }));
            }
            match self.iaas_repository.create_vm(node_name.as_str(), NodeRole::ControlPlane) {
                Ok(node) => {
                    cluster.add_node(node);
                    proof {
                        assert(old(self).iaas_repository.history() + plan.take(i as int + 1)
                            =~= (old(self).iaas_repository.history() + plan.take(i as int)).push(
                            plan[i as int],
                        ));
                    }
                },
                Err(e) => {
                    proof {
                        assert(self.iaas_repository.history() == old(
                            self,
                        ).iaas_repository.history() + planned_calls(
                            name@,
                            control_planes as nat,
                            workers as nat,
                        ).take(i as int).push(
                            CreateCall {
                                name: plan[i as int].name,
                                role: plan[i as int].role,
                                outcome: Some(e->message@),
                            },
                        )) by {
                            assert((old(self).iaas_repository.history() + plan.take(
                                i as int,
                            )).push(
                                CreateCall {
                                    name: plan[i as int].name,
                                    role: plan[i as int].role,
                                    outcome: Some(e->message@),
                                },
                            ) =~= old(self).iaas_repository.history() + plan.take(i as int).push(
                                CreateCall {
                                    name: plan[i as int].name,
                                    role: plan[i as int].role,
                                    outcome: Some(e->message@),
                                },
                            ));
                        }
                    }
                    return Err(e);
                },
            }
            i = i + 1;
        }
        let mut j: usize = 0;
        while j < workers
            invariant
                j <= workers,
                plan == planned_calls(name@, control_planes as nat, workers as nat),
                plan.len() == control_planes + workers,
                self.iaas_repository.history() == old(self).iaas_repository.history() + plan.take(
                    control_planes + j as int,
                ),
                cluster.name@ == name@,
                cluster.id@.len() == 36,
                cluster.nodes@.len() == control_planes + j,
                forall|t: int|
                    0 <= t < control_planes + j ==> (#[trigger] cluster.nodes@[t]).name@
                        == plan[t].name && cluster.nodes@[t].role == plan[t].role
                        && cluster.nodes@[t].status == NodeStatus::Provisioning,
            decreases workers - j,
        {
            let node_name = indexed_name(name, "-worker-", j);
            proof {
                assert(plan[control_planes + j as int] == (CreateCall {
                    name: node_name@,
                    role: NodeRole::Worker,
                    outcome: None,
                }));
            }
            match self.iaas_repository.create_vm(node_name.as_str(), NodeRole::Worker) {
                Ok(node) => {
                    cluster.add_node(node);
                    proof {
                        assert(old(self).iaas_repository.history() + plan.take(
                            control_planes + j as int + 1,
                        ) =~= (old(self).iaas_repository.history() + plan.take(
                            control_planes + j as int,
                        )).push(plan[control_planes + j as int]));
                    }
                },
                Err(e) => {
                    proof {
                        let k = control_planes + j as int;
                        assert(self.iaas_repository.history() == old(
                            self,
                        ).iaas_repository.history() + planned_calls(
                            name@,
                            control_planes as nat,
                            workers as nat,
                        ).take(k).push(
                            CreateCall {
                                name: plan[k].name,
                                role: plan[k].role,
                                outcome: Some(e->message@),
                            },
                        )) by {
                            assert((old(self).iaas_repository.history() + plan.take(k)).push(
                                CreateCall {
                                    name: plan[k].name,
                                    role: plan[k].role,
                                    outcome: Some(e->message@),
                                },
                            ) =~= old(self).iaas_repository.history() + plan.take(k).push(
                                CreateCall {
                                    name: plan[k].name,
                                    role: plan[k].role,
                                    outcome: Some(e->message@),
                                },
                            ));
                        }
                    }
                    return Err(e);
                },
            }
            j = j + 1;
        }
        proof {
            assert(plan.take(control_planes + workers as int) =~= plan);
        }
        Ok(cluster)
    }

    fn list_vms(&mut self) -> (r: Result<Vec<Node>, FleetError>) {
        self.iaas_repository.list_vms()
    }
}

} // verus!
