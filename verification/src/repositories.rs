//! Backend dispatch: the closed set of backend variants the orchestration
//! layer can be wired to. Adding a backend means adding a variant and a
//! forwarding arm, never touching the orchestration service.

use vstd::prelude::*;

use crate::node::{Node, NodeRole};
use crate::orbstack::{spec_infer_role, spec_map_state, OrbStackAdapter, OrbStackVmRecord};

verus! {

/// The closed set of infrastructure backends. Every operation forwards to
/// the wrapped adapter of the active variant.
#[derive(Debug, Clone, Copy)]
pub enum IaasRepository {
    Orbstack(OrbStackAdapter),
}

impl IaasRepository {
    /// Forward a record decode to the active backend's adapter.
    pub fn vm_record_to_node(&self, vm_record: &OrbStackVmRecord, role: Option<NodeRole>) -> (r:
        Node)
        ensures
            r.id == vm_record.id,
            r.name == vm_record.name,
            r.status == spec_map_state(vm_record.state@),
            r.role == (match role {
                Some(given) => given,
                None => spec_infer_role(vm_record.name@),
            }),
    {
        match self {
            IaasRepository::Orbstack(adapter) => adapter.vm_record_to_node(vm_record, role),
        }
    }

    /// Forward a whole-listing decode to the active backend's adapter.
    pub fn records_to_nodes(&self, records: &Vec<OrbStackVmRecord>) -> (r: Vec<Node>)
        ensures
            r@.len() == records@.len(),
            forall|i: int|
                0 <= i < records@.len() ==> (#[trigger] r@[i]).id == records@[i].id && r@[i].name
                    == records@[i].name && r@[i].status == spec_map_state(records@[i].state@)
                    && r@[i].role == spec_infer_role(records@[i].name@),
    {
        match self {
            IaasRepository::Orbstack(adapter) => adapter.records_to_nodes(records),
        }
    }
}

/// The backends an orchestration process was configured with.
#[derive(Debug, Clone, Copy)]
pub struct Repositories {
    pub iaas_repo: IaasRepository,
}

} // verus!
