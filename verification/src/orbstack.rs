//! Backend-specific adapter logic for an external VM manager: the record
//! shapes its structured listing yields, the mapping from a backend state
//! string to a node status, and the heuristic role inference used when the
//! backend carries no native role field. The process invocations themselves
//! live outside the library; this module owns every decision made on their
//! decoded output.

use vstd::prelude::*;

use crate::node::{Node, NodeRole, NodeStatus};
use crate::text::{contains_seq, str_contains, str_eq};

verus! {

/// The image a backend instance was created from.
#[derive(Debug)]
pub struct VmImage {
    pub distro: String,
    pub version: String,
    pub arch: String,
    pub variant: String,
}

/// Per-instance configuration reported by the backend.
#[derive(Debug)]
pub struct VmConfig {
    pub isolated: bool,
    pub default_username: String,
}

/// One record of the backend's structured listing.
#[derive(Debug)]
pub struct OrbStackVmRecord {
    pub id: String,
    pub name: String,
    pub image: VmImage,
    pub config: VmConfig,
    pub builtin: bool,
    pub state: String,
}

/// A record enriched with the details only the per-instance info operation
/// reports.
#[derive(Debug)]
pub struct OrbStackVmInfo {
    pub record: OrbStackVmRecord,
    pub disk_size: u64,
    pub ip4: Option<String>,
    pub ip6: Option<String>,
}

impl OrbStackVmInfo {
    /// The VM record regardless of source (listing or info).
    pub fn record(&self) -> (r: &OrbStackVmRecord)
        ensures
            r == &self.record,
    {
        &self.record
    }
}

impl From<OrbStackVmRecord> for OrbStackVmInfo {
    /// A listing record carries no disk or address details.
    fn from(record: OrbStackVmRecord) -> (r: Self) {
        OrbStackVmInfo { record, disk_size: 0, ip4: None, ip6: None }
    }
}

impl vstd::std_specs::convert::FromSpecImpl<OrbStackVmRecord> for OrbStackVmInfo {
    open spec fn obeys_from_spec() -> bool {
        true
    }

    open spec fn from_spec(record: OrbStackVmRecord) -> Self {
        OrbStackVmInfo { record, disk_size: 0, ip4: None, ip6: None }
    }
}

/// The status a backend state string maps to: `"running"` means `Ready`,
/// `"stopped"` and `"stopping"` mean `Failed`, anything else means
/// `Provisioning`.
pub open spec fn spec_map_state(state: Seq<char>) -> NodeStatus {
    if state == "running"@ {
        NodeStatus::Ready
    } else if state == "stopped"@ || state == "stopping"@ {
        NodeStatus::Failed
    } else {
        NodeStatus::Provisioning
    }
}

/// The role inferred from an instance name: `ControlPlane` when the name
/// holds `"cp"`, `"control"` or `"master"` as a substring (case-sensitive),
/// `Worker` otherwise. Best-effort classification, not authoritative.
pub open spec fn spec_infer_role(name: Seq<char>) -> NodeRole {
    if contains_seq(name, "cp"@) || contains_seq(name, "control"@) || contains_seq(
        name,
        "master"@,
    ) {
        NodeRole::ControlPlane
    } else {
        NodeRole::Worker
    }
}

/// Law: the state mapping is a pure function of the state string alone, so
/// mapping equal strings always yields the same status.
pub proof fn lemma_state_mapping_deterministic(a: Seq<char>, b: Seq<char>)
    requires
        a == b,
    ensures
        spec_map_state(a) == spec_map_state(b),
{
}

/// Law: role inference is a pure function of the instance name alone, so
/// repeated inference on one name is stable.
pub proof fn lemma_role_inference_deterministic(a: Seq<char>, b: Seq<char>)
    requires
        a == b,
    ensures
        spec_infer_role(a) == spec_infer_role(b),
{
}

/// Map one backend state string to a node status.
pub fn map_state(state: &str) -> (r: NodeStatus)
    ensures
        r == spec_map_state(state@),
{
    if str_eq(state, "running") {
        NodeStatus::Ready
    } else if str_eq(state, "stopped") || str_eq(state, "stopping") {
        NodeStatus::Failed
    } else {
        NodeStatus::Provisioning
    }
}

/// Infer a role from an instance name.
pub fn infer_role(name: &str) -> (r: NodeRole)
    ensures
        r == spec_infer_role(name@),
{
    if str_contains(name, "cp") || str_contains(name, "control") || str_contains(name, "master") {
        NodeRole::ControlPlane
    } else {
        NodeRole::Worker
    }
}

/// The adapter over the external VM manager. It holds no state of its own;
/// this library owns only its decisions on decoded backend output.
#[derive(Debug, Clone, Copy)]
pub struct OrbStackAdapter;

impl OrbStackAdapter {
    pub fn new() -> Self {
        Self
    }

    /// Decode one listing record into a node: the backend's id and name are
    /// kept, the state string is mapped to a status, and the role is the one
    /// given, or inferred from the name when the caller has none.
    pub fn vm_record_to_node(&self, vm_record: &OrbStackVmRecord, role: Option<NodeRole>) -> (r:
        Node)
        ensures
            r.id == vm_record.id,
            r.name == vm_record.name,
            r.status == spec_map_state(vm_record.state@),
            r.role == (match role {
                Some(given) => given,
                None => spec_infer_role(vm_record.name@),
            }),
    {
        let status = map_state(vm_record.state.as_str());
        let node_role = match role {
            Some(given) => given,
            None => infer_role(vm_record.name.as_str()),
        };
        Node { id: vm_record.id.clone(), name: vm_record.name.clone(), role: node_role, status }
    }

    /// Decode a whole listing, record by record, in order, inferring every
    /// role from the record's name.
    pub fn records_to_nodes(&self, records: &Vec<OrbStackVmRecord>) -> (r: Vec<Node>)
        ensures
            r@.len() == records@.len(),
            forall|i: int|
                0 <= i < records@.len() ==> (#[trigger] r@[i]).id == records@[i].id && r@[i].name
                    == records@[i].name && r@[i].status == spec_map_state(records@[i].state@)
                    && r@[i].role == spec_infer_role(records@[i].name@),
    {
        let mut nodes: Vec<Node> = Vec::new();
        let mut i: usize = 0;
        while i < records.len()
            invariant
                i <= records@.len(),
                nodes@.len() == i,
                forall|j: int|
                    0 <= j < i ==> (#[trigger] nodes@[j]).id == records@[j].id && nodes@[j].name
                        == records@[j].name && nodes@[j].status == spec_map_state(
                        records@[j].state@,
                    ) && nodes@[j].role == spec_infer_role(records@[j].name@),
            decreases records@.len() - i,
        {
            let node = self.vm_record_to_node(&records[i], None);
            nodes.push(node);
            i = i + 1;
        }
        nodes
    }
}

impl Default for OrbStackAdapter {
    fn default() -> (r: Self)
        ensures
            r == OrbStackAdapter,
    {
        Self::new()
    }
}

} // verus!
