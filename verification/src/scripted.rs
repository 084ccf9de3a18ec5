//! An in-memory infrastructure provider with a scripted run of outcomes,
//! for harnesses that drive the orchestration service without a backend.
//! It is also the witness that the provider contract is implementable.

use vstd::prelude::*;

use crate::error::FleetError;
use crate::node::{Node, NodeRole};
use crate::ports::{CreateCall, IaasPort};

verus! {

/// One recorded creation attempt.
#[derive(Debug)]
pub struct CreateRecord {
    pub name: String,
    pub role: NodeRole,
    pub error: Option<String>,
}

/// The attempt as a `CreateCall` of the provider contract.
pub open spec fn record_view(r: CreateRecord) -> CreateCall {
    CreateCall {
        name: r.name@,
        role: r.role,
        outcome: match r.error {
            Some(m) => Some(m@),
            None => None,
        },
    }
}

/// A provider whose `k`-th creation call fails with the message scripted at
/// position `k` of `outcomes` and succeeds where none is scripted. Created
/// nodes take the requested name as their id, like a backend that has no
/// durable identifier of its own. Every creation attempt is recorded, in
/// order, whatever its outcome.
pub struct ScriptedProvider {
    /// The outcome script, by call index: `None` succeeds, `Some(m)` fails
    /// with message `m`. Calls beyond the script succeed.
    pub outcomes: Vec<Option<String>>,
    /// Every creation attempt made so far, oldest first.
    pub calls: Vec<CreateRecord>,
    /// The fixed listing that `list_vms` serves.
    pub listed: Vec<Node>,
    /// The fixed address that `get_vm_ip` serves.
    pub address: String,
}

impl ScriptedProvider {
    /// A fresh provider: the given script and listing, no calls yet.
    pub fn new(outcomes: Vec<Option<String>>, listed: Vec<Node>, address: String) -> (r: Self)
        ensures
            r.outcomes == outcomes,
            r.calls@ == Seq::<CreateRecord>::empty(),
            r.listed == listed,
            r.address == address,
    {
        Self { outcomes, calls: Vec::new(), listed, address }
    }

    /// How many creation attempts have been made.
    pub fn call_count(&self) -> (r: usize)
        ensures
            r == self.calls@.len(),
    {
        self.calls.len()
    }
}

impl IaasPort for ScriptedProvider {
    open spec fn history(&self) -> Seq<CreateCall> {
        self.calls@.map_values(|r: CreateRecord| record_view(r))
    }

    open spec fn vms(&self) -> Seq<Node> {
        self.listed@
    }

    fn create_vm(&mut self, name: &str, role: NodeRole) -> (r: Result<Node, FleetError>)
        ensures
            r is Ok <==> (old(self).calls@.len() >= old(self).outcomes@.len() || old(
                self,
            ).outcomes@[old(self).calls@.len() as int] is None),
            r matches Ok(node) ==> node.id@ == name@,
            final(self).outcomes == old(self).outcomes,
            final(self).listed == old(self).listed,
            final(self).address == old(self).address,
            final(self).calls@.len() == old(self).calls@.len() + 1,
    {
        let k = self.calls.len();
        let scripted: Option<String> = if k < self.outcomes.len() {
            match &self.outcomes[k] {
                Some(m) => Some(m.clone()),
                None => None,
            }
        } else {
            None
        };
        match scripted {
            None => {
                self.calls.push(CreateRecord { name: String::from_str(name), role, error: None });
                proof {
                    assert(self.history() =~= old(self).history().push(
                        CreateCall { name: name@, role, outcome: None },
                    ));
                }
                Ok(Node::new(String::from_str(name), String::from_str(name), role))
            },
            Some(m) => {
                self.calls.push(
                    CreateRecord { name: String::from_str(name), role, error: Some(m.clone()) },
                );
                proof {
                    assert(self.history() =~= old(self).history().push(
                        CreateCall { name: name@, role, outcome: Some(m@) },
                    ));
                }
                Err(FleetError::InternalServerError { message: m })
            },
        }
    }

    fn delete_vm(&mut self, id: &str) -> (r: Result<(), FleetError>) {
        Ok(())
    }

    fn list_vms(&mut self) -> (r: Result<Vec<Node>, FleetError>) {
        let mut nodes: Vec<Node> = Vec::new();
        let mut i: usize = 0;
        while i < self.listed.len()
            invariant
                i <= self.listed@.len(),
                nodes@ == self.listed@.take(i as int),
            decreases self.listed@.len() - i,
        {
            nodes.push(self.listed[i].clone());
            proof {
                assert(nodes@ =~= self.listed@.take(i + 1));
            }
            i = i + 1;
        }
        proof {
            assert(nodes@ =~= self.listed@);
        }
        Ok(nodes)
    }

    fn get_vm_ip(&mut self, name: &str) -> (r: Result<String, FleetError>) {
        Ok(self.address.clone())
    }
}

} // verus!
