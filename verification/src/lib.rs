//! Cluster-fleet orchestration core: domain entities for clusters and nodes,
//! capability contracts for infrastructure provisioning, and the orchestration
//! service that drives node creation through a pluggable backend.

pub mod cluster;
pub mod error;
pub mod node;
pub mod orbstack;
pub mod ports;
pub mod repositories;
pub mod scripted;
pub mod services;
pub mod text;

use vstd::prelude::*;

verus! {

} // verus!
