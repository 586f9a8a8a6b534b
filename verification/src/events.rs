//! Notification events.
//!
//! Each successful operation returns one of these records; the calling
//! boundary forwards it to the external notification channel. The state
//! machine itself performs no I/O.

use vstd::prelude::*;
use crate::identity::Identity;

verus! {

/// A project record was created.
#[derive(Clone, Debug)]
pub struct ProjectCreated {
    pub project: Identity,
    pub authority: Identity,
    pub contractor: Identity,
    pub name: String,
}

/// The contractor logged a material against the project.
#[derive(Clone, Debug)]
pub struct MaterialAdded {
    pub project: Identity,
    pub contractor: Identity,
    pub name: String,
    pub quantity: u32,
    pub quality_grade: String,
}

/// The authority verified one logged material.
#[derive(Clone, Debug)]
pub struct MaterialVerified {
    pub project: Identity,
    pub verifier: Identity,
    pub material_index: u32,
}

/// The authority attached a proof string to the project.
#[derive(Clone, Debug)]
pub struct ProofAdded {
    pub project: Identity,
    pub authority: Identity,
    pub proof_hash: String,
}

/// The authority finalized the project.
#[derive(Clone, Debug)]
pub struct ProjectVerified {
    pub project: Identity,
    pub authority: Identity,
}

} // verus!
