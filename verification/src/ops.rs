//! The five transition operations.
//!
//! Every operation validates the caller's authorization and the
//! operation's preconditions against the record's current state, then
//! either applies the mutation and returns the notification event, or
//! returns the rejection with the record untouched. Which outcome is
//! taken, and what the post-state is, is exactly what the functions in
//! `transitions` say; the caller's identity is taken on trust from the
//! authenticating boundary.

use vstd::prelude::*;
use crate::errors::ErrorCode;
use crate::events::{MaterialAdded, MaterialVerified, ProjectCreated, ProjectVerified, ProofAdded};
use crate::identity::Identity;
use crate::record::{ConstructionProject, MaterialRecord};
use crate::transitions::{
    add_material_error, add_material_next, add_proof_error, add_proof_next, created_record,
    final_verify_error, final_verify_next, verify_material_error, verify_material_next,
};

verus! {

/// Creates a fresh project record for `authority`, with `contractor`
/// assigned, empty material and proof logs, and the clock reading
/// `timestamp` supplied by the boundary.
///
/// `project_key` is the record's storage address, derived by the
/// substrate; it is carried into the creation event untouched. Whether the
/// address is already occupied is the substrate's check, not this one's.
pub fn create_project(
    project_key: &Identity,
    name: String,
    location: String,
    authority: &Identity,
    contractor: &Identity,
    timestamp: i64,
) -> (r: (ConstructionProject, ProjectCreated))
    ensures
        r.0@ == created_record(authority@, name@, location@, contractor@, timestamp),
        r.1.project@ == project_key@,
        r.1.authority@ == authority@,
        r.1.contractor@ == contractor@,
        r.1.name@ == name@,
{
    let ghost location_view = location@;
    let project = ConstructionProject {
        authority: *authority,
        name: name.clone(),
        location,
        contractor: *contractor,
        materials: Vec::new(),
        doc_hashes: Vec::new(),
        verified: false,
        timestamp,
    };
    proof {
        assert(project@ =~~= created_record(
            authority@,
            name@,
            location_view,
            contractor@,
            timestamp,
        ));
    }
    let event = ProjectCreated {
        project: *project_key,
        authority: *authority,
        contractor: *contractor,
        name,
    };
    (project, event)
}

/// Appends one material to the record's log.
///
/// Only the contractor may log materials; any other caller is refused
/// with `Unauthorized` and the record is untouched. On success the new
/// material is appended unverified and the event reports what was logged.
pub fn add_material(
    project: &mut ConstructionProject,
    project_key: &Identity,
    name: String,
    quantity: u32,
    quality_grade: String,
    caller: &Identity,
) -> (r: Result<MaterialAdded, ErrorCode>)
    ensures
        match r {
            Ok(ev) => {
                &&& add_material_error(old(project)@, caller@) is None
                &&& final(project)@ == add_material_next(
                    old(project)@,
                    name@,
                    quantity,
                    quality_grade@,
                )
                &&& ev.project@ == project_key@
                &&& ev.contractor@ == caller@
                &&& ev.name@ == name@
                &&& ev.quantity == quantity
                &&& ev.quality_grade@ == quality_grade@
            },
            Err(e) => {
                &&& add_material_error(old(project)@, caller@) == Some(e)
                &&& final(project)@ == old(project)@
            },
        },
{
    if !caller.same(&project.contractor) {
        return Err(ErrorCode::Unauthorized);
    }
    let material = MaterialRecord {
        name: name.clone(),
        quantity,
        quality_grade: quality_grade.clone(),
        verified_by: None,
    };
    project.materials.push(material);
    proof {
        assert(project@ =~~= add_material_next(old(project)@, name@, quantity, quality_grade@));
    }
    Ok(MaterialAdded {
        project: *project_key,
        contractor: *caller,
        name,
        quantity,
        quality_grade,
    })
}

/// Marks the material at `material_index` as verified by the caller.
///
/// Only the authority may verify; the index must address an existing
/// material; a material is verified at most once. On any refusal the
/// record is untouched.
pub fn verify_material(
    project: &mut ConstructionProject,
    project_key: &Identity,
    material_index: u32,
    caller: &Identity,
) -> (r: Result<MaterialVerified, ErrorCode>)
    ensures
        match r {
            Ok(ev) => {
                &&& verify_material_error(old(project)@, material_index, caller@) is None
                &&& final(project)@ == verify_material_next(
                    old(project)@,
                    material_index,
                    caller@,
                )
                &&& ev.project@ == project_key@
                &&& ev.verifier@ == caller@
                &&& ev.material_index == material_index
            },
            Err(e) => {
                &&& verify_material_error(old(project)@, material_index, caller@) == Some(e)
                &&& final(project)@ == old(project)@
            },
        },
{
    if !caller.same(&project.authority) {
        return Err(ErrorCode::Unauthorized);
    }
    let idx = material_index as usize;
    if idx >= project.materials.len() {
        return Err(ErrorCode::InvalidMaterialIndex);
    }
    if project.materials[idx].verified_by.is_some() {
        return Err(ErrorCode::MaterialAlreadyVerified);
    }
    let material = &mut project.materials[idx];
    material.verified_by = Some(*caller);
    proof {
        assert(project@ =~~= verify_material_next(old(project)@, material_index, caller@));
    }
    Ok(MaterialVerified { project: *project_key, verifier: *caller, material_index })
}

/// Appends one opaque proof string to the record.
///
/// Only the authority may add proofs; duplicates and arbitrary formats
/// are accepted, as format validation is a collaborator's concern.
pub fn add_proof(
    project: &mut ConstructionProject,
    project_key: &Identity,
    proof_hash: String,
    caller: &Identity,
) -> (r: Result<ProofAdded, ErrorCode>)
    ensures
        match r {
            Ok(ev) => {
                &&& add_proof_error(old(project)@, caller@) is None
                &&& final(project)@ == add_proof_next(old(project)@, proof_hash@)
                &&& ev.project@ == project_key@
                &&& ev.authority@ == caller@
                &&& ev.proof_hash@ == proof_hash@
            },
            Err(e) => {
                &&& add_proof_error(old(project)@, caller@) == Some(e)
                &&& final(project)@ == old(project)@
            },
        },
{
    if !caller.same(&project.authority) {
        return Err(ErrorCode::Unauthorized);
    }
    project.doc_hashes.push(proof_hash.clone());
    proof {
        assert(project@ =~~= add_proof_next(old(project)@, proof_hash@));
    }
    Ok(ProofAdded { project: *project_key, authority: *caller, proof_hash })
}

/// Marks the whole project as verified.
///
/// Only the authority may finalize, and only once: a second attempt is
/// refused with `ProjectAlreadyVerified`. Finalization has no other
/// precondition — materials need not be verified and no proof need exist.
pub fn final_verify(
    project: &mut ConstructionProject,
    project_key: &Identity,
    caller: &Identity,
) -> (r: Result<ProjectVerified, ErrorCode>)
    ensures
        match r {
            Ok(ev) => {
                &&& final_verify_error(old(project)@, caller@) is None
                &&& final(project)@ == final_verify_next(old(project)@)
                &&& ev.project@ == project_key@
                &&& ev.authority@ == caller@
            },
            Err(e) => {
                &&& final_verify_error(old(project)@, caller@) == Some(e)
                &&& final(project)@ == old(project)@
            },
        },
{
    if !caller.same(&project.authority) {
        return Err(ErrorCode::Unauthorized);
    }
    if project.verified {
        return Err(ErrorCode::ProjectAlreadyVerified);
    }
    project.verified = true;
    proof {
        assert(project@ =~~= final_verify_next(old(project)@));
    }
    Ok(ProjectVerified { project: *project_key, authority: *caller })
}

} // verus!
