//! The laws of the state machine, proved once and for all.
//!
//! Each law is stated over the model in `transitions`, which the
//! executable operations in `ops` promise to follow exactly: which
//! rejection an operation takes, and that a rejected operation leaves the
//! record untouched, are pinned by those operations' contracts.

use vstd::prelude::*;
use crate::errors::ErrorCode;
use crate::record::RecordModel;
use crate::transitions::{
    add_material_error, add_material_next, add_proof_error, add_proof_next, final_verify_error,
    final_verify_next, verify_material_error, verify_material_next,
};

verus! {

/// Authorization: a caller other than the contractor cannot log a
/// material, and a caller other than the authority cannot verify a
/// material, add a proof, or finalize; every such attempt is refused
/// with `Unauthorized`.
pub proof fn lemma_authorization(p: RecordModel, caller: Seq<u8>)
    ensures
        caller != p.contractor ==> add_material_error(p, caller) == Some(ErrorCode::Unauthorized),
        caller != p.authority ==> forall|i: u32|
            verify_material_error(p, i, caller) == Some(ErrorCode::Unauthorized),
        caller != p.authority ==> add_proof_error(p, caller) == Some(ErrorCode::Unauthorized),
        caller != p.authority ==> final_verify_error(p, caller) == Some(ErrorCode::Unauthorized),
{
}

/// Append-only materials: logging a material keeps every prior material
/// unchanged at its index, grows the log by exactly one, and touches
/// nothing else in the record.
pub proof fn lemma_append_only_materials(
    p: RecordModel,
    name: Seq<char>,
    quantity: u32,
    quality_grade: Seq<char>,
)
    ensures
        add_material_next(p, name, quantity, quality_grade).materials.len() == p.materials.len()
            + 1,
        forall|i: int| 0 <= i < p.materials.len()
            ==> add_material_next(p, name, quantity, quality_grade).materials[i]
                == p.materials[i],
        add_material_next(p, name, quantity, quality_grade).doc_hashes == p.doc_hashes,
{
}

/// Append-only proofs: adding a proof keeps every prior proof string
/// unchanged at its index, grows the log by exactly one, and touches
/// nothing else in the record.
pub proof fn lemma_append_only_proofs(p: RecordModel, proof_hash: Seq<char>)
    ensures
        add_proof_next(p, proof_hash).doc_hashes.len() == p.doc_hashes.len() + 1,
        forall|i: int| 0 <= i < p.doc_hashes.len()
            ==> add_proof_next(p, proof_hash).doc_hashes[i] == p.doc_hashes[i],
        add_proof_next(p, proof_hash).materials == p.materials,
{
}

/// Single verification: after a material is verified, its verifier is
/// recorded, and any later attempt on the same index is refused — with
/// `MaterialAlreadyVerified` when the authority asks again — so the
/// recorded verifier can never change.
pub proof fn lemma_material_verified_once(
    p: RecordModel,
    material_index: u32,
    caller: Seq<u8>,
    later: Seq<u8>,
)
    requires
        verify_material_error(p, material_index, caller) is None,
    ensures
        verify_material_next(p, material_index, caller).materials[
            material_index as int
        ].verified_by == Some(caller),
        verify_material_error(
            verify_material_next(p, material_index, caller),
            material_index,
            later,
        ) is Some,
        later == p.authority ==> verify_material_error(
            verify_material_next(p, material_index, caller),
            material_index,
            later,
        ) == Some(ErrorCode::MaterialAlreadyVerified),
{
}

/// One-way finalize: finalizing sets the verified flag, and any later
/// finalize attempt is refused — with `ProjectAlreadyVerified` when the
/// authority asks again.
pub proof fn lemma_finalize_one_way(p: RecordModel, caller: Seq<u8>, later: Seq<u8>)
    requires
        final_verify_error(p, caller) is None,
    ensures
        final_verify_next(p).verified,
        final_verify_error(final_verify_next(p), later) is Some,
        later == p.authority ==> final_verify_error(final_verify_next(p), later) == Some(
            ErrorCode::ProjectAlreadyVerified,
        ),
{
}

/// The verified flag never reverts: no successful operation other than
/// `final_verify` changes it, and `final_verify` only sets it.
pub proof fn lemma_verified_flag_monotonic(
    p: RecordModel,
    name: Seq<char>,
    quantity: u32,
    quality_grade: Seq<char>,
    proof_hash: Seq<char>,
    material_index: u32,
    caller: Seq<u8>,
)
    ensures
        add_material_next(p, name, quantity, quality_grade).verified == p.verified,
        verify_material_next(p, material_index, caller).verified == p.verified,
        add_proof_next(p, proof_hash).verified == p.verified,
        final_verify_next(p).verified,
{
}

/// The principals and the descriptive fields are fixed at creation: no
/// transition changes the authority, the contractor, the name, the
/// location, or the creation timestamp.
pub proof fn lemma_identity_fields_immutable(
    p: RecordModel,
    name: Seq<char>,
    quantity: u32,
    quality_grade: Seq<char>,
    proof_hash: Seq<char>,
    material_index: u32,
    caller: Seq<u8>,
)
    ensures
        unchanged_identity_fields(p, add_material_next(p, name, quantity, quality_grade)),
        unchanged_identity_fields(p, verify_material_next(p, material_index, caller)),
        unchanged_identity_fields(p, add_proof_next(p, proof_hash)),
        unchanged_identity_fields(p, final_verify_next(p)),
{
}

/// The fields that no transition may touch agree between two states.
pub open spec fn unchanged_identity_fields(before: RecordModel, after: RecordModel) -> bool {
    &&& after.authority == before.authority
    &&& after.contractor == before.contractor
    &&& after.name == before.name
    &&& after.location == before.location
    &&& after.timestamp == before.timestamp
}

/// Index bounds: an authority's verification attempt at any index at or
/// past the end of the material log is refused with
/// `InvalidMaterialIndex`.
pub proof fn lemma_index_bounds(p: RecordModel, material_index: u32, caller: Seq<u8>)
    requires
        caller == p.authority,
        material_index >= p.materials.len(),
    ensures
        verify_material_error(p, material_index, caller) == Some(ErrorCode::InvalidMaterialIndex),
{
}

} // verus!
