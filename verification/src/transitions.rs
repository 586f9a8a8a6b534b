//! The state machine, stated mathematically.
//!
//! For each operation there is an error function, which says exactly which
//! rejection the operation takes on a given pre-state and caller (`None`
//! meaning the operation succeeds), and a step function, which gives the
//! post-state of a successful application. The executable operations in
//! `ops` promise precisely these outcomes, and the laws in `laws` are
//! proved over these functions.

use vstd::prelude::*;
use crate::errors::ErrorCode;
use crate::record::{MaterialModel, RecordModel};

verus! {

/// The record that `create_project` builds: empty material and proof
/// logs, not yet verified, the two principals fixed.
pub open spec fn created_record(
    authority: Seq<u8>,
    name: Seq<char>,
    location: Seq<char>,
    contractor: Seq<u8>,
    timestamp: i64,
) -> RecordModel {
    RecordModel {
        authority,
        name,
        location,
        contractor,
        materials: Seq::empty(),
        doc_hashes: Seq::empty(),
        verified: false,
        timestamp,
    }
}

/// Which rejection `add_material` takes: only the contractor may log
/// materials.
pub open spec fn add_material_error(p: RecordModel, caller: Seq<u8>) -> Option<ErrorCode> {
    if caller != p.contractor {
        Some(ErrorCode::Unauthorized)
    } else {
        None
    }
}

/// Post-state of a successful `add_material`: one material appended,
/// unverified, everything else untouched.
pub open spec fn add_material_next(
    p: RecordModel,
    name: Seq<char>,
    quantity: u32,
    quality_grade: Seq<char>,
) -> RecordModel {
    RecordModel {
        materials: p.materials.push(
            MaterialModel { name, quantity, quality_grade, verified_by: None },
        ),
        ..p
    }
}

/// Which rejection `verify_material` takes: only the authority may
/// verify, the index must exist, and the material must not already be
/// verified.
pub open spec fn verify_material_error(
    p: RecordModel,
    material_index: u32,
    caller: Seq<u8>,
) -> Option<ErrorCode> {
    if caller != p.authority {
        Some(ErrorCode::Unauthorized)
    } else if material_index >= p.materials.len() {
        Some(ErrorCode::InvalidMaterialIndex)
    } else if p.materials[material_index as int].verified_by is Some {
        Some(ErrorCode::MaterialAlreadyVerified)
    } else {
        None
    }
}

/// Post-state of a successful `verify_material`: the addressed material's
/// `verified_by` set to the caller, everything else untouched.
pub open spec fn verify_material_next(
    p: RecordModel,
    material_index: u32,
    caller: Seq<u8>,
) -> RecordModel {
    RecordModel {
        materials: p.materials.update(
            material_index as int,
            MaterialModel { verified_by: Some(caller), ..p.materials[material_index as int] },
        ),
        ..p
    }
}

/// Which rejection `add_proof` takes: only the authority may add proofs.
pub open spec fn add_proof_error(p: RecordModel, caller: Seq<u8>) -> Option<ErrorCode> {
    if caller != p.authority {
        Some(ErrorCode::Unauthorized)
    } else {
        None
    }
}

/// Post-state of a successful `add_proof`: one proof string appended,
/// everything else untouched.
pub open spec fn add_proof_next(p: RecordModel, proof_hash: Seq<char>) -> RecordModel {
    RecordModel { doc_hashes: p.doc_hashes.push(proof_hash), ..p }
}

/// Which rejection `final_verify` takes: only the authority may finalize,
/// and only once.
pub open spec fn final_verify_error(p: RecordModel, caller: Seq<u8>) -> Option<ErrorCode> {
    if caller != p.authority {
        Some(ErrorCode::Unauthorized)
    } else if p.verified {
        Some(ErrorCode::ProjectAlreadyVerified)
    } else {
        None
    }
}

/// Post-state of a successful `final_verify`: the verified flag set,
/// everything else untouched.
pub open spec fn final_verify_next(p: RecordModel) -> RecordModel {
    RecordModel { verified: true, ..p }
}

} // verus!
