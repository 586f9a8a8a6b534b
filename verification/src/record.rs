//! The project record and its mathematical model.
//!
//! `ConstructionProject` is the authoritative state of one project;
//! `MaterialRecord` is one logged material inside it. Each has a ghost
//! model (`RecordModel`, `MaterialModel`) over which all contracts and
//! the state-machine laws are stated.

use vstd::prelude::*;
use crate::identity::Identity;

verus! {

/// Mathematical model of one logged material.
#[verifier::ext_equal]
pub ghost struct MaterialModel {
    pub name: Seq<char>,
    pub quantity: u32,
    pub quality_grade: Seq<char>,
    /// The identity that verified this material, once one has.
    pub verified_by: Option<Seq<u8>>,
}

/// One material logged against a project: what it is, how much, its
/// grade, and — once an authority has checked it — who verified it.
#[derive(Clone, Debug)]
pub struct MaterialRecord {
    pub name: String,
    pub quantity: u32,
    pub quality_grade: String,
    pub verified_by: Option<Identity>,
}

impl View for MaterialRecord {
    type V = MaterialModel;

    open spec fn view(&self) -> MaterialModel {
        MaterialModel {
            name: self.name@,
            quantity: self.quantity,
            quality_grade: self.quality_grade@,
            verified_by: match self.verified_by {
                Some(id) => Some(id@),
                None => None,
            },
        }
    }
}

/// Mathematical model of a whole project record.
#[verifier::ext_equal]
pub ghost struct RecordModel {
    pub authority: Seq<u8>,
    pub name: Seq<char>,
    pub location: Seq<char>,
    pub contractor: Seq<u8>,
    pub materials: Seq<MaterialModel>,
    pub doc_hashes: Seq<Seq<char>>,
    pub verified: bool,
    pub timestamp: i64,
}

/// The provenance record of one construction project.
///
/// `authority` and `contractor` are fixed at creation; `materials` and
/// `doc_hashes` only ever grow by appending; `verified` goes from `false`
/// to `true` at most once.
#[derive(Clone, Debug)]
pub struct ConstructionProject {
    pub authority: Identity,
    pub name: String,
    pub location: String,
    pub contractor: Identity,
    pub materials: Vec<MaterialRecord>,
    pub doc_hashes: Vec<String>,
    pub verified: bool,
    pub timestamp: i64,
}

impl View for ConstructionProject {
    type V = RecordModel;

    open spec fn view(&self) -> RecordModel {
        RecordModel {
            authority: self.authority@,
            name: self.name@,
            location: self.location@,
            contractor: self.contractor@,
            materials: self.materials@.map_values(|m: MaterialRecord| m@),
            doc_hashes: self.doc_hashes@.map_values(|s: String| s@),
            verified: self.verified,
            timestamp: self.timestamp,
        }
    }
}

} // verus!
