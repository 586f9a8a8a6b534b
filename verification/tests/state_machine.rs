//! End-to-end runs of the project record state machine.

use infrascan::errors::ErrorCode;
use infrascan::identity::Identity;
use infrascan::ops::{add_material, add_proof, create_project, final_verify, verify_material};

fn alice() -> Identity {
    Identity::new([1u8; 32])
}

fn bob() -> Identity {
    Identity::new([2u8; 32])
}

fn carol() -> Identity {
    Identity::new([3u8; 32])
}

fn key() -> Identity {
    Identity::new([9u8; 32])
}

#[test]
fn create_then_log_then_verify_then_reverify() {
    let (mut project, created) = create_project(
        &key(),
        "Bridge".to_string(),
        "Riverside".to_string(),
        &alice(),
        &bob(),
        1_700_000_000,
    );
    assert!(!project.verified);
    assert!(project.materials.is_empty());
    assert!(project.doc_hashes.is_empty());
    assert_eq!(project.name, "Bridge");
    assert_eq!(project.location, "Riverside");
    assert_eq!(project.authority.bytes, alice().bytes);
    assert_eq!(project.contractor.bytes, bob().bytes);
    assert_eq!(project.timestamp, 1_700_000_000);
    assert_eq!(created.project.bytes, key().bytes);
    assert_eq!(created.authority.bytes, alice().bytes);
    assert_eq!(created.contractor.bytes, bob().bytes);
    assert_eq!(created.name, "Bridge");

    let added = add_material(
        &mut project,
        &key(),
        "Steel Beam".to_string(),
        50,
        "A-Grade".to_string(),
        &bob(),
    )
    .expect("contractor may log a material");
    assert_eq!(project.materials.len(), 1);
    assert_eq!(project.materials[0].name, "Steel Beam");
    assert_eq!(project.materials[0].quantity, 50);
    assert_eq!(project.materials[0].quality_grade, "A-Grade");
    assert!(project.materials[0].verified_by.is_none());
    assert_eq!(added.project.bytes, key().bytes);
    assert_eq!(added.contractor.bytes, bob().bytes);
    assert_eq!(added.name, "Steel Beam");
    assert_eq!(added.quantity, 50);
    assert_eq!(added.quality_grade, "A-Grade");

    let verified = verify_material(&mut project, &key(), 0, &alice())
        .expect("authority may verify an unverified material");
    assert_eq!(
        project.materials[0].verified_by.as_ref().unwrap().bytes,
        alice().bytes
    );
    assert_eq!(verified.project.bytes, key().bytes);
    assert_eq!(verified.verifier.bytes, alice().bytes);
    assert_eq!(verified.material_index, 0);

    let again = verify_material(&mut project, &key(), 0, &alice());
    assert_eq!(again.unwrap_err(), ErrorCode::MaterialAlreadyVerified);
    assert_eq!(
        project.materials[0].verified_by.as_ref().unwrap().bytes,
        alice().bytes
    );
}

#[test]
fn authority_may_not_log_materials() {
    let (mut project, _) = create_project(
        &key(),
        "Bridge".to_string(),
        "Riverside".to_string(),
        &alice(),
        &bob(),
        0,
    );
    let r = add_material(
        &mut project,
        &key(),
        "Steel Beam".to_string(),
        50,
        "A-Grade".to_string(),
        &alice(),
    );
    assert_eq!(r.unwrap_err(), ErrorCode::Unauthorized);
    assert!(project.materials.is_empty());
}

#[test]
fn finalize_is_one_way() {
    let (mut project, _) = create_project(
        &key(),
        "Bridge".to_string(),
        "Riverside".to_string(),
        &alice(),
        &bob(),
        0,
    );
    let done = final_verify(&mut project, &key(), &alice()).expect("first finalize succeeds");
    assert!(project.verified);
    assert_eq!(done.project.bytes, key().bytes);
    assert_eq!(done.authority.bytes, alice().bytes);

    let again = final_verify(&mut project, &key(), &alice());
    assert_eq!(again.unwrap_err(), ErrorCode::ProjectAlreadyVerified);
    assert!(project.verified);
}

#[test]
fn out_of_bounds_index_is_refused() {
    let (mut project, _) = create_project(
        &key(),
        "Bridge".to_string(),
        "Riverside".to_string(),
        &alice(),
        &bob(),
        0,
    );
    add_material(
        &mut project,
        &key(),
        "Steel Beam".to_string(),
        50,
        "A-Grade".to_string(),
        &bob(),
    )
    .expect("contractor may log a material");
    let r = verify_material(&mut project, &key(), 5, &alice());
    assert_eq!(r.unwrap_err(), ErrorCode::InvalidMaterialIndex);
    assert!(project.materials[0].verified_by.is_none());
}

#[test]
fn only_authority_may_verify_or_prove_or_finalize() {
    let (mut project, _) = create_project(
        &key(),
        "Bridge".to_string(),
        "Riverside".to_string(),
        &alice(),
        &bob(),
        0,
    );
    add_material(
        &mut project,
        &key(),
        "Rebar".to_string(),
        10,
        "B-Grade".to_string(),
        &bob(),
    )
    .expect("contractor may log a material");

    let v = verify_material(&mut project, &key(), 0, &bob());
    assert_eq!(v.unwrap_err(), ErrorCode::Unauthorized);
    assert!(project.materials[0].verified_by.is_none());

    let p = add_proof(&mut project, &key(), "abc123".to_string(), &carol());
    assert_eq!(p.unwrap_err(), ErrorCode::Unauthorized);
    assert!(project.doc_hashes.is_empty());

    let f = final_verify(&mut project, &key(), &bob());
    assert_eq!(f.unwrap_err(), ErrorCode::Unauthorized);
    assert!(!project.verified);
}

#[test]
fn add_proof_appends_and_accepts_duplicates() {
    let (mut project, _) = create_project(
        &key(),
        "Bridge".to_string(),
        "Riverside".to_string(),
        &alice(),
        &bob(),
        0,
    );
    let ev = add_proof(&mut project, &key(), "deadbeef".to_string(), &alice())
        .expect("authority may add a proof");
    assert_eq!(ev.project.bytes, key().bytes);
    assert_eq!(ev.authority.bytes, alice().bytes);
    assert_eq!(ev.proof_hash, "deadbeef");
    assert_eq!(project.doc_hashes, vec!["deadbeef".to_string()]);

    add_proof(&mut project, &key(), "deadbeef".to_string(), &alice())
        .expect("duplicate proof strings are accepted");
    add_proof(&mut project, &key(), "".to_string(), &alice())
        .expect("format goes unvalidated, even an empty string");
    assert_eq!(
        project.doc_hashes,
        vec![
            "deadbeef".to_string(),
            "deadbeef".to_string(),
            "".to_string()
        ]
    );
}

#[test]
fn appends_preserve_prior_contents() {
    let (mut project, _) = create_project(
        &key(),
        "Bridge".to_string(),
        "Riverside".to_string(),
        &alice(),
        &bob(),
        0,
    );
    add_material(
        &mut project,
        &key(),
        "Steel Beam".to_string(),
        50,
        "A-Grade".to_string(),
        &bob(),
    )
    .expect("first material");
    add_material(
        &mut project,
        &key(),
        "Concrete".to_string(),
        200,
        "C30".to_string(),
        &bob(),
    )
    .expect("second material");
    assert_eq!(project.materials.len(), 2);
    assert_eq!(project.materials[0].name, "Steel Beam");
    assert_eq!(project.materials[0].quantity, 50);
    assert_eq!(project.materials[1].name, "Concrete");
    assert_eq!(project.materials[1].quantity, 200);

    // identical fields still append a new element
    add_material(
        &mut project,
        &key(),
        "Concrete".to_string(),
        200,
        "C30".to_string(),
        &bob(),
    )
    .expect("no idempotency on identical fields");
    assert_eq!(project.materials.len(), 3);
}

#[test]
fn finalization_does_not_freeze_the_record() {
    let (mut project, _) = create_project(
        &key(),
        "Bridge".to_string(),
        "Riverside".to_string(),
        &alice(),
        &bob(),
        0,
    );
    final_verify(&mut project, &key(), &alice()).expect("finalize");
    add_material(
        &mut project,
        &key(),
        "Paint".to_string(),
        3,
        "Gloss".to_string(),
        &bob(),
    )
    .expect("materials may still be logged after finalization");
    verify_material(&mut project, &key(), 0, &alice())
        .expect("materials may still be verified after finalization");
    add_proof(&mut project, &key(), "cafe".to_string(), &alice())
        .expect("proofs may still be added after finalization");
    assert!(project.verified);
}

#[test]
fn each_material_is_verified_independently() {
    let (mut project, _) = create_project(
        &key(),
        "Bridge".to_string(),
        "Riverside".to_string(),
        &alice(),
        &bob(),
        0,
    );
    for name in ["a", "b", "c"] {
        add_material(
            &mut project,
            &key(),
            name.to_string(),
            1,
            "G".to_string(),
            &bob(),
        )
        .expect("log material");
    }
    verify_material(&mut project, &key(), 1, &alice()).expect("verify the middle one");
    assert!(project.materials[0].verified_by.is_none());
    assert_eq!(
        project.materials[1].verified_by.as_ref().unwrap().bytes,
        alice().bytes
    );
    assert!(project.materials[2].verified_by.is_none());

    let again = verify_material(&mut project, &key(), 1, &alice());
    assert_eq!(again.unwrap_err(), ErrorCode::MaterialAlreadyVerified);
    verify_material(&mut project, &key(), 0, &alice()).expect("others stay verifiable");
}

#[test]
fn error_messages_match_the_variants() {
    assert_eq!(
        ErrorCode::Unauthorized.message(),
        "You are not authorized to perform this action."
    );
    assert_eq!(
        ErrorCode::InvalidMaterialIndex.message(),
        "Invalid material index provided."
    );
    assert_eq!(
        ErrorCode::ProjectAlreadyVerified.message(),
        "The project has already been marked as verified."
    );
    assert_eq!(
        ErrorCode::MaterialAlreadyVerified.message(),
        "The material has already been verified."
    );
}

#[test]
fn identity_equality_is_byte_for_byte() {
    let a = Identity::new([7u8; 32]);
    let b = Identity::new([7u8; 32]);
    assert!(a.same(&b));
    let mut bytes = [7u8; 32];
    bytes[31] = 8;
    let c = Identity::new(bytes);
    assert!(!a.same(&c));
}

#[test]
fn extreme_quantity_and_boundary_index() {
    let (mut project, _) = create_project(
        &key(),
        "Bridge".to_string(),
        "Riverside".to_string(),
        &alice(),
        &bob(),
        i64::MIN,
    );
    assert_eq!(project.timestamp, i64::MIN);
    add_material(
        &mut project,
        &key(),
        "Gravel".to_string(),
        u32::MAX,
        "Fine".to_string(),
        &bob(),
    )
    .expect("the largest quantity is accepted");
    assert_eq!(project.materials[0].quantity, u32::MAX);

    // index equal to the length is the first invalid one
    let r = verify_material(&mut project, &key(), 1, &alice());
    assert_eq!(r.unwrap_err(), ErrorCode::InvalidMaterialIndex);
    let r = verify_material(&mut project, &key(), u32::MAX, &alice());
    assert_eq!(r.unwrap_err(), ErrorCode::InvalidMaterialIndex);
    verify_material(&mut project, &key(), 0, &alice()).expect("the last valid index works");
}

#[test]
fn empty_strings_are_accepted_at_creation() {
    let (project, created) = create_project(
        &key(),
        String::new(),
        String::new(),
        &alice(),
        &bob(),
        0,
    );
    assert_eq!(project.name, "");
    assert_eq!(project.location, "");
    assert_eq!(created.name, "");
}
