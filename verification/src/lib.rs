//! Authorization-gated state machine for a construction project's
//! provenance record.
//!
//! A `ConstructionProject` records who created it (the authority), who may
//! log materials against it (the contractor), the materials and proof
//! hashes logged so far, and whether the project has been finalized. Five
//! transition operations mutate a record; every one of them checks the
//! caller's identity against the record before touching it, and every
//! successful one returns the notification event that the caller is
//! expected to forward to the external channel.

use vstd::prelude::*;

verus! {

pub mod errors;
pub mod events;
pub mod identity;
pub mod laws;
pub mod ops;
pub mod record;
pub mod transitions;

}
