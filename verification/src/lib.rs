//! Verified core of a newsletter service: idempotency keys, credential
//! checks, password hashing and the decisions of its HTTP handlers.

pub mod authentication;
pub mod hashing;
pub mod idempotency;
pub mod random;
pub mod reply;
pub mod routes;

use vstd::prelude::*;

verus! {

/// Identifiers of users and subscribers are UUIDs, carried through unchanged.
#[verifier::external_type_specification]
#[verifier::external_body]
pub struct ExUuid(uuid::Uuid);

} // verus!
