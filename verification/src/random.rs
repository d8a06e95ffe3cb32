//! Random bytes from the operating system.
use argon2::password_hash::rand_core::{OsRng, RngCore};
use vstd::prelude::*;

verus! {

/// The bytes of a draw from the random source, if it gave any.
pub open spec fn drawn_view(drawn: Option<[u8; 16]>) -> Option<Seq<u8>> {
    match drawn {
        Some(bytes) => Some(bytes@),
        None => None,
    }
}

/// Fills 16 bytes from the operating system's random source with
/// `OsRng::try_fill_bytes`, or gives `None` when that source fails. Nothing is
/// claimed of the bytes, which are random.
#[verifier::external_body]
pub(crate) fn os_random_bytes() -> Option<[u8; 16]> {
    let mut bytes = [0u8; 16];
    match OsRng.try_fill_bytes(&mut bytes) {
        Ok(()) => Some(bytes),
        Err(_) => None,
    }
}

} // verus!
