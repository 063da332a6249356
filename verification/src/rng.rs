//! The operating-system random number source, behind a single trusted
//! wrapper.  Nothing is assumed of the octets drawn; callers state what holds
//! of every outcome.

use vstd::prelude::*;

use crate::OpaqueError;

verus! {

/// Relies on `rand::rngs::SysRng` (`rand_core::TryRng::try_fill_bytes`):
/// fills a buffer of `n` octets from the operating system's random source.
/// Only the length of a successful draw is assumed; a source failure
/// surfaces as `RngFailure`.
#[verifier::external_body]
pub(crate) fn random_bytes(n: usize) -> (r: Result<Vec<u8>, OpaqueError>)
    ensures
        r is Ok ==> r->Ok_0@.len() == n,
        r is Err ==> r->Err_0 == OpaqueError::RngFailure,
{
    let mut buf = vec![0u8; n];
    match rand::TryRng::try_fill_bytes(&mut rand::rngs::SysRng, &mut buf) {
        Ok(()) => Ok(buf),
        Err(_) => Err(OpaqueError::RngFailure),
    }
}

} // verus!
