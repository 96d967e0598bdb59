//! Random bytes from the operating system.
use vstd::prelude::*;

verus! {

/// `rand::rngs::OsRng::try_fill_bytes` into `n` fresh bytes: the operating
/// system's random source, or the `Display` text of its error when the
/// source fails.  The bytes are random; only their number is stated.
#[verifier::external_body]
pub(crate) fn os_random_bytes(n: usize) -> (r: Result<Vec<u8>, String>)
    ensures
        r matches Ok(v) ==> v@.len() == n,
{
    let mut v = vec![0u8; n];
    match rand::RngCore::try_fill_bytes(&mut rand::rngs::OsRng, &mut v) {
        Ok(()) => Ok(v),
        Err(e) => Err(e.to_string()),
    }
}

} // verus!
