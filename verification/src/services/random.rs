//! Random bytes from the operating system.

use vstd::prelude::*;
use rand::RngCore;

verus! {

/// `rand::Error`: why the random source gave nothing.
#[verifier::external_type_specification]
#[verifier::external_body]
pub struct ExRandError(rand::Error);

/// `RngCore::try_fill_bytes` of `rand::rngs::OsRng` on a buffer of `len`
/// bytes. Nothing is known of the bytes but their number.
#[verifier::external_body]
pub(crate) fn random_bytes(len: usize) -> (result: Result<Vec<u8>, rand::Error>)
    requires
        len <= isize::MAX,
    ensures
        result matches Ok(bytes) ==> bytes@.len() == len,
{
    let mut bytes = vec![0u8; len];
    rand::rngs::OsRng.try_fill_bytes(&mut bytes).map(|_| bytes)
}

} // verus!
