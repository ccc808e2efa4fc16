//! The randomness stub: a placeholder source that fills a buffer with a
//! constant byte. A deployment wanting real randomness should inject a
//! proper source instead.

use vstd::prelude::*;

verus! {

/// Declares getrandom's error type so it can stand in signatures; a custom
/// randomness source is expected to report failures through it.
#[verifier::external_type_specification]
#[verifier::external_body]
pub struct ExGetrandomError(getrandom::Error);

/// Fills the whole buffer with the constant byte 4 and always succeeds.
/// A placeholder source, not randomness: it exists so a host without an
/// entropy source can still load the module.
pub fn custom_random_number(buf: &mut [u8]) -> (r: Result<(), getrandom::Error>)
    ensures
        r is Ok,
        final(buf)@.len() == old(buf)@.len(),
        forall|i: int| 0 <= i < final(buf)@.len() ==> final(buf)@[i] == 4u8,
{
    let n = buf.len();
    let mut idx: usize = 0;
    while idx < n
        invariant
            idx <= n,
            n == buf@.len(),
            buf@.len() == old(buf)@.len(),
            forall|j: int| 0 <= j < idx ==> buf@[j] == 4u8,
        decreases n - idx,
    {
        buf[idx] = 4;
        idx = idx + 1;
    }
    Ok(())
}

} // verus!
