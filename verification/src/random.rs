use rand::Rng;
use vstd::prelude::*;

verus! {

/// One byte from the `rand` crate's generator of the current thread:
/// `rand::rng()` followed by `random_range` over the whole range of a byte.
///
/// Nothing is claimed of the byte, so whatever is proved of a caller holds
/// for each of the 256 values. The range is never empty, which is the one
/// condition under which `random_range` gives up.
#[verifier::external_body]
pub(crate) fn random_byte() -> (byte: u8) {
    rand::rng().random_range(0..=255)
}

} // verus!
