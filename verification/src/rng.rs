//! Trusted access to the process-wide random number generator.
//!
//! Nothing can be promised about which value comes back, only its range, so
//! every caller is verified for every value the contract admits.

use vstd::prelude::*;

verus! {

/// Relies on fastrand::u8: returns a uniform value in the given range. The
/// call panics only on an empty range, which the precondition rules out.
#[verifier::external_body]
pub(crate) fn random_u8_below(bound: u8) -> (r: u8)
    requires
        bound > 0,
    ensures
        r < bound,
{
    fastrand::u8(0..bound)
}

/// Relies on fastrand::usize: returns a uniform value in the given range.
/// The call panics only on an empty range, which the precondition rules out.
#[verifier::external_body]
pub(crate) fn random_usize_below(bound: usize) -> (r: usize)
    requires
        bound > 0,
    ensures
        r < bound,
{
    fastrand::usize(0..bound)
}

} // verus!
