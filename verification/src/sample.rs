//! Secret-key sampling for depositors.

use vstd::prelude::*;

use crate::digest::Digest;
use crate::digest::FIELD_ORDER;

verus! {

/// Relies on rand::random_range: returns a value drawn uniformly from the
/// half-open range it is given, here `0..FIELD_ORDER`, so the result is
/// always a canonical field element. (The call panics only on an empty
/// range, and this range is never empty.)
#[verifier::external_body]
fn random_canonical_element() -> (r: u64)
    ensures
        r < FIELD_ORDER,
{
    rand::random_range(0..FIELD_ORDER)
}

/// Draws a fresh secret key: four random canonical field elements.
pub fn random_secret_key() -> (d: Digest)
    ensures
        d.wf(),
{
    let e0 = random_canonical_element();
    let e1 = random_canonical_element();
    let e2 = random_canonical_element();
    let e3 = random_canonical_element();
    Digest::new(e0, e1, e2, e3)
}

} // verus!
