//! The error taxonomy of the withdrawal workflow.

use vstd::prelude::*;

verus! {

/// What can go wrong while preparing or checking a withdrawal.
///
/// `InvalidWitness` covers every local precondition failure (shape mismatch,
/// out-of-range path selector, non-canonical field element, local root
/// mismatch) and is raised before any proving work is attempted.
/// `ProvingFailure` marks a proving backend that could not produce a proof
/// for a witness that passed the local checks. `VerificationFailure` marks a
/// rejected proof.
#[derive(Clone, Copy, Debug, PartialEq, Eq, Structural)]
pub enum WithdrawError {
    InvalidWitness,
    ProvingFailure,
    VerificationFailure,
}

} // verus!
