use vstd::prelude::*;

verus! {

/// Why a verification request could not be carried through.
///
/// At the foreign boundary every one of these collapses to `false`.
#[derive(Clone, Copy, Debug, PartialEq, Eq, Structural)]
pub enum VerifyError {
    /// A required buffer was absent or empty, or had the wrong size.
    InvalidInput,
    /// A public-key encoding did not decode to a valid point.
    KeyDecodeError,
    /// The external verifier reported a malformed key or proof, or failed internally.
    VerifierError,
}

} // verus!
