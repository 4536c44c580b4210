use vstd::prelude::*;

use crate::epoch::{build_epoch_block, epoch_ok, EpochBlock, EpochDescriptor};
use crate::error::VerifyError;
use crate::marshal::{contents, read_slice, readable};

verus! {

/// Everything one verification call hands to the external verifier.
#[derive(Debug)]
pub struct VerificationRequest {
    pub vk: Vec<u8>,
    pub proof: Vec<u8>,
    pub first: EpochBlock,
    pub last: EpochBlock,
}

/// The caller's buffers and descriptors make a well-formed request.
pub open spec fn request_ok(
    vk: Option<&[u8]>,
    proof: Option<&[u8]>,
    first: EpochDescriptor,
    first_keys: Option<&[u8]>,
    last: EpochDescriptor,
    last_keys: Option<&[u8]>,
) -> bool {
    &&& readable(vk)
    &&& readable(proof)
    &&& epoch_ok(first, first_keys)
    &&& epoch_ok(last, last_keys)
}

/// The answer of a verification call, given what the external verifier
/// returned for the request: `true` only for a well-formed request that the
/// verifier accepted.
pub open spec fn accepted(
    vk: Option<&[u8]>,
    proof: Option<&[u8]>,
    first: EpochDescriptor,
    first_keys: Option<&[u8]>,
    last: EpochDescriptor,
    last_keys: Option<&[u8]>,
    outcome: Result<bool, VerifyError>,
) -> bool {
    request_ok(vk, proof, first, first_keys, last, last_keys) && outcome == Ok::<bool, VerifyError>(true)
}

impl VerificationRequest {
    /// This request holds copies of exactly the caller's data.
    pub open spec fn describes(
        &self,
        vk: Option<&[u8]>,
        proof: Option<&[u8]>,
        first: EpochDescriptor,
        first_keys: Option<&[u8]>,
        last: EpochDescriptor,
        last_keys: Option<&[u8]>,
    ) -> bool {
        &&& self.vk@ == contents(vk)
        &&& self.proof@ == contents(proof)
        &&& self.first.built_from(first, first_keys)
        &&& self.last.built_from(last, last_keys)
        &&& self.first.wf()
        &&& self.last.wf()
    }
}

/// Marshals the verifying key, the proof and both epochs, in that order.
///
/// Fails with `InvalidInput` exactly when some buffer is absent, empty or,
/// for a key array, not `pubkeys_count` encodings long.
pub fn prepare(
    vk: Option<&[u8]>,
    proof: Option<&[u8]>,
    first: &EpochDescriptor,
    first_keys: Option<&[u8]>,
    last: &EpochDescriptor,
    last_keys: Option<&[u8]>,
) -> (r: Result<VerificationRequest, VerifyError>)
    ensures
        r is Ok <==> request_ok(vk, proof, *first, first_keys, *last, last_keys),
        r is Ok ==> r->Ok_0.describes(vk, proof, *first, first_keys, *last, last_keys),
        r is Err ==> r == Err::<VerificationRequest, VerifyError>(VerifyError::InvalidInput),
{
    let vk = match read_slice(vk) {
        Ok(v) => v,
        Err(e) => return Err(e),
    };
    let proof = match read_slice(proof) {
        Ok(v) => v,
        Err(e) => return Err(e),
    };
    let first = match build_epoch_block(first, first_keys) {
        Ok(b) => b,
        Err(e) => return Err(e),
    };
    let last = match build_epoch_block(last, last_keys) {
        Ok(b) => b,
        Err(e) => return Err(e),
    };
    Ok(VerificationRequest { vk, proof, first, last })
}

/// Collapses the outcome of a verification into a single boolean: `true`
/// for an accepted proof, `false` for a rejection and for every error.
pub fn verdict(outcome: Result<bool, VerifyError>) -> (r: bool)
    ensures
        r == (outcome == Ok::<bool, VerifyError>(true)),
{
    match outcome {
        Ok(valid) => valid,
        Err(_) => false,
    }
}

/// Runs the whole verification pipeline and answers with a boolean.
///
/// The request is prepared first; only a well-formed one reaches `check`,
/// the external verifier, and its outcome decides the answer. Every
/// failure on the way, and every error `check` reports, gives `false`.
pub fn verify_with<F>(
    vk: Option<&[u8]>,
    proof: Option<&[u8]>,
    first: &EpochDescriptor,
    first_keys: Option<&[u8]>,
    last: &EpochDescriptor,
    last_keys: Option<&[u8]>,
    check: F,
) -> (r: bool) where F: Fn(VerificationRequest) -> Result<bool, VerifyError>
    requires
        forall|q: VerificationRequest| #[trigger] check.requires((q,)),
    ensures
        !request_ok(vk, proof, *first, first_keys, *last, last_keys) ==> !r,
        request_ok(vk, proof, *first, first_keys, *last, last_keys) ==> exists|
            q: VerificationRequest,
            outcome: Result<bool, VerifyError>,
        |
            #![trigger check.ensures((q,), outcome)]
            q.describes(vk, proof, *first, first_keys, *last, last_keys) && check.ensures((q,), outcome)
                && r == accepted(vk, proof, *first, first_keys, *last, last_keys, outcome),
{
    let outcome = match prepare(vk, proof, first, first_keys, last, last_keys) {
        Ok(q) => {
            let ghost g = q;
            let out = check(q);
            assert(check.ensures((g,), out));
            out
        },
        Err(e) => Err(e),
    };
    verdict(outcome)
}

/// A request with an epoch of zero keys is never accepted, whatever the
/// external verifier would say.
pub proof fn lemma_zero_keys_rejected(
    vk: Option<&[u8]>,
    proof: Option<&[u8]>,
    first: EpochDescriptor,
    first_keys: Option<&[u8]>,
    last: EpochDescriptor,
    last_keys: Option<&[u8]>,
    outcome: Result<bool, VerifyError>,
)
    requires
        first.pubkeys_count == 0 || last.pubkeys_count == 0,
    ensures
        !request_ok(vk, proof, first, first_keys, last, last_keys),
        !accepted(vk, proof, first, first_keys, last, last_keys, outcome),
{
}

/// An absent or zero-length verifying key, proof or key array is never
/// accepted, whatever the external verifier would say.
pub proof fn lemma_empty_buffer_rejected(
    vk: Option<&[u8]>,
    proof: Option<&[u8]>,
    first: EpochDescriptor,
    first_keys: Option<&[u8]>,
    last: EpochDescriptor,
    last_keys: Option<&[u8]>,
    outcome: Result<bool, VerifyError>,
)
    requires
        contents(vk).len() == 0 || contents(proof).len() == 0 || contents(first_keys).len() == 0
            || contents(last_keys).len() == 0,
    ensures
        !request_ok(vk, proof, first, first_keys, last, last_keys),
        !accepted(vk, proof, first, first_keys, last, last_keys, outcome),
{
}

/// Two verification calls on the same memory contents prepare requests
/// with the same data, so a verifier that answers both alike makes both
/// calls give the same answer.
pub proof fn lemma_verify_repeatable(
    vk: Option<&[u8]>,
    proof: Option<&[u8]>,
    first: EpochDescriptor,
    first_keys: Option<&[u8]>,
    last: EpochDescriptor,
    last_keys: Option<&[u8]>,
    q1: VerificationRequest,
    q2: VerificationRequest,
    outcome1: Result<bool, VerifyError>,
    outcome2: Result<bool, VerifyError>,
)
    requires
        q1.describes(vk, proof, first, first_keys, last, last_keys),
        q2.describes(vk, proof, first, first_keys, last, last_keys),
        outcome1 == outcome2,
    ensures
        q1.vk@ == q2.vk@,
        q1.proof@ == q2.proof@,
        q1.first.index == q2.first.index,
        q1.first.maximum_non_signers == q2.first.maximum_non_signers,
        q1.first.keys() == q2.first.keys(),
        q1.last.index == q2.last.index,
        q1.last.maximum_non_signers == q2.last.maximum_non_signers,
        q1.last.keys() == q2.last.keys(),
        accepted(vk, proof, first, first_keys, last, last_keys, outcome1) == accepted(
            vk,
            proof,
            first,
            first_keys,
            last,
            last_keys,
            outcome2,
        ),
{
}

} // verus!
