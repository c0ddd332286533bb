//! Declarations of the outside items that the verified logic relies on.

use vstd::prelude::*;

verus! {

/// The Soroban execution environment; carried through to the calls that need it.
#[verifier::external_type_specification]
#[verifier::external_body]
pub struct ExEnv(soroban_sdk::Env);

/// Length in bytes of every UltraHonk proof that the verifier accepts:
/// `ultrahonk_soroban_verifier::PROOF_BYTES`, defined there as 456 fields of 32 bytes.
#[verifier::external_body]
pub(crate) fn proof_bytes() -> (r: usize)
    ensures
        r == 14592,
{
    ultrahonk_soroban_verifier::PROOF_BYTES
}

/// What `ultrahonk_soroban_verifier::UltraHonkVerifier::new` decides about a
/// verification key: whether it parses and validates. A function of the key's
/// bytes alone.
pub uninterp spec fn ultrahonk_vk_loads(vk: Seq<u8>) -> bool;

/// What `UltraHonkVerifier::verify` decides, for a verifier built from `vk`, about
/// `proof` and `public_inputs`. A function of the three byte strings alone.
pub uninterp spec fn ultrahonk_proof_accepted(vk: Seq<u8>, proof: Seq<u8>, public_inputs: Seq<u8>) -> bool;

/// Calls `ultrahonk_soroban_verifier::UltraHonkVerifier::new(env, vk)` and
/// reports whether it returned `Ok`. Claimed: the answer is the named
/// `ultrahonk_vk_loads` of the key bytes, and a key whose length is not 1,760
/// bytes never loads (the crate returns `WrongLength` for it). Not claimed:
/// anything about the Soroban budget; a call that exhausts it does not return.
#[verifier::external_body]
pub(crate) fn vk_loads(env: &soroban_sdk::Env, vk: &Vec<u8>) -> (r: bool)
    ensures
        r == ultrahonk_vk_loads(vk@),
        vk@.len() != 1760 ==> !r,
{
    let bytes = soroban_sdk::Bytes::from_slice(env, vk.as_slice());
    ultrahonk_soroban_verifier::UltraHonkVerifier::new(env, &bytes).is_ok()
}

/// Builds the verifier with `UltraHonkVerifier::new(env, vk)` and, when the key
/// loads, runs `UltraHonkVerifier::verify(proof, public_inputs)`; reports whether
/// both returned `Ok`. Claimed: the answer is the named
/// `ultrahonk_proof_accepted` of the three byte strings; an accepted proof was
/// checked against a key that loads, is exactly `PROOF_BYTES` (14,592) bytes
/// long, and comes with public inputs whose length is a multiple of 32 (the
/// crate rejects every other input before any arithmetic). Not claimed: which
/// proofs are sound for which circuit, and anything about the Soroban budget.
#[verifier::external_body]
pub(crate) fn ultrahonk_accepts(
    env: &soroban_sdk::Env,
    vk: &Vec<u8>,
    proof: &Vec<u8>,
    public_inputs: &Vec<u8>,
) -> (r: bool)
    ensures
        r == ultrahonk_proof_accepted(vk@, proof@, public_inputs@),
        r ==> ultrahonk_vk_loads(vk@),
        r ==> proof@.len() == 14592,
        r ==> public_inputs@.len() % 32 == 0,
{
    let vk_bytes = soroban_sdk::Bytes::from_slice(env, vk.as_slice());
    let proof_bytes = soroban_sdk::Bytes::from_slice(env, proof.as_slice());
    let input_bytes = soroban_sdk::Bytes::from_slice(env, public_inputs.as_slice());
    match ultrahonk_soroban_verifier::UltraHonkVerifier::new(env, &vk_bytes) {
        Ok(verifier) => verifier.verify(&proof_bytes, &input_bytes).is_ok(),
        Err(_) => false,
    }
}

} // verus!
