//! Properties of the registries that hold across operations.

use vstd::prelude::*;
use crate::credential_verifier::{
    CredentialVerifierView, Error as VerifierError, is_deprecated, latest_version, resolved_version,
    selected_vk, verify_result, with_vk,
};
use crate::outside::ultrahonk_proof_accepted;
use crate::proof_registry::{
    ClaimKey, Error as ProofRegistryError, ProofRecord, ProofRegistryView, aggregate_claims,
    aggregate_credentials_check, aggregate_issuers, aggregate_layout_result, aggregate_record, aggregate_result, claim_record, claim_satisfied, index_matches, index_with, index_without,
    only_claims_change, other_than, revocation_result, verified_status, without_holder,
};
use crate::credential_types::{age_name, funds_name, income_name, jurisdiction_name, kyc_name};
use crate::public_inputs::{
    aggregate_threshold_field, be_value, block_start, byte_or_zero, field_count, field_u64,
    lemma_be_value_bound, lemma_block_start_mono, lemma_pow256_8, pubkey_at, threshold_of,
};

verus! {

/// The state after `deprecate_version(credential_type, version)`.
pub open spec fn with_deprecation(
    s: CredentialVerifierView,
    credential_type: Seq<u8>,
    version: u32,
) -> CredentialVerifierView {
    CredentialVerifierView { deprecated: s.deprecated.insert((credential_type, version), true), ..s }
}

/// Registering a key moves the latest version of its credential type to the
/// larger of the old latest version and the registered one, and leaves the
/// latest version of every other type alone: the pointer never goes down.
pub proof fn law_latest_version_is_max(
    s: CredentialVerifierView,
    credential_type: Seq<u8>,
    version: u32,
    vk: Seq<u8>,
    other: Seq<u8>,
)
    ensures
        latest_version(with_vk(s, credential_type, version, vk), credential_type) == if version
            > latest_version(s, credential_type) {
            version
        } else {
            latest_version(s, credential_type)
        },
        latest_version(with_vk(s, credential_type, version, vk), other) >= latest_version(s, other),
        other != credential_type ==> latest_version(with_vk(s, credential_type, version, vk), other)
            == latest_version(s, other),
{
}

/// A change that an admin makes to the verifier's state: a successful
/// `set_vk`, or a `deprecate_version`. A refused `set_vk` changes nothing and
/// a `verify_proof` only reads, so neither is a step.
pub enum VerifierStep {
    Register { credential_type: Seq<u8>, version: u32, vk: Seq<u8> },
    Deprecate { credential_type: Seq<u8>, version: u32 },
}

/// The state after one step.
pub open spec fn after_step(s: CredentialVerifierView, step: VerifierStep) -> CredentialVerifierView {
    match step {
        VerifierStep::Register { credential_type, version, vk } => with_vk(s, credential_type, version, vk),
        VerifierStep::Deprecate { credential_type, version } => with_deprecation(s, credential_type, version),
    }
}

/// The state after the steps, in order.
pub open spec fn after_steps(s: CredentialVerifierView, steps: Seq<VerifierStep>) -> CredentialVerifierView
    decreases steps.len(),
{
    if steps.len() == 0 {
        s
    } else {
        after_step(after_steps(s, steps.drop_last()), steps.last())
    }
}

/// The highest version that the steps register for `credential_type`; 0 when
/// they register none.
pub open spec fn max_registered(steps: Seq<VerifierStep>, credential_type: Seq<u8>) -> u32
    decreases steps.len(),
{
    if steps.len() == 0 {
        0
    } else {
        let before = max_registered(steps.drop_last(), credential_type);
        match steps.last() {
            VerifierStep::Register { credential_type: ct, version, vk } => if ct == credential_type && version
                > before {
                version
            } else {
                before
            },
            VerifierStep::Deprecate { .. } => before,
        }
    }
}

/// Over any sequence of registrations and deprecations, the latest version of
/// a credential type is the largest of the one it started from and every
/// version registered for it since; from a fresh verifier, the largest version
/// ever registered for it, or 0. It never goes down.
pub proof fn law_latest_version_is_max_over_steps(
    s: CredentialVerifierView,
    steps: Seq<VerifierStep>,
    credential_type: Seq<u8>,
)
    ensures
        latest_version(after_steps(s, steps), credential_type) == if max_registered(steps, credential_type)
            > latest_version(s, credential_type) {
            max_registered(steps, credential_type)
        } else {
            latest_version(s, credential_type)
        },
        latest_version(after_steps(s, steps), credential_type) >= latest_version(s, credential_type),
        !s.latest_versions.contains_key(credential_type) ==> latest_version(after_steps(s, steps), credential_type)
            == max_registered(steps, credential_type),
    decreases steps.len(),
{
    if steps.len() > 0 {
        law_latest_version_is_max_over_steps(s, steps.drop_last(), credential_type);
    }
}

/// A proof submitted for an explicitly requested version is checked against
/// the key last registered for that version, unless that version is
/// deprecated.
pub proof fn law_verify_uses_registered_key(
    s: CredentialVerifierView,
    credential_type: Seq<u8>,
    version: u32,
    vk: Seq<u8>,
    proof: Seq<u8>,
    public_inputs: Seq<u8>,
)
    requires
        version > 0,
        proof.len() == 14592,
        !is_deprecated(s, credential_type, version),
    ensures
        verify_result(
            with_vk(s, credential_type, version, vk),
            credential_type,
            proof,
            public_inputs,
            Some(version),
        ) == Ok::<bool, VerifierError>(ultrahonk_proof_accepted(vk, proof, public_inputs)),
{
}

/// Without a requested version, a proof is checked against the key of the
/// latest registered version.
pub proof fn law_verify_defaults_to_latest(
    s: CredentialVerifierView,
    credential_type: Seq<u8>,
    proof: Seq<u8>,
    vk_version: Option<u32>,
)
    requires
        proof.len() == 14592,
        vk_version is None || vk_version == Some(0u32),
        latest_version(s, credential_type) > 0,
    ensures
        selected_vk(s, credential_type, proof.len(), vk_version) == selected_vk(
            s,
            credential_type,
            proof.len(),
            Some(latest_version(s, credential_type)),
        ),
{
}

/// Once a version is deprecated, every proof of the right length that resolves
/// to it is refused with `VersionDeprecated`; deprecation deletes no key and
/// moves no latest-version pointer.
pub proof fn law_deprecated_version_refused(
    s: CredentialVerifierView,
    credential_type: Seq<u8>,
    version: u32,
    proof: Seq<u8>,
    public_inputs: Seq<u8>,
    vk_version: Option<u32>,
)
    requires
        proof.len() == 14592,
        resolved_version(with_deprecation(s, credential_type, version), credential_type, vk_version)
            == Some(version),
    ensures
        verify_result(
            with_deprecation(s, credential_type, version),
            credential_type,
            proof,
            public_inputs,
            vk_version,
        ) == Err::<bool, VerifierError>(VerifierError::VersionDeprecated),
        with_deprecation(s, credential_type, version).vks == s.vks,
        with_deprecation(s, credential_type, version).latest_versions == s.latest_versions,
{
}

/// A proof is accepted only when it has the fixed length, a usable version
/// resolves, that version is not deprecated, its key is registered, and the
/// verifier accepts the proof under that key.
pub proof fn law_accepted_proof_has_live_key(
    s: CredentialVerifierView,
    credential_type: Seq<u8>,
    proof: Seq<u8>,
    public_inputs: Seq<u8>,
    vk_version: Option<u32>,
)
    requires
        verify_result(s, credential_type, proof, public_inputs, vk_version) == Ok::<bool, VerifierError>(true),
    ensures
        proof.len() == 14592,
        resolved_version(s, credential_type, vk_version) is Some,
        ({
            let v = resolved_version(s, credential_type, vk_version)->0;
            &&& !is_deprecated(s, credential_type, v)
            &&& s.vks.contains_key((credential_type, v))
            &&& ultrahonk_proof_accepted(s.vks[(credential_type, v)], proof, public_inputs)
        }),
{
    let v = resolved_version(s, credential_type, vk_version)->0;
    assert(ultrahonk_proof_accepted(s.vks[(credential_type, v)], proof, public_inputs));
}

/// After a claim is stored at ledger time `now` with expiry `expiry`,
/// `is_verified` reports it valid exactly while the ledger time is before the
/// expiry, with `now` and `expiry` as its timestamps.
pub proof fn law_submitted_claim_is_verified_until_expiry(
    claims: Map<ClaimKey, ProofRecord>,
    holder: Seq<u8>,
    credential_type: Seq<u8>,
    public_inputs: Seq<u8>,
    now: u64,
    expiry: u64,
    later: u64,
)
    ensures
        verified_status(
            claims.insert(
                (holder, credential_type),
                claim_record(now, expiry, threshold_of(credential_type, public_inputs)),
            ),
            holder,
            credential_type,
            later,
        ) == (expiry > later, now, expiry),
{
}

/// While a freshly stored claim is unexpired, `check_claim` with a minimum
/// passes exactly when the minimum is at most the threshold that the proof's
/// public inputs committed to (0 for types without one).
pub proof fn law_submitted_threshold_is_checked(
    claims: Map<ClaimKey, ProofRecord>,
    holder: Seq<u8>,
    credential_type: Seq<u8>,
    public_inputs: Seq<u8>,
    now: u64,
    expiry: u64,
    later: u64,
    min: u64,
)
    requires
        later < expiry,
    ensures
        claim_satisfied(
            claims.insert(
                (holder, credential_type),
                claim_record(now, expiry, threshold_of(credential_type, public_inputs)),
            ),
            holder,
            credential_type,
            Some(min),
            later,
        ) == (min <= threshold_of(credential_type, public_inputs).unwrap_or(0)),
{
}

/// `check_claim` without a minimum agrees with the validity that
/// `is_verified` reports, for every holder, type, time and state.
pub proof fn law_check_claim_without_threshold_is_validity(
    claims: Map<ClaimKey, ProofRecord>,
    holder: Seq<u8>,
    credential_type: Seq<u8>,
    now: u64,
)
    ensures
        claim_satisfied(claims, holder, credential_type, None, now) == verified_status(
            claims,
            holder,
            credential_type,
            now,
        ).0,
{
}

/// A claim that satisfies a minimum threshold satisfies every smaller one, and
/// the check without a minimum: a proof of a larger threshold proves strictly
/// more.
pub proof fn law_threshold_check_is_monotone(
    claims: Map<ClaimKey, ProofRecord>,
    holder: Seq<u8>,
    credential_type: Seq<u8>,
    min: u64,
    smaller: u64,
    now: u64,
)
    requires
        claim_satisfied(claims, holder, credential_type, Some(min), now),
        smaller <= min,
    ensures
        claim_satisfied(claims, holder, credential_type, Some(smaller), now),
        claim_satisfied(claims, holder, credential_type, None, now),
{
}

/// No claim is valid at or after its expiry, whatever the threshold asked.
pub proof fn law_expired_claim_is_invalid(
    claims: Map<ClaimKey, ProofRecord>,
    holder: Seq<u8>,
    credential_type: Seq<u8>,
    min_threshold: Option<u64>,
    now: u64,
)
    requires
        claims.contains_key((holder, credential_type)),
        now >= claims[(holder, credential_type)].expiry,
    ensures
        !verified_status(claims, holder, credential_type, now).0,
        !claim_satisfied(claims, holder, credential_type, min_threshold, now),
{
}

/// A revoked claim reads as absent: not valid, with zero timestamps, and no
/// threshold check passes; claims of other holders or types are untouched.
pub proof fn law_revoked_claim_is_gone(
    claims: Map<ClaimKey, ProofRecord>,
    holder: Seq<u8>,
    credential_type: Seq<u8>,
    min_threshold: Option<u64>,
    now: u64,
    other: ClaimKey,
)
    requires
        other != (holder, credential_type),
    ensures
        verified_status(claims.remove((holder, credential_type)), holder, credential_type, now) == (
            false,
            0u64,
            0u64,
        ),
        !claim_satisfied(claims.remove((holder, credential_type)), holder, credential_type, min_threshold, now),
        claims.remove((holder, credential_type)).contains_key(other) == claims.contains_key(other),
        claims.contains_key(other) ==> claims.remove((holder, credential_type))[other] == claims[other],
{
}

/// A claim revoked by the issuer that issued it stays stored with its
/// timestamps, so its expiry can still be read, but it reads as invalid and
/// passes no threshold check; every other claim is untouched. Any other
/// address is refused with `NotAuthorized`, as is a revocation of a claim that
/// does not exist.
pub proof fn law_issuer_revocation(
    claims: Map<ClaimKey, ProofRecord>,
    issuers: Map<ClaimKey, Seq<u8>>,
    holder: Seq<u8>,
    credential_type: Seq<u8>,
    issuer: Seq<u8>,
    min_threshold: Option<u64>,
    now: u64,
    other: ClaimKey,
)
    requires
        other != (holder, credential_type),
    ensures
        claims.contains_key((holder, credential_type)) && issuers.get((holder, credential_type)) == Some(issuer)
            ==> ({
            let key = (holder, credential_type);
            let outcome = revocation_result(claims.get(key), issuers.get(key), issuer);
            &&& outcome is Ok
            &&& verified_status(claims.insert(key, outcome->Ok_0), holder, credential_type, now) == (
                false,
                claims[key].verified_at,
                claims[key].expiry,
            )
            &&& !claim_satisfied(claims.insert(key, outcome->Ok_0), holder, credential_type, min_threshold, now)
            &&& claims.insert(key, outcome->Ok_0).get(other) == claims.get(other)
        }),
        !claims.contains_key((holder, credential_type)) || issuers.get((holder, credential_type)) != Some(issuer)
            ==> revocation_result(
            claims.get((holder, credential_type)),
            issuers.get((holder, credential_type)),
            issuer,
        ) == Err::<ProofRecord, ProofRegistryError>(ProofRegistryError::NotAuthorized),
{
}

/// After `revoke_all`, no claim of the holder remains, whatever its credential
/// type: each reads as absent and passes no threshold check. Every claim of
/// another holder is untouched.
pub proof fn law_revoke_all_clears_holder(
    claims: Map<ClaimKey, ProofRecord>,
    holder: Seq<u8>,
    credential_type: Seq<u8>,
    min_threshold: Option<u64>,
    now: u64,
    other: ClaimKey,
)
    requires
        other.0 != holder,
    ensures
        !without_holder(claims, holder).contains_key((holder, credential_type)),
        verified_status(without_holder(claims, holder), holder, credential_type, now) == (false, 0u64, 0u64),
        !claim_satisfied(without_holder(claims, holder), holder, credential_type, min_threshold, now),
        without_holder(claims, holder).contains_key(other) == claims.contains_key(other),
        claims.contains_key(other) ==> without_holder(claims, holder)[other] == claims[other],
{
}

/// Whatever sequence of operations runs on the registry after it was made,
/// the verifier and issuer registry addresses stay those it was made with:
/// every state-changing operation changes the claims alone.
pub proof fn law_addresses_never_change(states: Seq<ProofRegistryView>)
    requires
        states.len() >= 1,
        forall|i: int| 0 <= i < states.len() - 1 ==> only_claims_change(#[trigger] states[i], states[i + 1]),
    ensures
        states.last().verifier == states[0].verifier,
        states.last().issuer_registry == states[0].issuer_registry,
    decreases states.len(),
{
    if states.len() > 1 {
        let prefix = states.drop_last();
        assert forall|i: int| 0 <= i < prefix.len() - 1 implies only_claims_change(#[trigger] prefix[i], prefix[i + 1]) by {
            assert(only_claims_change(states[i], states[i + 1]));
        }
        law_addresses_never_change(prefix);
        assert(only_claims_change(states[states.len() - 2], states[states.len() - 1]));
    }
}

/// A successful aggregate submission leaves a claim for every credential type
/// it lists, stamped with the submission time and expiry; claims of other
/// holders are untouched.
pub proof fn law_aggregate_stores_every_credential(
    claims: Map<ClaimKey, ProofRecord>,
    holder: Seq<u8>,
    credential_types: Seq<Seq<u8>>,
    public_inputs: Seq<u8>,
    now: u64,
    expiry: u64,
    n: nat,
    i: int,
    other: ClaimKey,
)
    requires
        n <= credential_types.len(),
        0 <= i < n,
        other.0 != holder,
    ensures
        ({
            let after = aggregate_claims(claims, holder, credential_types, public_inputs, now, expiry, n);
            &&& after.contains_key((holder, credential_types[i]))
            &&& after[(holder, credential_types[i])].verified_at == now
            &&& after[(holder, credential_types[i])].expiry == expiry
            &&& after.contains_key(other) == claims.contains_key(other)
            &&& claims.contains_key(other) ==> after[other] == claims[other]
        }),
    decreases n,
{
    if n > 0 {
        let m = (n - 1) as nat;
        if i < m {
            law_aggregate_stores_every_credential(
                claims,
                holder,
                credential_types,
                public_inputs,
                now,
                expiry,
                m,
                i,
                other,
            );
        } else {
            law_aggregate_other_holders(claims, holder, credential_types, public_inputs, now, expiry, m, other);
        }
    }
}

/// Claims of holders other than the submitter are untouched by an aggregate
/// submission.
pub proof fn law_aggregate_other_holders(
    claims: Map<ClaimKey, ProofRecord>,
    holder: Seq<u8>,
    credential_types: Seq<Seq<u8>>,
    public_inputs: Seq<u8>,
    now: u64,
    expiry: u64,
    n: nat,
    other: ClaimKey,
)
    requires
        n <= credential_types.len(),
        other.0 != holder,
    ensures
        ({
            let after = aggregate_claims(claims, holder, credential_types, public_inputs, now, expiry, n);
            &&& after.contains_key(other) == claims.contains_key(other)
            &&& claims.contains_key(other) ==> after[other] == claims[other]
        }),
    decreases n,
{
    if n > 0 {
        law_aggregate_other_holders(
            claims,
            holder,
            credential_types,
            public_inputs,
            now,
            expiry,
            (n - 1) as nat,
            other,
        );
    }
}

/// An aggregate layout that passes leaves every credential's block, with its
/// issuer key and its threshold field, inside the public inputs: no claim
/// stored from it reads a field past their end.
pub proof fn law_accepted_aggregate_reads_inside(
    credential_types: Seq<Seq<u8>>,
    public_inputs: Seq<u8>,
    proof_verified: bool,
    i: int,
)
    requires
        aggregate_layout_result(credential_types, public_inputs, proof_verified) is Ok,
        0 <= i < credential_types.len(),
    ensures
        32 * (block_start(credential_types, i as nat) + field_count(credential_types[i])) <= public_inputs.len(),
        32 * (block_start(credential_types, i as nat) + 65) <= public_inputs.len(),
        match aggregate_threshold_field(credential_types[i], block_start(credential_types, i as nat) as int) {
            Some(f) => 32 * (f + 1) <= public_inputs.len(),
            None => true,
        },
{
    lemma_block_start_mono(credential_types, (i + 1) as nat, credential_types.len());
    assert(block_start(credential_types, (i + 1) as nat) == block_start(credential_types, i as nat) + field_count(
        credential_types[i],
    ));
}

/// The claims left after removing the holder's claim of each listed type, the
/// last listed first.
pub open spec fn remove_listed(
    claims: Map<ClaimKey, ProofRecord>,
    holder: Seq<u8>,
    listed: Seq<Seq<u8>>,
) -> Map<ClaimKey, ProofRecord>
    decreases listed.len(),
{
    if listed.len() == 0 {
        claims
    } else {
        remove_listed(claims, holder, listed.drop_last()).remove((holder, listed.last()))
    }
}

/// Storing a claim keeps a holder's type index exact once `index_with_type`
/// has been applied to it, and leaves every other holder's index exact as it
/// stands.
pub proof fn law_index_tracks_store(
    claims: Map<ClaimKey, ProofRecord>,
    holder: Seq<u8>,
    credential_type: Seq<u8>,
    record: ProofRecord,
    index: Seq<Seq<u8>>,
    other_holder: Seq<u8>,
    other_index: Seq<Seq<u8>>,
)
    requires
        index_matches(index, claims, holder),
        other_holder != holder,
        index_matches(other_index, claims, other_holder),
    ensures
        index_matches(index_with(index, credential_type), claims.insert((holder, credential_type), record), holder),
        index_matches(other_index, claims.insert((holder, credential_type), record), other_holder),
{
    let after = claims.insert((holder, credential_type), record);
    assert forall|t: Seq<u8>| #[trigger] index_with(index, credential_type).contains(t) <==> after.contains_key(
        (holder, t),
    ) by {
        vstd::seq_lib::lemma_seq_contains_after_push(index, credential_type, t);
        assert(index.contains(t) <==> claims.contains_key((holder, t)));
    }
    assert forall|t: Seq<u8>| #[trigger] other_index.contains(t) <==> after.contains_key((other_holder, t)) by {
        assert(other_index.contains(t) <==> claims.contains_key((other_holder, t)));
    }
}

/// Removing a claim keeps a holder's type index exact once
/// `index_without_type` has been applied to it, and leaves every other
/// holder's index exact as it stands.
pub proof fn law_index_tracks_remove(
    claims: Map<ClaimKey, ProofRecord>,
    holder: Seq<u8>,
    credential_type: Seq<u8>,
    index: Seq<Seq<u8>>,
    other_holder: Seq<u8>,
    other_index: Seq<Seq<u8>>,
)
    requires
        index_matches(index, claims, holder),
        other_holder != holder,
        index_matches(other_index, claims, other_holder),
    ensures
        index_matches(index_without(index, credential_type), claims.remove((holder, credential_type)), holder),
        index_matches(other_index, claims.remove((holder, credential_type)), other_holder),
{
    let after = claims.remove((holder, credential_type));
    let pred = other_than(credential_type);
    assert forall|t: Seq<u8>| #[trigger] index_without(index, credential_type).contains(t) <==> after.contains_key(
        (holder, t),
    ) by {
        assert(index.contains(t) <==> claims.contains_key((holder, t)));
        if index_without(index, credential_type).contains(t) {
            index.lemma_filter_contains_rev(pred, t);
            let i = choose|i: int| 0 <= i < index.filter(pred).len() && index.filter(pred)[i] == t;
            index.lemma_filter_pred(pred, i);
        }
        if after.contains_key((holder, t)) {
            let i = choose|i: int| 0 <= i < index.len() && index[i] == t;
            index.lemma_filter_contains(pred, i);
        }
    }
    assert forall|t: Seq<u8>| #[trigger] other_index.contains(t) <==> after.contains_key((other_holder, t)) by {
        assert(other_index.contains(t) <==> claims.contains_key((other_holder, t)));
    }
}

/// Removing the holder's claim of every type that an exact index lists removes
/// all of the holder's claims and nothing else: it is `revoke_all`. An empty
/// index is then exact for the holder.
pub proof fn law_index_revoke_all(claims: Map<ClaimKey, ProofRecord>, holder: Seq<u8>, index: Seq<Seq<u8>>)
    requires
        index_matches(index, claims, holder),
    ensures
        remove_listed(claims, holder, index) == without_holder(claims, holder),
        index_matches(Seq::<Seq<u8>>::empty(), without_holder(claims, holder), holder),
{
    lemma_remove_listed(claims, holder, index);
    let a = remove_listed(claims, holder, index);
    let b = without_holder(claims, holder);
    assert forall|k: ClaimKey| #[trigger] a.contains_key(k) <==> b.contains_key(k) by {
        if k.0 == holder && claims.contains_key(k) {
            assert(index.contains(k.1) <==> claims.contains_key((holder, k.1)));
        }
    }
    assert(a =~= b);
}

proof fn lemma_remove_listed(claims: Map<ClaimKey, ProofRecord>, holder: Seq<u8>, listed: Seq<Seq<u8>>)
    ensures
        forall|k: ClaimKey| #[trigger] remove_listed(claims, holder, listed).contains_key(k) <==> (claims.contains_key(k)
            && !(k.0 == holder && listed.contains(k.1))),
        forall|k: ClaimKey| #[trigger] remove_listed(claims, holder, listed).contains_key(k) ==> remove_listed(
            claims,
            holder,
            listed,
        )[k] == claims[k],
    decreases listed.len(),
{
    if listed.len() > 0 {
        let rest = listed.drop_last();
        lemma_remove_listed(claims, holder, rest);
        assert(listed == rest.push(listed.last()));
        assert forall|t: Seq<u8>| #[trigger] listed.contains(t) <==> (rest.contains(t) || t == listed.last()) by {
            vstd::seq_lib::lemma_seq_contains_after_push(rest, listed.last(), t);
        }
        let before = remove_listed(claims, holder, rest);
        let after = remove_listed(claims, holder, listed);
        assert(after == before.remove((holder, listed.last())));
        assert forall|k: ClaimKey| #[trigger] after.contains_key(k) <==> (claims.contains_key(k) && !(k.0 == holder
            && listed.contains(k.1))) by {
            assert(before.contains_key(k) <==> (claims.contains_key(k) && !(k.0 == holder && rest.contains(k.1))));
            assert(listed.contains(k.1) <==> (rest.contains(k.1) || k.1 == listed.last()));
        }
        assert forall|k: ClaimKey| #[trigger] after.contains_key(k) implies after[k] == claims[k] by {
            assert(before.contains_key(k));
        }
    }
}

/// The number that eight bytes spell, most significant first.
pub open spec fn big_endian_u64(b: Seq<u8>) -> int {
    b[0] as int * 0x100_0000_0000_0000 + b[1] as int * 0x1_0000_0000_0000 + b[2] as int * 0x100_0000_0000
        + b[3] as int * 0x1_0000_0000 + b[4] as int * 0x100_0000 + b[5] as int * 0x1_0000 + b[6] as int
        * 0x100 + b[7] as int
}

/// The threshold that a single-credential submission stores is the full
/// 64-bit big-endian number in the last eight bytes of its field: field 65
/// (bytes 2104..2112) for income and funds, field 66 (bytes 2136..2144) for
/// age. Until the claim expires, `check_claim` with a minimum passes exactly
/// for the minimums up to that number.
pub proof fn law_threshold_is_full_u64(
    claims: Map<ClaimKey, ProofRecord>,
    holder: Seq<u8>,
    credential_type: Seq<u8>,
    public_inputs: Seq<u8>,
    now: u64,
    expiry: u64,
    later: u64,
    min: u64,
)
    requires
        credential_type == income_name() || credential_type == funds_name() || credential_type == age_name(),
        public_inputs.len() >= 67 * 32,
        later < expiry,
    ensures
        ({
            let bytes = if credential_type == age_name() {
                public_inputs.subrange(2136, 2144)
            } else {
                public_inputs.subrange(2104, 2112)
            };
            &&& threshold_of(credential_type, public_inputs) is Some
            &&& threshold_of(credential_type, public_inputs)->0 as int == big_endian_u64(bytes)
            &&& claim_satisfied(
                claims.insert(
                    (holder, credential_type),
                    claim_record(now, expiry, threshold_of(credential_type, public_inputs)),
                ),
                holder,
                credential_type,
                Some(min),
                later,
            ) == (min as int <= big_endian_u64(bytes))
        }),
{
    let field: int = if credential_type == age_name() { 66 } else { 65 };
    lemma_field_u64_bytes(public_inputs, field);
}

/// A field's 64-bit value is the number its last eight bytes spell.
proof fn lemma_field_u64_bytes(public_inputs: Seq<u8>, field: int)
    requires
        0 <= field,
        (field + 1) * 32 <= public_inputs.len(),
    ensures
        field_u64(public_inputs, field) as int == big_endian_u64(
            public_inputs.subrange(field * 32 + 24, field * 32 + 32),
        ),
{
    reveal_with_fuel(be_value, 9);
    lemma_be_value_bound(public_inputs, field * 32 + 24, 8);
    lemma_pow256_8();
    let bytes = public_inputs.subrange(field * 32 + 24, field * 32 + 32);
    assert forall|k: int| 0 <= k < 8 implies #[trigger] byte_or_zero(public_inputs, field * 32 + 24 + k) == bytes[k] by {
    }
    assert(be_value(public_inputs, field * 32 + 24, 8) as int == big_endian_u64(bytes)) by {
        assert(byte_or_zero(public_inputs, field * 32 + 24 + 0) == bytes[0]);
        assert(byte_or_zero(public_inputs, field * 32 + 24 + 1) == bytes[1]);
        assert(byte_or_zero(public_inputs, field * 32 + 24 + 2) == bytes[2]);
        assert(byte_or_zero(public_inputs, field * 32 + 24 + 3) == bytes[3]);
        assert(byte_or_zero(public_inputs, field * 32 + 24 + 4) == bytes[4]);
        assert(byte_or_zero(public_inputs, field * 32 + 24 + 5) == bytes[5]);
        assert(byte_or_zero(public_inputs, field * 32 + 24 + 6) == bytes[6]);
        assert(byte_or_zero(public_inputs, field * 32 + 24 + 7) == bytes[7]);
    }
}

/// Each claim of an aggregate proof carries the full 64-bit big-endian
/// threshold of its own block: for age the last eight bytes of the block's
/// field 66, for income and funds those of its field 65; kyc and
/// jurisdiction carry none. Every claim is stamped with the submission time
/// and expiry and is not revoked.
pub proof fn law_aggregate_threshold_is_full_u64(
    credential_types: Seq<Seq<u8>>,
    public_inputs: Seq<u8>,
    now: u64,
    expiry: u64,
    i: int,
)
    requires
        0 <= i < credential_types.len(),
        32 * (block_start(credential_types, (i + 1) as nat) + 1) <= public_inputs.len(),
    ensures
        ({
            let record = aggregate_record(credential_types, public_inputs, now, expiry, i as nat);
            let start = block_start(credential_types, i as nat) as int;
            let t = credential_types[i];
            &&& record.verified_at == now
            &&& record.expiry == expiry
            &&& !record.revoked
            &&& t == age_name() ==> record.threshold is Some && record.threshold->0 as int == big_endian_u64(
                public_inputs.subrange((start + 66) * 32 + 24, (start + 67) * 32),
            )
            &&& (t == income_name() || t == funds_name()) ==> record.threshold is Some && record.threshold->0 as int
                == big_endian_u64(public_inputs.subrange((start + 65) * 32 + 24, (start + 66) * 32))
            &&& (t == kyc_name() || t == jurisdiction_name()) ==> record.threshold is None
        }),
{
    let start = block_start(credential_types, i as nat) as int;
    let t = credential_types[i];
    assert(block_start(credential_types, (i + 1) as nat) == start + field_count(t));
    if t == age_name() {
        lemma_field_u64_bytes(public_inputs, start + 66);
    } else if t == income_name() || t == funds_name() {
        lemma_field_u64_bytes(public_inputs, start + 65);
    }
}

/// Registering a key never touches a deprecation mark: every version keeps
/// its mark, and a deprecated version stays refused after its key is
/// uploaded again.
pub proof fn law_registration_keeps_deprecations(
    s: CredentialVerifierView,
    credential_type: Seq<u8>,
    version: u32,
    vk: Seq<u8>,
    other_type: Seq<u8>,
    other_version: u32,
    proof: Seq<u8>,
    public_inputs: Seq<u8>,
)
    ensures
        with_vk(s, credential_type, version, vk).deprecated == s.deprecated,
        is_deprecated(with_vk(s, credential_type, version, vk), other_type, other_version) == is_deprecated(
            s,
            other_type,
            other_version,
        ),
        is_deprecated(s, credential_type, version) && version > 0 && proof.len() == 14592 ==> verify_result(
            with_vk(s, credential_type, version, vk),
            credential_type,
            proof,
            public_inputs,
            Some(version),
        ) == Err::<bool, VerifierError>(VerifierError::VersionDeprecated),
{
}

/// A deprecation is permanent: whatever registrations and deprecations
/// follow, the version stays marked and a proof that asks for it is refused
/// with `VersionDeprecated`.
pub proof fn law_deprecation_is_permanent(
    s: CredentialVerifierView,
    steps: Seq<VerifierStep>,
    credential_type: Seq<u8>,
    version: u32,
    proof: Seq<u8>,
    public_inputs: Seq<u8>,
)
    requires
        is_deprecated(s, credential_type, version),
    ensures
        is_deprecated(after_steps(s, steps), credential_type, version),
        version > 0 && proof.len() == 14592 ==> verify_result(
            after_steps(s, steps),
            credential_type,
            proof,
            public_inputs,
            Some(version),
        ) == Err::<bool, VerifierError>(VerifierError::VersionDeprecated),
    decreases steps.len(),
{
    if steps.len() > 0 {
        law_deprecation_is_permanent(s, steps.drop_last(), credential_type, version, proof, public_inputs);
    }
}

/// A successful aggregate submission writes only the claims of the types it
/// lists: every claim of the submitting holder for a type it does not list,
/// with its recorded issuer, is left exactly as it was, and so reads the same
/// in `is_verified` and `check_claim`.
pub proof fn law_aggregate_keeps_unlisted_claims(
    claims: Map<ClaimKey, ProofRecord>,
    issuers: Map<ClaimKey, Seq<u8>>,
    holder: Seq<u8>,
    credential_types: Seq<Seq<u8>>,
    issuer_ids: Seq<Seq<u8>>,
    public_inputs: Seq<u8>,
    now: u64,
    expiry: u64,
    n: nat,
    credential_type: Seq<u8>,
    min_threshold: Option<u64>,
    later: u64,
)
    requires
        n <= credential_types.len(),
        forall|i: int| 0 <= i < n ==> credential_types[i] != credential_type,
    ensures
        aggregate_claims(claims, holder, credential_types, public_inputs, now, expiry, n).get(
            (holder, credential_type),
        ) == claims.get((holder, credential_type)),
        aggregate_issuers(issuers, holder, credential_types, issuer_ids, n).get((holder, credential_type))
            == issuers.get((holder, credential_type)),
        verified_status(
            aggregate_claims(claims, holder, credential_types, public_inputs, now, expiry, n),
            holder,
            credential_type,
            later,
        ) == verified_status(claims, holder, credential_type, later),
        claim_satisfied(
            aggregate_claims(claims, holder, credential_types, public_inputs, now, expiry, n),
            holder,
            credential_type,
            min_threshold,
            later,
        ) == claim_satisfied(claims, holder, credential_type, min_threshold, later),
    decreases n,
{
    if n > 0 {
        law_aggregate_keeps_unlisted_claims(
            claims,
            issuers,
            holder,
            credential_types,
            issuer_ids,
            public_inputs,
            now,
            expiry,
            (n - 1) as nat,
            credential_type,
            min_threshold,
            later,
        );
        assert(credential_types[n - 1] != credential_type);
    }
}

/// After a successful aggregate submission, each claim it stores is recorded
/// as issued by the issuer listed beside its type (for a type listed twice,
/// the later entry), so that issuer, and only that issuer, can revoke it.
pub proof fn law_aggregate_records_each_issuer(
    issuers: Map<ClaimKey, Seq<u8>>,
    holder: Seq<u8>,
    credential_types: Seq<Seq<u8>>,
    issuer_ids: Seq<Seq<u8>>,
    n: nat,
    i: int,
)
    requires
        n <= credential_types.len(),
        n <= issuer_ids.len(),
        0 <= i < n,
        forall|j: int| i < j < n ==> credential_types[j] != credential_types[i],
    ensures
        aggregate_issuers(issuers, holder, credential_types, issuer_ids, n).get((holder, credential_types[i]))
            == Some(issuer_ids[i]),
    decreases n,
{
    if i < n - 1 {
        law_aggregate_records_each_issuer(issuers, holder, credential_types, issuer_ids, (n - 1) as nat, i);
        assert(credential_types[n - 1] != credential_types[i]);
    }
}

/// Whether the `i`-th credential of an aggregate proof passes its issuer
/// checks: its issuer is trusted, and that issuer's key sits right after the
/// commitment of the credential's own block.
pub open spec fn credential_issuer_ok(
    credential_types: Seq<Seq<u8>>,
    issuer_trusted: Seq<bool>,
    issuer_pubkeys: Seq<Seq<u8>>,
    public_inputs: Seq<u8>,
    i: int,
) -> bool {
    issuer_trusted[i] && pubkey_at(public_inputs, block_start(credential_types, i as nat) + 1int, issuer_pubkeys[i])
}

/// The issuer checks of an aggregate proof pass exactly when every listed
/// issuer is trusted and each issuer's own key sits right after the commitment
/// of its own credential's block; no credential is judged by another's key or
/// block. On a layout that passes, this is when the whole submission succeeds.
pub proof fn law_aggregate_issuer_checks(
    credential_types: Seq<Seq<u8>>,
    issuer_trusted: Seq<bool>,
    issuer_pubkeys: Seq<Seq<u8>>,
    public_inputs: Seq<u8>,
    proof_verified: bool,
)
    requires
        issuer_trusted.len() == credential_types.len(),
        issuer_pubkeys.len() == credential_types.len(),
    ensures
        (aggregate_credentials_check(credential_types, issuer_trusted, issuer_pubkeys, public_inputs, 0) == Ok::<
            (),
            ProofRegistryError,
        >(())) == (forall|i: int|
            0 <= i < credential_types.len() ==> #[trigger] credential_issuer_ok(
                credential_types,
                issuer_trusted,
                issuer_pubkeys,
                public_inputs,
                i,
            )),
        aggregate_layout_result(credential_types, public_inputs, proof_verified) is Ok ==> (aggregate_result(
            credential_types,
            issuer_trusted,
            issuer_pubkeys,
            public_inputs,
            proof_verified,
        ) == Ok::<(), ProofRegistryError>(())) == (forall|i: int|
            0 <= i < credential_types.len() ==> #[trigger] credential_issuer_ok(
                credential_types,
                issuer_trusted,
                issuer_pubkeys,
                public_inputs,
                i,
            )),
{
    lemma_issuer_checks_from(credential_types, issuer_trusted, issuer_pubkeys, public_inputs, 0);
}

proof fn lemma_issuer_checks_from(
    credential_types: Seq<Seq<u8>>,
    issuer_trusted: Seq<bool>,
    issuer_pubkeys: Seq<Seq<u8>>,
    public_inputs: Seq<u8>,
    from: nat,
)
    requires
        issuer_trusted.len() == credential_types.len(),
        issuer_pubkeys.len() == credential_types.len(),
    ensures
        (aggregate_credentials_check(credential_types, issuer_trusted, issuer_pubkeys, public_inputs, from) == Ok::<
            (),
            ProofRegistryError,
        >(())) == (forall|i: int|
            from <= i < credential_types.len() ==> #[trigger] credential_issuer_ok(
                credential_types,
                issuer_trusted,
                issuer_pubkeys,
                public_inputs,
                i,
            )),
    decreases credential_types.len() - from,
{
    if from < credential_types.len() {
        let next: nat = from + 1;
        lemma_issuer_checks_from(credential_types, issuer_trusted, issuer_pubkeys, public_inputs, next);
        assert(credential_issuer_ok(credential_types, issuer_trusted, issuer_pubkeys, public_inputs, from as int)
            == (issuer_trusted[from as int] && pubkey_at(
            public_inputs,
            block_start(credential_types, from) + 1int,
            issuer_pubkeys[from as int],
        )));
    }
}

} // verus!
