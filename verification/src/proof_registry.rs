//! ProofRegistry
//!
//! Caches successful verifications so protocols don't re-run the (expensive)
//! UltraHonk verifier on every interaction. A holder proves once; the registry
//! records "this address satisfies credential X until ledger time T". Any gated
//! protocol then makes a single cheap `is_verified` call.
//!
//! The registry's state is the map of cached claims, with the issuer of each, keyed by holder and
//! credential type. Addresses are held as the bytes of their strkeys, credential
//! types as the characters of their symbols. What the issuer registry and the
//! credential verifier answer, and the ledger time, reach these functions as
//! arguments.
//!
//! Two layers stand here. The step functions (`new_claim`, `claim_status`,
//! `claim_meets`, `check_aggregate_layout`, `aggregate_new_claims`,
//! `issuer_revocation`, `index_with_type`, `index_without_type`, the
//! public-input readers and `aggregate_field_count`) decide each request from
//! plain values; the deployed contract reads its per-key ledger storage, calls
//! them, and writes back what they return. `ProofRegistry` and its `&mut self`
//! methods are a model of the whole ledger state built from the same steps:
//! their contracts say what a sequence of requests does to the set of cached
//! claims, and the laws are stated over that model.

use vstd::prelude::*;
use crate::credential_types::{
    age_name, funds_name, income_name, is_age, is_funds, is_income, is_jurisdiction, is_kyc,
};
use crate::public_inputs::{
    aggregate_threshold_of, be_value, block_start, declared_credentials, field_count, field_u64,
    lemma_be_value_bound, lemma_block_start_bound, lemma_pow256_8, lemma_pow256_mono, pow256,
    aggregate_inputs_fit, aggregate_threshold_field, key_byte_offset, pubkey_at, pubkey_scan_fits, threshold_of,
};
use crate::table::{Table, bytes_equal, copy_bytes};

verus! {

/// Errors with which the registry refuses a request.
#[derive(Clone, Copy, Debug, PartialEq, Eq, Structural)]
pub enum Error {
    NotInitialized,
    VerificationFailed,
    NotAuthorized,
    IssuerNotTrusted,
    /// The public key the proof was made against does not match the registered
    /// issuer's key.
    IssuerKeyMismatch,
    /// The aggregate proof's num_credentials field doesn't match the expected
    /// count or the inner public inputs are too short.
    AggregateLayoutInvalid,
}

/// A cached verification.
#[derive(Clone, Copy, Debug)]
pub struct ProofRecord {
    pub verified_at: u64,
    pub expiry: u64,
    /// For parameterised credential types (age, income, funds), the threshold
    /// value that was committed to in the proof's public inputs. None for types
    /// with no numeric threshold (kyc, jurisdiction).
    pub threshold: Option<u64>,
    /// Set when the claim's issuer revokes it. A revoked claim is never valid;
    /// its record is kept for audit.
    pub revoked: bool,
}

/// Key of a cached claim: holder address and credential type.
pub type ClaimKey = (Seq<u8>, Seq<u8>);

/// What the registry holds.
pub struct ProofRegistryView {
    pub verifier: Seq<u8>,
    pub issuer_registry: Seq<u8>,
    pub claims: Map<ClaimKey, ProofRecord>,
    /// The issuer named when each claim was submitted: the one address that
    /// may revoke it.
    pub issuers: Map<ClaimKey, Seq<u8>>,
}

/// The ProofRegistry contract's state.
pub struct ProofRegistry {
    verifier: Vec<u8>,
    issuer_registry: Vec<u8>,
    proofs: Table<(Vec<u8>, Vec<u8>), ProofRecord>,
    issuers: Table<(Vec<u8>, Vec<u8>), Vec<u8>>,
}

impl View for ProofRegistry {
    type V = ProofRegistryView;

    closed spec fn view(&self) -> ProofRegistryView {
        ProofRegistryView {
            verifier: self.verifier@,
            issuer_registry: self.issuer_registry@,
            claims: self.proofs@,
            issuers: self.issuers@.map_values(|v: Vec<u8>| v@),
        }
    }
}

/// The record stored for a claim.
pub open spec fn claim_record(verified_at: u64, expiry: u64, threshold: Option<u64>) -> ProofRecord {
    ProofRecord { verified_at, expiry, threshold, revoked: false }
}

/// A record as its issuer's revocation leaves it.
pub open spec fn revoked_record(record: ProofRecord) -> ProofRecord {
    ProofRecord { revoked: true, ..record }
}

/// The outcome of an issuer's revocation of a stored record that
/// `record_issuer` issued: the record marked revoked, or `NotAuthorized` when
/// there is no record or `issuer` is not the one that issued it.
pub open spec fn revocation_result(
    record: Option<ProofRecord>,
    record_issuer: Option<Seq<u8>>,
    issuer: Seq<u8>,
) -> Result<ProofRecord, Error> {
    match (record, record_issuer) {
        (Some(r), Some(i)) => if i == issuer {
            Ok(revoked_record(r))
        } else {
            Err(Error::NotAuthorized)
        },
        _ => Err(Error::NotAuthorized),
    }
}

/// `(is_currently_valid, verified_at, expiry)` of a stored record (or of its
/// absence) at ledger time `now`.
pub open spec fn record_status(record: Option<ProofRecord>, now: u64) -> (bool, u64, u64) {
    match record {
        Some(r) => (!r.revoked && r.expiry > now, r.verified_at, r.expiry),
        None => (false, 0, 0),
    }
}

/// Whether a stored record is unrevoked and unexpired at `now` and, when a minimum is asked
/// for, carries a threshold at least that large (a missing threshold counts
/// as 0).
pub open spec fn record_satisfies(record: Option<ProofRecord>, min_threshold: Option<u64>, now: u64) -> bool {
    match record {
        Some(r) => {
            &&& !r.revoked
            &&& r.expiry > now
            &&& match min_threshold {
                None => true,
                Some(min) => r.threshold.unwrap_or(0) >= min,
            }
        },
        None => false,
    }
}

/// `(is_currently_valid, verified_at, expiry)` of a claim at ledger time `now`.
pub open spec fn verified_status(
    claims: Map<ClaimKey, ProofRecord>,
    holder: Seq<u8>,
    credential_type: Seq<u8>,
    now: u64,
) -> (bool, u64, u64) {
    record_status(claims.get((holder, credential_type)), now)
}

/// Whether a claim passes `check_claim` at ledger time `now`.
pub open spec fn claim_satisfied(
    claims: Map<ClaimKey, ProofRecord>,
    holder: Seq<u8>,
    credential_type: Seq<u8>,
    min_threshold: Option<u64>,
    now: u64,
) -> bool {
    record_satisfies(claims.get((holder, credential_type)), min_threshold, now)
}

/// The outcome of a single-credential submission, from the issuer registry's
/// answer, the key check, and the verifier's answer, in that order.
pub open spec fn submit_result(issuer_trusted: bool, key_matches: bool, proof_verified: bool) -> Result<(), Error> {
    if !issuer_trusted {
        Err(Error::IssuerNotTrusted)
    } else if !key_matches {
        Err(Error::IssuerKeyMismatch)
    } else if !proof_verified {
        Err(Error::VerificationFailed)
    } else {
        Ok(())
    }
}

/// The views of a list of byte strings.
pub open spec fn byte_views(s: Seq<Vec<u8>>) -> Seq<Seq<u8>> {
    s.map_values(|v: Vec<u8>| v@)
}

/// The views of a list of public keys.
pub open spec fn key_views(s: Seq<[u8; 64]>) -> Seq<Seq<u8>> {
    s.map_values(|k: [u8; 64]| k@)
}

/// The first failing check among the credentials of an aggregate proof from
/// index `i` on: the issuer must be trusted and its key must sit in the
/// credential's block.
pub open spec fn aggregate_credentials_check(
    credential_types: Seq<Seq<u8>>,
    issuer_trusted: Seq<bool>,
    issuer_pubkeys: Seq<Seq<u8>>,
    public_inputs: Seq<u8>,
    i: nat,
) -> Result<(), Error>
    decreases credential_types.len() - i,
{
    if i >= credential_types.len() {
        Ok(())
    } else if !issuer_trusted[i as int] {
        Err(Error::IssuerNotTrusted)
    } else if !pubkey_at(
        public_inputs,
        block_start(credential_types, i) + 1int,
        issuer_pubkeys[i as int],
    ) {
        Err(Error::IssuerKeyMismatch)
    } else {
        aggregate_credentials_check(
            credential_types,
            issuer_trusted,
            issuer_pubkeys,
            public_inputs,
            i + 1,
        )
    }
}

/// The outcome of the checks that come before any issuer is consulted: the
/// outer proof must have verified, field 132 must declare as many credentials
/// as are listed, at least 2, and the public inputs must be long enough to hold
/// every listed credential's block and one field more. (Field 132 is that
/// field only when the block widths add up to 132.)
pub open spec fn aggregate_layout_result(
    credential_types: Seq<Seq<u8>>,
    public_inputs: Seq<u8>,
    proof_verified: bool,
) -> Result<(), Error> {
    if !proof_verified {
        Err(Error::VerificationFailed)
    } else if declared_credentials(public_inputs) != credential_types.len()
        || declared_credentials(public_inputs) < 2
        || !aggregate_inputs_fit(credential_types, public_inputs) {
        Err(Error::AggregateLayoutInvalid)
    } else {
        Ok(())
    }
}

/// The outcome of an aggregate submission.
pub open spec fn aggregate_result(
    credential_types: Seq<Seq<u8>>,
    issuer_trusted: Seq<bool>,
    issuer_pubkeys: Seq<Seq<u8>>,
    public_inputs: Seq<u8>,
    proof_verified: bool,
) -> Result<(), Error> {
    match aggregate_layout_result(credential_types, public_inputs, proof_verified) {
        Err(e) => Err(e),
        Ok(()) => aggregate_credentials_check(credential_types, issuer_trusted, issuer_pubkeys, public_inputs, 0),
    }
}

/// The record stored for the `i`-th credential of an aggregate proof.
pub open spec fn aggregate_record(
    credential_types: Seq<Seq<u8>>,
    public_inputs: Seq<u8>,
    now: u64,
    expiry: u64,
    i: nat,
) -> ProofRecord {
    claim_record(
        now,
        expiry,
        aggregate_threshold_of(credential_types[i as int], public_inputs, block_start(credential_types, i) as int),
    )
}

/// The claims after storing the first `n` credentials of an aggregate proof.
pub open spec fn aggregate_claims(
    claims: Map<ClaimKey, ProofRecord>,
    holder: Seq<u8>,
    credential_types: Seq<Seq<u8>>,
    public_inputs: Seq<u8>,
    now: u64,
    expiry: u64,
    n: nat,
) -> Map<ClaimKey, ProofRecord>
    decreases n,
{
    if n == 0 {
        claims
    } else {
        let i = (n - 1) as nat;
        aggregate_claims(claims, holder, credential_types, public_inputs, now, expiry, i).insert(
            (holder, credential_types[i as int]),
            aggregate_record(credential_types, public_inputs, now, expiry, i),
        )
    }
}

/// The issuers after storing the first `n` credentials of an aggregate proof.
pub open spec fn aggregate_issuers(
    issuers: Map<ClaimKey, Seq<u8>>,
    holder: Seq<u8>,
    credential_types: Seq<Seq<u8>>,
    issuer_ids: Seq<Seq<u8>>,
    n: nat,
) -> Map<ClaimKey, Seq<u8>>
    decreases n,
{
    if n == 0 {
        issuers
    } else {
        let i = (n - 1) as nat;
        aggregate_issuers(issuers, holder, credential_types, issuer_ids, i).insert(
            (holder, credential_types[i as int]),
            issuer_ids[i as int],
        )
    }
}

/// The entries left after removing every entry of `holder`.
pub open spec fn without_holder<V>(entries: Map<ClaimKey, V>, holder: Seq<u8>) -> Map<ClaimKey, V> {
    Map::new(|k: ClaimKey| entries.contains_key(k) && k.0 != holder, |k: ClaimKey| entries[k])
}

/// Every claim has its issuer recorded, and nothing else has one.
pub open spec fn issuers_cover_claims(v: ProofRegistryView) -> bool {
    forall|k: ClaimKey| #[trigger] v.claims.contains_key(k) <==> v.issuers.contains_key(k)
}

/// A change of state that leaves everything but the claims and their issuers
/// as it was.
pub open spec fn only_claims_change(before: ProofRegistryView, after: ProofRegistryView) -> bool {
    after == (ProofRegistryView { claims: after.claims, issuers: after.issuers, ..before })
}

/// Whether `index` lists exactly the credential types of `holder`'s claims.
pub open spec fn index_matches(index: Seq<Seq<u8>>, claims: Map<ClaimKey, ProofRecord>, holder: Seq<u8>) -> bool {
    forall|credential_type: Seq<u8>| #[trigger] index.contains(credential_type) <==> claims.contains_key(
        (holder, credential_type),
    )
}

/// A holder's type index after a claim of `credential_type` is stored: the
/// type is added at the end unless it is listed already.
pub open spec fn index_with(index: Seq<Seq<u8>>, credential_type: Seq<u8>) -> Seq<Seq<u8>> {
    if index.contains(credential_type) {
        index
    } else {
        index.push(credential_type)
    }
}

/// A holder's type index after the claim of `credential_type` is removed:
/// every other type, in order.
pub open spec fn index_without(index: Seq<Seq<u8>>, credential_type: Seq<u8>) -> Seq<Seq<u8>> {
    index.filter(other_than(credential_type))
}

/// The test that keeps every type but `credential_type`.
pub open spec fn other_than(credential_type: Seq<u8>) -> spec_fn(Seq<u8>) -> bool {
    |t: Seq<u8>| t != credential_type
}

impl ProofRegistry {
    /// The invariant: each table holds each key once, and every claim has
    /// its issuer recorded.
    pub closed spec fn wf(&self) -> bool {
        &&& self.proofs.wf()
        &&& self.issuers.wf()
        &&& issuers_cover_claims(self@)
    }

    /// The invariant, as it shows in the view.
    pub proof fn lemma_wf_covers(&self)
        requires
            self.wf(),
        ensures
            issuers_cover_claims(self@),
    {
    }

    /// `verifier` and `issuer_registry` are the deployed contract addresses.
    pub fn new(verifier: Vec<u8>, issuer_registry: Vec<u8>) -> (r: Self)
        ensures
            r.wf(),
            r@.verifier == verifier@,
            r@.issuer_registry == issuer_registry@,
            r@.claims == Map::<ClaimKey, ProofRecord>::empty(),
            r@.issuers == Map::<ClaimKey, Seq<u8>>::empty(),
    {
        let r = ProofRegistry { verifier, issuer_registry, proofs: Table::new(), issuers: Table::new() };
        assert(r@.issuers =~= Map::<ClaimKey, Seq<u8>>::empty());
        r
    }

    /// The record a submission produces. `issuer_trusted` is the issuer
    /// registry's answer for the named issuer and `credential_type`,
    /// `issuer_pubkey` the key it holds for that issuer, and `proof_verified`
    /// the credential verifier's answer. The submission succeeds only when the
    /// issuer is trusted, the proof was made against the issuer's key (fields
    /// 1..65 of the public inputs), and the proof verified; the record is
    /// stamped with `now` and carries the threshold that the public inputs
    /// commit to.
    pub fn new_claim(
        credential_type: &Vec<u8>,
        public_inputs: &Vec<u8>,
        expiry: u64,
        now: u64,
        issuer_trusted: bool,
        issuer_pubkey: &[u8; 64],
        proof_verified: bool,
    ) -> (r: Result<ProofRecord, Error>)
        ensures
            match submit_result(issuer_trusted, pubkey_at(public_inputs@, 1, issuer_pubkey@), proof_verified) {
                Ok(()) => r == Ok::<ProofRecord, Error>(
                    claim_record(now, expiry, threshold_of(credential_type@, public_inputs@)),
                ),
                Err(e) => r == Err::<ProofRecord, Error>(e),
            },
    {
        // 1. The named issuer must be trusted for this credential type.
        if !issuer_trusted {
            return Err(Error::IssuerNotTrusted);
        }
        // 2. The public key the proof attests to must be the registered
        //    issuer's key.
        if !Self::public_inputs_match_pubkey(public_inputs, issuer_pubkey) {
            return Err(Error::IssuerKeyMismatch);
        }
        // 3. The proof must verify against the registered VK for this type.
        if !proof_verified {
            return Err(Error::VerificationFailed);
        }
        Ok(ProofRecord {
            verified_at: now,
            expiry,
            threshold: Self::extract_threshold(credential_type, public_inputs),
            revoked: false,
        })
    }

    /// Cache a verified proof for `holder` until `expiry` (ledger timestamp,
    /// seconds), as `new_claim` decides; a refused submission changes nothing.
    pub fn submit_proof(
        &mut self,
        holder: &Vec<u8>,
        issuer_id: &Vec<u8>,
        credential_type: &Vec<u8>,
        public_inputs: &Vec<u8>,
        expiry: u64,
        now: u64,
        issuer_trusted: bool,
        issuer_pubkey: &[u8; 64],
        proof_verified: bool,
    ) -> (r: Result<(), Error>)
        requires
            old(self).wf(),
        ensures
            final(self).wf(),
            only_claims_change(old(self)@, final(self)@),
            r == submit_result(issuer_trusted, pubkey_at(public_inputs@, 1, issuer_pubkey@), proof_verified),
            r is Ok ==> final(self)@ == (ProofRegistryView {
                claims: old(self)@.claims.insert(
                    (holder@, credential_type@),
                    claim_record(now, expiry, threshold_of(credential_type@, public_inputs@)),
                ),
                issuers: old(self)@.issuers.insert((holder@, credential_type@), issuer_id@),
                ..old(self)@
            }),
            r is Err ==> final(self)@ == old(self)@,
    {
        match Self::new_claim(
            credential_type,
            public_inputs,
            expiry,
            now,
            issuer_trusted,
            issuer_pubkey,
            proof_verified,
        ) {
            Ok(record) => {
                self.store_claim(holder, credential_type, issuer_id, record.verified_at, record.expiry, record.threshold);
                Ok(())
            },
            Err(e) => Err(e),
        }
    }

    /// `(is_currently_valid, verified_at, expiry)` of a stored record at ledger
    /// time `now`; `(false, 0, 0)` when there is none.
    pub fn claim_status(record: Option<ProofRecord>, now: u64) -> (r: (bool, u64, u64))
        ensures
            r == record_status(record, now),
    {
        match record {
            Some(r) => {
                let valid = !r.revoked && r.expiry > now;
                (valid, r.verified_at, r.expiry)
            },
            None => (false, 0, 0),
        }
    }

    /// Whether a stored record passes `check_claim` at ledger time `now`.
    pub fn claim_meets(record: Option<ProofRecord>, min_threshold: Option<u64>, now: u64) -> (r: bool)
        ensures
            r == record_satisfies(record, min_threshold, now),
    {
        match record {
            Some(r) => {
                if r.revoked || r.expiry <= now {
                    return false;
                }
                match min_threshold {
                    None => true,
                    Some(min) => r.threshold.unwrap_or(0) >= min,
                }
            },
            None => false,
        }
    }

    /// The record stored for `holder` and `credential_type`, if any.
    pub fn claim(&self, holder: &Vec<u8>, credential_type: &Vec<u8>) -> (r: Option<ProofRecord>)
        requires
            self.wf(),
        ensures
            r == self@.claims.get((holder@, credential_type@)),
    {
        let key = (copy_bytes(holder), copy_bytes(credential_type));
        match self.proofs.get(&key) {
            Some(r) => Some(*r),
            None => None,
        }
    }

    /// Returns `(is_currently_valid, verified_at, expiry)`. `is_currently_valid`
    /// accounts for expiry against the ledger time `now`.
    pub fn is_verified(&self, holder: &Vec<u8>, credential_type: &Vec<u8>, now: u64) -> (r: (
        bool,
        u64,
        u64,
    ))
        requires
            self.wf(),
        ensures
            r == verified_status(self@.claims, holder@, credential_type@, now),
    {
        Self::claim_status(self.claim(holder, credential_type), now)
    }

    /// The expiry of the stored claim, whether or not it has passed; 0 when
    /// there is none.
    pub fn claim_expiry(&self, holder: &Vec<u8>, credential_type: &Vec<u8>) -> (r: u64)
        requires
            self.wf(),
        ensures
            r == match self@.claims.get((holder@, credential_type@)) {
                Some(record) => record.expiry,
                None => 0,
            },
    {
        match self.claim(holder, credential_type) {
            Some(record) => record.expiry,
            None => 0,
        }
    }

    /// Like `is_verified` but also enforces a minimum threshold for parameterised
    /// credential types (age, income, funds). A proof submitted with a threshold
    /// of 200_000 satisfies `min_threshold = 50_000` because it proves strictly
    /// more. For `kyc` and `jurisdiction`, pass `min_threshold = None`.
    pub fn check_claim(
        &self,
        holder: &Vec<u8>,
        credential_type: &Vec<u8>,
        min_threshold: Option<u64>,
        now: u64,
    ) -> (r: bool)
        requires
            self.wf(),
        ensures
            r == claim_satisfied(self@.claims, holder@, credential_type@, min_threshold, now),
    {
        Self::claim_meets(self.claim(holder, credential_type), min_threshold, now)
    }

    /// The checks of an aggregate proof that come before any issuer is
    /// consulted: the outer proof must have verified against the aggregate VK,
    /// num_credentials, read from field 132 whatever the listed types, must
    /// match the number of supplied types and be at least 2, and the public
    /// inputs must have room for every credential's block and one field more;
    /// otherwise `AggregateLayoutInvalid`. Field 132 is the field right after
    /// the blocks only for lists whose block widths add up to 132, such as
    /// kyc followed by age, the layout of the aggregate circuit.
    pub fn check_aggregate_layout(
        credential_types: &Vec<Vec<u8>>,
        public_inputs: &Vec<u8>,
        proof_verified: bool,
    ) -> (r: Result<(), Error>)
        requires
            credential_types@.len() <= 1_800_000,
        ensures
            r == aggregate_layout_result(byte_views(credential_types@), public_inputs@, proof_verified),
    {
        let ghost cts = byte_views(credential_types@);
        if !proof_verified {
            return Err(Error::VerificationFailed);
        }
        let n = credential_types.len();
        let num = Self::read_u64_field(public_inputs, 132);
        if num != n as u64 || num < 2 {
            return Err(Error::AggregateLayoutInvalid);
        }
        // The fields taken by the credential blocks.
        let mut fields: u64 = 0;
        let mut i: usize = 0;
        while i < n
            invariant
                n == credential_types@.len(),
                n <= 1_800_000,
                cts == byte_views(credential_types@),
                i <= n,
                fields == block_start(cts, i as nat),
            decreases n - i,
        {
            proof {
                lemma_block_start_bound(cts, (i + 1) as nat);
            }
            fields = fields + Self::aggregate_field_count(&credential_types[i]) as u64;
            i = i + 1;
        }
        proof {
            lemma_block_start_bound(cts, n as nat);
        }
        if (public_inputs.len() as u64) < 32 * (1 + fields) {
            return Err(Error::AggregateLayoutInvalid);
        }
        Ok(())
    }

    /// The records an aggregate proof produces, one per listed credential, in
    /// order. `proof_verified` is the verifier's answer for the `aggregate`
    /// key; `issuer_trusted[i]` and `issuer_pubkeys[i]` are the issuer
    /// registry's answers for the issuer named for `credential_types[i]`.
    ///
    /// The aggregate circuit packs the public inputs of its credentials one
    /// block after another, followed by the number of credentials in field 132,
    /// which must equal the number of listed types and be at least 2. Each
    /// credential's issuer must be trusted and its key must sit right after the
    /// block's commitment. The list holds at most 1,800,000 types, far more than
    /// a transaction can carry; the 32-bit field offsets of the layout stay in
    /// range for such lists.
    pub fn aggregate_new_claims(
        credential_types: &Vec<Vec<u8>>,
        public_inputs: &Vec<u8>,
        expiry: u64,
        now: u64,
        issuer_trusted: &Vec<bool>,
        issuer_pubkeys: &Vec<[u8; 64]>,
        proof_verified: bool,
    ) -> (r: Result<Vec<ProofRecord>, Error>)
        requires
            issuer_trusted@.len() == credential_types@.len(),
            issuer_pubkeys@.len() == credential_types@.len(),
            credential_types@.len() <= 1_800_000,
        ensures
            match aggregate_result(
                byte_views(credential_types@),
                issuer_trusted@,
                key_views(issuer_pubkeys@),
                public_inputs@,
                proof_verified,
            ) {
                Ok(()) => r is Ok && r->Ok_0@.len() == credential_types@.len() && forall|i: int|
                    0 <= i < credential_types@.len() ==> #[trigger] r->Ok_0@[i] == aggregate_record(
                        byte_views(credential_types@),
                        public_inputs@,
                        now,
                        expiry,
                        i as nat,
                    ),
                Err(e) => r == Err::<Vec<ProofRecord>, Error>(e),
            },
    {
        let ghost cts = byte_views(credential_types@);
        let ghost pks = key_views(issuer_pubkeys@);
        let n = credential_types.len();
        if let Err(e) = Self::check_aggregate_layout(credential_types, public_inputs, proof_verified) {
            return Err(e);
        }
        // 3. Each credential's issuer and key must check out.
        let mut records: Vec<ProofRecord> = Vec::new();
        let mut field_offset: u32 = 0;
        let mut i: usize = 0;
        while i < n
            invariant
                n == credential_types@.len(),
                n <= 1_800_000,
                issuer_trusted@.len() == n,
                issuer_pubkeys@.len() == n,
                cts == byte_views(credential_types@),
                pks == key_views(issuer_pubkeys@),
                proof_verified,
                declared_credentials(public_inputs@) == n,
                declared_credentials(public_inputs@) >= 2,
                aggregate_inputs_fit(cts, public_inputs@),
                i <= n,
                field_offset == block_start(cts, i as nat),
                aggregate_credentials_check(cts, issuer_trusted@, pks, public_inputs@, 0)
                    == aggregate_credentials_check(cts, issuer_trusted@, pks, public_inputs@, i as nat),
                records@.len() == i,
                forall|j: int|
                    0 <= j < i ==> #[trigger] records@[j] == aggregate_record(cts, public_inputs@, now, expiry, j as nat),
            decreases n - i,
        {
            proof {
                lemma_block_start_bound(cts, i as nat);
                lemma_block_start_bound(cts, (i + 1) as nat);
            }
            if !issuer_trusted[i] {
                return Err(Error::IssuerNotTrusted);
            }
            // The key sits right after the block's commitment field.
            if !Self::aggregate_pubkey_match(public_inputs, field_offset + 1, &issuer_pubkeys[i]) {
                return Err(Error::IssuerKeyMismatch);
            }
            let threshold = Self::extract_threshold_from_aggregate(&credential_types[i], public_inputs, field_offset);
            records.push(ProofRecord { verified_at: now, expiry, threshold, revoked: false });
            // Advance the field offset by the credential's public-input width.
            field_offset = field_offset + Self::aggregate_field_count(&credential_types[i]);
            i = i + 1;
        }
        Ok(records)
    }

    /// Verify an aggregate proof that bundles several credential proofs into a
    /// single UltraHonk proof, and store all of its claims (later entries of
    /// the same type overwrite earlier ones), or none when `aggregate_new_claims`
    /// refuses it.
    pub fn submit_aggregate_proof(
        &mut self,
        holder: &Vec<u8>,
        issuer_ids: &Vec<Vec<u8>>,
        credential_types: &Vec<Vec<u8>>,
        public_inputs: &Vec<u8>,
        expiry: u64,
        now: u64,
        issuer_trusted: &Vec<bool>,
        issuer_pubkeys: &Vec<[u8; 64]>,
        proof_verified: bool,
    ) -> (r: Result<(), Error>)
        requires
            old(self).wf(),
            issuer_ids@.len() == credential_types@.len(),
            issuer_trusted@.len() == credential_types@.len(),
            issuer_pubkeys@.len() == credential_types@.len(),
            credential_types@.len() <= 1_800_000,
        ensures
            final(self).wf(),
            only_claims_change(old(self)@, final(self)@),
            r == aggregate_result(
                byte_views(credential_types@),
                issuer_trusted@,
                key_views(issuer_pubkeys@),
                public_inputs@,
                proof_verified,
            ),
            r is Ok ==> final(self)@ == (ProofRegistryView {
                claims: aggregate_claims(
                    old(self)@.claims,
                    holder@,
                    byte_views(credential_types@),
                    public_inputs@,
                    now,
                    expiry,
                    credential_types@.len(),
                ),
                issuers: aggregate_issuers(
                    old(self)@.issuers,
                    holder@,
                    byte_views(credential_types@),
                    byte_views(issuer_ids@),
                    credential_types@.len(),
                ),
                ..old(self)@
            }),
            r is Err ==> final(self)@ == old(self)@,
    {
        let ghost cts = byte_views(credential_types@);
        let records = match Self::aggregate_new_claims(
            credential_types,
            public_inputs,
            expiry,
            now,
            issuer_trusted,
            issuer_pubkeys,
            proof_verified,
        ) {
            Ok(records) => records,
            Err(e) => {
                return Err(e);
            },
        };
        proof {
            let res = aggregate_result(cts, issuer_trusted@, key_views(issuer_pubkeys@), public_inputs@, proof_verified);
            match res {
                Ok(u) => {
                    assert(u == ());
                    assert(res == Ok::<(), Error>(()));
                },
                Err(e) => {
                    assert(false);
                },
            }
        }
        let n = credential_types.len();
        let mut i: usize = 0;
        while i < n
            invariant
                n == credential_types@.len(),
                issuer_ids@.len() == n,
                records@.len() == n,
                cts == byte_views(credential_types@),
                aggregate_result(cts, issuer_trusted@, key_views(issuer_pubkeys@), public_inputs@, proof_verified)
                    == Ok::<(), Error>(()),
                forall|j: int|
                    0 <= j < n ==> #[trigger] records@[j] == aggregate_record(cts, public_inputs@, now, expiry, j as nat),
                i <= n,
                self.wf(),
                self@ == (ProofRegistryView {
                    claims: aggregate_claims(old(self)@.claims, holder@, cts, public_inputs@, now, expiry, i as nat),
                    issuers: aggregate_issuers(old(self)@.issuers, holder@, cts, byte_views(issuer_ids@), i as nat),
                    ..old(self)@
                }),
            decreases n - i,
        {
            let record = records[i];
            self.store_claim(
                holder,
                &credential_types[i],
                &issuer_ids[i],
                record.verified_at,
                record.expiry,
                record.threshold,
            );
            i = i + 1;
        }
        Ok(())
    }

    /// Revoke a cached proof.
    pub fn revoke_proof(&mut self, holder: &Vec<u8>, credential_type: &Vec<u8>)
        requires
            old(self).wf(),
        ensures
            final(self).wf(),
            only_claims_change(old(self)@, final(self)@),
            final(self)@ == (ProofRegistryView {
                claims: old(self)@.claims.remove((holder@, credential_type@)),
                issuers: old(self)@.issuers.remove((holder@, credential_type@)),
                ..old(self)@
            }),
    {
        let key = (copy_bytes(holder), copy_bytes(credential_type));
        self.proofs.remove(&key);
        self.issuers.remove(&key);
        assert(self@.issuers =~= old(self)@.issuers.remove((holder@, credential_type@)));
    }

    /// Revoke ALL cached proofs of `holder`, whatever their credential type.
    pub fn revoke_all(&mut self, holder: &Vec<u8>)
        requires
            old(self).wf(),
        ensures
            final(self).wf(),
            only_claims_change(old(self)@, final(self)@),
            final(self)@ == (ProofRegistryView {
                claims: without_holder(old(self)@.claims, holder@),
                issuers: without_holder(old(self)@.issuers, holder@),
                ..old(self)@
            }),
    {
        self.proofs.remove_with_first(holder);
        self.issuers.remove_with_first(holder);
        assert(self@.claims =~= without_holder(old(self)@.claims, holder@));
        assert(self@.issuers =~= without_holder(old(self)@.issuers, holder@));
    }

    /// The type index of a holder after a claim of `credential_type` is
    /// stored for them. The deployed contract keeps one such index per holder
    /// so that `revoke_all` can find every claim.
    pub fn index_with_type(index: &Vec<Vec<u8>>, credential_type: &Vec<u8>) -> (r: Vec<Vec<u8>>)
        ensures
            byte_views(r@) == index_with(byte_views(index@), credential_type@),
    {
        let ghost views = byte_views(index@);
        let mut r: Vec<Vec<u8>> = Vec::new();
        let mut found = false;
        let mut i: usize = 0;
        while i < index.len()
            invariant
                i <= index@.len(),
                views == byte_views(index@),
                byte_views(r@) == views.take(i as int),
                found == views.take(i as int).contains(credential_type@),
            decreases index@.len() - i,
        {
            proof {
                vstd::seq_lib::lemma_seq_contains_after_push(views.take(i as int), views[i as int], credential_type@);
                assert(views.take(i + 1) == views.take(i as int).push(views[i as int]));
            }
            if bytes_equal(&index[i], credential_type) {
                found = true;
            }
            let t = copy_bytes(&index[i]);
            r.push(t);
            proof {
                assert(byte_views(r@) =~= views.take(i + 1));
            }
            i = i + 1;
        }
        assert(views.take(index@.len() as int) =~= views);
        if !found {
            r.push(copy_bytes(credential_type));
            assert(byte_views(r@) =~= views.push(credential_type@));
        }
        r
    }

    /// The type index of a holder after their claim of `credential_type` is
    /// removed.
    pub fn index_without_type(index: &Vec<Vec<u8>>, credential_type: &Vec<u8>) -> (r: Vec<Vec<u8>>)
        ensures
            byte_views(r@) == index_without(byte_views(index@), credential_type@),
    {
        let ghost views = byte_views(index@);
        let ghost pred = other_than(credential_type@);
        let mut r: Vec<Vec<u8>> = Vec::new();
        let mut i: usize = 0;
        while i < index.len()
            invariant
                i <= index@.len(),
                views == byte_views(index@),
                pred == other_than(credential_type@),
                byte_views(r@) == views.take(i as int).filter(pred),
            decreases index@.len() - i,
        {
            proof {
                assert(views.take(i + 1) == views.take(i as int).push(views[i as int]));
                views.take(i as int).lemma_filter_push(views[i as int], pred);
            }
            if !bytes_equal(&index[i], credential_type) {
                let t = copy_bytes(&index[i]);
                r.push(t);
                proof {
                    assert(byte_views(r@) =~= views.take(i as int).filter(pred).push(views[i as int]));
                }
            }
            i = i + 1;
        }
        assert(views.take(index@.len() as int) =~= views);
        r
    }

    /// What an issuer's revocation does to a stored record that
    /// `record_issuer` issued: the record comes back marked revoked, with its
    /// timestamps and threshold kept for audit. There being no record, or
    /// `issuer` not being the one that issued it, is refused with
    /// `NotAuthorized`.
    pub fn issuer_revocation(
        record: Option<ProofRecord>,
        record_issuer: Option<&Vec<u8>>,
        issuer: &Vec<u8>,
    ) -> (r: Result<ProofRecord, Error>)
        ensures
            r == revocation_result(
                record,
                match record_issuer {
                    Some(i) => Some(i@),
                    None => None,
                },
                issuer@,
            ),
    {
        match (record, record_issuer) {
            (Some(rec), Some(i)) => {
                if bytes_equal(i, issuer) {
                    Ok(
                        ProofRecord {
                            verified_at: rec.verified_at,
                            expiry: rec.expiry,
                            threshold: rec.threshold,
                            revoked: true,
                        },
                    )
                } else {
                    Err(Error::NotAuthorized)
                }
            },
            _ => Err(Error::NotAuthorized),
        }
    }

    /// The issuer of a holder's claim revokes it: the claim stops being valid
    /// and its record stays, as `issuer_revocation` decides; a refused
    /// revocation changes nothing.
    pub fn revoke(&mut self, issuer: &Vec<u8>, holder: &Vec<u8>, credential_type: &Vec<u8>) -> (r: Result<(), Error>)
        requires
            old(self).wf(),
        ensures
            final(self).wf(),
            only_claims_change(old(self)@, final(self)@),
            match revocation_result(
                old(self)@.claims.get((holder@, credential_type@)),
                old(self)@.issuers.get((holder@, credential_type@)),
                issuer@,
            ) {
                Ok(record) => r == Ok::<(), Error>(()) && final(self)@ == (ProofRegistryView {
                    claims: old(self)@.claims.insert((holder@, credential_type@), record),
                    ..old(self)@
                }),
                Err(e) => r == Err::<(), Error>(e) && final(self)@ == old(self)@,
            },
    {
        let key = (copy_bytes(holder), copy_bytes(credential_type));
        let record = self.claim(holder, credential_type);
        let outcome = Self::issuer_revocation(record, self.issuers.get(&key), issuer);
        proof {
            let k = (holder@, credential_type@);
            if self.issuers@.contains_key(k) {
                assert(self@.issuers.get(k) == Some(self.issuers@[k]@));
            } else {
                assert(self@.issuers.get(k) == None::<Seq<u8>>);
            }
        }
        match outcome {
            Ok(revoked) => {
                self.proofs.insert(key, revoked);
                assert(self@.issuers == old(self)@.issuers);
                Ok(())
            },
            Err(e) => Err(e),
        }
    }

    /// The credential verifier's address.
    pub fn verifier_address(&self) -> (r: Vec<u8>)
        ensures
            r@ == self@.verifier,
    {
        copy_bytes(&self.verifier)
    }

    /// The issuer registry's address.
    pub fn issuer_registry_address(&self) -> (r: Vec<u8>)
        ensures
            r@ == self@.issuer_registry,
    {
        copy_bytes(&self.issuer_registry)
    }

    /// Extract the numeric threshold from the proof's public inputs for
    /// credential types that carry one. After the common header (commitment
    /// field 0, issuer_x fields 1-32, issuer_y fields 33-64):
    ///   age:        field 65 = current_date, field 66 = threshold_years
    ///   income:     field 65 = threshold
    ///   funds:      field 65 = threshold
    ///   kyc:        (no extra fields)
    pub fn extract_threshold(credential_type: &Vec<u8>, public_inputs: &Vec<u8>) -> (r: Option<u64>)
        ensures
            r == threshold_of(credential_type@, public_inputs@),
    {
        if is_age(credential_type) {
            Some(Self::read_u64_field(public_inputs, 66))
        } else if is_income(credential_type) || is_funds(credential_type) {
            Some(Self::read_u64_field(public_inputs, 65))
        } else {
            None
        }
    }

    /// Read a big-endian u64 from the last 8 bytes of a 32-byte field element;
    /// bytes beyond the end of the input read as 0.
    pub fn read_u64_field(public_inputs: &Vec<u8>, field_index: u32) -> (r: u64)
        requires
            field_index * 32 + 31 <= u32::MAX,
        ensures
            r == field_u64(public_inputs@, field_index as int),
    {
        let base: usize = (field_index * 32) as usize;
        let mut acc: u64 = 0;
        let mut i: usize = 0;
        while i < 8
            invariant
                base == field_index * 32,
                base + 31 <= u32::MAX,
                i <= 8,
                acc == be_value(public_inputs@, base + 24, i as nat),
            decreases 8 - i,
        {
            proof {
                lemma_be_value_bound(public_inputs@, base + 24, i as nat);
                lemma_pow256_mono(i as nat, 7);
                reveal_with_fuel(pow256, 8);
            }
            let idx = base + 24 + i;
            let b: u8 = if idx < public_inputs.len() {
                public_inputs[idx]
            } else {
                0
            };
            acc = acc * 256 + b as u64;
            i = i + 1;
        }
        proof {
            lemma_be_value_bound(public_inputs@, base + 24, 8);
            lemma_pow256_8();
        }
        acc
    }

    /// True iff the secp256k1 public key embedded in `public_inputs` (fields
    /// 1..65, one byte per field in the low byte) equals `expected` (x || y).
    pub fn public_inputs_match_pubkey(public_inputs: &Vec<u8>, expected: &[u8; 64]) -> (r: bool)
        ensures
            r == pubkey_at(public_inputs@, 1, expected@),
    {
        Self::aggregate_pubkey_match(public_inputs, 1, expected)
    }

    /// Like `public_inputs_match_pubkey` but with a configurable starting field
    /// so it can validate the pubkey in any slice of an aggregate proof.
    ///
    /// The scan stops at the first mismatch; every key byte it reaches must
    /// have a 32-bit offset.
    pub fn aggregate_pubkey_match(public_inputs: &Vec<u8>, start_field: u32, expected: &[u8; 64]) -> (r: bool)
        requires
            pubkey_scan_fits(public_inputs@, start_field as int, expected@),
        ensures
            r == pubkey_at(public_inputs@, start_field as int, expected@),
    {
        let mut i: u32 = 0;
        while i < 64
            invariant
                i <= 64,
                pubkey_scan_fits(public_inputs@, start_field as int, expected@),
                expected@.len() == 64,
                forall|j: int|
                    #![trigger key_byte_offset(start_field as int, j)]
                    0 <= j < i ==> key_byte_offset(start_field as int, j) < public_inputs@.len()
                        && public_inputs@[key_byte_offset(start_field as int, j)] == expected@[j],
            decreases 64 - i,
        {
            assert(key_byte_offset(start_field as int, i as int) <= u32::MAX);
            let offset = (start_field + i) * 32 + (32 - 1);
            let off = offset as usize;
            if off < public_inputs.len() && public_inputs[off] == expected[i as usize] {
            } else {
                proof {
                    assert(key_byte_offset(start_field as int, i as int) == off);
                }
                return false;
            }
            i = i + 1;
        }
        true
    }

    /// Atomically write a ProofRecord.
    fn store_claim(
        &mut self,
        holder: &Vec<u8>,
        credential_type: &Vec<u8>,
        issuer_id: &Vec<u8>,
        verified_at: u64,
        expiry: u64,
        threshold: Option<u64>,
    )
        requires
            old(self).wf(),
        ensures
            final(self).wf(),
            final(self)@ == (ProofRegistryView {
                claims: old(self)@.claims.insert(
                    (holder@, credential_type@),
                    claim_record(verified_at, expiry, threshold),
                ),
                issuers: old(self)@.issuers.insert((holder@, credential_type@), issuer_id@),
                ..old(self)@
            }),
    {
        let key = (copy_bytes(holder), copy_bytes(credential_type));
        let record = ProofRecord { verified_at, expiry, threshold, revoked: false };
        self.proofs.insert(key, record);
        let key = (copy_bytes(holder), copy_bytes(credential_type));
        self.issuers.insert(key, copy_bytes(issuer_id));
        assert(self@.issuers =~= old(self)@.issuers.insert((holder@, credential_type@), issuer_id@));
    }

    /// Returns the number of 32-byte field elements a credential type occupies
    /// in the aggregate proof's public inputs: the common header of 65 fields
    /// (commitment, issuer_x, issuer_y) plus the type's own fields (2 for age,
    /// 1 for income and funds, 8 restricted country codes for jurisdiction).
    pub fn aggregate_field_count(credential_type: &Vec<u8>) -> (r: u32)
        ensures
            r == field_count(credential_type@),
    {
        let base: u32 = 65;
        if is_kyc(credential_type) {
            base
        } else if is_age(credential_type) {
            base + 2
        } else if is_income(credential_type) || is_funds(credential_type) {
            base + 1
        } else if is_jurisdiction(credential_type) {
            base + 8
        } else {
            base
        }
    }

    /// Extract the threshold from within an aggregate proof's credential block.
    /// `field_offset` is the 0-based field index where this credential block
    /// starts (i.e., the commitment field).
    pub fn extract_threshold_from_aggregate(
        credential_type: &Vec<u8>,
        public_inputs: &Vec<u8>,
        field_offset: u32,
    ) -> (r: Option<u64>)
        requires
            aggregate_threshold_field(credential_type@, field_offset as int) matches Some(f) ==> f * 32 + 31
                <= u32::MAX,
        ensures
            r == aggregate_threshold_of(credential_type@, public_inputs@, field_offset as int),
    {
        if is_age(credential_type) {
            Some(Self::read_u64_field(public_inputs, field_offset + 65 + 1))
        } else if is_income(credential_type) || is_funds(credential_type) {
            Some(Self::read_u64_field(public_inputs, field_offset + 65))
        } else {
            None
        }
    }
}

} // verus!
