//! CredentialVerifier
//!
//! Stateless cryptographic gateway. A single `verify_proof` entry point accepts
//! any credential type: it looks up the VK by credential type and version and
//! runs the UltraHonk verifier. Adding a new credential type requires only
//! calling `set_vk` with the new circuit's VK.
//!
//! Verification keys are set by an admin (one VK per credential circuit and
//! version). `proof` and `public_inputs` are the opaque byte blobs emitted by
//! `bb`. The admin's authorization is checked by the host before an admin-only
//! operation reaches this state.
//!
//! Two layers stand here. The step functions (`validate_vk`,
//! `next_latest_version`, `has_proof_length`, `resolve_version`,
//! `check_with_stored_vk`) decide each request from plain values; the deployed
//! contract reads its per-key ledger storage, calls them, and writes back what
//! they return. `CredentialVerifier` and its methods are a model of the whole
//! ledger state built from the same steps: their contracts say what a sequence
//! of requests does to the registered keys, and the laws are stated over it.

use vstd::prelude::*;
use crate::outside::{proof_bytes, ultrahonk_accepts, ultrahonk_proof_accepted, ultrahonk_vk_loads, vk_loads};
use crate::table::{Table, copy_bytes};

verus! {

/// Errors with which the verifier refuses a request.
#[derive(Clone, Copy, Debug, PartialEq, Eq, Structural)]
pub enum Error {
    NotInitialized,
    VkNotSet,
    VkInvalid,
    /// The requested VK version has been deprecated by the admin; new
    /// submissions against it are rejected.
    VersionDeprecated,
}

/// Key of a verification key: credential type and version.
pub type VkKey = (Seq<u8>, u32);

/// What the verifier holds.
pub struct CredentialVerifierView {
    pub admin: Seq<u8>,
    /// Verification key bytes, keyed by (credential type, version).
    pub vks: Map<VkKey, Seq<u8>>,
    /// The latest VK version registered for a credential type.
    pub latest_versions: Map<Seq<u8>, u32>,
    /// Marks of (credential type, version) that are no longer accepted for new
    /// submissions. The VK itself stays readable.
    pub deprecated: Map<VkKey, bool>,
}

/// The CredentialVerifier contract's state.
pub struct CredentialVerifier {
    admin: Vec<u8>,
    vks: Table<(Vec<u8>, u32), Vec<u8>>,
    latest_versions: Table<Vec<u8>, u32>,
    deprecated: Table<(Vec<u8>, u32), bool>,
}

impl View for CredentialVerifier {
    type V = CredentialVerifierView;

    closed spec fn view(&self) -> CredentialVerifierView {
        CredentialVerifierView {
            admin: self.admin@,
            vks: self.vks@.map_values(|v: Vec<u8>| v@),
            latest_versions: self.latest_versions@,
            deprecated: self.deprecated@,
        }
    }
}

/// The highest registered version for `credential_type`, or 0.
pub open spec fn latest_version(s: CredentialVerifierView, credential_type: Seq<u8>) -> u32 {
    if s.latest_versions.contains_key(credential_type) {
        s.latest_versions[credential_type]
    } else {
        0
    }
}

/// Whether `(credential_type, version)` is marked deprecated.
pub open spec fn is_deprecated(s: CredentialVerifierView, credential_type: Seq<u8>, version: u32) -> bool {
    s.deprecated.contains_key((credential_type, version)) && s.deprecated[(credential_type, version)]
}

/// The state after registering `vk` for `(credential_type, version)`: the key
/// is stored and the latest-version pointer moves up to `version` when that is
/// newer.
pub open spec fn with_vk(
    s: CredentialVerifierView,
    credential_type: Seq<u8>,
    version: u32,
    vk: Seq<u8>,
) -> CredentialVerifierView {
    CredentialVerifierView {
        vks: s.vks.insert((credential_type, version), vk),
        latest_versions: if version > latest_version(s, credential_type) {
            s.latest_versions.insert(credential_type, version)
        } else {
            s.latest_versions
        },
        ..s
    }
}

/// The version to check a proof against, given the requested version and the
/// stored latest version: the requested one when it is positive, otherwise
/// the latest one, if any.
pub open spec fn version_to_use(vk_version: Option<u32>, latest: Option<u32>) -> Option<u32> {
    if vk_version is Some && vk_version->0 > 0 {
        vk_version
    } else {
        latest
    }
}

/// The version a proof is checked against in state `s`.
pub open spec fn resolved_version(
    s: CredentialVerifierView,
    credential_type: Seq<u8>,
    vk_version: Option<u32>,
) -> Option<u32> {
    version_to_use(vk_version, s.latest_versions.get(credential_type))
}

/// The answer for a proof checked against the stored entries of the resolved
/// version: refused when the version is deprecated, `VkNotSet` when it has no
/// key, else the verifier's answer.
pub open spec fn stored_vk_result(
    deprecated: Option<bool>,
    vk: Option<Seq<u8>>,
    proof: Seq<u8>,
    public_inputs: Seq<u8>,
) -> Result<bool, Error> {
    if deprecated == Some(true) {
        Err(Error::VersionDeprecated)
    } else {
        match vk {
            None => Err(Error::VkNotSet),
            Some(k) => Ok(ultrahonk_proof_accepted(k, proof, public_inputs)),
        }
    }
}

/// The new value of the latest-version pointer after registering `version`,
/// when it moves.
pub open spec fn moved_latest(current: Option<u32>, version: u32) -> Option<u32> {
    if version > current.unwrap_or(0) {
        Some(version)
    } else {
        None
    }
}

/// The key a proof of length `proof_len` is checked against: `Ok(None)` when
/// the length is wrong (the proof is refused before any lookup), the error when
/// no usable version or key exists, else the key.
pub open spec fn selected_vk(
    s: CredentialVerifierView,
    credential_type: Seq<u8>,
    proof_len: nat,
    vk_version: Option<u32>,
) -> Result<Option<Seq<u8>>, Error> {
    if proof_len != 14592 {
        Ok(None)
    } else {
        match resolved_version(s, credential_type, vk_version) {
            None => Err(Error::VkNotSet),
            Some(v) => if is_deprecated(s, credential_type, v) {
                Err(Error::VersionDeprecated)
            } else if s.vks.contains_key((credential_type, v)) {
                Ok(Some(s.vks[(credential_type, v)]))
            } else {
                Err(Error::VkNotSet)
            },
        }
    }
}

/// The answer of `verify_proof`.
pub open spec fn verify_result(
    s: CredentialVerifierView,
    credential_type: Seq<u8>,
    proof: Seq<u8>,
    public_inputs: Seq<u8>,
    vk_version: Option<u32>,
) -> Result<bool, Error> {
    match selected_vk(s, credential_type, proof.len(), vk_version) {
        Err(e) => Err(e),
        Ok(None) => Ok(false),
        Ok(Some(vk)) => Ok(ultrahonk_proof_accepted(vk, proof, public_inputs)),
    }
}

/// Every latest-version pointer is positive and names a registered key.
pub open spec fn latest_points_to_key(s: CredentialVerifierView) -> bool {
    forall|ct: Seq<u8>|
        #[trigger] s.latest_versions.contains_key(ct) ==> s.latest_versions[ct] > 0
            && s.vks.contains_key((ct, s.latest_versions[ct]))
}

impl CredentialVerifier {
    /// The invariant: each table holds each key once, and the latest-version
    /// pointers name registered keys.
    pub closed spec fn wf(&self) -> bool {
        &&& self.vks.wf()
        &&& self.latest_versions.wf()
        &&& self.deprecated.wf()
        &&& latest_points_to_key(self@)
    }

    /// In every state the verifier can reach, the latest version of a
    /// credential type is positive and has a registered key (deprecation never
    /// deletes one).
    pub proof fn lemma_latest_points_to_key(&self)
        requires
            self.wf(),
        ensures
            latest_points_to_key(self@),
    {
    }

    /// The VK check of `set_vk`: the key must load into the UltraHonk verifier.
    pub fn validate_vk(env: &soroban_sdk::Env, vk: &Vec<u8>) -> (r: Result<(), Error>)
        ensures
            r == (if ultrahonk_vk_loads(vk@) { Ok(()) } else { Err(Error::VkInvalid) }),
    {
        if vk_loads(env, vk) {
            Ok(())
        } else {
            Err(Error::VkInvalid)
        }
    }

    /// The latest-version pointer to write after registering `version` when the
    /// stored pointer is `current` (absent reads as 0); `None` when it stays.
    pub fn next_latest_version(current: Option<u32>, version: u32) -> (r: Option<u32>)
        ensures
            r == moved_latest(current, version),
    {
        let current: u32 = match current {
            Some(v) => v,
            None => 0,
        };
        if version > current {
            Some(version)
        } else {
            None
        }
    }

    /// Whether a proof of `proof_len` bytes has the fixed length of an
    /// UltraHonk proof; a proof of any other length is refused before storage
    /// or the verifier is touched.
    pub fn has_proof_length(proof_len: usize) -> (r: bool)
        ensures
            r == (proof_len == 14592),
    {
        proof_len == proof_bytes()
    }

    /// The version to check a proof against: `vk_version` when it is positive,
    /// else the stored latest version; `VkNotSet` when there is none.
    pub fn resolve_version(vk_version: Option<u32>, latest: Option<u32>) -> (r: Result<u32, Error>)
        ensures
            match version_to_use(vk_version, latest) {
                Some(v) => r == Ok::<u32, Error>(v),
                None => r == Err::<u32, Error>(Error::VkNotSet),
            },
    {
        match vk_version {
            Some(v) if v > 0 => Ok(v),
            _ => match latest {
                Some(v) => Ok(v),
                None => Err(Error::VkNotSet),
            },
        }
    }

    /// Check a proof against the stored entries of its resolved version:
    /// `VersionDeprecated` when the version is marked deprecated, `VkNotSet`
    /// when it has no key, else whether the UltraHonk verifier accepts it.
    pub fn check_with_stored_vk(
        env: &soroban_sdk::Env,
        deprecated: Option<bool>,
        vk: Option<&Vec<u8>>,
        proof: &Vec<u8>,
        public_inputs: &Vec<u8>,
    ) -> (r: Result<bool, Error>)
        ensures
            r == stored_vk_result(
                deprecated,
                match vk {
                    Some(k) => Some(k@),
                    None => None,
                },
                proof@,
                public_inputs@,
            ),
    {
        let is_deprecated: bool = match deprecated {
            Some(d) => d,
            None => false,
        };
        if is_deprecated {
            return Err(Error::VersionDeprecated);
        }
        match vk {
            Some(k) => Ok(ultrahonk_accepts(env, k, proof, public_inputs)),
            None => Err(Error::VkNotSet),
        }
    }

    /// A verifier administered by `admin`, with no keys.
    pub fn new(admin: Vec<u8>) -> (r: Self)
        ensures
            r.wf(),
            r@.admin == admin@,
            r@.vks == Map::<VkKey, Seq<u8>>::empty(),
            r@.latest_versions == Map::<Seq<u8>, u32>::empty(),
            r@.deprecated == Map::<VkKey, bool>::empty(),
    {
        let r = CredentialVerifier {
            admin,
            vks: Table::new(),
            latest_versions: Table::new(),
            deprecated: Table::new(),
        };
        assert(r@.vks =~= Map::<VkKey, Seq<u8>>::empty());
        r
    }

    /// The admin's address, whose authorization every admin-only operation needs.
    pub fn admin(&self) -> (r: Vec<u8>)
        ensures
            r@ == self@.admin,
    {
        copy_bytes(&self.admin)
    }

    /// Register a verification key for a credential circuit at the given
    /// version. The VK is validated by loading it into the UltraHonk verifier
    /// before storage, rejecting malformed keys at set time.
    ///
    /// If `version` is greater than the currently-tracked latest version for
    /// `credential_type`, the latest-version pointer is updated automatically.
    pub fn set_vk(
        &mut self,
        env: &soroban_sdk::Env,
        credential_type: &Vec<u8>,
        version: u32,
        vk: &Vec<u8>,
    ) -> (r: Result<(), Error>)
        requires
            old(self).wf(),
        ensures
            final(self).wf(),
            r == (if ultrahonk_vk_loads(vk@) { Ok(()) } else { Err(Error::VkInvalid) }),
            r is Ok ==> final(self)@ == with_vk(old(self)@, credential_type@, version, vk@),
            r is Err ==> final(self)@ == old(self)@,
    {
        match Self::validate_vk(env, vk) {
            Ok(()) => self.register_vk(credential_type, version, vk, true),
            Err(e) => Err(e),
        }
    }

    /// What `set_vk` does once the verifier has said whether `vk` loads:
    /// refuse an invalid key with `VkInvalid`, else store it and move the
    /// latest-version pointer.
    pub fn register_vk(
        &mut self,
        credential_type: &Vec<u8>,
        version: u32,
        vk: &Vec<u8>,
        vk_valid: bool,
    ) -> (r: Result<(), Error>)
        requires
            old(self).wf(),
        ensures
            final(self).wf(),
            r == (if vk_valid { Ok(()) } else { Err(Error::VkInvalid) }),
            r is Ok ==> final(self)@ == with_vk(old(self)@, credential_type@, version, vk@),
            r is Err ==> final(self)@ == old(self)@,
    {
        if !vk_valid {
            return Err(Error::VkInvalid);
        }
        let ghost pre = self@;
        self.vks.insert((copy_bytes(credential_type), version), copy_bytes(vk));
        let current: Option<u32> = match self.latest_versions.get(credential_type) {
            Some(v) => Some(*v),
            None => None,
        };
        if let Some(latest) = Self::next_latest_version(current, version) {
            self.latest_versions.insert(copy_bytes(credential_type), latest);
        }
        proof {
            assert(self@.vks =~= pre.vks.insert((credential_type@, version), vk@));
            assert forall|ct: Seq<u8>| #[trigger] self@.latest_versions.contains_key(ct) implies
                self@.latest_versions[ct] > 0 && self@.vks.contains_key((ct, self@.latest_versions[ct])) by {
                if ct != credential_type@ || version <= current.unwrap_or(0) {
                    assert(pre.latest_versions.contains_key(ct));
                }
            }
        }
        Ok(())
    }

    /// Verify an UltraHonk proof for any registered credential type. Looks up
    /// the VK by `(credential_type, vk_version)`; `vk_version = None` (or 0)
    /// uses the latest registered version.
    ///
    /// Returns `Ok(true)` iff the proof is valid and `Ok(false)` for a proof of
    /// the wrong length or one the verifier rejects; refuses with `VkNotSet` if
    /// no VK has been registered for this type/version, or with
    /// `VersionDeprecated` if the requested version has been deprecated.
    pub fn verify_proof(
        &self,
        env: &soroban_sdk::Env,
        credential_type: &Vec<u8>,
        proof: &Vec<u8>,
        public_inputs: &Vec<u8>,
        vk_version: Option<u32>,
    ) -> (r: Result<bool, Error>)
        requires
            self.wf(),
        ensures
            r == verify_result(self@, credential_type@, proof@, public_inputs@, vk_version),
    {
        // Proofs are fixed-length; reject early before touching the verifier.
        if !Self::has_proof_length(proof.len()) {
            return Ok(false);
        }
        let latest: Option<u32> = match self.latest_versions.get(credential_type) {
            Some(v) => Some(*v),
            None => None,
        };
        let version = match Self::resolve_version(vk_version, latest) {
            Ok(v) => v,
            Err(e) => {
                return Err(e);
            },
        };
        let key = (copy_bytes(credential_type), version);
        let deprecated: Option<bool> = match self.deprecated.get(&key) {
            Some(d) => Some(*d),
            None => None,
        };
        Self::check_with_stored_vk(env, deprecated, self.vks.get(&key), proof, public_inputs)
    }

    /// Mark a VK version as deprecated. New proof submissions against this
    /// version are rejected (`VersionDeprecated`), but the VK is not deleted.
    pub fn deprecate_version(&mut self, credential_type: &Vec<u8>, version: u32)
        requires
            old(self).wf(),
        ensures
            final(self).wf(),
            final(self)@ == (CredentialVerifierView {
                deprecated: old(self)@.deprecated.insert((credential_type@, version), true),
                ..old(self)@
            }),
    {
        self.deprecated.insert((copy_bytes(credential_type), version), true);
        assert(self@.vks == old(self)@.vks);
        assert(self@.latest_versions == old(self)@.latest_versions);
    }

    /// Returns the highest registered VK version for `credential_type`, or 0 if
    /// no VK has been registered yet.
    pub fn get_latest_version(&self, credential_type: &Vec<u8>) -> (r: u32)
        requires
            self.wf(),
        ensures
            r == latest_version(self@, credential_type@),
    {
        match self.latest_versions.get(credential_type) {
            Some(v) => *v,
            None => 0,
        }
    }
}

} // verus!
