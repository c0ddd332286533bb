use stellarcred::proof_registry::{Error, ProofRecord, ProofRegistry};

const KYC: &[u8] = b"kyc";
const AGE: &[u8] = b"age";
const INCOME: &[u8] = b"income";
const FUNDS: &[u8] = b"funds";
const JURISDICTION: &[u8] = b"jurisdiction";

fn sym(s: &[u8]) -> Vec<u8> {
    s.to_vec()
}

fn addr(tag: u8) -> Vec<u8> {
    let mut a = b"G".to_vec();
    a.extend(std::iter::repeat(b'A' + tag).take(55));
    a
}

fn demo_key() -> [u8; 64] {
    let mut k = [0u8; 64];
    for (i, b) in k.iter_mut().enumerate() {
        *b = (i as u8).wrapping_mul(7).wrapping_add(1);
    }
    k
}

/// Public inputs of `fields` field elements with the issuer key embedded one
/// byte per field from field `start + 1`.
fn inputs_with_key(fields: usize, start: usize, key: &[u8; 64]) -> Vec<u8> {
    let mut pi = vec![0u8; fields * 32];
    for i in 0..64 {
        pi[(start + 1 + i) * 32 + 31] = key[i];
    }
    pi
}

fn put_u64_field(pi: &mut Vec<u8>, field: usize, v: u64) {
    let base = field * 32;
    for b in &mut pi[base..base + 32] {
        *b = 0;
    }
    pi[base + 24..base + 32].copy_from_slice(&v.to_be_bytes());
}

fn issuer() -> Vec<u8> {
    addr(30)
}

fn issuers_for(types: &Vec<Vec<u8>>) -> Vec<Vec<u8>> {
    types.iter().map(|_| issuer()).collect()
}

fn deploy() -> ProofRegistry {
    ProofRegistry::new(addr(20), addr(21))
}

fn submit(r: &mut ProofRegistry, holder: &Vec<u8>, expiry: u64) {
    let pi = inputs_with_key(65, 0, &demo_key());
    r.submit_proof(holder, &issuer(), &sym(KYC), &pi, expiry, 0, true, &demo_key(), true)
        .expect("submission accepted");
}

#[test]
fn submit_then_verified() {
    let mut r = deploy();
    let holder = addr(1);
    submit(&mut r, &holder, 1000);
    let (valid, _at, expiry) = r.is_verified(&holder, &sym(KYC), 0);
    assert!(valid);
    assert_eq!(expiry, 1000);
}

#[test]
fn expires_after_ledger_time_passes() {
    let mut r = deploy();
    let holder = addr(1);
    submit(&mut r, &holder, 1000);
    assert!(r.is_verified(&holder, &sym(KYC), 0).0);
    assert!(!r.is_verified(&holder, &sym(KYC), 2000).0);
}

#[test]
fn rejects_wrong_issuer_key() {
    let mut r = deploy();
    let holder = addr(1);
    let pi = inputs_with_key(65, 0, &demo_key());
    let res = r.submit_proof(&holder, &issuer(), &sym(KYC), &pi, 1000, 0, true, &[3u8; 64], true);
    assert!(res.is_err());
    assert_eq!(res, Err(Error::IssuerKeyMismatch));
    assert!(!r.is_verified(&holder, &sym(KYC), 0).0);
}

#[test]
fn rejects_untrusted_issuer() {
    let mut r = deploy();
    let holder = addr(1);
    let pi = inputs_with_key(65, 0, &demo_key());
    let res = r.submit_proof(&holder, &issuer(), &sym(KYC), &pi, 1000, 0, false, &demo_key(), true);
    assert!(res.is_err());
    assert_eq!(res, Err(Error::IssuerNotTrusted));
    assert!(!r.is_verified(&holder, &sym(KYC), 0).0);
}

#[test]
fn rejects_invalid_proof() {
    let mut r = deploy();
    let holder = addr(1);
    let pi = inputs_with_key(65, 0, &demo_key());
    let res = r.submit_proof(&holder, &issuer(), &sym(KYC), &pi, 1000, 0, true, &demo_key(), false);
    assert!(res.is_err());
    assert_eq!(res, Err(Error::VerificationFailed));
    assert!(!r.is_verified(&holder, &sym(KYC), 0).0);
}

#[test]
fn unverified_holder_returns_false() {
    let r = deploy();
    assert!(!r.is_verified(&addr(9), &sym(KYC), 0).0);
    assert_eq!(r.is_verified(&addr(9), &sym(KYC), 0), (false, 0, 0));
}

#[test]
fn revoke_clears_proof() {
    let mut r = deploy();
    let holder = addr(1);
    submit(&mut r, &holder, 1000);
    r.revoke_proof(&holder, &sym(KYC));
    assert!(!r.is_verified(&holder, &sym(KYC), 0).0);
}

#[test]
fn check_claim_no_threshold_matches_is_verified() {
    let mut r = deploy();
    let holder = addr(1);
    submit(&mut r, &holder, 1000);
    assert!(r.check_claim(&holder, &sym(KYC), None, 0));
}

#[test]
fn funds_threshold_stored_and_checked() {
    let mut r = deploy();
    let holder = addr(1);
    let mut pi = inputs_with_key(66, 0, &demo_key());
    put_u64_field(&mut pi, 65, 200_000);
    r.submit_proof(&holder, &issuer(), &sym(FUNDS), &pi, 9999, 0, true, &demo_key(), true).unwrap();

    assert!(r.check_claim(&holder, &sym(FUNDS), Some(200_000), 0));
    assert!(r.check_claim(&holder, &sym(FUNDS), Some(50_000), 0));
    assert!(r.check_claim(&holder, &sym(FUNDS), None, 0));
    assert!(!r.check_claim(&holder, &sym(FUNDS), Some(250_000), 0));
}

#[test]
fn age_threshold_stored_and_checked() {
    let mut r = deploy();
    let holder = addr(1);
    let mut pi = inputs_with_key(67, 0, &demo_key());
    put_u64_field(&mut pi, 65, 20_000);
    put_u64_field(&mut pi, 66, 18);
    r.submit_proof(&holder, &issuer(), &sym(AGE), &pi, 9999, 0, true, &demo_key(), true).unwrap();

    assert!(r.check_claim(&holder, &sym(AGE), Some(18), 0));
    assert!(r.check_claim(&holder, &sym(AGE), Some(16), 0));
    assert!(!r.check_claim(&holder, &sym(AGE), Some(21), 0));
}

#[test]
fn verified_at_is_submission_time() {
    let mut r = deploy();
    let holder = addr(1);
    let pi = inputs_with_key(65, 0, &demo_key());
    r.submit_proof(&holder, &issuer(), &sym(KYC), &pi, 5000, 1234, true, &demo_key(), true).unwrap();
    assert_eq!(r.is_verified(&holder, &sym(KYC), 4999), (true, 1234, 5000));
    assert_eq!(r.is_verified(&holder, &sym(KYC), 5000), (false, 1234, 5000));
}

#[test]
fn claims_are_per_holder_and_type() {
    let mut r = deploy();
    submit(&mut r, &addr(1), 1000);
    assert!(!r.is_verified(&addr(2), &sym(KYC), 0).0);
    assert!(!r.is_verified(&addr(1), &sym(AGE), 0).0);
}

#[test]
fn expired_claim_fails_every_check() {
    let mut r = deploy();
    let holder = addr(1);
    let mut pi = inputs_with_key(66, 0, &demo_key());
    put_u64_field(&mut pi, 65, 70_000);
    r.submit_proof(&holder, &issuer(), &sym(INCOME), &pi, 100, 0, true, &demo_key(), true).unwrap();
    assert!(r.check_claim(&holder, &sym(INCOME), Some(70_000), 99));
    assert!(!r.check_claim(&holder, &sym(INCOME), Some(1), 100));
    assert!(!r.check_claim(&holder, &sym(INCOME), None, 100));
}

#[test]
fn kyc_claim_without_threshold_fails_positive_minimum() {
    let mut r = deploy();
    let holder = addr(1);
    submit(&mut r, &holder, 1000);
    assert!(r.check_claim(&holder, &sym(KYC), Some(0), 0));
    assert!(!r.check_claim(&holder, &sym(KYC), Some(1), 0));
}

#[test]
fn resubmission_replaces_record() {
    let mut r = deploy();
    let holder = addr(1);
    submit(&mut r, &holder, 1000);
    let pi = inputs_with_key(65, 0, &demo_key());
    r.submit_proof(&holder, &issuer(), &sym(KYC), &pi, 3000, 500, true, &demo_key(), true).unwrap();
    assert_eq!(r.is_verified(&holder, &sym(KYC), 600), (true, 500, 3000));
}

#[test]
fn failed_submission_keeps_earlier_claim() {
    let mut r = deploy();
    let holder = addr(1);
    submit(&mut r, &holder, 1000);
    let pi = inputs_with_key(65, 0, &demo_key());
    let res = r.submit_proof(&holder, &issuer(), &sym(KYC), &pi, 3000, 500, true, &demo_key(), false);
    assert_eq!(res, Err(Error::VerificationFailed));
    assert_eq!(r.is_verified(&holder, &sym(KYC), 0), (true, 0, 1000));
}

#[test]
fn revoke_all_clears_every_type_of_holder() {
    let mut r = deploy();
    let holder = addr(1);
    let other = addr(2);
    let pi = inputs_with_key(67, 0, &demo_key());
    let types = [KYC, AGE, INCOME, FUNDS, JURISDICTION, b"accreditation".as_slice(), b"custom".as_slice()];
    for t in types {
        r.submit_proof(&holder, &issuer(), &sym(t), &pi, 1000, 0, true, &demo_key(), true).unwrap();
    }
    r.submit_proof(&other, &issuer(), &sym(KYC), &pi, 1000, 0, true, &demo_key(), true).unwrap();
    r.submit_proof(&other, &issuer(), &sym(b"custom"), &pi, 1000, 0, true, &demo_key(), true).unwrap();
    r.revoke_all(&holder);
    for t in types {
        assert_eq!(r.is_verified(&holder, &sym(t), 0), (false, 0, 0));
        assert!(!r.check_claim(&holder, &sym(t), None, 0));
        assert!(r.claim(&holder, &sym(t)).is_none());
    }
    assert_eq!(r.is_verified(&other, &sym(KYC), 0), (true, 0, 1000));
    assert_eq!(r.is_verified(&other, &sym(b"custom"), 0), (true, 0, 1000));
}

#[test]
fn addresses_are_kept() {
    let mut r = deploy();
    assert_eq!(r.verifier_address(), addr(20));
    assert_eq!(r.issuer_registry_address(), addr(21));
    let holder = addr(1);
    submit(&mut r, &holder, 1000);
    let pi = aggregate_inputs(&demo_key(), &[9u8; 64], 18, 2);
    r.submit_aggregate_proof(&holder, &issuers_for(&vec![sym(KYC), sym(AGE)]), &vec![sym(KYC), sym(AGE)], &pi, 50, 5, &vec![true, true], &vec![demo_key(), [9u8; 64]], true)
        .unwrap();
    r.revoke_proof(&holder, &sym(KYC));
    r.revoke_all(&holder);
    assert_eq!(r.verifier_address(), addr(20));
    assert_eq!(r.issuer_registry_address(), addr(21));
}

#[test]
fn read_u64_field_is_big_endian_tail() {
    let mut pi = vec![0u8; 64];
    for i in 0..32 {
        pi[32 + i] = i as u8;
    }
    assert_eq!(ProofRegistry::read_u64_field(&pi, 1), 0x18191a1b1c1d1e1f);
    assert_eq!(ProofRegistry::read_u64_field(&pi, 0), 0);
    // Past the end every byte reads as 0.
    assert_eq!(ProofRegistry::read_u64_field(&pi, 5), 0);
    let mut short = vec![0u8; 58];
    short[56] = 0xab;
    short[57] = 0xcd;
    assert_eq!(ProofRegistry::read_u64_field(&short, 1), 0xabcd_0000_0000_0000);
}

#[test]
fn extract_threshold_by_type() {
    let mut pi = inputs_with_key(67, 0, &demo_key());
    put_u64_field(&mut pi, 65, 111);
    put_u64_field(&mut pi, 66, 222);
    assert_eq!(ProofRegistry::extract_threshold(&sym(AGE), &pi), Some(222));
    assert_eq!(ProofRegistry::extract_threshold(&sym(INCOME), &pi), Some(111));
    assert_eq!(ProofRegistry::extract_threshold(&sym(FUNDS), &pi), Some(111));
    assert_eq!(ProofRegistry::extract_threshold(&sym(KYC), &pi), None);
    assert_eq!(ProofRegistry::extract_threshold(&sym(JURISDICTION), &pi), None);
}

#[test]
fn pubkey_match_checks_every_byte() {
    let key = demo_key();
    let pi = inputs_with_key(65, 0, &key);
    assert!(ProofRegistry::public_inputs_match_pubkey(&pi, &key));
    let mut other = key;
    other[63] ^= 1;
    assert!(!ProofRegistry::public_inputs_match_pubkey(&pi, &other));
    // Too short to hold the last key byte.
    assert!(!ProofRegistry::public_inputs_match_pubkey(&pi[..64 * 32].to_vec(), &key));
    let shifted = inputs_with_key(140, 65, &key);
    assert!(ProofRegistry::aggregate_pubkey_match(&shifted, 66, &key));
    assert!(!ProofRegistry::aggregate_pubkey_match(&shifted, 1, &key));
}

#[test]
fn aggregate_field_counts() {
    assert_eq!(ProofRegistry::aggregate_field_count(&sym(KYC)), 65);
    assert_eq!(ProofRegistry::aggregate_field_count(&sym(AGE)), 67);
    assert_eq!(ProofRegistry::aggregate_field_count(&sym(INCOME)), 66);
    assert_eq!(ProofRegistry::aggregate_field_count(&sym(FUNDS)), 66);
    assert_eq!(ProofRegistry::aggregate_field_count(&sym(JURISDICTION)), 73);
}

#[test]
fn aggregate_threshold_offsets() {
    let mut pi = vec![0u8; 140 * 32];
    put_u64_field(&mut pi, 65 + 66, 21);
    put_u64_field(&mut pi, 65 + 65, 9);
    assert_eq!(ProofRegistry::extract_threshold_from_aggregate(&sym(AGE), &pi, 65), Some(21));
    assert_eq!(ProofRegistry::extract_threshold_from_aggregate(&sym(FUNDS), &pi, 65), Some(9));
    assert_eq!(ProofRegistry::extract_threshold_from_aggregate(&sym(KYC), &pi, 65), None);
}

/// Public inputs of the KYC + age aggregate circuit: a KYC block at field 0, an
/// age block at field 65, and the credential count in field 132.
fn aggregate_inputs(kyc_key: &[u8; 64], age_key: &[u8; 64], age_threshold: u64, count: u64) -> Vec<u8> {
    let mut pi = vec![0u8; 133 * 32];
    for i in 0..64 {
        pi[(1 + i) * 32 + 31] = kyc_key[i];
        pi[(66 + i) * 32 + 31] = age_key[i];
    }
    put_u64_field(&mut pi, 131, age_threshold);
    put_u64_field(&mut pi, 132, count);
    pi
}

#[test]
fn aggregate_stores_all_claims() {
    let mut r = deploy();
    let holder = addr(1);
    let key_a = demo_key();
    let key_b = [9u8; 64];
    let pi = aggregate_inputs(&key_a, &key_b, 18, 2);
    r.submit_aggregate_proof(&holder, &issuers_for(&vec![sym(KYC), sym(AGE)]), &vec![sym(KYC), sym(AGE)], &pi, 777, 5, &vec![true, true], &vec![key_a, key_b], true)
        .unwrap();
    assert_eq!(r.is_verified(&holder, &sym(KYC), 6), (true, 5, 777));
    assert_eq!(r.is_verified(&holder, &sym(AGE), 6), (true, 5, 777));
    assert!(r.check_claim(&holder, &sym(AGE), Some(18), 6));
    assert!(!r.check_claim(&holder, &sym(AGE), Some(19), 6));
}

#[test]
fn aggregate_refusals_store_nothing() {
    let key_a = demo_key();
    let key_b = [9u8; 64];
    let holder = addr(1);
    let types = vec![sym(KYC), sym(AGE)];
    let good = aggregate_inputs(&key_a, &key_b, 18, 2);

    let mut r = deploy();
    assert_eq!(
        r.submit_aggregate_proof(&holder, &issuers_for(&types), &types, &good, 777, 5, &vec![true, true], &vec![key_a, key_b], false),
        Err(Error::VerificationFailed)
    );
    let wrong_count = aggregate_inputs(&key_a, &key_b, 18, 3);
    assert_eq!(
        r.submit_aggregate_proof(&holder, &issuers_for(&types), &types, &wrong_count, 777, 5, &vec![true, true], &vec![key_a, key_b], true),
        Err(Error::AggregateLayoutInvalid)
    );
    let single = aggregate_inputs(&key_a, &key_b, 18, 1);
    assert_eq!(
        r.submit_aggregate_proof(&holder, &issuers_for(&vec![sym(KYC)]), &vec![sym(KYC)], &single, 777, 5, &vec![true], &vec![key_a], true),
        Err(Error::AggregateLayoutInvalid)
    );
    assert_eq!(
        r.submit_aggregate_proof(&holder, &issuers_for(&types), &types, &good, 777, 5, &vec![true, false], &vec![key_a, key_b], true),
        Err(Error::IssuerNotTrusted)
    );
    // The second issuer's key does not match: the first claim is not kept either.
    assert_eq!(
        r.submit_aggregate_proof(&holder, &issuers_for(&types), &types, &good, 777, 5, &vec![true, true], &vec![key_a, key_a], true),
        Err(Error::IssuerKeyMismatch)
    );
    assert!(!r.is_verified(&holder, &sym(KYC), 6).0);
    assert!(!r.is_verified(&holder, &sym(AGE), 6).0);
}

#[test]
fn new_claim_carries_threshold_and_time() {
    let mut pi = inputs_with_key(66, 0, &demo_key());
    put_u64_field(&mut pi, 65, 42);
    let r = ProofRegistry::new_claim(&sym(INCOME), &pi, 900, 300, true, &demo_key(), true).unwrap();
    assert_eq!((r.verified_at, r.expiry, r.threshold), (300, 900, Some(42)));
    assert!(ProofRegistry::new_claim(&sym(INCOME), &pi, 900, 300, false, &[0u8; 64], false).is_err());
}

#[test]
fn record_queries() {
    let rec = ProofRecord { verified_at: 1, expiry: 10, threshold: Some(5), revoked: false };
    assert_eq!(ProofRegistry::claim_status(Some(rec), 9), (true, 1, 10));
    assert_eq!(ProofRegistry::claim_status(Some(rec), 10), (false, 1, 10));
    assert_eq!(ProofRegistry::claim_status(None, 0), (false, 0, 0));
    assert!(ProofRegistry::claim_meets(Some(rec), Some(5), 9));
    assert!(!ProofRegistry::claim_meets(Some(rec), Some(6), 9));
    assert!(!ProofRegistry::claim_meets(None, None, 0));
}

#[test]
fn stored_claim_is_readable() {
    let mut r = deploy();
    let holder = addr(1);
    assert!(r.claim(&holder, &sym(KYC)).is_none());
    submit(&mut r, &holder, 1000);
    let rec = r.claim(&holder, &sym(KYC)).unwrap();
    assert_eq!((rec.verified_at, rec.expiry, rec.threshold), (0, 1000, None));
}

#[test]
fn aggregate_layout_checks() {
    let pi = aggregate_inputs(&demo_key(), &[9u8; 64], 18, 2);
    let two = vec![sym(KYC), sym(AGE)];
    let three = vec![sym(KYC), sym(AGE), sym(KYC)];
    assert_eq!(ProofRegistry::check_aggregate_layout(&two, &pi, true), Ok(()));
    assert_eq!(ProofRegistry::check_aggregate_layout(&two, &pi, false), Err(Error::VerificationFailed));
    assert_eq!(ProofRegistry::check_aggregate_layout(&three, &pi, true), Err(Error::AggregateLayoutInvalid));
    assert_eq!(ProofRegistry::check_aggregate_layout(&vec![], &vec![], true), Err(Error::AggregateLayoutInvalid));
}

#[test]
fn aggregate_layout_refuses_short_inputs() {
    // Two age blocks take 67 + 67 fields and the count one more: 133 fields
    // leave the second block's threshold and the count's place short.
    let mut pi = vec![0u8; 133 * 32];
    for i in 0..64 {
        pi[(1 + i) * 32 + 31] = demo_key()[i];
        pi[(68 + i) * 32 + 31] = demo_key()[i];
    }
    put_u64_field(&mut pi, 132, 2);
    let types = vec![sym(AGE), sym(AGE)];
    assert_eq!(ProofRegistry::check_aggregate_layout(&types, &pi, true), Err(Error::AggregateLayoutInvalid));
    let mut r = deploy();
    let holder = addr(1);
    assert_eq!(
        r.submit_aggregate_proof(&holder, &issuers_for(&types), &types, &pi, 777, 5, &vec![true, true], &vec![demo_key(), demo_key()], true),
        Err(Error::AggregateLayoutInvalid)
    );
    assert!(r.claim(&holder, &sym(AGE)).is_none());
    // With room for both blocks the count field stays at 132 and the layout
    // passes.
    let mut long = pi.clone();
    long.resize(135 * 32, 0);
    assert_eq!(ProofRegistry::check_aggregate_layout(&types, &long, true), Ok(()));
}

#[test]
fn aggregate_new_claims_in_order() {
    let key_a = demo_key();
    let key_b = [9u8; 64];
    let pi = aggregate_inputs(&key_a, &key_b, 25, 2);
    let records = ProofRegistry::aggregate_new_claims(
        &vec![sym(KYC), sym(AGE)],
        &pi,
        50,
        7,
        &vec![true, true],
        &vec![key_a, key_b],
        true,
    )
    .unwrap();
    assert_eq!(records.len(), 2);
    assert_eq!((records[0].verified_at, records[0].expiry, records[0].threshold), (7, 50, None));
    assert_eq!((records[1].verified_at, records[1].expiry, records[1].threshold), (7, 50, Some(25)));
}

#[test]
fn claim_expiry_returns_expiry_for_valid_proof() {
    let mut r = deploy();
    let holder = addr(1);
    submit(&mut r, &holder, 5000);
    assert_eq!(r.claim_expiry(&holder, &sym(KYC)), 5000);
}

#[test]
fn claim_expiry_returns_zero_for_nonexistent_proof() {
    let r = deploy();
    let stranger = addr(9);
    assert_eq!(r.claim_expiry(&stranger, &sym(KYC)), 0);
}

#[test]
fn claim_expiry_returns_expiry_even_after_expired() {
    let mut r = deploy();
    let holder = addr(1);
    submit(&mut r, &holder, 1000);
    assert_eq!(r.claim_expiry(&holder, &sym(KYC)), 1000);
    // The ledger clock moves to 2000.
    assert_eq!(r.claim_expiry(&holder, &sym(KYC)), 1000);
    assert!(!r.is_verified(&holder, &sym(KYC), 2000).0);
}

#[test]
fn aggregate_leaves_other_holders() {
    let mut r = deploy();
    let other = addr(2);
    submit(&mut r, &other, 4000);
    let key_a = demo_key();
    let key_b = [9u8; 64];
    let pi = aggregate_inputs(&key_a, &key_b, 18, 2);
    r.submit_aggregate_proof(&addr(1), &issuers_for(&vec![sym(KYC), sym(AGE)]), &vec![sym(KYC), sym(AGE)], &pi, 777, 5, &vec![true, true], &vec![key_a, key_b], true)
        .unwrap();
    assert_eq!(r.is_verified(&other, &sym(KYC), 6), (true, 0, 4000));
    assert!(!r.is_verified(&other, &sym(AGE), 6).0);
}

#[test]
fn revoke_leaves_other_claims() {
    let mut r = deploy();
    submit(&mut r, &addr(1), 1000);
    submit(&mut r, &addr(2), 1000);
    r.revoke_proof(&addr(1), &sym(KYC));
    assert_eq!(r.is_verified(&addr(1), &sym(KYC), 0), (false, 0, 0));
    assert_eq!(r.is_verified(&addr(2), &sym(KYC), 0), (true, 0, 1000));
}

#[test]
fn issuer_revoke_invalidates_proof() {
    let mut r = deploy();
    let holder = addr(1);
    submit(&mut r, &holder, 1000);
    assert!(r.is_verified(&holder, &sym(KYC), 0).0);
    assert!(r.check_claim(&holder, &sym(KYC), None, 0));

    r.revoke(&issuer(), &holder, &sym(KYC)).unwrap();

    assert!(!r.is_verified(&holder, &sym(KYC), 0).0);
    assert!(!r.check_claim(&holder, &sym(KYC), None, 0));
    // Expiry data preserved for audit even though the proof is no longer valid.
    let (_valid, _at, expiry) = r.is_verified(&holder, &sym(KYC), 0);
    assert_eq!(expiry, 1000);
}

#[test]
fn issuer_revoke_rejects_wrong_issuer() {
    let mut r = deploy();
    let holder = addr(1);
    let stranger = addr(2);
    submit(&mut r, &holder, 1000);
    let res = r.revoke(&stranger, &holder, &sym(KYC));
    assert!(res.is_err());
    assert!(r.is_verified(&holder, &sym(KYC), 0).0);
}

#[test]
fn issuer_revoke_refuses_missing_claim() {
    let mut r = deploy();
    assert_eq!(r.revoke(&issuer(), &addr(1), &sym(KYC)), Err(Error::NotAuthorized));
    assert!(r.claim(&addr(1), &sym(KYC)).is_none());
}

#[test]
fn issuer_revoke_keeps_record_and_other_claims() {
    let mut r = deploy();
    let holder = addr(1);
    let mut pi = inputs_with_key(66, 0, &demo_key());
    put_u64_field(&mut pi, 65, 500);
    r.submit_proof(&holder, &issuer(), &sym(FUNDS), &pi, 2000, 7, true, &demo_key(), true).unwrap();
    submit(&mut r, &holder, 1000);
    r.revoke(&issuer(), &holder, &sym(FUNDS)).unwrap();
    let rec = r.claim(&holder, &sym(FUNDS)).unwrap();
    assert_eq!((rec.verified_at, rec.expiry, rec.threshold, rec.revoked), (7, 2000, Some(500), true));
    assert_eq!(r.is_verified(&holder, &sym(FUNDS), 8), (false, 7, 2000));
    assert_eq!(r.claim_expiry(&holder, &sym(FUNDS)), 2000);
    assert!(!r.check_claim(&holder, &sym(FUNDS), Some(1), 8));
    assert!(r.is_verified(&holder, &sym(KYC), 8).0);
    // A fresh submission replaces the revoked record.
    r.submit_proof(&holder, &issuer(), &sym(FUNDS), &pi, 3000, 9, true, &demo_key(), true).unwrap();
    assert_eq!(r.is_verified(&holder, &sym(FUNDS), 10), (true, 9, 3000));
}

#[test]
fn issuer_revoke_of_aggregate_claim_checks_its_issuer() {
    let mut r = deploy();
    let holder = addr(1);
    let key_a = demo_key();
    let key_b = [9u8; 64];
    let pi = aggregate_inputs(&key_a, &key_b, 18, 2);
    let types = vec![sym(KYC), sym(AGE)];
    r.submit_aggregate_proof(&holder, &vec![addr(5), addr(6)], &types, &pi, 777, 5, &vec![true, true], &vec![key_a, key_b], true)
        .unwrap();
    assert_eq!(r.revoke(&addr(5), &holder, &sym(AGE)), Err(Error::NotAuthorized));
    assert_eq!(r.revoke(&addr(6), &holder, &sym(AGE)), Ok(()));
    assert!(!r.is_verified(&holder, &sym(AGE), 6).0);
    assert!(r.is_verified(&holder, &sym(KYC), 6).0);
}

#[test]
fn issuer_revocation_step() {
    let rec = ProofRecord { verified_at: 3, expiry: 30, threshold: Some(4), revoked: false };
    let who = issuer();
    let out = ProofRegistry::issuer_revocation(Some(rec), Some(&who), &who).unwrap();
    assert_eq!((out.verified_at, out.expiry, out.threshold, out.revoked), (3, 30, Some(4), true));
    assert_eq!(ProofRegistry::issuer_revocation(Some(rec), Some(&who), &addr(2)).unwrap_err(), Error::NotAuthorized);
    assert_eq!(ProofRegistry::issuer_revocation(None, None, &who).unwrap_err(), Error::NotAuthorized);
    assert_eq!(ProofRegistry::claim_status(Some(out), 0), (false, 3, 30));
    assert!(!ProofRegistry::claim_meets(Some(out), None, 0));
}

#[test]
fn holder_type_index_steps() {
    let index = vec![sym(KYC), sym(AGE)];
    assert_eq!(ProofRegistry::index_with_type(&index, &sym(AGE)), vec![sym(KYC), sym(AGE)]);
    assert_eq!(ProofRegistry::index_with_type(&index, &sym(FUNDS)), vec![sym(KYC), sym(AGE), sym(FUNDS)]);
    assert_eq!(ProofRegistry::index_with_type(&vec![], &sym(KYC)), vec![sym(KYC)]);
    assert_eq!(ProofRegistry::index_without_type(&index, &sym(KYC)), vec![sym(AGE)]);
    assert_eq!(ProofRegistry::index_without_type(&index, &sym(FUNDS)), index);
    assert_eq!(ProofRegistry::index_without_type(&vec![sym(AGE)], &sym(AGE)), Vec::<Vec<u8>>::new());
}
