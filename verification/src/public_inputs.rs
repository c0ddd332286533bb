//! The layout of a proof's public inputs, as mathematical functions.
//!
//! Public inputs are a sequence of 32-byte big-endian field elements. Field 0
//! of a credential block is the commitment; fields 1..33 hold the issuer key's
//! x coordinate and fields 33..65 its y coordinate, one byte per field in the
//! field's last byte. Thresholds follow the common header.

use vstd::prelude::*;
use crate::credential_types::{age_name, funds_name, income_name, jurisdiction_name, kyc_name};

verus! {

/// Bytes per field element.
pub open spec fn field_bytes() -> int {
    32
}

/// The byte at position `i`, or 0 where the input is shorter.
pub open spec fn byte_or_zero(s: Seq<u8>, i: int) -> u8 {
    if 0 <= i < s.len() {
        s[i]
    } else {
        0
    }
}

/// The big-endian number formed by the `n` bytes of `s` from `start` on
/// (bytes past the end count as 0).
pub open spec fn be_value(s: Seq<u8>, start: int, n: nat) -> nat
    decreases n,
{
    if n == 0 {
        0
    } else {
        be_value(s, start, (n - 1) as nat) * 256 + byte_or_zero(s, start + n - 1) as nat
    }
}

/// 256 to the power `n`.
pub open spec fn pow256(n: nat) -> nat
    decreases n,
{
    if n == 0 {
        1
    } else {
        256 * pow256((n - 1) as nat)
    }
}

/// The `u64` held in the last 8 bytes of field `field_index`.
pub open spec fn field_u64(public_inputs: Seq<u8>, field_index: int) -> u64 {
    be_value(public_inputs, field_index * 32 + 24, 8) as u64
}

/// Whether the 64 key bytes, read one per field from field `start_field` on,
/// are present in `public_inputs` and equal `expected`.
pub open spec fn pubkey_at(public_inputs: Seq<u8>, start_field: int, expected: Seq<u8>) -> bool {
    forall|i: int|
        #![trigger key_byte_offset(start_field, i)]
        0 <= i < 64 ==> key_byte_offset(start_field, i) < public_inputs.len()
            && public_inputs[key_byte_offset(start_field, i)] == expected[i]
}

/// Whether a byte-by-byte comparison of the key with the public inputs,
/// stopping at the first mismatch, only reaches key bytes whose offsets fit
/// in 32 bits.
pub open spec fn pubkey_scan_fits(public_inputs: Seq<u8>, start_field: int, expected: Seq<u8>) -> bool {
    forall|i: int|
        #![trigger key_byte_offset(start_field, i)]
        0 <= i < 64 && (forall|j: int|
            #![trigger key_byte_offset(start_field, j)]
            0 <= j < i ==> key_byte_offset(start_field, j) < public_inputs.len()
                && public_inputs[key_byte_offset(start_field, j)] == expected[j]) ==> 0
            <= key_byte_offset(start_field, i) <= u32::MAX
}

/// Position of the `i`-th key byte: the last byte of field `start_field + i`.
pub open spec fn key_byte_offset(start_field: int, i: int) -> int {
    (start_field + i) * 32 + 31
}

/// The threshold that a single-credential proof of `credential_type` commits
/// to: field 66 for `age`, field 65 for `income` and `funds`, none otherwise.
pub open spec fn threshold_of(credential_type: Seq<u8>, public_inputs: Seq<u8>) -> Option<u64> {
    if credential_type == age_name() {
        Some(field_u64(public_inputs, 66))
    } else if credential_type == income_name() || credential_type == funds_name() {
        Some(field_u64(public_inputs, 65))
    } else {
        None
    }
}

/// Number of fields that a credential of this type occupies in an aggregate
/// proof's public inputs: the common header of 65 fields (commitment, issuer_x,
/// issuer_y) plus current_date and threshold_years for `age`, the threshold
/// for `income` and `funds`, and the 8 restricted country codes for
/// `jurisdiction`.
pub open spec fn field_count(credential_type: Seq<u8>) -> nat {
    if credential_type == kyc_name() {
        65
    } else if credential_type == age_name() {
        67
    } else if credential_type == income_name() || credential_type == funds_name() {
        66
    } else if credential_type == jurisdiction_name() {
        73
    } else {
        65
    }
}

/// The field that holds the threshold inside the credential block of an
/// aggregate proof that starts at field `offset`: 66 fields in for `age`, 65
/// for `income` and `funds`; none otherwise.
pub open spec fn aggregate_threshold_field(credential_type: Seq<u8>, offset: int) -> Option<int> {
    if credential_type == age_name() {
        Some(offset + 66)
    } else if credential_type == income_name() || credential_type == funds_name() {
        Some(offset + 65)
    } else {
        None
    }
}

/// The threshold inside the credential block of an aggregate proof that
/// starts at field `offset`.
pub open spec fn aggregate_threshold_of(
    credential_type: Seq<u8>,
    public_inputs: Seq<u8>,
    offset: int,
) -> Option<u64> {
    if credential_type == age_name() {
        Some(field_u64(public_inputs, offset + 66))
    } else if credential_type == income_name() || credential_type == funds_name() {
        Some(field_u64(public_inputs, offset + 65))
    } else {
        None
    }
}

/// The field at which the block of the `i`-th credential starts.
pub open spec fn block_start(credential_types: Seq<Seq<u8>>, i: nat) -> nat
    decreases i,
{
    if i == 0 {
        0
    } else {
        block_start(credential_types, (i - 1) as nat) + field_count(
            credential_types[i - 1],
        )
    }
}

/// Whether the public inputs hold the blocks of the listed credentials and,
/// after them, the field with the number of credentials.
pub open spec fn aggregate_inputs_fit(credential_types: Seq<Seq<u8>>, public_inputs: Seq<u8>) -> bool {
    public_inputs.len() >= 32 * (1 + block_start(credential_types, credential_types.len()))
}

/// The number of credentials that an aggregate proof declares in field 132.
pub open spec fn declared_credentials(public_inputs: Seq<u8>) -> u64 {
    field_u64(public_inputs, 132)
}

pub proof fn lemma_pow256_step(n: nat)
    ensures
        pow256(n + 1) == 256 * pow256(n),
{
}

pub proof fn lemma_pow256_mono(a: nat, b: nat)
    requires
        a <= b,
    ensures
        pow256(a) <= pow256(b),
    decreases b - a,
{
    if a < b {
        lemma_pow256_mono(a, (b - 1) as nat);
        lemma_pow256_step((b - 1) as nat);
    }
}

pub proof fn lemma_pow256_8()
    ensures
        pow256(8) == 0x1_0000_0000_0000_0000,
{
    reveal_with_fuel(pow256, 9);
}

pub proof fn lemma_be_value_bound(s: Seq<u8>, start: int, n: nat)
    ensures
        be_value(s, start, n) < pow256(n),
    decreases n,
{
    if n > 0 {
        lemma_be_value_bound(s, start, (n - 1) as nat);
        lemma_pow256_step((n - 1) as nat);
    }
}

pub proof fn lemma_block_start_bound(credential_types: Seq<Seq<u8>>, i: nat)
    ensures
        block_start(credential_types, i) <= 73 * i,
    decreases i,
{
    if i > 0 {
        lemma_block_start_bound(credential_types, (i - 1) as nat);
    }
}

/// Blocks only grow the layout: a later block starts no earlier.
pub proof fn lemma_block_start_mono(credential_types: Seq<Seq<u8>>, i: nat, j: nat)
    requires
        i <= j,
    ensures
        block_start(credential_types, i) <= block_start(credential_types, j),
    decreases j - i,
{
    if i < j {
        lemma_block_start_mono(credential_types, i, (j - 1) as nat);
    }
}

} // verus!
