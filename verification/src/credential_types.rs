//! The credential types that the registries know by name.
//!
//! A credential type is a Soroban symbol; the library holds it as the bytes of
//! its characters.

use vstd::prelude::*;
use crate::table::bytes_equal;

verus! {

/// `kyc`
pub open spec fn kyc_name() -> Seq<u8> {
    seq![107u8, 121u8, 99u8]
}

/// `age`
pub open spec fn age_name() -> Seq<u8> {
    seq![97u8, 103u8, 101u8]
}

/// `income`
pub open spec fn income_name() -> Seq<u8> {
    seq![105u8, 110u8, 99u8, 111u8, 109u8, 101u8]
}

/// `funds`
pub open spec fn funds_name() -> Seq<u8> {
    seq![102u8, 117u8, 110u8, 100u8, 115u8]
}

/// `jurisdiction`
pub open spec fn jurisdiction_name() -> Seq<u8> {
    seq![106u8, 117u8, 114u8, 105u8, 115u8, 100u8, 105u8, 99u8, 116u8, 105u8, 111u8, 110u8]
}

/// The symbol `kyc`.
pub fn kyc_symbol() -> (r: Vec<u8>)
    ensures
        r@ == kyc_name(),
{
    let r: Vec<u8> = vec![107u8, 121u8, 99u8];
    assert(r@ =~= kyc_name());
    r
}

/// The symbol `age`.
pub fn age_symbol() -> (r: Vec<u8>)
    ensures
        r@ == age_name(),
{
    let r: Vec<u8> = vec![97u8, 103u8, 101u8];
    assert(r@ =~= age_name());
    r
}

/// The symbol `income`.
pub fn income_symbol() -> (r: Vec<u8>)
    ensures
        r@ == income_name(),
{
    let r: Vec<u8> = vec![105u8, 110u8, 99u8, 111u8, 109u8, 101u8];
    assert(r@ =~= income_name());
    r
}

/// The symbol `funds`.
pub fn funds_symbol() -> (r: Vec<u8>)
    ensures
        r@ == funds_name(),
{
    let r: Vec<u8> = vec![102u8, 117u8, 110u8, 100u8, 115u8];
    assert(r@ =~= funds_name());
    r
}

/// The symbol `jurisdiction`.
pub fn jurisdiction_symbol() -> (r: Vec<u8>)
    ensures
        r@ == jurisdiction_name(),
{
    let r: Vec<u8> = vec![106u8, 117u8, 114u8, 105u8, 115u8, 100u8, 105u8, 99u8, 116u8, 105u8, 111u8, 110u8];
    assert(r@ =~= jurisdiction_name());
    r
}

/// Whether `credential_type` is `kyc`.
pub fn is_kyc(credential_type: &Vec<u8>) -> (r: bool)
    ensures
        r == (credential_type@ == kyc_name()),
{
    bytes_equal(credential_type, &kyc_symbol())
}

/// Whether `credential_type` is `age`.
pub fn is_age(credential_type: &Vec<u8>) -> (r: bool)
    ensures
        r == (credential_type@ == age_name()),
{
    bytes_equal(credential_type, &age_symbol())
}

/// Whether `credential_type` is `income`.
pub fn is_income(credential_type: &Vec<u8>) -> (r: bool)
    ensures
        r == (credential_type@ == income_name()),
{
    bytes_equal(credential_type, &income_symbol())
}

/// Whether `credential_type` is `funds`.
pub fn is_funds(credential_type: &Vec<u8>) -> (r: bool)
    ensures
        r == (credential_type@ == funds_name()),
{
    bytes_equal(credential_type, &funds_symbol())
}

/// Whether `credential_type` is `jurisdiction`.
pub fn is_jurisdiction(credential_type: &Vec<u8>) -> (r: bool)
    ensures
        r == (credential_type@ == jurisdiction_name()),
{
    bytes_equal(credential_type, &jurisdiction_symbol())
}

} // verus!
