//! Accounts handed to tests, built from key material that the context's
//! generator supplies.

use aptos_sdk::account::Ed25519Account;
use vstd::prelude::*;

verus! {

#[verifier::external_type_specification]
#[verifier::external_body]
pub struct ExEd25519Account(Ed25519Account);

/// Length in bytes of an Ed25519 private key.
pub const KEY_LEN: usize = 32;

/// The account that `Ed25519Account::from_private_key_bytes` builds from a key.
pub uninterp spec fn account_of_key(key: Seq<u8>) -> Ed25519Account;

/// Relies on `Ed25519Account::from_private_key_bytes`: it fails exactly when
/// the key is not 32 bytes long, and otherwise derives the public key and the
/// address from the private key alone.
#[verifier::external_body]
pub(crate) fn account_from_key(key: &Vec<u8>) -> (r: Option<Ed25519Account>)
    ensures
        r.is_some() == (key@.len() == KEY_LEN),
        r.is_some() ==> r->Some_0 == account_of_key(key@),
{
    Ed25519Account::from_private_key_bytes(key.as_slice()).ok()
}

} // verus!
