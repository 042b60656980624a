//! The account address that belongs to a secret key.

use vstd::prelude::*;

use crate::types::{is_secret_scalar, Address, SecretKey};

verus! {

/// The address of the account that a secret key controls, from the key's
/// 32 bytes to the address's 20.
pub uninterp spec fn address_of_key(key: Seq<u8>) -> Seq<u8>;

/// `secret_key_to_address` of ethers-core on the `SigningKey` made from
/// these key bytes: the address is a function of the key alone.
#[verifier::external_body]
fn secret_key_to_address(key: &[u8; 32]) -> (address: Address)
    requires
        is_secret_scalar(key@),
    ensures
        address.bytes@ == address_of_key(key@),
{
    let secret = ethers_core::k256::SecretKey::from_slice(key).unwrap();
    let signer = ethers_core::k256::ecdsa::SigningKey::from(secret);
    Address { bytes: ethers_core::utils::secret_key_to_address(&signer).0 }
}

/// The address of the account that `secret_key` controls.
pub fn private_key_to_address(secret_key: &SecretKey) -> (address: Address)
    ensures
        address.bytes@ == address_of_key(secret_key.bytes()),
{
    let bytes = secret_key.to_bytes();
    secret_key_to_address(&bytes)
}

} // verus!
