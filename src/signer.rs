use clarity::{Address, PrivateKey};
use vstd::prelude::*;

verus! {

/// An Ethereum address, as clarity holds it: 20 bytes.
#[verifier::external_type_specification]
#[verifier::external_body]
pub struct ExAddress(Address);

/// A secp256k1 private key that clarity validated when it was built.
#[verifier::external_type_specification]
#[verifier::external_body]
pub struct ExPrivateKey(PrivateKey);

/// Relies on clarity's `PrivateKey::to_address`: it returns the address that
/// the key's constructor derived, and cannot fail.
pub assume_specification[ PrivateKey::to_address ](key: PrivateKey) -> Address;

} // verus!
