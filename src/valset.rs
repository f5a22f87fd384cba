use clarity::Address;
use vstd::prelude::*;

verus! {

/// One validator of a set: its voting power and, where it has registered
/// one, its Ethereum address.
#[derive(Clone, Debug, PartialEq, Eq)]
pub struct ValsetMember {
    pub power: u64,
    pub eth_address: Option<Address>,
}

/// A validator set of the source chain, identified by its nonce.
#[derive(Clone, Debug, PartialEq, Eq)]
pub struct Valset {
    pub nonce: u64,
    pub members: Vec<ValsetMember>,
}

/// A priced cost estimate for a validator-set update.
#[derive(Clone, Copy, Debug, PartialEq, Eq)]
pub struct GasCost {
    pub gas_price: u128,
    pub gas_used: u128,
}

impl GasCost {
    /// The total cost, `gas_price * gas_used`, in the chain's base unit.
    pub open spec fn total_spec(self) -> int {
        self.gas_price * self.gas_used
    }

    /// The total cost, or `None` where it does not fit in a `u128`.
    pub fn total(&self) -> (r: Option<u128>)
        ensures
            r matches Some(t) ==> t == self.total_spec(),
            r is None <==> self.total_spec() > u128::MAX,
    {
        self.gas_price.checked_mul(self.gas_used)
    }
}

} // verus!
