//! What the contracts know of the ledger they run on.

use vstd::prelude::*;

verus! {

/// A 32-byte digest, held as its two halves, most significant first.
#[derive(Copy, Clone, Debug, PartialEq, Eq, Structural)]
pub struct Digest {
    pub high: u128,
    pub low: u128,
}

impl Digest {
    /// The all-zero digest, which stands for "nothing has been submitted".
    pub fn zero() -> (r: Digest)
        ensures
            r == (Digest { high: 0, low: 0 }),
    {
        Digest { high: 0, low: 0 }
    }

    pub open spec fn is_zero(self) -> bool {
        self.high == 0 && self.low == 0
    }
}

/// Whether an address names an account or a contract.
#[derive(Copy, Clone, Debug, PartialEq, Eq, Structural)]
pub enum AddressKind {
    Account,
    Contract,
}

/// A party on the ledger: the public key of an account, or the id of a
/// contract.
#[derive(Copy, Clone, Debug, PartialEq, Eq, Structural)]
pub struct Address {
    pub kind: AddressKind,
    pub id: Digest,
}

/// One invocation, as the contract being invoked sees it.
#[derive(Debug)]
pub struct Env {
    /// Ledger close time, in seconds.
    pub timestamp: u64,
    /// The address of the contract being invoked.
    pub contract: Address,
    /// The parties whose authorization of this invocation the host has checked.
    pub authorizations: Vec<Address>,
}

impl Env {
    /// Whether the host has checked that `party` authorized this invocation.
    pub open spec fn authorizes(&self, party: Address) -> bool {
        self.authorizations@.contains(party)
    }
}

/// A payment in a token, for the host to make.
#[derive(Copy, Clone, Debug, PartialEq, Eq, Structural)]
pub struct Transfer {
    pub token: Address,
    pub from: Address,
    pub to: Address,
    pub amount: i128,
}

} // verus!
