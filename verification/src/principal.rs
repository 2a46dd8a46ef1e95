use vstd::prelude::*;

verus! {

/// Whether a principal is a user account or a deployed contract.
#[derive(Clone, Copy, Debug, PartialEq, Eq, Structural)]
pub enum PrincipalKind {
    Account,
    Contract,
}

/// An opaque caller identity: a kind and a 256-bit key, held as two halves.
///
/// The registries never look inside a principal; they only compare two of
/// them for equality.
#[derive(Clone, Copy, Debug, PartialEq, Eq, Structural)]
pub struct Principal {
    pub kind: PrincipalKind,
    pub hi: u128,
    pub lo: u128,
}

impl Principal {
    /// The account whose key has the given halves.
    pub fn account(hi: u128, lo: u128) -> (p: Principal)
        ensures
            p == (Principal { kind: PrincipalKind::Account, hi, lo }),
    {
        Principal { kind: PrincipalKind::Account, hi, lo }
    }

    /// The contract whose key has the given halves.
    pub fn contract(hi: u128, lo: u128) -> (p: Principal)
        ensures
            p == (Principal { kind: PrincipalKind::Contract, hi, lo }),
    {
        Principal { kind: PrincipalKind::Contract, hi, lo }
    }
}

} // verus!
