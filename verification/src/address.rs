//! Account identifiers.

use crate::sparse::Key;
use vstd::prelude::*;

verus! {

/// What an address names: a user account or a deployed contract.
#[derive(Clone, Copy, Debug, PartialEq, Eq, Hash, Structural)]
pub enum AddressKind {
    Account,
    Contract,
}

/// A 256-bit identifier of an account or a contract, held as two 128-bit
/// halves. Two addresses are the same exactly when kind and both halves agree.
#[derive(Clone, Copy, Debug, PartialEq, Eq, Hash, Structural)]
pub struct Address {
    pub kind: AddressKind,
    pub hi: u128,
    pub lo: u128,
}

impl Address {
    /// The address of the user account with the given key.
    pub fn account(hi: u128, lo: u128) -> (a: Address)
        ensures
            a == (Address { kind: AddressKind::Account, hi, lo }),
    {
        Address { kind: AddressKind::Account, hi, lo }
    }

    /// The address of the contract with the given identifier.
    pub fn contract(hi: u128, lo: u128) -> (a: Address)
        ensures
            a == (Address { kind: AddressKind::Contract, hi, lo }),
    {
        Address { kind: AddressKind::Contract, hi, lo }
    }
}

/// The owner and the spender of an allowance.
#[derive(Clone, Copy, Debug, PartialEq, Eq, Hash, Structural)]
pub struct AllowanceKey {
    pub owner: Address,
    pub spender: Address,
}

impl Key for Address {
    fn same(&self, other: &Self) -> (r: bool) {
        *self == *other
    }
}

impl Key for AllowanceKey {
    fn same(&self, other: &Self) -> (r: bool) {
        *self == *other
    }
}

} // verus!
