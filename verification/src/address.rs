//! A 160-bit account address, held as a 32-bit and a 128-bit part.
//!
//! The ledger only compares addresses for equality and uses them as keys,
//! so the type is plain data with structural equality.

use vstd::prelude::*;

verus! {

/// A 160-bit account address with value `lo + hi * 2^128`.
#[derive(Clone, Copy, Debug, PartialEq, Eq, Structural)]
pub struct Address {
    pub hi: u32,
    pub lo: u128,
}

impl Address {
    /// The zero address.
    pub fn zero() -> (r: Address)
        ensures
            r == (Address { hi: 0, lo: 0 }),
    {
        Address { hi: 0, lo: 0 }
    }

    /// The address with the given parts.
    pub fn new(hi: u32, lo: u128) -> (r: Address)
        ensures
            r == (Address { hi, lo }),
    {
        Address { hi, lo }
    }
}

} // verus!
