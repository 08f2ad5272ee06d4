//! Static configuration of a token instance.

use vstd::prelude::*;

verus! {

/// The immutable name, symbol and decimals a token is instantiated with.
pub struct Erc20Params {
    pub name: String,
    pub symbol: String,
    pub decimals: u8,
}

} // verus!
