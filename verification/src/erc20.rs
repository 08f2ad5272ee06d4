//! An ERC-20 style token: the balance/allowance ledger, its configuration,
//! the storage schema under it, and a pausable token built on top.

use vstd::prelude::*;
use vstd::string::StringExecFns;

pub mod base;
pub mod params;
pub mod storage;
pub mod token;

pub use base::Erc20;
pub use base::Erc20Error;
pub use params::Erc20Params;
pub use token::StylusToken;
pub use token::StylusTokenParams;

verus! {

/// The token's externally visible interface, as signature text.
pub open spec fn abi_text() -> Seq<char> {
    "interface IStylusToken {\n    function mint(uint256 value) external;\n    function pause() external;\n    function unpause() external;\n    function transfer(address to, uint256 value) external returns (bool);\n    function transferFrom(address from, address to, uint256 value) external returns (bool);\n    function approve(address spender, uint256 value) external returns (bool);\n    function name() external view returns (string memory);\n    function symbol() external view returns (string memory);\n    function decimals() external view returns (uint8);\n    function totalSupply() external view returns (uint256);\n    function balanceOf(address account) external view returns (uint256);\n    function allowance(address owner, address spender) external view returns (uint256);\n}\n"@
}

/// Renders the token's external interface; printing it is left to the host
/// packaging around the library.
pub fn export_abi() -> (r: String)
    ensures
        r@ == abi_text(),
{
    String::from_str(
        "interface IStylusToken {\n    function mint(uint256 value) external;\n    function pause() external;\n    function unpause() external;\n    function transfer(address to, uint256 value) external returns (bool);\n    function transferFrom(address from, address to, uint256 value) external returns (bool);\n    function approve(address spender, uint256 value) external returns (bool);\n    function name() external view returns (string memory);\n    function symbol() external view returns (string memory);\n    function decimals() external view returns (uint8);\n    function totalSupply() external view returns (uint256);\n    function balanceOf(address account) external view returns (uint256);\n    function allowance(address owner, address spender) external view returns (uint256);\n}\n",
    )
}

} // verus!
