//! A token built on the ledger: the same calls, gated by a pause flag.
//!
//! The composite holds the ledger as a component. `mint` and `transfer` are
//! overridden to fail with `Paused` while the flag is set and mint is
//! restricted to the caller's own account; the remaining ledger calls are
//! reachable through the `erc20` component unchanged.

use vstd::prelude::*;
use vstd::string::StringExecFns;
use crate::address::Address;
use crate::uint256::U256;
use crate::uint256::u256_limit;
use crate::erc20::base::Erc20;
use crate::erc20::base::Erc20Error;
use crate::erc20::base::mint_effect;
use crate::erc20::base::transfer_effect;
use crate::erc20::params::Erc20Params;

verus! {

/// Immutable definitions for the token.
pub struct StylusTokenParams;

impl StylusTokenParams {
    /// The configuration the token is instantiated with.
    pub fn params() -> (r: Erc20Params)
        ensures
            r.name@ == "StylusToken"@,
            r.symbol@ == "STK"@,
            r.decimals == 18,
    {
        Erc20Params {
            name: String::from_str("StylusToken"),
            symbol: String::from_str("STK"),
            decimals: 18,
        }
    }
}

/// The pausable token: the ledger plus a boolean gate.
pub struct StylusToken {
    pub erc20: Erc20,
    pub paused: bool,
}

impl StylusToken {
    /// The token is well-formed when its ledger is.
    pub open spec fn wf(self) -> bool {
        self.erc20.wf()
    }

    /// A fresh, unpaused token over an empty ledger.
    pub fn new() -> (r: StylusToken)
        ensures
            r.wf(),
            !r.paused,
            r.erc20.spec_supply() == 0,
            forall|a: Address| r.erc20.balance(a) == 0,
            forall|o: Address, p: Address| r.erc20.allowance_of(o, p) == 0,
            r.erc20.spec_name() == "StylusToken"@,
            r.erc20.spec_symbol() == "STK"@,
            r.erc20.spec_decimals() == 18,
    {
        StylusToken { erc20: Erc20::new(StylusTokenParams::params()), paused: false }
    }

    /// Mints `value` tokens to the caller's own account; fails with `Paused`
    /// and no state change while the token is paused.
    pub fn mint(&mut self, caller: Address, value: U256) -> (r: Result<(), Erc20Error>)
        requires
            old(self).wf(),
            !old(self).paused ==> old(self).erc20.spec_supply() + value.as_nat() < u256_limit(),
        ensures
            final(self).wf(),
            final(self).paused == old(self).paused,
            old(self).paused ==> r == Err::<(), Erc20Error>(Erc20Error::Paused) && *final(self)
                == *old(self),
            !old(self).paused ==> r is Ok && mint_effect(
                old(self).erc20,
                final(self).erc20,
                caller,
                value.as_nat(),
            ),
    {
        if self.paused {
            return Err(Erc20Error::Paused);
        }
        self.erc20.mint(caller, value)
    }

    /// Sets the pause gate; the ledger is untouched.
    pub fn pause(&mut self) -> (r: Result<(), Vec<u8>>)
        ensures
            r == Ok::<(), Vec<u8>>(()),
            final(self).paused,
            final(self).erc20 == old(self).erc20,
    {
        self.paused = true;
        Ok(())
    }

    /// Clears the pause gate; the ledger is untouched.
    pub fn unpause(&mut self) -> (r: Result<(), Vec<u8>>)
        ensures
            r == Ok::<(), Vec<u8>>(()),
            !final(self).paused,
            final(self).erc20 == old(self).erc20,
    {
        self.paused = false;
        Ok(())
    }

    /// Transfers `value` from the caller to `to` as the ledger does, except
    /// that a paused token fails with `Paused` and no state change.
    pub fn transfer(&mut self, caller: Address, to: Address, value: U256) -> (r: Result<
        bool,
        Erc20Error,
    >)
        requires
            old(self).wf(),
        ensures
            final(self).wf(),
            final(self).paused == old(self).paused,
            old(self).paused ==> r == Err::<bool, Erc20Error>(Erc20Error::Paused) && *final(self)
                == *old(self),
            !old(self).paused ==> (r is Ok <==> value.as_nat() <= old(self).erc20.balance(caller)),
            !old(self).paused && r is Ok ==> r == Ok::<bool, Erc20Error>(true) && transfer_effect(
                old(self).erc20,
                final(self).erc20,
                caller,
                to,
                value.as_nat(),
            ),
            !old(self).paused && r is Err ==> *final(self) == *old(self) && (r matches Err(
                Erc20Error::InsufficientBalance { from: f, have, want },
            ) && f == caller && have.as_nat() == old(self).erc20.balance(caller) && want == value),
    {
        if self.paused {
            return Err(Erc20Error::Paused);
        }
        self.erc20.transfer(caller, to, value)
    }
}

} // verus!
