//! The balance/allowance ledger with mint, transfer, transfer-from and
//! approve, and its read-only queries.
//!
//! Every mutating call either succeeds with the stated effect or fails with
//! a named error and no state change at all. The ledger invariant `wf` says,
//! among other things, that the sum of all balances always equals the total
//! supply.

use vstd::prelude::*;
use crate::address::Address;
use crate::uint256::U256;
use crate::uint256::u256_limit;
use crate::erc20::params::Erc20Params;
use crate::erc20::storage::AllowanceMap;
use crate::erc20::storage::BalanceMap;

verus! {

/// The ways a ledger call may fail, each carrying its diagnostic fields.
#[derive(Clone, Copy, Debug, PartialEq, Eq, Structural)]
pub enum Erc20Error {
    /// The sender holds `have`, which is less than the `want` to be moved.
    InsufficientBalance { from: Address, have: U256, want: U256 },
    /// The spender may move `have` of the owner's funds, less than `want`.
    InsufficientAllowance { owner: Address, spender: Address, have: U256, want: U256 },
    /// The token is paused and rejects mutating calls.
    Paused,
}

/// The ledger: per-account balances, per-(owner, spender) allowances, the
/// total supply, and the token's static configuration.
pub struct Erc20 {
    balances: BalanceMap,
    allowances: AllowanceMap,
    supply: U256,
    params: Erc20Params,
}

/// `pre` and `post` carry the same static configuration.
pub open spec fn same_config(pre: Erc20, post: Erc20) -> bool {
    &&& post.spec_name() == pre.spec_name()
    &&& post.spec_symbol() == pre.spec_symbol()
    &&& post.spec_decimals() == pre.spec_decimals()
}

/// The balances of `post` are those of `pre` with `amount` moved from `from`
/// to `to`; allowances, supply and configuration are untouched. For
/// `from == to` the two adjustments cancel and every balance is unchanged.
pub open spec fn transfer_effect(
    pre: Erc20,
    post: Erc20,
    from: Address,
    to: Address,
    amount: nat,
) -> bool {
    &&& forall|a: Address|
        post.balance(a) as int == pre.balance(a) - (if a == from {
            amount as int
        } else {
            0int
        }) + (if a == to {
            amount as int
        } else {
            0int
        })
    &&& forall|o: Address, p: Address| post.allowance_of(o, p) == pre.allowance_of(o, p)
    &&& post.spec_supply() == pre.spec_supply()
    &&& same_config(pre, post)
}

/// `post` is `pre` with `amount` minted to `to`: that balance and the supply
/// grow by `amount`, everything else is untouched.
pub open spec fn mint_effect(pre: Erc20, post: Erc20, to: Address, amount: nat) -> bool {
    &&& post.balance(to) == pre.balance(to) + amount
    &&& forall|a: Address| a != to ==> post.balance(a) == pre.balance(a)
    &&& forall|o: Address, p: Address| post.allowance_of(o, p) == pre.allowance_of(o, p)
    &&& post.spec_supply() == pre.spec_supply() + amount
    &&& same_config(pre, post)
}

/// `post` is `pre` with the allowance of `(owner, spender)` overwritten to
/// `amount` — an absolute set, not an addition — and everything else
/// untouched.
pub open spec fn approve_effect(
    pre: Erc20,
    post: Erc20,
    owner: Address,
    spender: Address,
    amount: nat,
) -> bool {
    &&& post.allowance_of(owner, spender) == amount
    &&& forall|o: Address, p: Address|
        !(o == owner && p == spender) ==> post.allowance_of(o, p) == pre.allowance_of(o, p)
    &&& forall|a: Address| post.balance(a) == pre.balance(a)
    &&& post.spec_supply() == pre.spec_supply()
    &&& same_config(pre, post)
}

/// `post` is `pre` with `amount` moved from `from` to `to` and the allowance
/// of `(from, caller)` reduced by `amount`; supply and configuration are
/// untouched.
pub open spec fn transfer_from_effect(
    pre: Erc20,
    post: Erc20,
    caller: Address,
    from: Address,
    to: Address,
    amount: nat,
) -> bool {
    &&& post.allowance_of(from, caller) + amount == pre.allowance_of(from, caller)
    &&& forall|o: Address, p: Address|
        !(o == from && p == caller) ==> post.allowance_of(o, p) == pre.allowance_of(o, p)
    &&& forall|a: Address|
        post.balance(a) as int == pre.balance(a) - (if a == from {
            amount as int
        } else {
            0int
        }) + (if a == to {
            amount as int
        } else {
            0int
        })
    &&& post.spec_supply() == pre.spec_supply()
    &&& same_config(pre, post)
}

impl Erc20 {
    /// The balance of account `a`, zero when never written.
    pub closed spec fn balance(self, a: Address) -> nat {
        self.balances.bal(a)
    }

    /// The remaining allowance of spender `p` on owner `o`'s balance.
    pub closed spec fn allowance_of(self, o: Address, p: Address) -> nat {
        self.allowances.allow(o, p)
    }

    /// The total supply.
    pub closed spec fn spec_supply(self) -> nat {
        self.supply.as_nat()
    }

    /// The sum of all account balances.
    pub closed spec fn spec_sum_of_balances(self) -> nat {
        self.balances.sum()
    }

    /// The configured token name.
    pub closed spec fn spec_name(self) -> Seq<char> {
        self.params.name@
    }

    /// The configured token symbol.
    pub closed spec fn spec_symbol(self) -> Seq<char> {
        self.params.symbol@
    }

    /// The configured number of decimals.
    pub closed spec fn spec_decimals(self) -> u8 {
        self.params.decimals
    }

    /// The ledger invariant: each account and each (owner, spender) pair has
    /// one slot, and the sum of all balances equals the total supply. Every
    /// constructor establishes it and every call preserves it, so no value is
    /// created or destroyed except by mint.
    pub closed spec fn wf(self) -> bool {
        &&& self.balances.wf()
        &&& self.allowances.wf()
        &&& self.balances.sum() == self.supply.as_nat()
    }

    /// The supply invariant, stated publicly: in a well-formed ledger the
    /// sum of all balances equals the total supply, so any sequence of mint,
    /// transfer and transfer-from calls neither leaks nor creates value.
    pub proof fn lemma_supply_invariant(self)
        requires
            self.wf(),
        ensures
            self.spec_sum_of_balances() == self.spec_supply(),
    {
    }

    /// No single balance exceeds the total supply.
    pub proof fn lemma_balance_le_supply(self, a: Address)
        requires
            self.wf(),
        ensures
            self.balance(a) <= self.spec_supply(),
    {
        self.balances.lemma_bal_le_sum(a);
    }

    /// A fresh ledger: empty balances and allowances, zero supply.
    pub fn new(params: Erc20Params) -> (r: Erc20)
        ensures
            r.wf(),
            r.spec_supply() == 0,
            forall|a: Address| r.balance(a) == 0,
            forall|o: Address, p: Address| r.allowance_of(o, p) == 0,
            r.spec_name() == params.name@,
            r.spec_symbol() == params.symbol@,
            r.spec_decimals() == params.decimals,
    {
        Erc20 {
            balances: BalanceMap::new(),
            allowances: AllowanceMap::new(),
            supply: U256::zero(),
            params,
        }
    }

    /// Movement of funds between two accounts. Succeeds exactly when the
    /// sender's balance covers `value`; on failure nothing changes.
    pub fn _transfer(&mut self, from: Address, to: Address, value: U256) -> (r: Result<
        (),
        Erc20Error,
    >)
        requires
            old(self).wf(),
        ensures
            final(self).wf(),
            r is Ok <==> value.as_nat() <= old(self).balance(from),
            r is Ok ==> transfer_effect(*old(self), *final(self), from, to, value.as_nat()),
            r is Err ==> *final(self) == *old(self) && (r matches Err(
                Erc20Error::InsufficientBalance { from: f, have, want },
            ) && f == from && have.as_nat() == old(self).balance(from) && want == value),
    {
        let sender_balance = self.balances.get(from);
        if sender_balance.lt(&value) {
            return Err(
                Erc20Error::InsufficientBalance { from, have: sender_balance, want: value },
            );
        }
        self.balances.set(from, sender_balance.sub(value));
        let to_balance = self.balances.get(to);
        proof {
            self.balances.lemma_bal_le_sum(to);
            self.supply.lemma_below_limit();
        }
        self.balances.set(to, to_balance.add(value));
        Ok(())
    }

    /// Mints `value` tokens to `address`, growing that balance and the
    /// supply; the supply must stay below 2^256.
    pub fn mint(&mut self, address: Address, value: U256) -> (r: Result<(), Erc20Error>)
        requires
            old(self).wf(),
            old(self).spec_supply() + value.as_nat() < u256_limit(),
        ensures
            final(self).wf(),
            r is Ok,
            mint_effect(*old(self), *final(self), address, value.as_nat()),
    {
        let balance = self.balances.get(address);
        proof {
            self.balances.lemma_bal_le_sum(address);
        }
        self.balances.set(address, balance.add(value));
        self.supply = self.supply.add(value);
        Ok(())
    }

    /// The immutable token name.
    pub fn name(&self) -> (r: Result<String, Vec<u8>>)
        ensures
            r matches Ok(s) && s@ == self.spec_name(),
    {
        Ok(self.params.name.clone())
    }

    /// The immutable token symbol.
    pub fn symbol(&self) -> (r: Result<String, Vec<u8>>)
        ensures
            r matches Ok(s) && s@ == self.spec_symbol(),
    {
        Ok(self.params.symbol.clone())
    }

    /// The immutable token decimals.
    pub fn decimals(&self) -> (r: Result<u8, Vec<u8>>)
        ensures
            r matches Ok(d) && d == self.spec_decimals(),
    {
        Ok(self.params.decimals)
    }

    /// The total token supply.
    pub fn total_supply(&self) -> (r: Result<U256, Vec<u8>>)
        ensures
            r matches Ok(v) && v.as_nat() == self.spec_supply(),
    {
        Ok(self.supply)
    }

    /// The balance of `account`.
    pub fn balance_of(&self, account: Address) -> (r: Result<U256, Vec<u8>>)
        ensures
            r matches Ok(v) && v.as_nat() == self.balance(account),
    {
        Ok(self.balances.get(account))
    }

    /// The allowance of `spender` on `owner`'s balance.
    pub fn allowance(&self, owner: Address, spender: Address) -> (r: Result<U256, Vec<u8>>)
        ensures
            r matches Ok(v) && v.as_nat() == self.allowance_of(owner, spender),
    {
        Ok(self.allowances.get(owner, spender))
    }

    /// Transfers `value` tokens from the calling account `from` to `to`.
    /// Succeeds exactly when `from`'s balance covers `value`; on failure
    /// nothing changes.
    pub fn transfer(&mut self, from: Address, to: Address, value: U256) -> (r: Result<
        bool,
        Erc20Error,
    >)
        requires
            old(self).wf(),
        ensures
            final(self).wf(),
            r is Ok <==> value.as_nat() <= old(self).balance(from),
            r is Ok ==> r == Ok::<bool, Erc20Error>(true) && transfer_effect(
                *old(self),
                *final(self),
                from,
                to,
                value.as_nat(),
            ),
            r is Err ==> *final(self) == *old(self) && (r matches Err(
                Erc20Error::InsufficientBalance { from: f, have, want },
            ) && f == from && have.as_nat() == old(self).balance(from) && want == value),
    {
        match self._transfer(from, to, value) {
            Ok(()) => Ok(true),
            Err(e) => Err(e),
        }
    }

    /// Transfers `value` tokens from `from` to `to` on behalf of `caller`.
    /// The allowance of `(from, caller)` is checked first, then the balance
    /// of `from`; either failure leaves the whole ledger unchanged, and on
    /// success the allowance is reduced by `value` and the funds move.
    pub fn transfer_from(
        &mut self,
        caller: Address,
        from: Address,
        to: Address,
        value: U256,
    ) -> (r: Result<bool, Erc20Error>)
        requires
            old(self).wf(),
        ensures
            final(self).wf(),
            old(self).allowance_of(from, caller) < value.as_nat() ==> *final(self) == *old(self)
                && (r matches Err(
                Erc20Error::InsufficientAllowance { owner, spender, have, want },
            ) && owner == from && spender == caller && have.as_nat() == old(self).allowance_of(
                from,
                caller,
            ) && want == value),
            old(self).allowance_of(from, caller) >= value.as_nat() && old(self).balance(from)
                < value.as_nat() ==> *final(self) == *old(self) && (r matches Err(
                Erc20Error::InsufficientBalance { from: f, have, want },
            ) && f == from && have.as_nat() == old(self).balance(from) && want == value),
            old(self).allowance_of(from, caller) >= value.as_nat() && old(self).balance(from)
                >= value.as_nat() ==> r == Ok::<bool, Erc20Error>(true) && transfer_from_effect(
                *old(self),
                *final(self),
                caller,
                from,
                to,
                value.as_nat(),
            ),
    {
        let old_allowance = self.allowances.get(from, caller);
        if old_allowance.lt(&value) {
            return Err(
                Erc20Error::InsufficientAllowance {
                    owner: from,
                    spender: caller,
                    have: old_allowance,
                    want: value,
                },
            );
        }
        let sender_balance = self.balances.get(from);
        if sender_balance.lt(&value) {
            return Err(
                Erc20Error::InsufficientBalance { from, have: sender_balance, want: value },
            );
        }
        self.allowances.set(from, caller, old_allowance.sub(value));
        match self._transfer(from, to, value) {
            Ok(()) => Ok(true),
            Err(e) => Err(e),
        }
    }

    /// Sets the allowance of `spender` on the calling account `caller` to
    /// `value`: an absolute overwrite, never an addition.
    pub fn approve(&mut self, caller: Address, spender: Address, value: U256) -> (r: Result<
        bool,
        Vec<u8>,
    >)
        requires
            old(self).wf(),
        ensures
            final(self).wf(),
            r == Ok::<bool, Vec<u8>>(true),
            approve_effect(*old(self), *final(self), caller, spender, value.as_nat()),
    {
        self.allowances.set(caller, spender, value);
        Ok(true)
    }
}

/// Approvals are last-write-wins: approving `first` and then `second` for
/// the same owner and spender leaves the allowance at exactly `second`, and
/// every other allowance, every balance and the supply as they started.
pub proof fn lemma_approve_last_write_wins(
    s0: Erc20,
    s1: Erc20,
    s2: Erc20,
    owner: Address,
    spender: Address,
    first: nat,
    second: nat,
)
    requires
        approve_effect(s0, s1, owner, spender, first),
        approve_effect(s1, s2, owner, spender, second),
    ensures
        s2.allowance_of(owner, spender) == second,
        forall|o: Address, p: Address|
            !(o == owner && p == spender) ==> s2.allowance_of(o, p) == s0.allowance_of(o, p),
        forall|a: Address| s2.balance(a) == s0.balance(a),
        s2.spec_supply() == s0.spec_supply(),
{
}

} // verus!
