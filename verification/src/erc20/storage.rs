//! The ledger's storage schema: one slot per account balance and one slot
//! per (owner, spender) allowance, with zero as the default of a slot that
//! was never written.
//!
//! Each map keeps its slots in a vector with unique keys. The balance map
//! additionally exposes the sum of all stored amounts, which the ledger's
//! supply invariant is stated against.

use vstd::prelude::*;
use vstd::pervasive::VecAdditionalExecFns;
use crate::address::Address;
use crate::uint256::U256;

verus! {

/// One balance slot: the amount held by an account.
pub struct BalanceEntry {
    pub addr: Address,
    pub amount: U256,
}

/// Whether some slot in `s` is keyed by `a`.
pub open spec fn has_key(s: Seq<BalanceEntry>, a: Address) -> bool
    decreases s.len(),
{
    if s.len() == 0 {
        false
    } else if s[0].addr == a {
        true
    } else {
        has_key(s.drop_first(), a)
    }
}

/// The amount stored for `a`; zero when no slot is keyed by `a`.
pub open spec fn lookup(s: Seq<BalanceEntry>, a: Address) -> nat
    decreases s.len(),
{
    if s.len() == 0 {
        0
    } else if s[0].addr == a {
        s[0].amount.as_nat()
    } else {
        lookup(s.drop_first(), a)
    }
}

/// The sum of all stored amounts.
pub open spec fn total(s: Seq<BalanceEntry>) -> nat
    decreases s.len(),
{
    if s.len() == 0 {
        0
    } else {
        s[0].amount.as_nat() + total(s.drop_first())
    }
}

/// Each account keys at most one slot.
pub open spec fn unique_keys(s: Seq<BalanceEntry>) -> bool
    decreases s.len(),
{
    if s.len() == 0 {
        true
    } else {
        !has_key(s.drop_first(), s[0].addr) && unique_keys(s.drop_first())
    }
}

/// A key occurs in `s` exactly when some slot carries it.
proof fn lemma_has_key_exists(s: Seq<BalanceEntry>, a: Address)
    ensures
        has_key(s, a) <==> exists|i: int| 0 <= i < s.len() && s[i].addr == a,
    decreases s.len(),
{
    if s.len() > 0 {
        lemma_has_key_exists(s.drop_first(), a);
        if s[0].addr == a {
            assert(s[0].addr == a && 0 <= 0 < s.len());
        } else if has_key(s.drop_first(), a) {
            let i = choose|i: int| 0 <= i < s.drop_first().len() && s.drop_first()[i].addr == a;
            assert(s[i + 1].addr == a);
        } else {
            assert forall|i: int| 0 <= i < s.len() implies s[i].addr != a by {
                if i > 0 {
                    assert(s.drop_first()[i - 1].addr == s[i].addr);
                }
            }
        }
    }
}

/// The stored amount is the amount of the first slot keyed by `a`.
proof fn lemma_lookup_first_match(s: Seq<BalanceEntry>, a: Address, i: int)
    requires
        0 <= i < s.len(),
        s[i].addr == a,
        forall|j: int| 0 <= j < i ==> s[j].addr != a,
    ensures
        lookup(s, a) == s[i].amount.as_nat(),
    decreases i,
{
    if i > 0 {
        lemma_lookup_first_match(s.drop_first(), a, i - 1);
    }
}

/// A key without a slot stores zero.
proof fn lemma_lookup_absent(s: Seq<BalanceEntry>, a: Address)
    requires
        !has_key(s, a),
    ensures
        lookup(s, a) == 0,
    decreases s.len(),
{
    if s.len() > 0 {
        lemma_lookup_absent(s.drop_first(), a);
    }
}

/// No single stored amount exceeds the sum of all of them.
proof fn lemma_lookup_le_total(s: Seq<BalanceEntry>, a: Address)
    ensures
        lookup(s, a) <= total(s),
    decreases s.len(),
{
    if s.len() > 0 {
        lemma_lookup_le_total(s.drop_first(), a);
    }
}

/// Overwriting the slot at `i` changes that key's amount, leaves every other
/// key's amount in place, and moves the sum by the difference.
proof fn lemma_update(s: Seq<BalanceEntry>, i: int, e: BalanceEntry)
    requires
        0 <= i < s.len(),
        s[i].addr == e.addr,
        unique_keys(s),
    ensures
        unique_keys(s.update(i, e)),
        lookup(s.update(i, e), e.addr) == e.amount.as_nat(),
        forall|b: Address| b != e.addr ==> lookup(s.update(i, e), b) == lookup(s, b),
        total(s.update(i, e)) + s[i].amount.as_nat() == total(s) + e.amount.as_nat(),
        forall|b: Address| has_key(s.update(i, e), b) == has_key(s, b),
    decreases i,
{
    let t = s.update(i, e);
    if i == 0 {
        assert(t.drop_first() =~= s.drop_first());
        assert forall|b: Address| b != e.addr implies lookup(t, b) == lookup(s, b) by {
            assert(lookup(t, b) == lookup(t.drop_first(), b));
            assert(lookup(s, b) == lookup(s.drop_first(), b));
        }
        assert forall|b: Address| has_key(t, b) == has_key(s, b) by {
            if b != e.addr {
                assert(has_key(t, b) == has_key(t.drop_first(), b));
                assert(has_key(s, b) == has_key(s.drop_first(), b));
            }
        }
    } else {
        lemma_has_key_exists(s.drop_first(), e.addr);
        assert(s.drop_first()[i - 1].addr == e.addr);
        assert(s[0].addr != e.addr);
        lemma_update(s.drop_first(), i - 1, e);
        assert(t.drop_first() =~= s.drop_first().update(i - 1, e));
        assert(t[0] == s[0]);
        assert(lookup(t, e.addr) == lookup(t.drop_first(), e.addr));
        assert forall|b: Address| b != e.addr implies lookup(t, b) == lookup(s, b) by {
            assert(lookup(t.drop_first(), b) == lookup(s.drop_first().update(i - 1, e), b));
            if s[0].addr != b {
                assert(lookup(t, b) == lookup(t.drop_first(), b));
                assert(lookup(s, b) == lookup(s.drop_first(), b));
            }
        }
        assert forall|b: Address| has_key(t, b) == has_key(s, b) by {
            assert(has_key(t.drop_first(), b) == has_key(s.drop_first().update(i - 1, e), b));
            if s[0].addr != b {
                assert(has_key(t, b) == has_key(t.drop_first(), b));
                assert(has_key(s, b) == has_key(s.drop_first(), b));
            }
        }
        assert(total(t) == s[0].amount.as_nat() + total(t.drop_first()));
        assert(unique_keys(t)) by {
            assert(t.drop_first() == s.drop_first().update(i - 1, e));
            assert(has_key(t.drop_first(), t[0].addr) == has_key(s.drop_first(), s[0].addr));
        }
    }
}

/// Appending a slot for a fresh key gives that key its amount, leaves every
/// other key's amount in place, and adds the amount to the sum.
proof fn lemma_push(s: Seq<BalanceEntry>, e: BalanceEntry)
    requires
        !has_key(s, e.addr),
        unique_keys(s),
    ensures
        unique_keys(s.push(e)),
        lookup(s.push(e), e.addr) == e.amount.as_nat(),
        forall|b: Address| b != e.addr ==> lookup(s.push(e), b) == lookup(s, b),
        total(s.push(e)) == total(s) + e.amount.as_nat(),
    decreases s.len(),
{
    let t = s.push(e);
    if s.len() == 0 {
        assert(t[0] == e);
        assert(t.drop_first() =~= Seq::<BalanceEntry>::empty());
        assert(total(Seq::<BalanceEntry>::empty()) == 0);
        assert(unique_keys(Seq::<BalanceEntry>::empty()));
        assert(!has_key(Seq::<BalanceEntry>::empty(), e.addr));
        assert forall|b: Address| b != e.addr implies lookup(t, b) == lookup(s, b) by {
            assert(lookup(t, b) == lookup(t.drop_first(), b));
        }
    } else {
        lemma_push(s.drop_first(), e);
        assert(t.drop_first() =~= s.drop_first().push(e));
        assert(t[0] == s[0]);
        assert(s[0].addr != e.addr);
        assert(lookup(t, e.addr) == lookup(t.drop_first(), e.addr));
        assert forall|b: Address| b != e.addr implies lookup(t, b) == lookup(s, b) by {
            assert(lookup(t.drop_first(), b) == lookup(s.drop_first().push(e), b));
            if s[0].addr != b {
                assert(lookup(t, b) == lookup(t.drop_first(), b));
                assert(lookup(s, b) == lookup(s.drop_first(), b));
            }
        }
        assert(total(t) == s[0].amount.as_nat() + total(t.drop_first()));
        lemma_has_key_push(s.drop_first(), e, s[0].addr);
        assert(unique_keys(t)) by {
            assert(has_key(t.drop_first(), t[0].addr) == (has_key(s.drop_first(), s[0].addr)
                || s[0].addr == e.addr));
        }
    }
}

/// A key occurs after a push exactly when it occurred before or is the new key.
proof fn lemma_has_key_push(s: Seq<BalanceEntry>, e: BalanceEntry, b: Address)
    ensures
        has_key(s.push(e), b) == (has_key(s, b) || b == e.addr),
    decreases s.len(),
{
    let t = s.push(e);
    if s.len() == 0 {
        assert(t[0] == e);
        assert(t.drop_first() =~= Seq::<BalanceEntry>::empty());
        if b != e.addr {
            assert(has_key(t, b) == has_key(t.drop_first(), b));
        }
    } else {
        lemma_has_key_push(s.drop_first(), e, b);
        assert(t.drop_first() =~= s.drop_first().push(e));
        assert(t[0] == s[0]);
        if s[0].addr != b {
            assert(has_key(t, b) == has_key(t.drop_first(), b));
            assert(has_key(s, b) == has_key(s.drop_first(), b));
        }
    }
}

/// The account-to-balance store.
pub struct BalanceMap {
    entries: Vec<BalanceEntry>,
}

impl BalanceMap {
    /// The amount held by `a`, zero by default.
    pub closed spec fn bal(self, a: Address) -> nat {
        lookup(self.entries@, a)
    }

    /// The sum of all stored amounts.
    pub closed spec fn sum(self) -> nat {
        total(self.entries@)
    }

    /// The store keeps one slot per account.
    pub closed spec fn wf(self) -> bool {
        unique_keys(self.entries@)
    }

    /// No account holds more than the sum of all balances.
    pub proof fn lemma_bal_le_sum(self, a: Address)
        ensures
            self.bal(a) <= self.sum(),
    {
        lemma_lookup_le_total(self.entries@, a);
    }

    /// An empty store: every account holds zero.
    pub fn new() -> (r: BalanceMap)
        ensures
            r.wf(),
            r.sum() == 0,
            forall|a: Address| r.bal(a) == 0,
    {
        BalanceMap { entries: Vec::new() }
    }

    /// Reads the amount held by `a`.
    pub fn get(&self, a: Address) -> (r: U256)
        ensures
            r.as_nat() == self.bal(a),
    {
        let mut i: usize = 0;
        while i < self.entries.len()
            invariant
                i <= self.entries@.len(),
                forall|j: int| 0 <= j < i ==> self.entries@[j].addr != a,
            decreases self.entries@.len() - i,
        {
            if self.entries[i].addr == a {
                proof {
                    lemma_lookup_first_match(self.entries@, a, i as int);
                }
                return self.entries[i].amount;
            }
            i += 1;
        }
        proof {
            lemma_has_key_exists(self.entries@, a);
            lemma_lookup_absent(self.entries@, a);
        }
        U256::zero()
    }

    /// Writes the amount held by `a`.
    pub fn set(&mut self, a: Address, v: U256)
        requires
            old(self).wf(),
        ensures
            final(self).wf(),
            final(self).bal(a) == v.as_nat(),
            forall|b: Address| b != a ==> final(self).bal(b) == old(self).bal(b),
            final(self).sum() + old(self).bal(a) == old(self).sum() + v.as_nat(),
    {
        let mut i: usize = 0;
        while i < self.entries.len()
            invariant
                i <= self.entries@.len(),
                self.entries@ == old(self).entries@,
                unique_keys(self.entries@),
                forall|j: int| 0 <= j < i ==> self.entries@[j].addr != a,
            decreases self.entries@.len() - i,
        {
            if self.entries[i].addr == a {
                proof {
                    lemma_lookup_first_match(self.entries@, a, i as int);
                    lemma_update(self.entries@, i as int, BalanceEntry { addr: a, amount: v });
                }
                self.entries.set(i, BalanceEntry { addr: a, amount: v });
                return;
            }
            i += 1;
        }
        proof {
            lemma_has_key_exists(self.entries@, a);
            lemma_lookup_absent(self.entries@, a);
            lemma_push(self.entries@, BalanceEntry { addr: a, amount: v });
        }
        self.entries.push(BalanceEntry { addr: a, amount: v });
    }
}

/// One allowance slot: what `spender` may still move out of `owner`'s balance.
pub struct AllowanceEntry {
    pub owner: Address,
    pub spender: Address,
    pub amount: U256,
}

/// Whether some slot in `s` is keyed by `(o, p)`.
pub open spec fn pair_has_key(s: Seq<AllowanceEntry>, o: Address, p: Address) -> bool
    decreases s.len(),
{
    if s.len() == 0 {
        false
    } else if s[0].owner == o && s[0].spender == p {
        true
    } else {
        pair_has_key(s.drop_first(), o, p)
    }
}

/// The amount stored for `(o, p)`; zero when no slot is keyed by it.
pub open spec fn pair_lookup(s: Seq<AllowanceEntry>, o: Address, p: Address) -> nat
    decreases s.len(),
{
    if s.len() == 0 {
        0
    } else if s[0].owner == o && s[0].spender == p {
        s[0].amount.as_nat()
    } else {
        pair_lookup(s.drop_first(), o, p)
    }
}

/// Each pair keys at most one slot.
pub open spec fn pair_unique_keys(s: Seq<AllowanceEntry>) -> bool
    decreases s.len(),
{
    if s.len() == 0 {
        true
    } else {
        !pair_has_key(s.drop_first(), s[0].owner, s[0].spender) && pair_unique_keys(s.drop_first())
    }
}

/// A pair occurs in `s` exactly when some slot carries it.
proof fn lemma_pair_has_key_exists(s: Seq<AllowanceEntry>, o: Address, p: Address)
    ensures
        pair_has_key(s, o, p) <==> exists|i: int|
            0 <= i < s.len() && s[i].owner == o && s[i].spender == p,
    decreases s.len(),
{
    if s.len() > 0 {
        lemma_pair_has_key_exists(s.drop_first(), o, p);
        if s[0].owner == o && s[0].spender == p {
            assert(0 <= 0 < s.len() && s[0].owner == o && s[0].spender == p);
        } else if pair_has_key(s.drop_first(), o, p) {
            let i = choose|i: int|
                0 <= i < s.drop_first().len() && s.drop_first()[i].owner == o
                    && s.drop_first()[i].spender == p;
            assert(s[i + 1].owner == o && s[i + 1].spender == p);
        } else {
            assert forall|i: int|
                0 <= i < s.len() implies !(s[i].owner == o && s[i].spender == p) by {
                if i > 0 {
                    assert(s.drop_first()[i - 1] == s[i]);
                }
            }
        }
    }
}

/// The stored amount is the amount of the first slot keyed by the pair.
proof fn lemma_pair_lookup_first_match(s: Seq<AllowanceEntry>, o: Address, p: Address, i: int)
    requires
        0 <= i < s.len(),
        s[i].owner == o && s[i].spender == p,
        forall|j: int| 0 <= j < i ==> !(s[j].owner == o && s[j].spender == p),
    ensures
        pair_lookup(s, o, p) == s[i].amount.as_nat(),
    decreases i,
{
    if i > 0 {
        lemma_pair_lookup_first_match(s.drop_first(), o, p, i - 1);
    }
}

/// A pair without a slot stores zero.
proof fn lemma_pair_lookup_absent(s: Seq<AllowanceEntry>, o: Address, p: Address)
    requires
        !pair_has_key(s, o, p),
    ensures
        pair_lookup(s, o, p) == 0,
    decreases s.len(),
{
    if s.len() > 0 {
        lemma_pair_lookup_absent(s.drop_first(), o, p);
    }
}

/// Overwriting the slot at `i` changes that pair's amount and leaves every
/// other pair's amount in place.
proof fn lemma_pair_update(s: Seq<AllowanceEntry>, i: int, e: AllowanceEntry)
    requires
        0 <= i < s.len(),
        s[i].owner == e.owner && s[i].spender == e.spender,
        pair_unique_keys(s),
    ensures
        pair_unique_keys(s.update(i, e)),
        pair_lookup(s.update(i, e), e.owner, e.spender) == e.amount.as_nat(),
        forall|o: Address, p: Address|
            !(o == e.owner && p == e.spender) ==> pair_lookup(s.update(i, e), o, p)
                == pair_lookup(s, o, p),
        forall|o: Address, p: Address|
            pair_has_key(s.update(i, e), o, p) == pair_has_key(s, o, p),
    decreases i,
{
    let t = s.update(i, e);
    if i == 0 {
        assert(t.drop_first() =~= s.drop_first());
        assert forall|o: Address, p: Address|
            !(o == e.owner && p == e.spender) implies pair_lookup(t, o, p)
            == pair_lookup(s, o, p) by {
            assert(pair_lookup(t, o, p) == pair_lookup(t.drop_first(), o, p));
            assert(pair_lookup(s, o, p) == pair_lookup(s.drop_first(), o, p));
        }
        assert forall|o: Address, p: Address|
            pair_has_key(t, o, p) == pair_has_key(s, o, p) by {
            if !(o == e.owner && p == e.spender) {
                assert(pair_has_key(t, o, p) == pair_has_key(t.drop_first(), o, p));
                assert(pair_has_key(s, o, p) == pair_has_key(s.drop_first(), o, p));
            }
        }
    } else {
        lemma_pair_has_key_exists(s.drop_first(), e.owner, e.spender);
        assert(s.drop_first()[i - 1] == s[i]);
        assert(!(s[0].owner == e.owner && s[0].spender == e.spender));
        lemma_pair_update(s.drop_first(), i - 1, e);
        assert(t.drop_first() =~= s.drop_first().update(i - 1, e));
        assert(t[0] == s[0]);
        assert(pair_lookup(t, e.owner, e.spender) == pair_lookup(t.drop_first(), e.owner, e.spender));
        assert forall|o: Address, p: Address|
            !(o == e.owner && p == e.spender) implies pair_lookup(t, o, p)
            == pair_lookup(s, o, p) by {
            assert(pair_lookup(t.drop_first(), o, p) == pair_lookup(
                s.drop_first().update(i - 1, e),
                o,
                p,
            ));
            if !(s[0].owner == o && s[0].spender == p) {
                assert(pair_lookup(t, o, p) == pair_lookup(t.drop_first(), o, p));
                assert(pair_lookup(s, o, p) == pair_lookup(s.drop_first(), o, p));
            }
        }
        assert forall|o: Address, p: Address|
            pair_has_key(t, o, p) == pair_has_key(s, o, p) by {
            assert(pair_has_key(t.drop_first(), o, p) == pair_has_key(
                s.drop_first().update(i - 1, e),
                o,
                p,
            ));
            if !(s[0].owner == o && s[0].spender == p) {
                assert(pair_has_key(t, o, p) == pair_has_key(t.drop_first(), o, p));
                assert(pair_has_key(s, o, p) == pair_has_key(s.drop_first(), o, p));
            }
        }
        assert(pair_unique_keys(t)) by {
            assert(t.drop_first() == s.drop_first().update(i - 1, e));
            assert(pair_has_key(t.drop_first(), t[0].owner, t[0].spender) == pair_has_key(
                s.drop_first(),
                s[0].owner,
                s[0].spender,
            ));
        }
    }
}

/// Appending a slot for a fresh pair gives it its amount and leaves every
/// other pair's amount in place.
proof fn lemma_pair_push(s: Seq<AllowanceEntry>, e: AllowanceEntry)
    requires
        !pair_has_key(s, e.owner, e.spender),
        pair_unique_keys(s),
    ensures
        pair_unique_keys(s.push(e)),
        pair_lookup(s.push(e), e.owner, e.spender) == e.amount.as_nat(),
        forall|o: Address, p: Address|
            !(o == e.owner && p == e.spender) ==> pair_lookup(s.push(e), o, p)
                == pair_lookup(s, o, p),
    decreases s.len(),
{
    let t = s.push(e);
    if s.len() == 0 {
        assert(t[0] == e);
        assert(t.drop_first() =~= Seq::<AllowanceEntry>::empty());
        assert(pair_unique_keys(Seq::<AllowanceEntry>::empty()));
        assert(!pair_has_key(Seq::<AllowanceEntry>::empty(), e.owner, e.spender));
        assert forall|o: Address, p: Address|
            !(o == e.owner && p == e.spender) implies pair_lookup(t, o, p)
            == pair_lookup(s, o, p) by {
            assert(pair_lookup(t, o, p) == pair_lookup(t.drop_first(), o, p));
        }
    } else {
        lemma_pair_push(s.drop_first(), e);
        assert(t.drop_first() =~= s.drop_first().push(e));
        assert(t[0] == s[0]);
        assert(!(s[0].owner == e.owner && s[0].spender == e.spender));
        assert(pair_lookup(t, e.owner, e.spender) == pair_lookup(t.drop_first(), e.owner, e.spender));
        assert forall|o: Address, p: Address|
            !(o == e.owner && p == e.spender) implies pair_lookup(t, o, p)
            == pair_lookup(s, o, p) by {
            assert(pair_lookup(t.drop_first(), o, p) == pair_lookup(s.drop_first().push(e), o, p));
            if !(s[0].owner == o && s[0].spender == p) {
                assert(pair_lookup(t, o, p) == pair_lookup(t.drop_first(), o, p));
                assert(pair_lookup(s, o, p) == pair_lookup(s.drop_first(), o, p));
            }
        }
        lemma_pair_has_key_push(s.drop_first(), e, s[0].owner, s[0].spender);
        assert(pair_unique_keys(t)) by {
            assert(pair_has_key(t.drop_first(), t[0].owner, t[0].spender) == (pair_has_key(
                s.drop_first(),
                s[0].owner,
                s[0].spender,
            ) || (s[0].owner == e.owner && s[0].spender == e.spender)));
        }
    }
}

/// A pair occurs after a push exactly when it occurred before or is the new pair.
proof fn lemma_pair_has_key_push(s: Seq<AllowanceEntry>, e: AllowanceEntry, o: Address, p: Address)
    ensures
        pair_has_key(s.push(e), o, p) == (pair_has_key(s, o, p) || (o == e.owner && p
            == e.spender)),
    decreases s.len(),
{
    let t = s.push(e);
    if s.len() == 0 {
        assert(t[0] == e);
        assert(t.drop_first() =~= Seq::<AllowanceEntry>::empty());
        if !(o == e.owner && p == e.spender) {
            assert(pair_has_key(t, o, p) == pair_has_key(t.drop_first(), o, p));
        }
    } else {
        lemma_pair_has_key_push(s.drop_first(), e, o, p);
        assert(t.drop_first() =~= s.drop_first().push(e));
        assert(t[0] == s[0]);
        if !(s[0].owner == o && s[0].spender == p) {
            assert(pair_has_key(t, o, p) == pair_has_key(t.drop_first(), o, p));
            assert(pair_has_key(s, o, p) == pair_has_key(s.drop_first(), o, p));
        }
    }
}

/// The (owner, spender)-to-allowance store.
pub struct AllowanceMap {
    entries: Vec<AllowanceEntry>,
}

impl AllowanceMap {
    /// The remaining allowance of `p` on `o`'s balance, zero by default.
    pub closed spec fn allow(self, o: Address, p: Address) -> nat {
        pair_lookup(self.entries@, o, p)
    }

    /// The store keeps one slot per pair.
    pub closed spec fn wf(self) -> bool {
        pair_unique_keys(self.entries@)
    }

    /// An empty store: every pair stores zero.
    pub fn new() -> (r: AllowanceMap)
        ensures
            r.wf(),
            forall|o: Address, p: Address| r.allow(o, p) == 0,
    {
        AllowanceMap { entries: Vec::new() }
    }

    /// Reads the allowance of `(o, p)`.
    pub fn get(&self, o: Address, p: Address) -> (r: U256)
        ensures
            r.as_nat() == self.allow(o, p),
    {
        let mut i: usize = 0;
        while i < self.entries.len()
            invariant
                i <= self.entries@.len(),
                forall|j: int|
                    0 <= j < i ==> !(self.entries@[j].owner == o && self.entries@[j].spender == p),
            decreases self.entries@.len() - i,
        {
            if self.entries[i].owner == o && self.entries[i].spender == p {
                proof {
                    lemma_pair_lookup_first_match(self.entries@, o, p, i as int);
                }
                return self.entries[i].amount;
            }
            i += 1;
        }
        proof {
            lemma_pair_has_key_exists(self.entries@, o, p);
            lemma_pair_lookup_absent(self.entries@, o, p);
        }
        U256::zero()
    }

    /// Writes the allowance of `(o, p)`.
    pub fn set(&mut self, o: Address, p: Address, v: U256)
        requires
            old(self).wf(),
        ensures
            final(self).wf(),
            final(self).allow(o, p) == v.as_nat(),
            forall|q: Address, r: Address|
                !(q == o && r == p) ==> final(self).allow(q, r) == old(self).allow(q, r),
    {
        let mut i: usize = 0;
        while i < self.entries.len()
            invariant
                i <= self.entries@.len(),
                self.entries@ == old(self).entries@,
                pair_unique_keys(self.entries@),
                forall|j: int|
                    0 <= j < i ==> !(self.entries@[j].owner == o && self.entries@[j].spender == p),
            decreases self.entries@.len() - i,
        {
            if self.entries[i].owner == o && self.entries[i].spender == p {
                proof {
                    lemma_pair_update(
                        self.entries@,
                        i as int,
                        AllowanceEntry { owner: o, spender: p, amount: v },
                    );
                }
                self.entries.set(i, AllowanceEntry { owner: o, spender: p, amount: v });
                return;
            }
            i += 1;
        }
        proof {
            lemma_pair_has_key_exists(self.entries@, o, p);
            lemma_pair_push(self.entries@, AllowanceEntry { owner: o, spender: p, amount: v });
        }
        self.entries.push(AllowanceEntry { owner: o, spender: p, amount: v });
    }
}

} // verus!
