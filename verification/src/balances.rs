//! The balance ledger: address → 256-bit balance, with checked credit and
//! debit.
//!
//! Balances are held as an association vector with pairwise-distinct keys,
//! read through the total function [`lookup_balance`] under which a missing
//! address holds zero. [`sum_balances`] is the ledger's side of the
//! conservation rule `total_supply == Σ balances`.

use vstd::prelude::*;

use crate::address::{Address, AddressView};
use crate::error::Cep18Error;
use crate::u256::{pow2_256, U256};

verus! {

/// The balance of `k` in the entry sequence: the value of the last entry
/// keyed `k`, or zero when there is none.
pub open spec fn lookup_balance(s: Seq<(Address, U256)>, k: AddressView) -> nat
    decreases s.len(),
{
    if s.len() == 0 {
        0
    } else if s.last().0@ == k {
        s.last().1@
    } else {
        lookup_balance(s.drop_last(), k)
    }
}

/// The sum of all balances in the entry sequence.
pub open spec fn sum_balances(s: Seq<(Address, U256)>) -> nat
    decreases s.len(),
{
    if s.len() == 0 {
        0
    } else {
        sum_balances(s.drop_last()) + s.last().1@
    }
}

/// Entry keys are pairwise distinct.
pub open spec fn unique_balance_keys(s: Seq<(Address, U256)>) -> bool {
    forall|i: int, j: int| 0 <= i < j < s.len() ==> (#[trigger] s[i]).0@ != (#[trigger] s[j]).0@
}

/// All entry keys are well-formed addresses.
pub open spec fn wf_balance_keys(s: Seq<(Address, U256)>) -> bool {
    forall|i: int| 0 <= i < s.len() ==> (#[trigger] s[i]).0.wf()
}

/// Updating the entry at `i` without changing its key moves the lookup at
/// that key to the new value and leaves every other key unchanged.
proof fn lemma_lookup_balance_update(s: Seq<(Address, U256)>, i: int, e: (Address, U256), k: AddressView)
    requires
        0 <= i < s.len(),
        unique_balance_keys(s),
        s[i].0@ == e.0@,
    ensures
        lookup_balance(s.update(i, e), k) == if k == e.0@ {
            e.1@
        } else {
            lookup_balance(s, k)
        },
    decreases s.len(),
{
    let t = s.update(i, e);
    let last = s.len() - 1;
    if i == last {
        assert(t.drop_last() =~= s.drop_last());
    } else {
        assert(t.last() == s.last());
        assert(t.drop_last() =~= s.drop_last().update(i, e));
        assert(s.last().0@ != e.0@);
        if s.last().0@ == k {
        } else {
            assert(forall|a: int, b: int|
                0 <= a < b < s.drop_last().len() ==> (#[trigger] s.drop_last()[a]).0@
                    != (#[trigger] s.drop_last()[b]).0@);
            lemma_lookup_balance_update(s.drop_last(), i, e, k);
        }
    }
}

/// Updating the entry at `i` shifts the sum by the difference between the
/// new and the old value.
proof fn lemma_sum_balances_update(s: Seq<(Address, U256)>, i: int, e: (Address, U256))
    requires
        0 <= i < s.len(),
    ensures
        sum_balances(s.update(i, e)) + s[i].1@ == sum_balances(s) + e.1@,
    decreases s.len(),
{
    let t = s.update(i, e);
    let last = s.len() - 1;
    if i == last {
        assert(t.drop_last() =~= s.drop_last());
    } else {
        assert(t.last() == s.last());
        assert(t.drop_last() =~= s.drop_last().update(i, e));
        lemma_sum_balances_update(s.drop_last(), i, e);
    }
}

/// The address → balance ledger.
#[derive(Debug)]
pub struct BalanceLedger {
    /// The balance entries; keys are pairwise distinct and well-formed.
    pub entries: Vec<(Address, U256)>,
}

impl BalanceLedger {
    /// Ledger well-formedness: entry keys pairwise distinct and well-formed.
    pub open spec fn inv(&self) -> bool {
        &&& unique_balance_keys(self.entries@)
        &&& wf_balance_keys(self.entries@)
    }

    /// The balance of `k`, with missing keys holding zero.
    pub open spec fn balance_of(&self, k: AddressView) -> nat {
        lookup_balance(self.entries@, k)
    }

    /// The sum of all balances.
    pub open spec fn total(&self) -> nat {
        sum_balances(self.entries@)
    }

    /// An empty ledger: every balance is zero.
    pub fn new() -> (r: BalanceLedger)
        ensures
            r.inv(),
            forall|k: AddressView| r.balance_of(k) == 0,
            r.total() == 0,
    {
        BalanceLedger { entries: Vec::new() }
    }

    /// Reads the balance of an address; a missing address reads as zero.
    pub fn read(&self, a: &Address) -> (r: U256)
        ensures
            r@ == self.balance_of(a@),
    {
        let ghost full = self.entries@;
        proof {
            assert(full.take(full.len() as int) =~= full);
        }
        let mut i: usize = self.entries.len();
        while i > 0
            invariant
                i <= self.entries@.len(),
                self.entries@ == full,
                lookup_balance(full, a@) == lookup_balance(full.take(i as int), a@),
            decreases i,
        {
            i = i - 1;
            proof {
                assert(full.take(i + 1).drop_last() =~= full.take(i as int));
                assert(full.take(i + 1).last() == full[i as int]);
            }
            if self.entries[i].0.same_as(a) {
                return self.entries[i].1;
            }
        }
        U256::zero()
    }

    /// Writes the balance of an address, leaving every other balance
    /// unchanged and shifting the sum by the difference.
    pub fn write(&mut self, a: &Address, v: U256)
        requires
            old(self).inv(),
            a.wf(),
        ensures
            final(self).inv(),
            forall|k: AddressView|
                final(self).balance_of(k) == if k == a@ {
                    v@
                } else {
                    old(self).balance_of(k)
                },
            final(self).total() + old(self).balance_of(a@) == old(self).total() + v@,
    {
        let ghost full = self.entries@;
        proof {
            assert(full.take(full.len() as int) =~= full);
        }
        let mut i: usize = self.entries.len();
        while i > 0
            invariant
                i <= self.entries@.len(),
                self.entries@ == full,
                full == old(self).entries@,
                unique_balance_keys(full),
                wf_balance_keys(full),
                lookup_balance(full, a@) == lookup_balance(full.take(i as int), a@),
                forall|j: int| i <= j < full.len() ==> (#[trigger] full[j]).0@ != a@,
            decreases i,
        {
            i = i - 1;
            proof {
                assert(full.take(i + 1).drop_last() =~= full.take(i as int));
                assert(full.take(i + 1).last() == full[i as int]);
            }
            if self.entries[i].0.same_as(a) {
                let e = (a.dup(), v);
                proof {
                    lemma_sum_balances_update(full, i as int, e);
                    assert(lookup_balance(full, a@) == full[i as int].1@);
                }
                self.entries.set(i, e);
                proof {
                    let t = self.entries@;
                    assert(t == full.update(i as int, e));
                    assert forall|x: int| 0 <= x < t.len() implies (#[trigger] t[x]).0@
                        == full[x].0@ && t[x].0.wf() by {}
                    assert(unique_balance_keys(t));
                    assert forall|k: AddressView|
                        lookup_balance(t, k) == if k == a@ {
                            v@
                        } else {
                            lookup_balance(full, k)
                        } by {
                        lemma_lookup_balance_update(full, i as int, e, k);
                    }
                }
                return ;
            }
        }
        proof {
            assert(lookup_balance(full, a@) == 0);
        }
        let e = (a.dup(), v);
        self.entries.push(e);
        proof {
            let t = self.entries@;
            assert(t.drop_last() =~= full);
            assert(t.last() == e);
            assert(unique_balance_keys(t)) by {
                assert forall|x: int, y: int|
                    0 <= x < y < t.len() implies (#[trigger] t[x]).0@ != (#[trigger] t[y]).0@ by {
                    if y == t.len() - 1 {
                        assert(t[x] == full[x]);
                        assert(full[x].0@ != a@);
                    } else {
                        assert(t[x] == full[x] && t[y] == full[y]);
                    }
                }
            }
            assert(wf_balance_keys(t)) by {
                assert forall|x: int| 0 <= x < t.len() implies (#[trigger] t[x]).0.wf() by {
                    if x < t.len() - 1 {
                        assert(t[x] == full[x]);
                    }
                }
            }
            assert forall|k: AddressView|
                lookup_balance(t, k) == if k == a@ {
                    v@
                } else {
                    lookup_balance(full, k)
                } by {}
        }
    }

    /// Adds `amount` to the balance of `a`, or fails with `Overflow` when the
    /// new balance would reach `2^256`, mutating nothing.
    pub fn credit(&mut self, a: &Address, amount: &U256) -> (r: Result<(), Cep18Error>)
        requires
            old(self).inv(),
            a.wf(),
        ensures
            final(self).inv(),
            r is Ok <==> old(self).balance_of(a@) + amount@ < pow2_256(),
            r matches Err(e) ==> e == Cep18Error::Overflow && *final(self) == *old(self),
            r is Ok ==> {
                &&& forall|k: AddressView|
                    final(self).balance_of(k) == if k == a@ {
                        old(self).balance_of(a@) + amount@
                    } else {
                        old(self).balance_of(k)
                    }
                &&& final(self).total() == old(self).total() + amount@
            },
    {
        let current = self.read(a);
        match current.checked_add(amount) {
            Some(v) => {
                self.write(a, v);
                Ok(())
            },
            None => Err(Cep18Error::Overflow),
        }
    }

    /// Subtracts `amount` from the balance of `a`, or fails with
    /// `InsufficientBalance` when the balance is smaller, mutating nothing.
    pub fn debit(&mut self, a: &Address, amount: &U256) -> (r: Result<(), Cep18Error>)
        requires
            old(self).inv(),
            a.wf(),
        ensures
            final(self).inv(),
            r is Ok <==> old(self).balance_of(a@) >= amount@,
            r matches Err(e) ==> e == Cep18Error::InsufficientBalance && *final(self) == *old(self),
            r is Ok ==> {
                &&& forall|k: AddressView|
                    final(self).balance_of(k) == if k == a@ {
                        (old(self).balance_of(a@) - amount@) as nat
                    } else {
                        old(self).balance_of(k)
                    }
                &&& final(self).total() + amount@ == old(self).total()
            },
    {
        let current = self.read(a);
        match current.checked_sub(amount) {
            Some(v) => {
                self.write(a, v);
                Ok(())
            },
            None => Err(Cep18Error::InsufficientBalance),
        }
    }
}

} // verus!
