//! The allowance ledger: (owner, spender) → 256-bit allowance.
//!
//! In-memory the ledger is an association vector keyed by the pair of
//! addresses, read through the total function [`lookup_allowance`] under
//! which a missing pair holds zero. On the host the pair is keyed by
//! [`make_dictionary_item_key`]: the lowercase hex of the BLAKE2b digest of
//! the two canonical address encodings, concatenated. The concatenated
//! pre-image determines both addresses
//! ([`crate::address::lemma_preimage_injective`]).

use vstd::prelude::*;

use crate::address::{encoded, Address, AddressView};
use crate::codec::{base64_of, blake2b_of, hex_of};
use crate::codec;
use crate::u256::U256;

verus! {

/// The allowance of `(o, sp)` in the entry sequence: the value of the last
/// entry keyed by the pair, or zero when there is none.
pub open spec fn lookup_allowance(s: Seq<(Address, Address, U256)>, o: AddressView, sp: AddressView) -> nat
    decreases s.len(),
{
    if s.len() == 0 {
        0
    } else if s.last().0@ == o && s.last().1@ == sp {
        s.last().2@
    } else {
        lookup_allowance(s.drop_last(), o, sp)
    }
}

/// Entry key pairs are pairwise distinct.
pub open spec fn unique_allowance_keys(s: Seq<(Address, Address, U256)>) -> bool {
    forall|i: int, j: int|
        0 <= i < j < s.len() ==> !((#[trigger] s[i]).0@ == (#[trigger] s[j]).0@ && s[i].1@
            == s[j].1@)
}

/// All entry addresses are well-formed.
pub open spec fn wf_allowance_keys(s: Seq<(Address, Address, U256)>) -> bool {
    forall|i: int| 0 <= i < s.len() ==> (#[trigger] s[i]).0.wf() && s[i].1.wf()
}

/// Updating the entry at `i` without changing its key pair moves the lookup
/// at that pair to the new value and leaves every other pair unchanged.
proof fn lemma_lookup_allowance_update(
    s: Seq<(Address, Address, U256)>,
    i: int,
    e: (Address, Address, U256),
    o: AddressView,
    sp: AddressView,
)
    requires
        0 <= i < s.len(),
        unique_allowance_keys(s),
        s[i].0@ == e.0@,
        s[i].1@ == e.1@,
    ensures
        lookup_allowance(s.update(i, e), o, sp) == if o == e.0@ && sp == e.1@ {
            e.2@
        } else {
            lookup_allowance(s, o, sp)
        },
    decreases s.len(),
{
    let t = s.update(i, e);
    let last = s.len() - 1;
    if i == last {
        assert(t.drop_last() =~= s.drop_last());
    } else {
        assert(t.last() == s.last());
        assert(t.drop_last() =~= s.drop_last().update(i, e));
        assert(!(s.last().0@ == e.0@ && s.last().1@ == e.1@));
        if s.last().0@ == o && s.last().1@ == sp {
        } else {
            assert(forall|a: int, b: int|
                0 <= a < b < s.drop_last().len() ==> !((#[trigger] s.drop_last()[a]).0@
                    == (#[trigger] s.drop_last()[b]).0@ && s.drop_last()[a].1@
                    == s.drop_last()[b].1@));
            lemma_lookup_allowance_update(s.drop_last(), i, e, o, sp);
        }
    }
}

/// The (owner, spender) → allowance ledger.
#[derive(Debug)]
pub struct AllowanceLedger {
    /// The allowance entries; key pairs are pairwise distinct, addresses
    /// well-formed.
    pub entries: Vec<(Address, Address, U256)>,
}

impl AllowanceLedger {
    /// Ledger well-formedness: key pairs pairwise distinct and well-formed.
    pub open spec fn inv(&self) -> bool {
        &&& unique_allowance_keys(self.entries@)
        &&& wf_allowance_keys(self.entries@)
    }

    /// The allowance of `(o, sp)`, with missing pairs holding zero.
    pub open spec fn allowance_of(&self, o: AddressView, sp: AddressView) -> nat {
        lookup_allowance(self.entries@, o, sp)
    }

    /// An empty ledger: every allowance is zero.
    pub fn new() -> (r: AllowanceLedger)
        ensures
            r.inv(),
            forall|o: AddressView, sp: AddressView| r.allowance_of(o, sp) == 0,
    {
        AllowanceLedger { entries: Vec::new() }
    }

    /// Reads the allowance of an (owner, spender) pair; a missing pair reads
    /// as zero.
    pub fn read(&self, owner: &Address, spender: &Address) -> (r: U256)
        ensures
            r@ == self.allowance_of(owner@, spender@),
    {
        let ghost full = self.entries@;
        proof {
            assert(full.take(full.len() as int) =~= full);
        }
        let mut i: usize = self.entries.len();
        while i > 0
            invariant
                i <= self.entries@.len(),
                self.entries@ == full,
                lookup_allowance(full, owner@, spender@) == lookup_allowance(
                    full.take(i as int),
                    owner@,
                    spender@,
                ),
            decreases i,
        {
            i = i - 1;
            proof {
                assert(full.take(i + 1).drop_last() =~= full.take(i as int));
                assert(full.take(i + 1).last() == full[i as int]);
            }
            if self.entries[i].0.same_as(owner) && self.entries[i].1.same_as(spender) {
                return self.entries[i].2;
            }
        }
        U256::zero()
    }

    /// Writes the allowance of an (owner, spender) pair, leaving every other
    /// pair unchanged.
    pub fn write(&mut self, owner: &Address, spender: &Address, v: U256)
        requires
            old(self).inv(),
            owner.wf(),
            spender.wf(),
        ensures
            final(self).inv(),
            forall|o: AddressView, sp: AddressView|
                final(self).allowance_of(o, sp) == if o == owner@ && sp == spender@ {
                    v@
                } else {
                    old(self).allowance_of(o, sp)
                },
    {
        let ghost full = self.entries@;
        proof {
            assert(full.take(full.len() as int) =~= full);
        }
        let mut i: usize = self.entries.len();
        while i > 0
            invariant
                i <= self.entries@.len(),
                self.entries@ == full,
                full == old(self).entries@,
                unique_allowance_keys(full),
                wf_allowance_keys(full),
                forall|j: int|
                    i <= j < full.len() ==> !((#[trigger] full[j]).0@ == owner@ && full[j].1@
                        == spender@),
            decreases i,
        {
            i = i - 1;
            if self.entries[i].0.same_as(owner) && self.entries[i].1.same_as(spender) {
                let e = (owner.dup(), spender.dup(), v);
                self.entries.set(i, e);
                proof {
                    let t = self.entries@;
                    assert(t == full.update(i as int, e));
                    assert forall|x: int| 0 <= x < t.len() implies (#[trigger] t[x]).0@
                        == full[x].0@ && t[x].1@ == full[x].1@ && t[x].0.wf() && t[x].1.wf() by {}
                    assert(unique_allowance_keys(t));
                    assert forall|o: AddressView, sp: AddressView|
                        lookup_allowance(t, o, sp) == if o == owner@ && sp == spender@ {
                            v@
                        } else {
                            lookup_allowance(full, o, sp)
                        } by {
                        lemma_lookup_allowance_update(full, i as int, e, o, sp);
                    }
                }
                return ;
            }
        }
        let e = (owner.dup(), spender.dup(), v);
        self.entries.push(e);
        proof {
            let t = self.entries@;
            assert(t.drop_last() =~= full);
            assert(t.last() == e);
            assert(unique_allowance_keys(t)) by {
                assert forall|x: int, y: int|
                    0 <= x < y < t.len() implies !((#[trigger] t[x]).0@ == (#[trigger] t[y]).0@
                    && t[x].1@ == t[y].1@) by {
                    if y == t.len() - 1 {
                        assert(t[x] == full[x]);
                        assert(!(full[x].0@ == owner@ && full[x].1@ == spender@));
                    } else {
                        assert(t[x] == full[x] && t[y] == full[y]);
                    }
                }
            }
            assert(wf_allowance_keys(t)) by {
                assert forall|x: int| 0 <= x < t.len() implies (#[trigger] t[x]).0.wf()
                    && t[x].1.wf() by {
                    if x < t.len() - 1 {
                        assert(t[x] == full[x]);
                    }
                }
            }
            assert forall|o: AddressView, sp: AddressView|
                lookup_allowance(t, o, sp) == if o == owner@ && sp == spender@ {
                    v@
                } else {
                    lookup_allowance(full, o, sp)
                } by {}
        }
    }
}

/// Derives the host dictionary item key of an (owner, spender) pair: the
/// lowercase hex of the BLAKE2b digest of the two canonical address
/// encodings, concatenated.
pub fn make_dictionary_item_key(owner: &Address, spender: &Address) -> (r: String)
    requires
        owner.wf(),
        spender.wf(),
    ensures
        r@ == hex_of(blake2b_of(encoded(owner@) + encoded(spender@))),
{
    let mut preimage = codec::address_to_key_bytes(owner);
    let mut tail = codec::address_to_key_bytes(spender);
    preimage.append(&mut tail);
    let digest = codec::blake2b_32(&preimage);
    codec::hex_lower(&digest)
}

/// Derives the host dictionary item key of an address in the security-badges
/// dictionary: the standard base64 rendering of its canonical encoding.
pub fn security_badge_key(addr: &Address) -> (r: String)
    requires
        addr.wf(),
    ensures
        r@ == base64_of(encoded(addr@)),
{
    let bytes = codec::address_to_key_bytes(addr);
    codec::base64_std(&bytes)
}

} // verus!
