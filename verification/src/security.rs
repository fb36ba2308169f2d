//! The security registry: address → badge, with the authorization check and
//! the bulk badge update.
//!
//! A badge grants a caller a set of privileged operations. The registry is
//! an association vector with pairwise-distinct keys; [`lookup_badge`] is
//! its partial lookup. [`SecurityRegistry::sec_check`] first looks the
//! caller up under its own shape and, only when that finds no row, once more
//! under the alternate-tagged shape, to tolerate addresses installed under
//! an older tag convention.

use vstd::prelude::*;

use crate::address::{alt_view, Address, AddressView};
use crate::error::Cep18Error;

verus! {

/// A tag granting a caller a set of privileged operations.
#[derive(Clone, Copy, PartialEq, Eq, Structural, Debug)]
pub enum SecurityBadge {
    /// May administer security lists and the events mode, and may mint.
    Admin,
    /// May mint.
    Minter,
    /// No privileged operation.
    NoAccess,
}

impl SecurityBadge {
    /// The single-byte encoding of a badge.
    pub open spec fn to_u8_spec(self) -> u8 {
        match self {
            SecurityBadge::Admin => 0u8,
            SecurityBadge::Minter => 1u8,
            SecurityBadge::NoAccess => 2u8,
        }
    }

    /// The single-byte encoding of a badge, as persisted in the
    /// security-badges dictionary.
    pub fn to_u8(&self) -> (r: u8)
        ensures
            r == self.to_u8_spec(),
    {
        match self {
            SecurityBadge::Admin => 0u8,
            SecurityBadge::Minter => 1u8,
            SecurityBadge::NoAccess => 2u8,
        }
    }

    /// Decodes a badge from its single-byte encoding; any byte above 2 is
    /// rejected.
    pub fn from_u8(v: u8) -> (r: Option<SecurityBadge>)
        ensures
            match r {
                Some(b) => b.to_u8_spec() == v,
                None => v > 2,
            },
    {
        match v {
            0u8 => Some(SecurityBadge::Admin),
            1u8 => Some(SecurityBadge::Minter),
            2u8 => Some(SecurityBadge::NoAccess),
            _ => None,
        }
    }
}

/// The badge of `k` in the entry sequence: the value of the last entry keyed
/// `k`, or `None` when there is none.
pub open spec fn lookup_badge(s: Seq<(Address, SecurityBadge)>, k: AddressView) -> Option<
    SecurityBadge,
>
    decreases s.len(),
{
    if s.len() == 0 {
        None
    } else if s.last().0@ == k {
        Some(s.last().1)
    } else {
        lookup_badge(s.drop_last(), k)
    }
}

/// Entry keys are pairwise distinct.
pub open spec fn unique_badge_keys(s: Seq<(Address, SecurityBadge)>) -> bool {
    forall|i: int, j: int| 0 <= i < j < s.len() ==> (#[trigger] s[i]).0@ != (#[trigger] s[j]).0@
}

/// All entry keys are well-formed addresses.
pub open spec fn wf_badge_keys(s: Seq<(Address, SecurityBadge)>) -> bool {
    forall|i: int| 0 <= i < s.len() ==> (#[trigger] s[i]).0.wf()
}

/// The badge that decides authorization for `k`: the badge under `k`'s own
/// shape when a row exists, else the badge under the alternate-tagged shape
/// when one exists, else nothing.
pub open spec fn effective_badge(s: Seq<(Address, SecurityBadge)>, k: AddressView) -> Option<
    SecurityBadge,
> {
    if lookup_badge(s, k) is Some {
        lookup_badge(s, k)
    } else {
        match alt_view(k) {
            Some(alt) => lookup_badge(s, alt),
            None => None,
        }
    }
}

/// Whether the caller `k` passes a check against the allowed badges.
pub open spec fn sec_check_ok(
    s: Seq<(Address, SecurityBadge)>,
    k: AddressView,
    allowed: Seq<SecurityBadge>,
) -> bool {
    effective_badge(s, k) matches Some(b) && allowed.contains(b)
}

/// The error a failed check reports: `InvalidKeyType` when the caller has no
/// row and no alternate shape exists, else `InsufficientRights`.
pub open spec fn sec_check_err(s: Seq<(Address, SecurityBadge)>, k: AddressView) -> Cep18Error {
    if lookup_badge(s, k) is None && alt_view(k) is None {
        Cep18Error::InvalidKeyType
    } else {
        Cep18Error::InsufficientRights
    }
}

/// The badge of `k` after applying the updates in order over a base entry
/// sequence: the last update keyed `k` wins; with none, the base decides.
pub open spec fn updated_badge(
    base: Seq<(Address, SecurityBadge)>,
    ups: Seq<(AddressView, SecurityBadge)>,
    k: AddressView,
) -> Option<SecurityBadge>
    decreases ups.len(),
{
    if ups.len() == 0 {
        lookup_badge(base, k)
    } else if ups.last().0 == k {
        Some(ups.last().1)
    } else {
        updated_badge(base, ups.drop_last(), k)
    }
}

/// The view of a badge update list: each entry as (address view, badge).
pub open spec fn badge_pairs_view(s: Seq<(Address, SecurityBadge)>) -> Seq<(
    AddressView,
    SecurityBadge,
)> {
    s.map_values(|e: (Address, SecurityBadge)| (e.0@, e.1))
}

/// The address → badge registry.
#[derive(Debug)]
pub struct SecurityRegistry {
    /// The badge entries; keys are pairwise distinct and well-formed.
    pub entries: Vec<(Address, SecurityBadge)>,
}

impl SecurityRegistry {
    /// Registry well-formedness: entry keys pairwise distinct and
    /// well-formed.
    pub open spec fn inv(&self) -> bool {
        &&& unique_badge_keys(self.entries@)
        &&& wf_badge_keys(self.entries@)
    }

    /// The badge of `k`, when a row exists.
    pub open spec fn badge_of(&self, k: AddressView) -> Option<SecurityBadge> {
        lookup_badge(self.entries@, k)
    }

    /// An empty registry: nobody holds a badge.
    pub fn new() -> (r: SecurityRegistry)
        ensures
            r.inv(),
            r.entries@ == Seq::<(Address, SecurityBadge)>::empty(),
            forall|k: AddressView| r.badge_of(k) is None,
    {
        SecurityRegistry { entries: Vec::new() }
    }

    /// Reads the badge of an address, when a row exists.
    pub fn get_badge(&self, a: &Address) -> (r: Option<SecurityBadge>)
        ensures
            r == self.badge_of(a@),
    {
        let ghost full = self.entries@;
        proof {
            assert(full.take(full.len() as int) =~= full);
        }
        let mut i: usize = self.entries.len();
        while i > 0
            invariant
                i <= self.entries@.len(),
                self.entries@ == full,
                lookup_badge(full, a@) == lookup_badge(full.take(i as int), a@),
            decreases i,
        {
            i = i - 1;
            proof {
                assert(full.take(i + 1).drop_last() =~= full.take(i as int));
                assert(full.take(i + 1).last() == full[i as int]);
            }
            if self.entries[i].0.same_as(a) {
                return Some(self.entries[i].1);
            }
        }
        None
    }

    /// Writes the badge of an address, leaving every other row unchanged.
    pub fn put_badge(&mut self, a: &Address, badge: SecurityBadge)
        requires
            old(self).inv(),
            a.wf(),
        ensures
            final(self).inv(),
            forall|k: AddressView|
                final(self).badge_of(k) == if k == a@ {
                    Some(badge)
                } else {
                    old(self).badge_of(k)
                },
    {
        let ghost full = self.entries@;
        proof {
            assert(full.take(full.len() as int) =~= full);
        }
        let mut i: usize = self.entries.len();
        while i > 0
            invariant
                i <= self.entries@.len(),
                self.entries@ == full,
                full == old(self).entries@,
                unique_badge_keys(full),
                wf_badge_keys(full),
                forall|j: int| i <= j < full.len() ==> (#[trigger] full[j]).0@ != a@,
            decreases i,
        {
            i = i - 1;
            if self.entries[i].0.same_as(a) {
                let e = (a.dup(), badge);
                self.entries.set(i, e);
                proof {
                    let t = self.entries@;
                    assert(t == full.update(i as int, e));
                    assert forall|x: int| 0 <= x < t.len() implies (#[trigger] t[x]).0@
                        == full[x].0@ && t[x].0.wf() by {}
                    assert(unique_badge_keys(t));
                    assert forall|k: AddressView|
                        lookup_badge(t, k) == if k == a@ {
                            Some(badge)
                        } else {
                            lookup_badge(full, k)
                        } by {
                        lemma_lookup_badge_update(full, i as int, e, k);
                    }
                }
                return ;
            }
        }
        let e = (a.dup(), badge);
        self.entries.push(e);
        proof {
            let t = self.entries@;
            assert(t.drop_last() =~= full);
            assert(t.last() == e);
            assert(unique_badge_keys(t)) by {
                assert forall|x: int, y: int|
                    0 <= x < y < t.len() implies (#[trigger] t[x]).0@ != (#[trigger] t[y]).0@ by {
                    if y == t.len() - 1 {
                        assert(t[x] == full[x]);
                        assert(full[x].0@ != a@);
                    } else {
                        assert(t[x] == full[x] && t[y] == full[y]);
                    }
                }
            }
            assert(wf_badge_keys(t)) by {
                assert forall|x: int| 0 <= x < t.len() implies (#[trigger] t[x]).0.wf() by {
                    if x < t.len() - 1 {
                        assert(t[x] == full[x]);
                    }
                }
            }
            assert forall|k: AddressView|
                lookup_badge(t, k) == if k == a@ {
                    Some(badge)
                } else {
                    lookup_badge(full, k)
                } by {}
        }
    }

    /// Checks that the caller holds one of the allowed badges: first under
    /// its own shape, then — only when no row exists — once under the
    /// alternate-tagged shape. Fails with `InsufficientRights`, or with
    /// `InvalidKeyType` when the caller's shape has no alternate and no row.
    pub fn sec_check(&self, caller: &Address, allowed: &Vec<SecurityBadge>) -> (r: Result<
        (),
        Cep18Error,
    >)
        ensures
            r is Ok <==> sec_check_ok(self.entries@, caller@, allowed@),
            r matches Err(e) ==> e == sec_check_err(self.entries@, caller@),
    {
        match self.get_badge(caller) {
            Some(badge) => {
                if badge_list_contains(allowed, badge) {
                    Ok(())
                } else {
                    Err(Cep18Error::InsufficientRights)
                }
            },
            None => {
                match caller.convert_to_alt() {
                    Some(alt) => {
                        match self.get_badge(&alt) {
                            Some(badge) => {
                                if badge_list_contains(allowed, badge) {
                                    Ok(())
                                } else {
                                    Err(Cep18Error::InsufficientRights)
                                }
                            },
                            None => Err(Cep18Error::InsufficientRights),
                        }
                    },
                    None => Err(Cep18Error::InvalidKeyType),
                }
            },
        }
    }

    /// Writes every (address, badge) pair of the update list into the
    /// registry, in order: for each address the last listed badge wins,
    /// and every unlisted address keeps its row.
    pub fn change_sec_badge(&mut self, badge_map: &Vec<(Address, SecurityBadge)>)
        requires
            old(self).inv(),
            forall|i: int| 0 <= i < badge_map@.len() ==> (#[trigger] badge_map@[i]).0.wf(),
        ensures
            final(self).inv(),
            forall|k: AddressView|
                final(self).badge_of(k) == updated_badge(
                    old(self).entries@,
                    badge_pairs_view(badge_map@),
                    k,
                ),
    {
        let ghost base = self.entries@;
        let ghost ups = badge_pairs_view(badge_map@);
        let mut i: usize = 0;
        proof {
            assert(ups.take(0) =~= Seq::<(AddressView, SecurityBadge)>::empty());
        }
        while i < badge_map.len()
            invariant
                i <= badge_map@.len(),
                self.inv(),
                ups == badge_pairs_view(badge_map@),
                forall|j: int| 0 <= j < badge_map@.len() ==> (#[trigger] badge_map@[j]).0.wf(),
                forall|k: AddressView|
                    self.badge_of(k) == updated_badge(base, ups.take(i as int), k),
            decreases badge_map@.len() - i,
        {
            self.put_badge(&badge_map[i].0, badge_map[i].1);
            i = i + 1;
            proof {
                assert(ups.take(i as int).drop_last() =~= ups.take(i - 1));
                assert(ups.take(i as int).last() == ups[i - 1]);
                assert(ups[i - 1] == (badge_map@[i - 1].0@, badge_map@[i - 1].1));
            }
        }
        proof {
            assert(ups.take(badge_map@.len() as int) =~= ups);
        }
    }
}

/// Updating the entry at `i` without changing its key moves the lookup at
/// that key to the new badge and leaves every other key unchanged.
proof fn lemma_lookup_badge_update(
    s: Seq<(Address, SecurityBadge)>,
    i: int,
    e: (Address, SecurityBadge),
    k: AddressView,
)
    requires
        0 <= i < s.len(),
        unique_badge_keys(s),
        s[i].0@ == e.0@,
    ensures
        lookup_badge(s.update(i, e), k) == if k == e.0@ {
            Some(e.1)
        } else {
            lookup_badge(s, k)
        },
    decreases s.len(),
{
    let t = s.update(i, e);
    let last = s.len() - 1;
    if i == last {
        assert(t.drop_last() =~= s.drop_last());
    } else {
        assert(t.last() == s.last());
        assert(t.drop_last() =~= s.drop_last().update(i, e));
        assert(s.last().0@ != e.0@);
        if s.last().0@ == k {
        } else {
            assert(forall|a: int, b: int|
                0 <= a < b < s.drop_last().len() ==> (#[trigger] s.drop_last()[a]).0@
                    != (#[trigger] s.drop_last()[b]).0@);
            lemma_lookup_badge_update(s.drop_last(), i, e, k);
        }
    }
}

/// The badge an update list alone assigns to `k`: the last update keyed `k`,
/// or nothing.
pub open spec fn delta_of(ups: Seq<(AddressView, SecurityBadge)>, k: AddressView) -> Option<
    SecurityBadge,
> {
    updated_badge(Seq::empty(), ups, k)
}

/// Applying updates over a base decomposes into the updates' own delta,
/// falling back to the base.
pub proof fn lemma_updated_badge_decompose(
    base: Seq<(Address, SecurityBadge)>,
    ups: Seq<(AddressView, SecurityBadge)>,
    k: AddressView,
)
    ensures
        updated_badge(base, ups, k) == match delta_of(ups, k) {
            Some(b) => Some(b),
            None => lookup_badge(base, k),
        },
    decreases ups.len(),
{
    if ups.len() == 0 {
    } else if ups.last().0 == k {
    } else {
        lemma_updated_badge_decompose(base, ups.drop_last(), k);
    }
}

/// The delta of an entry sequence seen as updates is the sequence's own
/// lookup.
pub proof fn lemma_delta_of_entries(s: Seq<(Address, SecurityBadge)>, k: AddressView)
    ensures
        delta_of(badge_pairs_view(s), k) == lookup_badge(s, k),
    decreases s.len(),
{
    let pv = badge_pairs_view(s);
    if s.len() == 0 {
    } else {
        assert(pv.last() == (s.last().0@, s.last().1));
        assert(pv.drop_last() =~= badge_pairs_view(s.drop_last()));
        if s.last().0@ == k {
        } else {
            lemma_delta_of_entries(s.drop_last(), k);
        }
    }
}

/// Applying a concatenation of update lists is applying them one after the
/// other: when an entry sequence `mid` realizes the first list over `base`,
/// applying the second over `mid` realizes the whole.
pub proof fn lemma_updated_badge_concat(
    base: Seq<(Address, SecurityBadge)>,
    mid: Seq<(Address, SecurityBadge)>,
    u1: Seq<(AddressView, SecurityBadge)>,
    u2: Seq<(AddressView, SecurityBadge)>,
    k: AddressView,
)
    requires
        forall|k2: AddressView| lookup_badge(mid, k2) == updated_badge(base, u1, k2),
    ensures
        updated_badge(mid, u2, k) == updated_badge(base, u1 + u2, k),
    decreases u2.len(),
{
    if u2.len() == 0 {
        assert(u1 + u2 =~= u1);
    } else {
        assert((u1 + u2).last() == u2.last());
        assert((u1 + u2).drop_last() =~= u1 + u2.drop_last());
        if u2.last().0 == k {
        } else {
            lemma_updated_badge_concat(base, mid, u1, u2.drop_last(), k);
        }
    }
}

/// Whether a badge list contains a badge.
pub fn badge_list_contains(list: &Vec<SecurityBadge>, badge: SecurityBadge) -> (r: bool)
    ensures
        r == list@.contains(badge),
{
    let mut i: usize = 0;
    while i < list.len()
        invariant
            i <= list@.len(),
            forall|j: int| 0 <= j < i ==> list@[j] != badge,
        decreases list@.len() - i,
    {
        if list[i] == badge {
            proof {
                assert(list@.contains(badge));
            }
            return true;
        }
        i = i + 1;
    }
    proof {
        assert(!list@.contains(badge));
    }
    false
}

} // verus!
