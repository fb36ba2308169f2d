//! The address model: normalization and byte-encoding of principal
//! identifiers.
//!
//! An address is a 32-byte hash under one of five shapes: an account, a
//! pre-migration contract hash, a package, or an addressable entity holding
//! an account or a contract. Its canonical byte encoding is the host key
//! serialization: a tag byte, for entity shapes a second kind byte, then the
//! hash. The encoding is a prefix code, so it is injective, and so is the
//! concatenation of two encodings — the fact the allowance-key derivation
//! rests on.

use vstd::prelude::*;

verus! {

/// The shape of an address.
#[derive(Clone, Copy, PartialEq, Eq, Structural, Debug)]
pub enum AddressTag {
    /// An end-user account hash.
    Account,
    /// A pre-migration contract hash.
    Hash,
    /// A package hash.
    Package,
    /// An addressable entity backed by an account.
    EntityAccount,
    /// An addressable entity backed by a smart contract.
    EntityContract,
}

/// The mathematical value of an [`Address`]: its shape and its hash bytes.
#[verifier::ext_equal]
pub struct AddressView {
    /// The shape of the address.
    pub tag: AddressTag,
    /// The 32 hash bytes.
    pub bytes: Seq<u8>,
}

/// The canonical identifier of a principal: a tagged 32-byte hash.
#[derive(Debug)]
pub struct Address {
    /// The shape of the address.
    pub tag: AddressTag,
    /// The 32 hash bytes.
    pub hash: Vec<u8>,
}

impl View for Address {
    type V = AddressView;

    open spec fn view(&self) -> AddressView {
        AddressView { tag: self.tag, bytes: self.hash@ }
    }
}

/// A well-formed address carries exactly 32 hash bytes.
pub open spec fn wf_address(a: AddressView) -> bool {
    a.bytes.len() == 32
}

/// The canonical byte encoding of an address: its key tag byte — for entity
/// shapes followed by the entity kind byte — then the hash bytes.
pub open spec fn encoded(a: AddressView) -> Seq<u8> {
    match a.tag {
        AddressTag::Account => seq![0u8] + a.bytes,
        AddressTag::Hash => seq![1u8] + a.bytes,
        AddressTag::Package => seq![16u8] + a.bytes,
        AddressTag::EntityAccount => seq![17u8, 1u8] + a.bytes,
        AddressTag::EntityContract => seq![17u8, 2u8] + a.bytes,
    }
}

/// The alternate-tagged shape of an address, used by the security-check
/// fallback to tolerate addresses installed under an older tag convention.
/// Entity-contract addresses have no alternate shape.
pub open spec fn alt_view(a: AddressView) -> Option<AddressView> {
    match a.tag {
        AddressTag::Account => Some(AddressView { tag: AddressTag::EntityAccount, ..a }),
        AddressTag::Hash => Some(AddressView { tag: AddressTag::Package, ..a }),
        AddressTag::Package => Some(AddressView { tag: AddressTag::Hash, ..a }),
        AddressTag::EntityAccount => Some(AddressView { tag: AddressTag::Account, ..a }),
        AddressTag::EntityContract => None,
    }
}

impl Address {
    /// A well-formed address carries exactly 32 hash bytes.
    pub open spec fn wf(&self) -> bool {
        wf_address(self@)
    }

    /// Builds the address of the given shape over 32 hash bytes.
    pub fn new(tag: AddressTag, hash: Vec<u8>) -> (r: Address)
        requires
            hash@.len() == 32,
        ensures
            r@ == (AddressView { tag, bytes: hash@ }),
            r.wf(),
    {
        Address { tag, hash }
    }

    /// An identical copy of this address.
    pub fn dup(&self) -> (r: Address)
        ensures
            r@ == self@,
    {
        let mut bytes: Vec<u8> = Vec::new();
        let mut i: usize = 0;
        while i < self.hash.len()
            invariant
                i <= self.hash.len(),
                bytes@ == self.hash@.take(i as int),
            decreases self.hash.len() - i,
        {
            bytes.push(self.hash[i]);
            i = i + 1;
            proof {
                assert(bytes@ =~= self.hash@.take(i as int));
            }
        }
        proof {
            assert(bytes@ =~= self.hash@);
        }
        Address { tag: self.tag, hash: bytes }
    }

    /// Whether two addresses name the same principal.
    pub fn same_as(&self, other: &Address) -> (r: bool)
        ensures
            r == (self@ == other@),
    {
        if self.tag != other.tag {
            proof {
                assert(self@ != other@);
            }
            return false;
        }
        if self.hash.len() != other.hash.len() {
            proof {
                assert(self@.bytes.len() != other@.bytes.len());
            }
            return false;
        }
        let mut i: usize = 0;
        while i < self.hash.len()
            invariant
                i <= self.hash.len(),
                self.hash.len() == other.hash.len(),
                self.tag == other.tag,
                forall|j: int| 0 <= j < i ==> self.hash@[j] == other.hash@[j],
            decreases self.hash.len() - i,
        {
            if self.hash[i] != other.hash[i] {
                proof {
                    assert(self@.bytes[i as int] != other@.bytes[i as int]);
                }
                return false;
            }
            i = i + 1;
        }
        proof {
            assert(self@.bytes =~= other@.bytes);
            assert(self@ =~= other@);
        }
        true
    }

    /// Best-effort re-tagging to the alternate shape, used only by the
    /// security-check fallback. Returns `None` for shapes with no alternate.
    pub fn convert_to_alt(&self) -> (r: Option<Address>)
        ensures
            match r {
                Some(a) => alt_view(self@) == Some(a@) && a.hash@ == self.hash@,
                None => alt_view(self@) is None,
            },
    {
        let alt_tag = match self.tag {
            AddressTag::Account => AddressTag::EntityAccount,
            AddressTag::Hash => AddressTag::Package,
            AddressTag::Package => AddressTag::Hash,
            AddressTag::EntityAccount => AddressTag::Account,
            AddressTag::EntityContract => {
                return None;
            },
        };
        let copy = self.dup();
        proof {
            assert((AddressView { tag: alt_tag, bytes: self.hash@ }) =~= alt_view(self@)->0);
        }
        Some(Address { tag: alt_tag, hash: copy.hash })
    }
}

/// The encoding length of a shape: 34 bytes for entity shapes, else 33.
pub open spec fn encoded_len(t: AddressTag) -> nat {
    match t {
        AddressTag::EntityAccount => 34nat,
        AddressTag::EntityContract => 34nat,
        _ => 33nat,
    }
}

/// For a well-formed address the encoding has the length its shape dictates,
/// and its first byte — together with the second for entity shapes — pins the
/// shape down.
proof fn lemma_encoded_shape(a: AddressView)
    requires
        wf_address(a),
    ensures
        encoded(a).len() == encoded_len(a.tag),
        encoded(a).len() >= 33,
        a.tag == AddressTag::Account ==> encoded(a)[0] == 0,
        a.tag == AddressTag::Hash ==> encoded(a)[0] == 1,
        a.tag == AddressTag::Package ==> encoded(a)[0] == 16,
        a.tag == AddressTag::EntityAccount ==> encoded(a)[0] == 17 && encoded(a)[1] == 1,
        a.tag == AddressTag::EntityContract ==> encoded(a)[0] == 17 && encoded(a)[1] == 2,
        encoded(a)[0] == 17 <==> encoded_len(a.tag) == 34,
{
}

/// Concatenation with a fixed prefix can be cancelled on the left.
proof fn lemma_concat_cancel_left(p: Seq<u8>, x: Seq<u8>, y: Seq<u8>)
    requires
        p + x == p + y,
    ensures
        x == y,
{
    assert((p + x).len() == p.len() + x.len());
    assert((p + y).len() == p.len() + y.len());
    assert(x.len() == y.len());
    assert forall|i: int| 0 <= i < x.len() implies x[i] == y[i] by {
        assert(0 <= p.len() + i < p.len() + y.len());
        assert((p + x)[p.len() + i] == x[i]);
        assert((p + y)[p.len() + i] == y[i]);
    }
    assert(x =~= y);
}

/// The byte encoding is injective over well-formed addresses: two addresses
/// with equal encodings are the same address.
pub proof fn lemma_encoded_injective(a: AddressView, b: AddressView)
    requires
        wf_address(a),
        wf_address(b),
        encoded(a) == encoded(b),
    ensures
        a == b,
{
    lemma_encoded_shape(a);
    lemma_encoded_shape(b);
    assert(a.tag == b.tag);
    match a.tag {
        AddressTag::Account => lemma_concat_cancel_left(seq![0u8], a.bytes, b.bytes),
        AddressTag::Hash => lemma_concat_cancel_left(seq![1u8], a.bytes, b.bytes),
        AddressTag::Package => lemma_concat_cancel_left(seq![16u8], a.bytes, b.bytes),
        AddressTag::EntityAccount => lemma_concat_cancel_left(seq![17u8, 1u8], a.bytes, b.bytes),
        AddressTag::EntityContract => lemma_concat_cancel_left(seq![17u8, 2u8], a.bytes, b.bytes),
    }
    assert(a =~= b);
}

/// The concatenation of two encodings is injective over well-formed
/// addresses: the encoding is a prefix code, since its first byte decides its
/// length, so an `owner ‖ spender` pre-image determines both addresses. This
/// is what makes the allowance-key derivation collision-free at the pre-image
/// level.
pub proof fn lemma_preimage_injective(o1: AddressView, s1: AddressView, o2: AddressView, s2: AddressView)
    requires
        wf_address(o1),
        wf_address(s1),
        wf_address(o2),
        wf_address(s2),
        encoded(o1) + encoded(s1) == encoded(o2) + encoded(s2),
    ensures
        o1 == o2,
        s1 == s2,
{
    lemma_encoded_shape(o1);
    lemma_encoded_shape(s1);
    lemma_encoded_shape(o2);
    lemma_encoded_shape(s2);
    let c = encoded(o1) + encoded(s1);
    assert(encoded(o1)[0] == c[0] && encoded(o2)[0] == c[0]);
    assert(encoded(o1).len() == encoded(o2).len());
    assert(encoded(o1) =~= c.subrange(0, encoded(o1).len() as int));
    assert(encoded(o2) =~= c.subrange(0, encoded(o2).len() as int));
    lemma_encoded_injective(o1, o2);
    let k = encoded(o1).len() as int;
    assert(encoded(s1) =~= c.subrange(k, c.len() as int));
    assert(encoded(s2) =~= c.subrange(k, c.len() as int));
    lemma_encoded_injective(s1, s2);
}

} // verus!
