//! Byte-level codecs behind the persisted key layout.
//!
//! The verified logic speaks of three encodings: the canonical address
//! encoding (stated exactly by [`crate::address::encoded`]), lowercase hex
//! (stated exactly by [`hex_of`]), and two named results — the standard
//! base64 rendering and the 32-byte BLAKE2b digest — whose values are
//! functions of their inputs alone.

use vstd::prelude::*;

use crate::address::{encoded, Address, AddressTag};

verus! {

/// The 32-byte BLAKE2b-256 digest of a byte string.
pub uninterp spec fn blake2b_of(input: Seq<u8>) -> Seq<u8>;

/// The standard base64 rendering (with padding) of a byte string.
pub uninterp spec fn base64_of(input: Seq<u8>) -> Seq<char>;

/// The lowercase hex digit of a value below 16.
pub open spec fn hex_digit(n: u8) -> char {
    if n < 10 {
        ((n + 48) as char)
    } else {
        ((n + 87) as char)
    }
}

/// The lowercase hex rendering of a byte string: two digits per byte, high
/// nibble first.
pub open spec fn hex_of(b: Seq<u8>) -> Seq<char>
    decreases b.len(),
{
    if b.len() == 0 {
        Seq::empty()
    } else {
        hex_of(b.drop_last()) + seq![hex_digit(b.last() / 16), hex_digit(b.last() % 16)]
    }
}

/// Relies on `casper_types::bytesrepr::ToBytes` for `Key`: a key serializes
/// as its tag byte (0 account, 1 hash, 16 package, 17 addressable entity),
/// for entity keys a kind byte (1 account, 2 smart contract), then the raw
/// 32 hash bytes.
#[verifier::external_body]
pub(crate) fn address_to_key_bytes(a: &Address) -> (r: Vec<u8>)
    requires
        a.wf(),
    ensures
        r@ == encoded(a@),
{
    let hash: [u8; 32] = a.hash.as_slice().try_into().unwrap();
    let key = match a.tag {
        AddressTag::Account => casper_types::Key::Account(
            casper_types::account::AccountHash::new(hash),
        ),
        AddressTag::Hash => casper_types::Key::Hash(hash),
        AddressTag::Package => casper_types::Key::SmartContract(hash),
        AddressTag::EntityAccount => casper_types::Key::AddressableEntity(
            casper_types::EntityAddr::Account(hash),
        ),
        AddressTag::EntityContract => casper_types::Key::AddressableEntity(
            casper_types::EntityAddr::SmartContract(hash),
        ),
    };
    casper_types::bytesrepr::ToBytes::to_bytes(&key).unwrap()
}

/// The canonical byte encoding of an address: stable, deterministic, and
/// injective ([`crate::address::lemma_encoded_injective`]).
pub fn encode_address(a: &Address) -> (r: Vec<u8>)
    requires
        a.wf(),
    ensures
        r@ == encoded(a@),
{
    address_to_key_bytes(a)
}

/// Relies on `casper_types::Digest::hash`: the 32-byte BLAKE2b-256 digest of
/// the input — the same hash the host's hashing primitive computes — a
/// function of the input bytes alone.
#[verifier::external_body]
pub(crate) fn blake2b_32(input: &Vec<u8>) -> (r: Vec<u8>)
    ensures
        r@ == blake2b_of(input@),
        r@.len() == 32,
{
    casper_types::Digest::hash(input).value().to_vec()
}

/// Relies on `hex::encode`: the lowercase hex rendering of the input, two
/// digits per byte, high nibble first.
#[verifier::external_body]
pub(crate) fn hex_lower(b: &Vec<u8>) -> (r: String)
    ensures
        r@ == hex_of(b@),
{
    hex::encode(b)
}

/// Relies on `base64::encode`: the standard-alphabet, padded base64
/// rendering of the input, a function of the input bytes alone.
#[verifier::external_body]
pub(crate) fn base64_std(b: &Vec<u8>) -> (r: String)
    ensures
        r@ == base64_of(b@),
{
    base64::encode(b)
}

} // verus!
