use casper_types::account::AccountHash;
use casper_types::bytesrepr::ToBytes;
use casper_types::{Digest, EntityAddr, Key};

use cep18::address::{Address, AddressTag};
use cep18::allowances::{make_dictionary_item_key, security_badge_key};
use cep18::caller::{
    get_immediate_caller_address, get_immediate_caller_address_legacy, CallStackElement,
    CallerFrame,
};
use cep18::error::Cep18Error;

fn account(byte: u8) -> Address {
    Address::new(AddressTag::Account, vec![byte; 32])
}

/// The key of the host key type that stands behind an address, used to
/// cross-check the byte encodings the library's key derivations rest on.
fn host_key(a: &Address) -> Key {
    let hash: [u8; 32] = a.hash.as_slice().try_into().unwrap();
    match a.tag {
        AddressTag::Account => Key::Account(AccountHash::new(hash)),
        AddressTag::Hash => Key::Hash(hash),
        AddressTag::Package => Key::SmartContract(hash),
        AddressTag::EntityAccount => Key::AddressableEntity(EntityAddr::Account(hash)),
        AddressTag::EntityContract => Key::AddressableEntity(EntityAddr::SmartContract(hash)),
    }
}

#[test]
fn allowance_key_matches_the_host_derivation() {
    let owner = account(1);
    let spender = account(42);
    let mut preimage = host_key(&owner).to_bytes().unwrap();
    preimage.extend(host_key(&spender).to_bytes().unwrap());
    let expected = hex::encode(Digest::hash(&preimage).value());
    assert_eq!(make_dictionary_item_key(&owner, &spender), expected);
}

#[test]
fn allowance_key_is_lowercase_hex_of_a_digest() {
    let key = make_dictionary_item_key(&account(7), &account(8));
    assert_eq!(key.len(), 64);
    assert!(key.chars().all(|c| c.is_ascii_hexdigit() && !c.is_ascii_uppercase()));
}

#[test]
fn allowance_key_distinguishes_owner_and_spender() {
    let a = account(1);
    let b = account(2);
    assert_ne!(
        make_dictionary_item_key(&a, &b),
        make_dictionary_item_key(&b, &a)
    );
}

#[test]
fn badge_key_matches_the_host_derivation() {
    for addr in [
        account(3),
        Address::new(AddressTag::Hash, vec![4; 32]),
        Address::new(AddressTag::Package, vec![5; 32]),
        Address::new(AddressTag::EntityAccount, vec![6; 32]),
        Address::new(AddressTag::EntityContract, vec![7; 32]),
    ] {
        let expected = base64::encode(host_key(&addr).to_bytes().unwrap());
        assert_eq!(security_badge_key(&addr), expected);
    }
}

#[test]
fn badge_key_of_the_zero_account_is_all_a() {
    // The account key of 32 zero bytes encodes as 33 zero bytes, whose
    // standard base64 rendering is 44 'A' characters.
    let addr = Address::new(AddressTag::Account, vec![0; 32]);
    assert_eq!(security_badge_key(&addr), "A".repeat(44));
}

#[test]
fn address_encoding_is_the_tagged_hash() {
    let mut expected = vec![0u8];
    expected.extend([42u8; 32]);
    assert_eq!(cep18::codec::encode_address(&account(42)), expected);

    let mut expected = vec![1u8];
    expected.extend([9u8; 32]);
    assert_eq!(
        cep18::codec::encode_address(&Address::new(AddressTag::Hash, vec![9; 32])),
        expected
    );

    let mut expected = vec![16u8];
    expected.extend([9u8; 32]);
    assert_eq!(
        cep18::codec::encode_address(&Address::new(AddressTag::Package, vec![9; 32])),
        expected
    );

    let mut expected = vec![17u8, 1u8];
    expected.extend([7u8; 32]);
    assert_eq!(
        cep18::codec::encode_address(&Address::new(AddressTag::EntityAccount, vec![7; 32])),
        expected
    );

    let mut expected = vec![17u8, 2u8];
    expected.extend([7u8; 32]);
    assert_eq!(
        cep18::codec::encode_address(&Address::new(AddressTag::EntityContract, vec![7; 32])),
        expected
    );
}

#[test]
fn addresses_compare_by_shape_and_hash() {
    let a = account(1);
    assert!(a.same_as(&account(1)));
    assert!(!a.same_as(&account(2)));
    assert!(!a.same_as(&Address::new(AddressTag::Hash, vec![1; 32])));
    assert!(a.same_as(&a.dup()));
}

#[test]
fn alternate_shapes_pair_up() {
    let account_addr = account(9);
    let alt = account_addr.convert_to_alt().unwrap();
    assert_eq!(alt.tag, AddressTag::EntityAccount);
    assert!(alt.convert_to_alt().unwrap().same_as(&account_addr));

    let hash_addr = Address::new(AddressTag::Hash, vec![9; 32]);
    let alt = hash_addr.convert_to_alt().unwrap();
    assert_eq!(alt.tag, AddressTag::Package);
    assert!(alt.convert_to_alt().unwrap().same_as(&hash_addr));

    let contract = Address::new(AddressTag::EntityContract, vec![9; 32]);
    assert!(contract.convert_to_alt().is_none());
}

#[test]
fn immediate_caller_is_the_frame_below_the_top() {
    let stack = vec![
        CallerFrame::Initiator { account_hash: vec![1; 32] },
        CallerFrame::Entity { package_hash: vec![2; 32] },
    ];
    let caller = get_immediate_caller_address(&stack).unwrap();
    assert_eq!(caller.tag, AddressTag::EntityAccount);
    assert_eq!(caller.hash, vec![1; 32]);

    let short = vec![CallerFrame::Initiator { account_hash: vec![1; 32] }];
    assert_eq!(
        get_immediate_caller_address(&short).unwrap_err(),
        Cep18Error::InvalidContext
    );
}

#[test]
fn legacy_immediate_caller_uses_the_legacy_shapes() {
    let stack = vec![
        CallStackElement::Session { account_hash: vec![1; 32] },
        CallStackElement::StoredContract { contract_package_hash: vec![2; 32] },
    ];
    let caller = get_immediate_caller_address_legacy(&stack).unwrap();
    assert_eq!(caller.tag, AddressTag::Account);
    assert_eq!(caller.hash, vec![1; 32]);

    let stack = vec![
        CallStackElement::StoredContract { contract_package_hash: vec![3; 32] },
        CallStackElement::StoredSession {
            account_hash: vec![4; 32],
            contract_package_hash: vec![5; 32],
        },
        CallStackElement::StoredContract { contract_package_hash: vec![6; 32] },
    ];
    // Stored session code acts in its hosting account's context.
    let caller = get_immediate_caller_address_legacy(&stack).unwrap();
    assert_eq!(caller.tag, AddressTag::Account);
    assert_eq!(caller.hash, vec![4; 32]);

    let empty: Vec<CallStackElement> = Vec::new();
    assert_eq!(
        get_immediate_caller_address_legacy(&empty).unwrap_err(),
        Cep18Error::InvalidContext
    );
}
