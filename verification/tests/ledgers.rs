use cep18::address::{Address, AddressTag};
use cep18::allowances::AllowanceLedger;
use cep18::balances::BalanceLedger;
use cep18::error::Cep18Error;
use cep18::security::{SecurityBadge, SecurityRegistry};
use cep18::u256::U256;

fn account(byte: u8) -> Address {
    Address::new(AddressTag::Account, vec![byte; 32])
}

fn u(v: u64) -> U256 {
    U256::from_u64(v)
}

#[test]
fn balance_ledger_reads_missing_addresses_as_zero() {
    let ledger = BalanceLedger::new();
    assert_eq!(ledger.read(&account(1)), u(0));
}

#[test]
fn balance_ledger_write_overwrites_and_keeps_other_rows() {
    let mut ledger = BalanceLedger::new();
    ledger.write(&account(1), u(10));
    ledger.write(&account(2), u(20));
    ledger.write(&account(1), u(11));
    assert_eq!(ledger.read(&account(1)), u(11));
    assert_eq!(ledger.read(&account(2)), u(20));
    assert_eq!(ledger.read(&account(3)), u(0));
}

#[test]
fn balance_ledger_credit_and_debit_are_checked() {
    let mut ledger = BalanceLedger::new();
    assert!(ledger.credit(&account(1), &u(100)).is_ok());
    assert!(ledger.credit(&account(1), &u(50)).is_ok());
    assert_eq!(ledger.read(&account(1)), u(150));
    assert_eq!(
        ledger.credit(&account(1), &U256::max_value()).unwrap_err(),
        Cep18Error::Overflow
    );
    assert_eq!(ledger.read(&account(1)), u(150));
    assert!(ledger.debit(&account(1), &u(150)).is_ok());
    assert_eq!(ledger.read(&account(1)), u(0));
    assert_eq!(
        ledger.debit(&account(1), &u(1)).unwrap_err(),
        Cep18Error::InsufficientBalance
    );
}

#[test]
fn allowance_ledger_is_keyed_by_the_ordered_pair() {
    let mut ledger = AllowanceLedger::new();
    ledger.write(&account(1), &account(2), u(5));
    assert_eq!(ledger.read(&account(1), &account(2)), u(5));
    assert_eq!(ledger.read(&account(2), &account(1)), u(0));
    ledger.write(&account(1), &account(2), u(7));
    assert_eq!(ledger.read(&account(1), &account(2)), u(7));
}

#[test]
fn security_registry_stores_and_overwrites_badges() {
    let mut reg = SecurityRegistry::new();
    assert_eq!(reg.get_badge(&account(1)), None);
    reg.put_badge(&account(1), SecurityBadge::Minter);
    assert_eq!(reg.get_badge(&account(1)), Some(SecurityBadge::Minter));
    reg.put_badge(&account(1), SecurityBadge::NoAccess);
    assert_eq!(reg.get_badge(&account(1)), Some(SecurityBadge::NoAccess));
}

#[test]
fn sec_check_prefers_the_callers_own_row() {
    let mut reg = SecurityRegistry::new();
    let allowed = vec![SecurityBadge::Admin, SecurityBadge::Minter];
    // No row anywhere: refused.
    assert_eq!(
        reg.sec_check(&account(1), &allowed).unwrap_err(),
        Cep18Error::InsufficientRights
    );
    // A row under the alternate shape is honoured when the own shape has
    // none.
    let alt = account(1).convert_to_alt().unwrap();
    reg.put_badge(&alt, SecurityBadge::Minter);
    assert!(reg.sec_check(&account(1), &allowed).is_ok());
    // A row under the caller's own shape shadows the alternate one, even
    // when it denies.
    reg.put_badge(&account(1), SecurityBadge::NoAccess);
    assert_eq!(
        reg.sec_check(&account(1), &allowed).unwrap_err(),
        Cep18Error::InsufficientRights
    );
}

#[test]
fn change_sec_badge_applies_every_entry_in_order() {
    let mut reg = SecurityRegistry::new();
    reg.change_sec_badge(&vec![
        (account(1), SecurityBadge::Admin),
        (account(2), SecurityBadge::Minter),
        (account(1), SecurityBadge::NoAccess),
    ]);
    assert_eq!(reg.get_badge(&account(1)), Some(SecurityBadge::NoAccess));
    assert_eq!(reg.get_badge(&account(2)), Some(SecurityBadge::Minter));
}
