use cep18::address::{Address, AddressTag};
use cep18::error::Cep18Error;
use cep18::events::Event;
use cep18::state::TokenState;
use cep18::u256::U256;

fn account(byte: u8) -> Address {
    Address::new(AddressTag::Account, vec![byte; 32])
}

fn entity_account(byte: u8) -> Address {
    Address::new(AddressTag::EntityAccount, vec![byte; 32])
}

fn installer() -> Address {
    account(1)
}

fn u(v: u64) -> U256 {
    U256::from_u64(v)
}

/// Installs the standard fixture: name "CasperTest", symbol "CSPRT",
/// decimals 100, total supply 1_000_000_000, native events, legacy caller
/// resolution, mint and burn enabled.
fn setup() -> TokenState {
    let mut state = TokenState::new();
    let r = state.init(
        &installer(),
        "CasperTest".to_string(),
        "CSPRT".to_string(),
        100,
        u(1_000_000_000),
        2,
        1,
        None,
        None,
        None,
        None,
        true,
    );
    assert!(r.is_ok());
    state
}

#[test]
fn install_writes_metadata_and_seeds_installer_balance() {
    let state = setup();
    assert_eq!(state.name().as_str(), "CasperTest");
    assert_eq!(state.symbol().as_str(), "CSPRT");
    assert_eq!(state.decimals(), 100);
    assert_eq!(state.total_supply(), u(1_000_000_000));
    assert_eq!(state.balance_of(&installer()), u(1_000_000_000));
    assert_eq!(state.balance_of(&account(42)), u(0));
}

#[test]
fn transfer_moves_funds() {
    let mut state = setup();
    let a = account(42);
    let r = state.transfer(&installer(), &a, u(200_001));
    assert!(matches!(r, Ok(Event::Transfer(_))));
    assert_eq!(state.balance_of(&installer()), u(999_799_999));
    assert_eq!(state.balance_of(&a), u(200_001));
    // Conservation: the two balances still sum to the supply.
    assert_eq!(state.total_supply(), u(1_000_000_000));
}

#[test]
fn transfer_event_carries_parties_and_amount() {
    let mut state = setup();
    let a = account(42);
    match state.transfer(&installer(), &a, u(5)) {
        Ok(Event::Transfer(ev)) => {
            assert!(ev.sender.same_as(&installer()));
            assert!(ev.recipient.same_as(&a));
            assert_eq!(ev.amount, u(5));
        }
        other => panic!("expected a transfer event, got {:?}", other),
    }
}

#[test]
fn approve_and_transfer_from() {
    let mut state = setup();
    let a = account(42);
    let b = account(43);
    let r = state.approve(&installer(), &a, u(456_789));
    assert!(matches!(r, Ok(Event::SetAllowance(_))));
    let r = state.transfer_from(&a, &installer(), &b, u(100_000));
    assert!(matches!(r, Ok(Event::TransferFrom(_))));
    assert_eq!(state.allowance(&installer(), &a), u(356_789));
    assert_eq!(state.balance_of(&installer()), u(999_900_000));
    assert_eq!(state.balance_of(&b), u(100_000));
}

#[test]
fn mint_credits_owner_and_raises_supply() {
    let mut state = setup();
    let a = account(42);
    let r = state.mint(&installer(), &a, u(1_000_000));
    assert!(matches!(r, Ok(Event::Mint(_))));
    assert_eq!(state.balance_of(&a), u(1_000_000));
    assert_eq!(state.total_supply(), u(1_001_000_000));
}

#[test]
fn mint_without_badge_is_refused() {
    let mut state = setup();
    let a = account(42);
    let r = state.mint(&a, &a, u(1));
    assert_eq!(r.unwrap_err(), Cep18Error::InsufficientRights);
    assert_eq!(state.balance_of(&a), u(0));
    assert_eq!(state.total_supply(), u(1_000_000_000));
}

#[test]
fn burn_debits_owner_and_lowers_supply() {
    let mut state = setup();
    let a = account(42);
    state.mint(&installer(), &a, u(1_000_000)).unwrap();
    let r = state.burn(&a, &a, u(400_000));
    assert!(matches!(r, Ok(Event::Burn(_))));
    assert_eq!(state.balance_of(&a), u(600_000));
    assert_eq!(state.total_supply(), u(1_000_600_000));
}

#[test]
fn burn_of_another_owner_is_refused() {
    let mut state = setup();
    let a = account(42);
    state.mint(&installer(), &a, u(1_000_000)).unwrap();
    let r = state.burn(&installer(), &a, u(1));
    assert_eq!(r.unwrap_err(), Cep18Error::InvalidBurnTarget);
    assert_eq!(state.balance_of(&a), u(1_000_000));
}

#[test]
fn decrease_allowance_saturates_at_zero() {
    let mut state = setup();
    let a = account(42);
    state.approve(&installer(), &a, u(50)).unwrap();
    let r = state.decrease_allowance(&installer(), &a, u(1_000_000));
    assert!(matches!(r, Ok(Event::DecreaseAllowance(_))));
    assert_eq!(state.allowance(&installer(), &a), u(0));
}

#[test]
fn second_mint_of_maximal_supply_overflows_and_changes_nothing() {
    let mut state = TokenState::new();
    state
        .init(
            &installer(),
            "CasperTest".to_string(),
            "CSPRT".to_string(),
            100,
            u(0),
            0,
            0,
            None,
            None,
            None,
            None,
            true,
        )
        .unwrap();
    let a = account(42);
    let max = U256::max_value();
    assert!(state.mint(&installer(), &a, max).is_ok());
    let r = state.mint(&installer(), &a, max);
    assert_eq!(r.unwrap_err(), Cep18Error::Overflow);
    assert_eq!(state.balance_of(&a), max);
    assert_eq!(state.total_supply(), max);
}

#[test]
fn approve_twice_keeps_the_last_value() {
    let mut state = setup();
    let a = account(42);
    state.approve(&installer(), &a, u(111)).unwrap();
    state.approve(&installer(), &a, u(222)).unwrap();
    assert_eq!(state.allowance(&installer(), &a), u(222));
}

#[test]
fn increase_then_decrease_restores_the_allowance() {
    let mut state = setup();
    let a = account(42);
    state.approve(&installer(), &a, u(5)).unwrap();
    let r = state.increase_allowance(&installer(), &a, u(7));
    assert!(matches!(r, Ok(Event::IncreaseAllowance(_))));
    assert_eq!(state.allowance(&installer(), &a), u(12));
    state.decrease_allowance(&installer(), &a, u(7)).unwrap();
    assert_eq!(state.allowance(&installer(), &a), u(5));
}

#[test]
fn self_targets_are_rejected() {
    let mut state = setup();
    let me = installer();
    assert_eq!(
        state.transfer(&me, &me, u(1)).unwrap_err(),
        Cep18Error::CannotTargetSelfUser
    );
    assert_eq!(
        state.approve(&me, &me, u(1)).unwrap_err(),
        Cep18Error::CannotTargetSelfUser
    );
    assert_eq!(
        state.increase_allowance(&me, &me, u(1)).unwrap_err(),
        Cep18Error::CannotTargetSelfUser
    );
    assert_eq!(
        state.decrease_allowance(&me, &me, u(1)).unwrap_err(),
        Cep18Error::CannotTargetSelfUser
    );
    let a = account(42);
    assert_eq!(
        state.transfer_from(&a, &me, &me, u(1)).unwrap_err(),
        Cep18Error::CannotTargetSelfUser
    );
    assert_eq!(state.balance_of(&me), u(1_000_000_000));
}

#[test]
fn second_init_is_refused() {
    let mut state = setup();
    let r = state.init(
        &installer(),
        "Other".to_string(),
        "OTH".to_string(),
        1,
        u(5),
        0,
        0,
        None,
        None,
        None,
        None,
        false,
    );
    assert_eq!(r.unwrap_err(), Cep18Error::AlreadyInitialized);
    assert_eq!(state.name().as_str(), "CasperTest");
    assert_eq!(state.total_supply(), u(1_000_000_000));
}

#[test]
fn init_rejects_bad_mode_bytes() {
    let mut state = TokenState::new();
    let r = state.init(
        &installer(),
        "T".to_string(),
        "T".to_string(),
        0,
        u(1),
        6,
        0,
        None,
        None,
        None,
        None,
        false,
    );
    assert_eq!(r.unwrap_err(), Cep18Error::InvalidEventsMode);
    let r = state.init(
        &installer(),
        "T".to_string(),
        "T".to_string(),
        0,
        u(1),
        0,
        2,
        None,
        None,
        None,
        None,
        false,
    );
    assert_eq!(r.unwrap_err(), Cep18Error::InvalidLegacyKeyCompat);
}

#[test]
fn transfer_with_insufficient_balance_is_refused() {
    let mut state = setup();
    let a = account(42);
    let r = state.transfer(&a, &installer(), u(1));
    assert_eq!(r.unwrap_err(), Cep18Error::InsufficientBalance);
}

#[test]
fn transfer_from_with_insufficient_allowance_is_refused() {
    let mut state = setup();
    let a = account(42);
    let b = account(43);
    state.approve(&installer(), &a, u(10)).unwrap();
    let r = state.transfer_from(&a, &installer(), &b, u(11));
    assert_eq!(r.unwrap_err(), Cep18Error::InsufficientAllowance);
    assert_eq!(state.allowance(&installer(), &a), u(10));
}

#[test]
fn transfer_from_with_insufficient_balance_is_refused() {
    let mut state = setup();
    let a = account(42);
    let b = account(43);
    // Allowance larger than the owner's balance.
    state.approve(&account(44), &a, u(50)).unwrap();
    let r = state.transfer_from(&a, &account(44), &b, u(50));
    assert_eq!(r.unwrap_err(), Cep18Error::InsufficientBalance);
}

#[test]
fn increase_allowance_overflow_is_refused() {
    let mut state = setup();
    let a = account(42);
    state.approve(&installer(), &a, U256::max_value()).unwrap();
    let r = state.increase_allowance(&installer(), &a, u(1));
    assert_eq!(r.unwrap_err(), Cep18Error::Overflow);
    assert_eq!(state.allowance(&installer(), &a), U256::max_value());
}

#[test]
fn mint_and_burn_disabled_are_refused() {
    let mut state = TokenState::new();
    state
        .init(
            &installer(),
            "T".to_string(),
            "T".to_string(),
            0,
            u(100),
            0,
            0,
            None,
            None,
            None,
            None,
            false,
        )
        .unwrap();
    assert_eq!(
        state.mint(&installer(), &account(42), u(1)).unwrap_err(),
        Cep18Error::MintBurnDisabled
    );
    assert_eq!(
        state.burn(&installer(), &installer(), u(1)).unwrap_err(),
        Cep18Error::MintBurnDisabled
    );
}

#[test]
fn change_security_grants_minter_rights() {
    let mut state = setup();
    let a = account(42);
    assert_eq!(
        state.mint(&a, &a, u(1)).unwrap_err(),
        Cep18Error::InsufficientRights
    );
    let r = state.change_security(&installer(), None, Some(vec![account(42)]), None, None);
    match r {
        Ok(Event::ChangeSecurity(ev)) => {
            assert!(ev.admin.same_as(&installer()));
            assert_eq!(ev.sec_change_map.len(), 1);
        }
        other => panic!("expected a change-security event, got {:?}", other),
    }
    assert!(state.mint(&a, &a, u(1)).is_ok());
    assert_eq!(state.balance_of(&a), u(1));
}

#[test]
fn change_security_by_non_admin_is_refused() {
    let mut state = setup();
    let a = account(42);
    let r = state.change_security(&a, Some(vec![account(42)]), None, None, None);
    assert_eq!(r.unwrap_err(), Cep18Error::InsufficientRights);
    assert_eq!(state.mint(&a, &a, u(1)).unwrap_err(), Cep18Error::InsufficientRights);
}

#[test]
fn later_security_list_overrides_earlier_within_one_call() {
    let mut state = setup();
    let a = account(42);
    // Listed as minter first, then in the none list: the later entry wins.
    state
        .change_security(&installer(), None, Some(vec![account(42)]), Some(vec![account(42)]), None)
        .unwrap();
    assert_eq!(state.mint(&a, &a, u(1)).unwrap_err(), Cep18Error::InsufficientRights);
    // The mint-and-burn list comes last and grants minter rights again.
    state
        .change_security(&installer(), None, None, Some(vec![account(42)]), Some(vec![account(42)]))
        .unwrap();
    assert!(state.mint(&a, &a, u(1)).is_ok());
}

#[test]
fn change_events_mode_requires_admin_and_a_valid_byte() {
    let mut state = setup();
    let a = account(42);
    assert_eq!(
        state.change_events_mode(&a, 1).unwrap_err(),
        Cep18Error::InsufficientRights
    );
    assert_eq!(
        state.change_events_mode(&installer(), 9).unwrap_err(),
        Cep18Error::InvalidEventsMode
    );
    match state.change_events_mode(&installer(), 1) {
        Ok(Event::ChangeEventsMode(ev)) => assert_eq!(ev.events_mode, 1),
        other => panic!("expected an events-mode event, got {:?}", other),
    }
}

#[test]
fn sec_check_falls_back_to_the_alternate_address_shape() {
    let mut state = setup();
    // The installer's badge row is keyed by its account shape; a caller
    // reporting the entity-account shape of the same hash is recognized
    // through the alternate-tag fallback.
    let entity_installer = entity_account(1);
    assert!(state.mint(&entity_installer, &account(42), u(5)).is_ok());
    assert_eq!(state.balance_of(&account(42)), u(5));
}

#[test]
fn sec_check_reports_invalid_key_type_for_shapes_without_alternate() {
    let mut state = setup();
    let contract = Address::new(AddressTag::EntityContract, vec![9; 32]);
    let r = state.mint(&contract, &account(42), u(1));
    assert_eq!(r.unwrap_err(), Cep18Error::InvalidKeyType);
}

#[test]
fn init_badge_lists_are_applied_in_order() {
    let mut state = TokenState::new();
    state
        .init(
            &installer(),
            "T".to_string(),
            "T".to_string(),
            0,
            u(100),
            0,
            0,
            Some(vec![account(50)]),
            Some(vec![account(51)]),
            Some(vec![account(50)]),
            None,
            true,
        )
        .unwrap();
    // account 50 was granted admin, then demoted by the none list.
    assert_eq!(
        state.mint(&account(50), &account(50), u(1)).unwrap_err(),
        Cep18Error::InsufficientRights
    );
    // account 51 keeps its minter badge.
    assert!(state.mint(&account(51), &account(51), u(1)).is_ok());
    // the installer's admin badge stands.
    assert!(state.mint(&installer(), &account(52), u(1)).is_ok());
}
