use cep18::caller::LegacyKeyCompat;
use cep18::error::Cep18Error;
use cep18::events::{needs_ces_init, route_event, EventsMode, Sink};
use cep18::security::SecurityBadge;
use cep18::u256::U256;

#[test]
fn u256_construction_and_comparison() {
    let zero = U256::zero();
    let five = U256::from_u64(5);
    let max = U256::max_value();
    assert_eq!(zero, U256::from_u64(0));
    assert!(zero.is_zero());
    assert!(!five.is_zero());
    assert!(zero.lt(&five));
    assert!(five.lt(&max));
    assert!(five.ge(&five));
    assert!(!five.lt(&five));
}

#[test]
fn u256_checked_addition() {
    let a = U256::from_u64(u64::MAX);
    let b = U256::from_u64(1);
    let sum = a.checked_add(&b).unwrap();
    assert!(U256::from_u64(u64::MAX).lt(&sum));
    assert_eq!(sum.checked_sub(&b).unwrap(), a);
    assert!(U256::max_value().checked_add(&U256::from_u64(1)).is_none());
    assert_eq!(
        U256::max_value().checked_add(&U256::zero()).unwrap(),
        U256::max_value()
    );
}

#[test]
fn u256_checked_subtraction_and_saturation() {
    let five = U256::from_u64(5);
    let three = U256::from_u64(3);
    assert_eq!(five.checked_sub(&three).unwrap(), U256::from_u64(2));
    assert!(three.checked_sub(&five).is_none());
    assert_eq!(three.saturating_sub(&five), U256::zero());
    assert_eq!(five.saturating_sub(&three), U256::from_u64(2));
    // Borrow across the limb boundary.
    let max = U256::max_value();
    let d = max.checked_sub(&U256::from_u64(u64::MAX)).unwrap();
    assert_eq!(d.checked_add(&U256::from_u64(u64::MAX)).unwrap(), max);
}

#[test]
fn error_codes_match_the_wire_contract() {
    assert_eq!(Cep18Error::InvalidContext.code(), 60000);
    assert_eq!(Cep18Error::InsufficientBalance.code(), 60001);
    assert_eq!(Cep18Error::InsufficientAllowance.code(), 60002);
    assert_eq!(Cep18Error::Overflow.code(), 60003);
    assert_eq!(Cep18Error::InsufficientRights.code(), 60010);
    assert_eq!(Cep18Error::AlreadyInitialized.code(), 60015);
    assert_eq!(Cep18Error::MintBurnDisabled.code(), 60016);
    assert_eq!(Cep18Error::CannotTargetSelfUser.code(), 60017);
    assert_eq!(Cep18Error::InvalidBurnTarget.code(), 60018);
    assert_eq!(Cep18Error::InvalidKeyType.code(), 60021);
    assert_eq!(Cep18Error::InvalidLegacyKeyCompat.code(), 60038);
    assert_eq!(Cep18Error::FailedToGetOldContractHashKey.code(), 60041);
}

#[test]
fn badge_bytes_round_trip() {
    assert_eq!(SecurityBadge::Admin.to_u8(), 0);
    assert_eq!(SecurityBadge::Minter.to_u8(), 1);
    assert_eq!(SecurityBadge::NoAccess.to_u8(), 2);
    for b in [SecurityBadge::Admin, SecurityBadge::Minter, SecurityBadge::NoAccess] {
        assert_eq!(SecurityBadge::from_u8(b.to_u8()), Some(b));
    }
    assert_eq!(SecurityBadge::from_u8(3), None);
    assert_eq!(SecurityBadge::from_u8(255), None);
}

#[test]
fn events_mode_bytes_round_trip() {
    let modes = [
        EventsMode::NoEvents,
        EventsMode::CES,
        EventsMode::Native,
        EventsMode::NativeBytes,
        EventsMode::NativeNCES,
        EventsMode::NativeBytesNCES,
    ];
    for (i, m) in modes.iter().enumerate() {
        assert_eq!(m.to_u8(), i as u8);
        assert_eq!(EventsMode::from_u8(i as u8), Some(*m));
    }
    assert_eq!(EventsMode::from_u8(6), None);
}

#[test]
fn legacy_key_compat_bytes_round_trip() {
    assert_eq!(LegacyKeyCompat::Condor.to_u8(), 0);
    assert_eq!(LegacyKeyCompat::Legacy.to_u8(), 1);
    assert_eq!(LegacyKeyCompat::from_u8(0), Some(LegacyKeyCompat::Condor));
    assert_eq!(LegacyKeyCompat::from_u8(1), Some(LegacyKeyCompat::Legacy));
    assert_eq!(LegacyKeyCompat::from_u8(2), None);
}

#[test]
fn routing_follows_the_mode_table() {
    assert_eq!(route_event(EventsMode::NoEvents), Vec::<Sink>::new());
    assert_eq!(route_event(EventsMode::CES), vec![Sink::Ces]);
    assert_eq!(route_event(EventsMode::Native), vec![Sink::Native]);
    assert_eq!(route_event(EventsMode::NativeBytes), vec![Sink::NativeBytes]);
    assert_eq!(
        route_event(EventsMode::NativeNCES),
        vec![Sink::Native, Sink::Ces]
    );
    assert_eq!(
        route_event(EventsMode::NativeBytesNCES),
        vec![Sink::NativeBytes, Sink::Ces]
    );
}

#[test]
fn ces_schemas_are_initialized_only_when_needed() {
    assert!(needs_ces_init(EventsMode::CES, false));
    assert!(needs_ces_init(EventsMode::NativeNCES, false));
    assert!(needs_ces_init(EventsMode::NativeBytesNCES, false));
    assert!(!needs_ces_init(EventsMode::CES, true));
    assert!(!needs_ces_init(EventsMode::Native, false));
    assert!(!needs_ces_init(EventsMode::NoEvents, false));
}
