use hotel_timeshare::{Address, DataKey, HotelTimeshareContract, RegistryError, TimeshareInfo};

fn addr(key: &str) -> Address {
    Address::new(String::from(key))
}

fn info(hotel: &str, room: &str, week: u32) -> TimeshareInfo {
    TimeshareInfo::new(String::from(hotel), String::from(room), week)
}

fn initialized(admin: &str) -> HotelTimeshareContract {
    let mut reg = HotelTimeshareContract::new();
    assert_eq!(reg.initialize(addr(admin)), Ok(()));
    reg
}

fn mint_one(reg: &mut HotelTimeshareContract, admin: &str, to: &str, hotel: &str, room: &str, week: u32) -> Result<u64, RegistryError> {
    reg.mint(&addr(admin), true, addr(to), String::from(hotel), String::from(room), week)
}

#[test]
fn grand_hotel_walkthrough() {
    let mut reg = initialized("GA");
    assert_eq!(mint_one(&mut reg, "GA", "GB", "Grand Hotel", "305", 28), Ok(1));
    assert_eq!(reg.get_info(1), Ok(info("Grand Hotel", "305", 28)));
    assert_eq!(reg.owner_of(1), Ok(addr("GB")));
    assert_eq!(reg.transfer(&addr("GB"), true, &addr("GB"), addr("GC"), 1), Ok(()));
    assert_eq!(reg.owner_of(1), Ok(addr("GC")));
    assert_eq!(reg.transfer(&addr("GB"), true, &addr("GB"), addr("GC"), 1), Err(RegistryError::NotOwner));
    assert_eq!(reg.get_info(2), Err(RegistryError::TokenNotFound));
}

#[test]
fn initialize_twice_is_refused_and_keeps_state() {
    let mut reg = initialized("GA");
    assert_eq!(mint_one(&mut reg, "GA", "GB", "Sea View", "12", 3), Ok(1));
    assert_eq!(reg.initialize(addr("GX")), Err(RegistryError::AlreadyInitialized));
    assert_eq!(reg.admin(), Some(addr("GA")));
    assert_eq!(reg.counter(), 1);
    assert_eq!(reg.get_info(1), Ok(info("Sea View", "12", 3)));
    assert_eq!(reg.owner_of(1), Ok(addr("GB")));
}

#[test]
fn fresh_registry_has_no_admin() {
    let reg = HotelTimeshareContract::new();
    assert_eq!(reg.admin(), None);
    assert_eq!(reg.counter(), 0);
    assert!(!reg.has(&DataKey::Admin));
    assert!(!reg.has(&DataKey::Counter));
}

#[test]
fn initialize_sets_admin_and_zero_counter() {
    let reg = initialized("GA");
    assert_eq!(reg.admin(), Some(addr("GA")));
    assert_eq!(reg.counter(), 0);
    assert!(reg.has(&DataKey::Admin));
    assert!(reg.has(&DataKey::Counter));
    assert!(!reg.has(&DataKey::Info(1)));
    assert!(!reg.has(&DataKey::Owner(1)));
}

#[test]
fn operations_before_initialize_fail() {
    let mut reg = HotelTimeshareContract::new();
    assert_eq!(mint_one(&mut reg, "GA", "GB", "H", "1", 1), Err(RegistryError::NotInitialized));
    assert_eq!(reg.transfer(&addr("GB"), true, &addr("GB"), addr("GC"), 1), Err(RegistryError::NotInitialized));
    assert_eq!(reg.get_info(1), Err(RegistryError::NotInitialized));
    assert_eq!(reg.owner_of(1), Err(RegistryError::NotInitialized));
    assert_eq!(reg.counter(), 0);
}

#[test]
fn mint_ids_are_dense_despite_failed_calls() {
    let mut reg = initialized("GA");
    assert_eq!(mint_one(&mut reg, "GA", "GB", "H", "1", 1), Ok(1));
    assert_eq!(mint_one(&mut reg, "GZ", "GB", "H", "2", 2), Err(RegistryError::Unauthorized));
    assert_eq!(mint_one(&mut reg, "GA", "GC", "H", "3", 3), Ok(2));
    assert_eq!(reg.transfer(&addr("GB"), true, &addr("GB"), addr("GD"), 7), Err(RegistryError::TokenNotFound));
    assert_eq!(reg.mint(&addr("GA"), false, addr("GC"), String::from("H"), String::from("4"), 4), Err(RegistryError::Unauthorized));
    assert_eq!(reg.initialize(addr("GA")), Err(RegistryError::AlreadyInitialized));
    assert_eq!(mint_one(&mut reg, "GA", "GD", "H", "5", 5), Ok(3));
    assert_eq!(reg.counter(), 3);
    assert_eq!(reg.get_info(3), Ok(info("H", "5", 5)));
    assert_eq!(reg.get_info(4), Err(RegistryError::TokenNotFound));
}

#[test]
fn mint_records_metadata_and_owner() {
    let mut reg = initialized("GA");
    assert_eq!(mint_one(&mut reg, "GA", "GR", "Alpine Lodge", "7B", 52), Ok(1));
    assert_eq!(reg.get_info(1), Ok(info("Alpine Lodge", "7B", 52)));
    assert_eq!(reg.owner_of(1), Ok(addr("GR")));
    assert!(reg.has(&DataKey::Info(1)));
    assert!(reg.has(&DataKey::Owner(1)));
    assert!(!reg.has(&DataKey::Info(0)));
}

#[test]
fn mint_by_non_admin_is_unauthorized_and_changes_nothing() {
    let mut reg = initialized("GA");
    assert_eq!(mint_one(&mut reg, "GA", "GB", "H", "1", 1), Ok(1));
    assert_eq!(mint_one(&mut reg, "GB", "GB", "H", "2", 2), Err(RegistryError::Unauthorized));
    assert_eq!(reg.counter(), 1);
    assert_eq!(reg.get_info(2), Err(RegistryError::TokenNotFound));
    assert_eq!(reg.owner_of(2), Err(RegistryError::TokenNotFound));
    assert_eq!(reg.owner_of(1), Ok(addr("GB")));
}

#[test]
fn mint_by_admin_without_authorization_is_unauthorized() {
    let mut reg = initialized("GA");
    let r = reg.mint(&addr("GA"), false, addr("GB"), String::from("H"), String::from("1"), 1);
    assert_eq!(r, Err(RegistryError::Unauthorized));
    assert_eq!(reg.counter(), 0);
}

#[test]
fn transfer_by_other_caller_is_unauthorized() {
    let mut reg = initialized("GA");
    assert_eq!(mint_one(&mut reg, "GA", "GB", "H", "1", 1), Ok(1));
    assert_eq!(reg.transfer(&addr("GX"), true, &addr("GB"), addr("GC"), 1), Err(RegistryError::Unauthorized));
    assert_eq!(reg.transfer(&addr("GB"), false, &addr("GB"), addr("GC"), 1), Err(RegistryError::Unauthorized));
    assert_eq!(reg.owner_of(1), Ok(addr("GB")));
}

#[test]
fn transfer_by_non_owner_is_refused() {
    let mut reg = initialized("GA");
    assert_eq!(mint_one(&mut reg, "GA", "GB", "H", "1", 1), Ok(1));
    assert_eq!(reg.transfer(&addr("GC"), true, &addr("GC"), addr("GD"), 1), Err(RegistryError::NotOwner));
    assert_eq!(reg.owner_of(1), Ok(addr("GB")));
}

#[test]
fn transfer_of_missing_token_is_not_found() {
    let mut reg = initialized("GA");
    assert_eq!(reg.transfer(&addr("GB"), true, &addr("GB"), addr("GC"), 0), Err(RegistryError::TokenNotFound));
    assert_eq!(reg.transfer(&addr("GB"), true, &addr("GB"), addr("GC"), u64::MAX), Err(RegistryError::TokenNotFound));
    assert_eq!(reg.owner_of(u64::MAX), Err(RegistryError::TokenNotFound));
}

#[test]
fn transfer_to_self_is_a_no_op() {
    let mut reg = initialized("GA");
    assert_eq!(mint_one(&mut reg, "GA", "GB", "H", "1", 1), Ok(1));
    assert_eq!(reg.transfer(&addr("GB"), true, &addr("GB"), addr("GB"), 1), Ok(()));
    assert_eq!(reg.owner_of(1), Ok(addr("GB")));
}

#[test]
fn transfer_round_trip_restores_owner() {
    let mut reg = initialized("GA");
    assert_eq!(mint_one(&mut reg, "GA", "GB", "H", "1", 1), Ok(1));
    assert_eq!(mint_one(&mut reg, "GA", "GC", "H", "2", 2), Ok(2));
    assert_eq!(reg.transfer(&addr("GB"), true, &addr("GB"), addr("GD"), 1), Ok(()));
    assert_eq!(reg.owner_of(1), Ok(addr("GD")));
    assert_eq!(reg.transfer(&addr("GD"), true, &addr("GD"), addr("GB"), 1), Ok(()));
    assert_eq!(reg.owner_of(1), Ok(addr("GB")));
    assert_eq!(reg.owner_of(2), Ok(addr("GC")));
    assert_eq!(reg.get_info(1), Ok(info("H", "1", 1)));
}

#[test]
fn returned_info_is_an_independent_copy() {
    let mut reg = initialized("GA");
    assert_eq!(mint_one(&mut reg, "GA", "GB", "Grand Hotel", "305", 28), Ok(1));
    let mut copy = reg.get_info(1).unwrap();
    copy.hotel.push_str(" Annex");
    copy.week = 1;
    assert_eq!(reg.get_info(1), Ok(info("Grand Hotel", "305", 28)));
}

#[test]
fn address_equality_follows_keys() {
    let a = addr("GABC");
    assert!(a.same_as(&addr("GABC")));
    assert!(!a.same_as(&addr("GABD")));
    assert_eq!(a.key(), "GABC");
    assert_eq!(a.duplicate(), a);
}

#[test]
fn records_round_trip_through_storage_form() {
    let mut reg = initialized("GA");
    assert_eq!(mint_one(&mut reg, "GA", "GB", "Grand Hotel", "305", 28), Ok(1));
    let (admin, infos, owners) = reg.into_records();
    assert_eq!(admin, Some(addr("GA")));
    assert_eq!(infos, vec![info("Grand Hotel", "305", 28)]);
    assert_eq!(owners, vec![addr("GB")]);
    let back = HotelTimeshareContract::from_records(admin, infos, owners).unwrap();
    assert_eq!(back.counter(), 1);
    assert_eq!(back.owner_of(1), Ok(addr("GB")));
}

#[test]
fn inconsistent_records_are_rejected() {
    assert!(HotelTimeshareContract::from_records(Some(addr("GA")), vec![info("H", "1", 1)], vec![]).is_none());
    assert!(HotelTimeshareContract::from_records(None, vec![info("H", "1", 1)], vec![addr("GB")]).is_none());
    assert!(HotelTimeshareContract::from_records(None, vec![], vec![]).is_some());
}
