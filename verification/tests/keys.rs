use clarity_db::clarity_db::ClarityDatabase;
use clarity_db::headers::{NullBurnStateDB, NullHeadersDB};
use clarity_db::keys::StoreType;

type Db = ClarityDatabase<NullHeadersDB, NullBurnStateDB>;

#[test]
fn store_type_codes() {
    assert_eq!(StoreType::DataMap.code(), 0x00);
    assert_eq!(StoreType::Contract.code(), 0x09);
    assert_eq!(StoreType::SimmedBlock.code(), 0x10);
    assert_eq!(StoreType::Nonce.code(), 0x12);
    assert_eq!(StoreType::STXBalance.code(), 0x13);
    assert_eq!(StoreType::PoxUnlockHeight.code(), 0x15);
}

#[test]
fn metadata_keys() {
    assert_eq!(Db::make_metadata_key(StoreType::Contract, "contract-size"), "vm-metadata::9::contract-size");
    assert_eq!(Db::make_metadata_key(StoreType::VariableMeta, "counter"), "vm-metadata::6::counter");
    assert_eq!(Db::make_metadata_key(StoreType::PoxSTXLockup, "x"), "vm-metadata::20::x");
}

#[test]
fn data_keys() {
    let c = "SP000000000000000000002Q6VF78.pox";
    assert_eq!(Db::make_key_for_trip(c, StoreType::Variable, "counter"), "vm::SP000000000000000000002Q6VF78.pox::1::counter");
    assert_eq!(
        Db::make_key_for_quad(c, StoreType::DataMap, "m", "(tuple (a 1))".to_string()),
        "vm::SP000000000000000000002Q6VF78.pox::0::m::(tuple (a 1))"
    );
    assert_eq!(Db::make_key_for_data_map_entry(c, "m", "u1"), "vm::SP000000000000000000002Q6VF78.pox::0::m::u1");
}

#[test]
fn account_keys() {
    let p = "ST000000000000000000002AMW42H";
    assert_eq!(Db::make_key_for_account_balance(p), "vm-account::ST000000000000000000002AMW42H::19");
    assert_eq!(Db::make_key_for_account_nonce(p), "vm-account::ST000000000000000000002AMW42H::18");
    assert_eq!(Db::make_key_for_account_stx_locked(p), "vm-account::ST000000000000000000002AMW42H::20");
    assert_eq!(Db::make_key_for_account_unlock_height(p), "vm-account::ST000000000000000000002AMW42H::21");
}
