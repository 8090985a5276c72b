use clarity_db::balance::STXBalance;
use clarity_db::clarity_db::ClarityDatabase;
use clarity_db::errors::ClarityError;
use clarity_db::headers::{first_index_block_id, NullBurnStateDB, NullHeadersDB};
use clarity_db::rollback::StoredValue;
use clarity_db::types::StacksBlockId;

type Db = ClarityDatabase<NullHeadersDB, NullBurnStateDB>;

const C: &str = "ST000000000000000000002AMW42H.counter";

fn fresh() -> Db {
    let mut db = Db::new(vec![first_index_block_id()], NullHeadersDB {}, NullBurnStateDB {});
    db.begin();
    db
}

fn with_contract() -> Db {
    let mut db = fresh();
    assert_eq!(db.insert_contract_hash(C, "(define-data-var x int 1)"), Ok(()));
    db
}

#[test]
fn put_then_get_and_rollback() {
    let mut db = fresh();
    assert!(db.get("k").is_none());
    db.put("k", StoredValue::Count(7));
    assert!(matches!(db.get("k"), Some(StoredValue::Count(7))));
    db.begin();
    db.put("k", StoredValue::Count(8));
    db.put("j", StoredValue::Count(9));
    assert!(matches!(db.get("k"), Some(StoredValue::Count(8))));
    db.roll_back();
    assert!(matches!(db.get("k"), Some(StoredValue::Count(7))));
    assert!(db.get("j").is_none());
    db.begin();
    db.put("k", StoredValue::Count(10));
    db.commit();
    assert!(matches!(db.get("k"), Some(StoredValue::Count(10))));
}

#[test]
fn contract_hash_records_size_and_source() {
    let mut db = with_contract();
    assert_eq!(db.get_contract_src(C), Some("(define-data-var x int 1)".to_string()));
    assert_eq!(db.get_contract_src("ST1.other"), None);
    assert_eq!(db.set_contract_data_size(C, 100), Ok(()));
    assert_eq!(db.get_contract_size(C), Ok(125));
    assert_eq!(db.get_contract_size("ST1.other"), Err(ClarityError::NoSuchContract("ST1.other".to_string())));
    let store = db.destroy();
    assert_eq!(store.depth(), 1);
}

#[test]
fn contract_data_size_overflow_is_a_cost_error() {
    let mut db = with_contract();
    assert_eq!(db.set_contract_data_size(C, u64::MAX), Err(ClarityError::CostOverflow));
    assert_eq!(db.set_contract_data_size("ST1.none", 1), Err(ClarityError::NoSuchContract("ST1.none".to_string())));
}

#[test]
fn contract_body() {
    let mut db = with_contract();
    assert!(!db.has_contract(C));
    db.insert_contract(C, "body".to_string());
    assert!(db.has_contract(C));
    assert_eq!(db.get_contract(C), Ok("body".to_string()));
    assert!(!db.has_contract("ST1.other"));
}

#[test]
fn variables() {
    let mut db = with_contract();
    assert_eq!(db.lookup_variable(C, "x"), Err(ClarityError::NoSuchDataVariable("x".to_string())));
    db.create_variable(C, "x", "int".to_string());
    assert_eq!(db.load_variable(C, "x").map(|m| m.value_type), Ok("int".to_string()));
    assert_eq!(db.lookup_variable(C, "x"), Ok(None));
    assert_eq!(db.set_variable(C, "x", "u1".to_string(), false),
        Err(ClarityError::TypeValueError("int".to_string(), "u1".to_string())));
    assert_eq!(db.set_variable(C, "x", "5".to_string(), true), Ok(true));
    assert_eq!(db.lookup_variable(C, "x"), Ok(Some("5".to_string())));
    assert_eq!(db.set_variable("ST1.other", "x", "5".to_string(), true),
        Err(ClarityError::NoSuchDataVariable("x".to_string())));
}

#[test]
fn metadata_reads_back_before_the_code_is_committed() {
    let mut db = fresh();
    let fresh_contract = "ST1.fresh";
    assert_eq!(db.load_variable(fresh_contract, "v").map(|m| m.value_type),
        Err(ClarityError::NoSuchDataVariable("v".to_string())));
    db.create_variable(fresh_contract, "v", "uint".to_string());
    assert_eq!(db.load_variable(fresh_contract, "v").map(|m| m.value_type), Ok("uint".to_string()));
    assert_eq!(db.load_variable(fresh_contract, "w").map(|m| m.value_type),
        Err(ClarityError::NoSuchDataVariable("w".to_string())));
    assert!(!db.has_contract(fresh_contract));
    db.insert_contract(fresh_contract, "body".to_string());
    assert!(db.has_contract(fresh_contract));
    assert_eq!(db.get_contract(fresh_contract), Ok("body".to_string()));
    assert_eq!(db.get_contract_size(fresh_contract),
        Err(ClarityError::NoSuchContract(fresh_contract.to_string())));
}

#[test]
fn data_maps() {
    let mut db = with_contract();
    assert_eq!(db.fetch_entry(C, "m", "1", true), Err(ClarityError::NoSuchMap("m".to_string())));
    db.create_map(C, "m", "int".to_string(), "bool".to_string());
    assert_eq!(db.load_map(C, "m").map(|m| (m.key_type, m.value_type)), Ok(("int".to_string(), "bool".to_string())));
    assert_eq!(db.fetch_entry(C, "m", "1", true), Ok(None));
    assert_eq!(db.fetch_entry(C, "m", "u1", false),
        Err(ClarityError::TypeValueError("int".to_string(), "u1".to_string())));
    assert_eq!(db.insert_entry(C, "m", "1", "true".to_string(), true, true), Ok(true));
    assert_eq!(db.insert_entry(C, "m", "1", "false".to_string(), true, true), Ok(false));
    assert_eq!(db.fetch_entry(C, "m", "1", true), Ok(Some("true".to_string())));
    assert_eq!(db.set_entry(C, "m", "1", "false".to_string(), true, true), Ok(true));
    assert_eq!(db.fetch_entry(C, "m", "1", true), Ok(Some("false".to_string())));
    assert_eq!(db.set_entry(C, "m", "1", "u3".to_string(), true, false),
        Err(ClarityError::TypeValueError("bool".to_string(), "u3".to_string())));
    assert_eq!(db.delete_entry(C, "m", "1", true), Ok(true));
    assert_eq!(db.fetch_entry(C, "m", "1", true), Ok(None));
    assert_eq!(db.delete_entry(C, "m", "1", true), Ok(false));
    assert_eq!(db.insert_entry(C, "m", "1", "true".to_string(), true, true), Ok(true));
}

#[test]
fn fungible_token_supply() {
    let mut db = with_contract();
    assert_eq!(db.checked_increase_token_supply(C, "ft", 1), Err(ClarityError::NoSuchFT("ft".to_string())));
    db.create_fungible_token(C, "ft", &Some(100));
    assert_eq!(db.checked_increase_token_supply(C, "ft", 60), Ok(()));
    assert_eq!(db.checked_increase_token_supply(C, "ft", 41), Err(ClarityError::SupplyOverflow(101, 100)));
    assert_eq!(db.checked_increase_token_supply(C, "ft", 40), Ok(()));
    assert_eq!(db.checked_increase_token_supply(C, "ft", u128::MAX), Err(ClarityError::ArithmeticOverflow));
    db.create_fungible_token(C, "free", &None);
    assert_eq!(db.checked_increase_token_supply(C, "free", u128::MAX), Ok(()));
}

#[test]
fn fungible_token_balances() {
    let mut db = with_contract();
    db.create_fungible_token(C, "ft", &None);
    assert_eq!(db.get_ft_balance(C, "ft", "ST1"), Ok(0));
    assert_eq!(db.set_ft_balance(C, "ft", "ST1", 42), Ok(()));
    assert_eq!(db.get_ft_balance(C, "ft", "ST1"), Ok(42));
    assert_eq!(db.get_ft_balance(C, "ft", "ST2"), Ok(0));
    assert_eq!(db.get_ft_balance(C, "nope", "ST1"), Err(ClarityError::NoSuchFT("nope".to_string())));
}

#[test]
fn non_fungible_tokens() {
    let mut db = with_contract();
    assert_eq!(db.get_nft_key_type(C, "nft"), Err(ClarityError::NoSuchNFT("nft".to_string())));
    db.create_non_fungible_token(C, "nft", "int");
    assert_eq!(db.get_nft_key_type(C, "nft"), Ok("int".to_string()));
    assert_eq!(db.get_nft_owner(C, "nft", "1", true), Err(ClarityError::NoSuchToken));
    assert_eq!(db.set_nft_owner(C, "nft", "u1", false, "ST1"),
        Err(ClarityError::TypeValueError("int".to_string(), "u1".to_string())));
    assert_eq!(db.set_nft_owner(C, "nft", "1", true, "ST1"), Ok(()));
    assert_eq!(db.get_nft_owner(C, "nft", "1", true), Ok("ST1".to_string()));
}

#[test]
fn accounts() {
    let mut db = fresh();
    assert_eq!(db.get_account_stx_balance("ST1"), STXBalance::zero());
    assert_eq!(db.get_account_nonce("ST1"), 0);
    let b = STXBalance { amount_unlocked: 5, amount_locked: 6, unlock_height: 7 };
    db.set_account_stx_balance("ST1", &b);
    db.set_account_nonce("ST1", 3);
    assert_eq!(db.get_account_stx_balance("ST1"), b);
    assert_eq!(db.get_account_nonce("ST1"), 3);
    assert_eq!(db.get_account_nonce("ST2"), 0);
    db.roll_back();
    assert_eq!(db.get_account_nonce("ST1"), 0);
}

#[test]
fn blocks_of_an_empty_chain() {
    let mut db = fresh();
    assert_eq!(db.get_current_block_height(), 0);
    assert_eq!(db.get_index_block_header_hash(0), first_index_block_id());
    assert_eq!(db.get_current_burnchain_block_height(), 0);
    assert_eq!(db.get_block_time(0), 0);
    assert_eq!(db.get_block_header_hash(0).0, [0u8; 32]);
    assert_eq!(db.get_burnchain_block_header_hash(0).0, [0u8; 32]);
    assert_eq!(db.get_total_liquid_ustx(), 0);
    assert_eq!(db.get_burnchain_block_height(&StacksBlockId([1u8; 32])), None);
    assert_eq!(db.get_burn_block_height(&clarity_db::types::SortitionId([0u8; 32])), None);
    assert!(!db.is_in_regtest());
}

#[test]
fn burnchain_height_comes_from_the_parent_block() {
    let mut db = Db::new(vec![first_index_block_id(), StacksBlockId([9u8; 32])], NullHeadersDB {}, NullBurnStateDB {});
    assert_eq!(db.get_current_block_height(), 1);
    assert_eq!(db.get_index_block_header_hash(1), StacksBlockId([9u8; 32]));
    assert_eq!(db.get_current_burnchain_block_height(), 0);
}

#[test]
fn map_errors_come_before_reading_the_entry() {
    let mut db = with_contract();
    let key = Db::make_key_for_data_map_entry(C, "m", "1");
    db.put(&key, StoredValue::Count(3));
    assert_eq!(db.set_entry(C, "m", "1", "true".to_string(), true, true), Err(ClarityError::NoSuchMap("m".to_string())));
    assert_eq!(db.insert_entry(C, "m", "1", "true".to_string(), true, true), Err(ClarityError::NoSuchMap("m".to_string())));
    db.create_map(C, "m", "int".to_string(), "bool".to_string());
    assert_eq!(db.insert_entry(C, "m", "1", "true".to_string(), false, true),
        Err(ClarityError::TypeValueError("int".to_string(), "1".to_string())));
    assert_eq!(db.insert_entry(C, "m", "1", "u1".to_string(), true, false),
        Err(ClarityError::TypeValueError("bool".to_string(), "u1".to_string())));
    assert_eq!(db.set_entry(C, "m", "1", "true".to_string(), true, true), Ok(true));
    assert_eq!(db.fetch_entry(C, "m", "1", true), Ok(Some("true".to_string())));
}

#[test]
fn token_errors_come_before_reading_the_balance_or_owner() {
    let mut db = with_contract();
    let key = Db::make_key_for_quad(C, clarity_db::keys::StoreType::FungibleToken, "ft", "ST1".to_string());
    db.put(&key, StoredValue::Count(3));
    assert_eq!(db.get_ft_balance(C, "ft", "ST1"), Err(ClarityError::NoSuchFT("ft".to_string())));
    db.create_non_fungible_token(C, "nft", "int");
    let key = Db::make_key_for_quad(C, clarity_db::keys::StoreType::NonFungibleToken, "nft", "u1".to_string());
    db.put(&key, StoredValue::Count(3));
    assert_eq!(db.get_nft_owner(C, "nft", "u1", false),
        Err(ClarityError::TypeValueError("int".to_string(), "u1".to_string())));
}
