//! The Clarity database: contract metadata, contract data, token and account
//! state, kept in a store with nested transactions, and what the chain says
//! of its blocks.

use vstd::prelude::*;
use vstd::string::StringSliceAdditionalSpecFns;
use crate::errors::ClarityError;
use crate::hashing::{sha512_256, sha512_256_of};
use crate::headers::{first_index_block_hash, first_index_block_id, BurnStateDB, HeadersDB};
use crate::keys::{
    account_key, metadata_key, push_decimal_u64, quad_key, store_type_code, trip_key, StoreType,
};
use crate::rollback::{KeyView, RollbackWrapper, StoreKey, StoredValue, ValueView};

verus! {

/// Whether a contract's source is kept beside it.
pub const STORE_CONTRACT_SRC_INTERFACE: bool = true;

/// The Clarity database over a store, a headers database and a burnchain
/// database. Contracts and principals are named by their textual form.
pub struct ClarityDatabase<H: HeadersDB, B: BurnStateDB> {
    store: RollbackWrapper,
    headers_db: H,
    burn_state_db: B,
}

/// The metadata key of a contract's size.
pub open spec fn contract_size_key() -> Seq<char> {
    metadata_key(store_type_code(StoreType::Contract), "contract-size"@)
}

/// The metadata key of a contract's source.
pub open spec fn contract_src_key() -> Seq<char> {
    metadata_key(store_type_code(StoreType::Contract), "contract-src"@)
}

/// The metadata key of the size of a contract's constants.
pub open spec fn contract_data_size_key() -> Seq<char> {
    metadata_key(store_type_code(StoreType::Contract), "contract-data-size"@)
}

/// The metadata key of a contract's body.
pub open spec fn contract_body_key() -> Seq<char> {
    metadata_key(store_type_code(StoreType::Contract), "contract"@)
}

/// A stored value, if any, is a count.
pub open spec fn count_or_absent(v: Option<ValueView>) -> bool {
    match v {
        None => true,
        Some(ValueView::Count(_)) => true,
        _ => false,
    }
}

/// A stored value, if any, is an amount.
pub open spec fn amount_or_absent(v: Option<ValueView>) -> bool {
    match v {
        None => true,
        Some(ValueView::Amount(_)) => true,
        _ => false,
    }
}

/// A stored value, if any, is a text.
pub open spec fn text_or_absent(v: Option<ValueView>) -> bool {
    match v {
        None => true,
        Some(ValueView::Text(_)) => true,
        _ => false,
    }
}

/// The error names the contract `c`.
pub open spec fn is_no_such_contract<T>(res: Result<T, ClarityError>, c: Seq<char>) -> bool {
    res matches Err(ClarityError::NoSuchContract(name)) && name@ == c
}

impl<H: HeadersDB, B: BurnStateDB> ClarityDatabase<H, B> {
    // ------------------------------------------------------------------
    // The model
    // ------------------------------------------------------------------

    /// The store is well formed.
    pub closed spec fn wf(&self) -> bool {
        self.store.wf()
    }

    /// The contents of the store.
    pub closed spec fn store_view(&self) -> crate::rollback::StoreModel {
        self.store@
    }

    /// The index hashes of the blocks up to the one being evaluated.
    pub closed spec fn chain(&self) -> Seq<crate::types::StacksBlockId> {
        self.store.chain()
    }

    /// The headers database.
    pub closed spec fn headers(&self) -> H {
        self.headers_db
    }

    /// The burnchain database.
    pub closed spec fn burn_state(&self) -> B {
        self.burn_state_db
    }

    /// The data item at `key`.
    pub open spec fn data_at(&self, key: Seq<char>) -> Option<ValueView> {
        self.store_view().lookup(KeyView::Data(key))
    }

    /// The metadata item `key` of contract `c`.
    pub open spec fn metadata_at(&self, c: Seq<char>, key: Seq<char>) -> Option<ValueView> {
        self.store_view().lookup(KeyView::Metadata(c, key))
    }

    /// The code of contract `c` has been committed to.
    pub open spec fn contract_known(&self, c: Seq<char>) -> bool {
        self.store_view().lookup(KeyView::Commitment(c)) is Some
    }

    /// Contract `c` has the metadata item `key`, recorded in this
    /// transaction or before.
    pub open spec fn has_metadata(&self, c: Seq<char>, key: Seq<char>) -> bool {
        self.metadata_at(c, key) is Some
    }

    // ------------------------------------------------------------------
    // Construction and transactions
    // ------------------------------------------------------------------

    /// A database over a fresh store of the chain `block_ids`, whose last
    /// block is the one being evaluated.
    pub fn new(block_ids: Vec<crate::types::StacksBlockId>, headers_db: H, burn_state_db: B) -> (res: Self)
        requires
            1 <= block_ids@.len() <= u32::MAX + 1,
        ensures
            res.wf(),
            res.store_view().writes == Seq::<(KeyView, ValueView)>::empty(),
            res.store_view().marks == Seq::<nat>::empty(),
            res.chain() == block_ids@,
            res.headers() == headers_db,
            res.burn_state() == burn_state_db,
    {
        ClarityDatabase { store: RollbackWrapper::with_chain(block_ids), headers_db, burn_state_db }
    }

    /// A database over an existing store.
    pub fn new_with_rollback_wrapper(store: RollbackWrapper, headers_db: H, burn_state_db: B) -> (res: Self)
        ensures
            res.wf() == store.wf(),
            res.store_view() == store@,
            res.chain() == store.chain(),
            res.headers() == headers_db,
            res.burn_state() == burn_state_db,
    {
        ClarityDatabase { store, headers_db, burn_state_db }
    }

    /// Nothing needs to be set up.
    pub fn initialize(&mut self)
        ensures
            *final(self) == *old(self),
    {
    }

    /// Opens a transaction.
    pub fn begin(&mut self)
        requires
            old(self).wf(),
        ensures
            final(self).wf(),
            final(self).store_view() == old(self).store_view().nested(),
            final(self).chain() == old(self).chain(),
            final(self).headers() == old(self).headers(),
            final(self).burn_state() == old(self).burn_state(),
    {
        self.store.nest();
    }

    /// Commits the innermost transaction.
    pub fn commit(&mut self)
        requires
            old(self).wf(),
            old(self).store_view().depth() > 0,
        ensures
            final(self).wf(),
            final(self).store_view() == old(self).store_view().committed(),
            final(self).chain() == old(self).chain(),
            final(self).headers() == old(self).headers(),
            final(self).burn_state() == old(self).burn_state(),
    {
        self.store.commit();
    }

    /// Rolls back the innermost transaction.
    pub fn roll_back(&mut self)
        requires
            old(self).wf(),
            old(self).store_view().depth() > 0,
        ensures
            final(self).wf(),
            final(self).store_view() == old(self).store_view().rolled_back(),
            final(self).chain() == old(self).chain(),
            final(self).headers() == old(self).headers(),
            final(self).burn_state() == old(self).burn_state(),
    {
        self.store.rollback();
    }

    /// Stores `value` at the data key `key`.
    pub fn put(&mut self, key: &str, value: StoredValue)
        requires
            old(self).wf(),
        ensures
            final(self).wf(),
            final(self).store_view() == old(self).store_view().written(KeyView::Data(key@), value@),
            final(self).chain() == old(self).chain(),
            final(self).headers() == old(self).headers(),
            final(self).burn_state() == old(self).burn_state(),
    {
        self.store.write(StoreKey::Data(key.to_owned()), value);
    }

    /// The value at the data key `key`, if any.
    pub fn get(&mut self, key: &str) -> (res: Option<StoredValue>)
        ensures
            *final(self) == *old(self),
            crate::types::view_opt(res) == old(self).data_at(key@),
    {
        self.store.read(&StoreKey::Data(key.to_owned()))
    }

    /// Gives the store back.
    pub fn destroy(self) -> (res: RollbackWrapper)
        ensures
            res.wf() == self.wf(),
            res@ == self.store_view(),
            res.chain() == self.chain(),
    {
        self.store
    }

    /// The database is not running inside the test harness of this crate.
    pub fn is_in_regtest(&self) -> (res: bool)
        ensures
            res == false,
    {
        false
    }

    // ------------------------------------------------------------------
    // Keys
    // ------------------------------------------------------------------

    /// The key of a contract's data item `var_name` of kind `data`.
    pub fn make_key_for_trip(contract_identifier: &str, data: StoreType, var_name: &str) -> (res: String)
        ensures
            res@ == trip_key(contract_identifier@, store_type_code(data), var_name@),
    {
        let mut key = "vm::".to_owned();
        key.append(contract_identifier);
        key.append("::");
        push_decimal_u64(&mut key, data.code() as u64);
        key.append("::");
        key.append(var_name);
        key
    }

    /// The key of a contract's metadata item `var_name` of kind `data`.
    pub fn make_metadata_key(data: StoreType, var_name: &str) -> (res: String)
        ensures
            res@ == metadata_key(store_type_code(data), var_name@),
    {
        let mut key = "vm-metadata::".to_owned();
        push_decimal_u64(&mut key, data.code() as u64);
        key.append("::");
        key.append(var_name);
        key
    }

    /// The key of the entry `key_value` of a contract's data item `var_name`
    /// of kind `data`.
    pub fn make_key_for_quad(contract_identifier: &str, data: StoreType, var_name: &str, key_value: String) -> (res: String)
        ensures
            res@ == quad_key(contract_identifier@, store_type_code(data), var_name@, key_value@),
    {
        let mut key = Self::make_key_for_trip(contract_identifier, data, var_name);
        key.append("::");
        key.append(key_value.as_str());
        key
    }

    // ------------------------------------------------------------------
    // Contract metadata
    // ------------------------------------------------------------------

    /// Contract `c` has the metadata item `key`.
    fn has_metadata_entry(&self, contract_identifier: &str, key: &str) -> (res: bool)
        ensures
            res == self.has_metadata(contract_identifier@, key@),
    {
        match self.fetch_metadata(contract_identifier, key) {
            Ok(Some(_)) => true,
            _ => false,
        }
    }

    /// Records `data` as the metadata item `key` of the contract.
    fn insert_metadata(&mut self, contract_identifier: &str, key: &str, data: StoredValue)
        requires
            old(self).wf(),
            !old(self).has_metadata(contract_identifier@, key@),
        ensures
            final(self).wf(),
            final(self).store_view() == old(self).store_view().written(KeyView::Metadata(contract_identifier@, key@), data@),
            final(self).chain() == old(self).chain(),
            final(self).headers() == old(self).headers(),
            final(self).burn_state() == old(self).burn_state(),
    {
        self.store.write(StoreKey::Metadata(contract_identifier.to_owned(), key.to_owned()), data);
    }

    /// The metadata item `key` of the contract. An item recorded in this
    /// transaction or before is read back; where there is none, the answer is
    /// that there is no such item if the contract is known, and an error
    /// naming the contract if it is not.
    fn fetch_metadata(&self, contract_identifier: &str, key: &str) -> (res: Result<Option<StoredValue>, ClarityError>)
        ensures
            self.metadata_at(contract_identifier@, key@) is Some ==> (res matches Ok(v)
                && crate::types::view_opt(v) == self.metadata_at(contract_identifier@, key@)),
            self.metadata_at(contract_identifier@, key@) is None && self.contract_known(contract_identifier@)
                ==> res matches Ok(None),
            self.metadata_at(contract_identifier@, key@) is None && !self.contract_known(contract_identifier@)
                ==> is_no_such_contract(res, contract_identifier@),
    {
        match self.store.read(&StoreKey::Metadata(contract_identifier.to_owned(), key.to_owned())) {
            Some(v) => Ok(Some(v)),
            None => match self.store.read(&StoreKey::Commitment(contract_identifier.to_owned())) {
                None => Err(ClarityError::NoSuchContract(contract_identifier.to_owned())),
                Some(_) => Ok(None),
            },
        }
    }

    /// Commits to the contract's code by its SHA-512/256 hash, and records its
    /// size in bytes and its source.
    pub fn insert_contract_hash(&mut self, contract_identifier: &str, contract_content: &str) -> (res: Result<(), ClarityError>)
        requires
            old(self).wf(),
            old(self).metadata_at(contract_identifier@, contract_size_key()) is None,
            old(self).metadata_at(contract_identifier@, contract_src_key()) is None,
        ensures
            final(self).wf(),
            res is Ok,
            final(self).store_view() == old(self).store_view()
                .written(KeyView::Commitment(contract_identifier@), ValueView::Commitment(sha512_256_of(contract_content.spec_bytes())))
                .written(KeyView::Metadata(contract_identifier@, contract_size_key()), ValueView::Count(contract_content.len() as u64))
                .written(KeyView::Metadata(contract_identifier@, contract_src_key()), ValueView::Text(contract_content@)),
            final(self).chain() == old(self).chain(),
            final(self).headers() == old(self).headers(),
            final(self).burn_state() == old(self).burn_state(),
    {
        let hash = sha512_256(contract_content.as_bytes());
        self.store.write(StoreKey::Commitment(contract_identifier.to_owned()), StoredValue::Commitment(hash));

        let key = Self::make_metadata_key(StoreType::Contract, "contract-size");
        proof {
            crate::rollback::law_read_after_write(
                old(self).store_view(), KeyView::Commitment(contract_identifier@),
                ValueView::Commitment(sha512_256_of(contract_content.spec_bytes())),
                KeyView::Metadata(contract_identifier@, contract_size_key()));
        }
        self.insert_metadata(contract_identifier, key.as_str(), StoredValue::Count(contract_content.len() as u64));

        if STORE_CONTRACT_SRC_INTERFACE {
            let key = Self::make_metadata_key(StoreType::Contract, "contract-src");
            proof {
                let m1 = old(self).store_view().written(KeyView::Commitment(contract_identifier@),
                    ValueView::Commitment(sha512_256_of(contract_content.spec_bytes())));
                crate::rollback::law_read_after_write(old(self).store_view(), KeyView::Commitment(contract_identifier@),
                    ValueView::Commitment(sha512_256_of(contract_content.spec_bytes())),
                    KeyView::Metadata(contract_identifier@, contract_src_key()));
                crate::rollback::law_read_after_write(m1, KeyView::Metadata(contract_identifier@, contract_size_key()),
                    ValueView::Count(contract_content.len() as u64),
                    KeyView::Metadata(contract_identifier@, contract_src_key()));
                lemma_contract_keys_differ();
            }
            self.insert_metadata(contract_identifier, key.as_str(), StoredValue::Text(contract_content.to_owned()));
        }
        Ok(())
    }
}

impl<H: HeadersDB, B: BurnStateDB> ClarityDatabase<H, B> {
    /// The source of the contract, if it is known and its source was kept.
    pub fn get_contract_src(&mut self, contract_identifier: &str) -> (res: Option<String>)
        requires
            text_or_absent(old(self).metadata_at(contract_identifier@, contract_src_key())),
        ensures
            *final(self) == *old(self),
            match old(self).metadata_at(contract_identifier@, contract_src_key()) {
                Some(ValueView::Text(t)) => res matches Some(s) && s@ == t,
                _ => res is None,
            },
    {
        let key = Self::make_metadata_key(StoreType::Contract, "contract-src");
        match self.fetch_metadata(contract_identifier, key.as_str()) {
            Ok(Some(StoredValue::Text(src))) => Some(src),
            _ => None,
        }
    }

    /// The size of the contract: that of its code plus that of its constants.
    pub fn get_contract_size(&mut self, contract_identifier: &str) -> (res: Result<u64, ClarityError>)
        requires
            match old(self).metadata_at(contract_identifier@, contract_size_key()) {
                None => !old(self).contract_known(contract_identifier@),
                Some(ValueView::Count(code_size)) => match old(self).metadata_at(contract_identifier@, contract_data_size_key()) {
                    None => !old(self).contract_known(contract_identifier@),
                    Some(ValueView::Count(data_size)) => code_size + data_size <= u64::MAX,
                    _ => false,
                },
                _ => false,
            },
        ensures
            *final(self) == *old(self),
            match old(self).metadata_at(contract_identifier@, contract_size_key()) {
                Some(ValueView::Count(code_size)) => match old(self).metadata_at(contract_identifier@, contract_data_size_key()) {
                    Some(ValueView::Count(data_size)) => res == Ok::<u64, ClarityError>((code_size + data_size) as u64),
                    _ => is_no_such_contract(res, contract_identifier@),
                },
                _ => is_no_such_contract(res, contract_identifier@),
            },
    {
        let key = Self::make_metadata_key(StoreType::Contract, "contract-size");
        let contract_size: u64 = match self.fetch_metadata(contract_identifier, key.as_str())? {
            Some(StoredValue::Count(n)) => n,
            _ => {
                proof { assert(false); }
                0
            },
        };
        let key = Self::make_metadata_key(StoreType::Contract, "contract-data-size");
        let data_size: u64 = match self.fetch_metadata(contract_identifier, key.as_str())? {
            Some(StoredValue::Count(n)) => n,
            _ => {
                proof { assert(false); }
                0
            },
        };
        Ok(data_size + contract_size)
    }

    /// Records the size of the contract's constants, once the size of its code
    /// is known and the total size fits in 64 bits.
    pub fn set_contract_data_size(&mut self, contract_identifier: &str, data_size: u64) -> (res: Result<(), ClarityError>)
        requires
            old(self).wf(),
            match old(self).metadata_at(contract_identifier@, contract_size_key()) {
                None => !old(self).contract_known(contract_identifier@),
                Some(ValueView::Count(code_size)) => code_size + data_size <= u64::MAX
                    ==> old(self).metadata_at(contract_identifier@, contract_data_size_key()) is None,
                _ => false,
            },
        ensures
            final(self).wf(),
            final(self).chain() == old(self).chain(),
            final(self).headers() == old(self).headers(),
            final(self).burn_state() == old(self).burn_state(),
            match old(self).metadata_at(contract_identifier@, contract_size_key()) {
                Some(ValueView::Count(code_size)) => if code_size + data_size > u64::MAX {
                    res == Err::<(), ClarityError>(ClarityError::CostOverflow) && final(self).store_view() == old(self).store_view()
                } else {
                    res is Ok && final(self).store_view() == old(self).store_view().written(
                        KeyView::Metadata(contract_identifier@, contract_data_size_key()), ValueView::Count(data_size))
                },
                _ => is_no_such_contract(res, contract_identifier@) && final(self).store_view() == old(self).store_view(),
            },
    {
        let key = Self::make_metadata_key(StoreType::Contract, "contract-size");
        let contract_size: u64 = match self.fetch_metadata(contract_identifier, key.as_str())? {
            Some(StoredValue::Count(n)) => n,
            _ => {
                proof { assert(false); }
                0
            },
        };
        if contract_size.checked_add(data_size).is_none() {
            return Err(ClarityError::CostOverflow);
        }
        let key = Self::make_metadata_key(StoreType::Contract, "contract-data-size");
        self.insert_metadata(contract_identifier, key.as_str(), StoredValue::Count(data_size));
        Ok(())
    }

    /// Records the contract's body.
    pub fn insert_contract(&mut self, contract_identifier: &str, contract: String)
        requires
            old(self).wf(),
            !old(self).has_metadata(contract_identifier@, contract_body_key()),
        ensures
            final(self).wf(),
            final(self).store_view() == old(self).store_view().written(
                KeyView::Metadata(contract_identifier@, contract_body_key()), ValueView::Text(contract@)),
            final(self).chain() == old(self).chain(),
            final(self).headers() == old(self).headers(),
            final(self).burn_state() == old(self).burn_state(),
    {
        let key = Self::make_metadata_key(StoreType::Contract, "contract");
        self.insert_metadata(contract_identifier, key.as_str(), StoredValue::Text(contract));
    }

    /// The contract's body was recorded.
    pub fn has_contract(&mut self, contract_identifier: &str) -> (res: bool)
        ensures
            *final(self) == *old(self),
            res == old(self).has_metadata(contract_identifier@, contract_body_key()),
    {
        let key = Self::make_metadata_key(StoreType::Contract, "contract");
        self.has_metadata_entry(contract_identifier, key.as_str())
    }

    /// The body of the contract; an error naming it if it is unknown.
    pub fn get_contract(&mut self, contract_identifier: &str) -> (res: Result<String, ClarityError>)
        requires
            match old(self).metadata_at(contract_identifier@, contract_body_key()) {
                None => !old(self).contract_known(contract_identifier@),
                Some(ValueView::Text(_)) => true,
                _ => false,
            },
        ensures
            *final(self) == *old(self),
            match old(self).metadata_at(contract_identifier@, contract_body_key()) {
                Some(ValueView::Text(t)) => res matches Ok(body) && body@ == t,
                _ => is_no_such_contract(res, contract_identifier@),
            },
    {
        let key = Self::make_metadata_key(StoreType::Contract, "contract");
        match self.fetch_metadata(contract_identifier, key.as_str())? {
            Some(StoredValue::Text(body)) => Ok(body),
            _ => {
                proof { assert(false); }
                Ok(String::new())
            },
        }
    }
}

impl<H: HeadersDB, B: BurnStateDB> ClarityDatabase<H, B> {
    /// The height of the block being evaluated.
    pub open spec fn current_height(&self) -> int {
        self.chain().len() - 1
    }

    /// The index hash of the block whose burnchain height is the last known:
    /// the parent of the block being evaluated, or the first block of the
    /// chain when the block being evaluated is at height 0.
    pub open spec fn last_mined_block(&self) -> Seq<u8> {
        if self.current_height() == 0 {
            first_index_block_hash()
        } else {
            self.chain()[self.current_height() - 1]@
        }
    }

    /// The index hash of the block at `block_height`, which is not above the
    /// block being evaluated.
    pub fn get_index_block_header_hash(&mut self, block_height: u32) -> (res: crate::types::StacksBlockId)
        requires
            block_height < old(self).chain().len(),
        ensures
            *final(self) == *old(self),
            res == old(self).chain()[block_height as int],
    {
        match self.store.get_block_header_hash(block_height) {
            Some(id) => id,
            None => {
                proof { assert(false); }
                crate::types::StacksBlockId(crate::types::zero_bytes32())
            },
        }
    }

    /// The height of the block being evaluated.
    pub fn get_current_block_height(&mut self) -> (res: u32)
        requires
            old(self).wf(),
        ensures
            *final(self) == *old(self),
            res == old(self).current_height(),
    {
        self.store.get_current_block_height()
    }

    /// The last-known burnchain block height: that of the parent of the block
    /// being evaluated (not of the burnchain block it is mined in), or that of
    /// the first block of the chain at height 0.
    pub fn get_current_burnchain_block_height(&mut self) -> (res: u32)
        requires
            old(self).wf(),
            old(self).headers().burn_block_height_of(old(self).last_mined_block()) is Some,
        ensures
            *final(self) == *old(self),
            Some(res) == old(self).headers().burn_block_height_of(old(self).last_mined_block()),
            old(self).chain().len() >= 2 ==> Some(res)
                == old(self).headers().burn_block_height_of(old(self).chain()[old(self).chain().len() - 2]@),
            old(self).chain().len() == 1 ==> Some(res) == old(self).headers().burn_block_height_of(first_index_block_hash()),
    {
        let cur_stacks_height = self.store.get_current_block_height();
        let last_mined_bhh = if cur_stacks_height == 0 {
            first_index_block_id()
        } else {
            self.get_index_block_header_hash(cur_stacks_height - 1)
        };
        match self.get_burnchain_block_height(&last_mined_bhh) {
            Some(h) => h,
            None => {
                proof { assert(false); }
                0
            },
        }
    }

    /// The header hash of the Stacks block at `block_height`.
    pub fn get_block_header_hash(&mut self, block_height: u32) -> (res: crate::types::BlockHeaderHash)
        requires
            block_height < old(self).chain().len(),
            old(self).headers().stacks_block_header_hash_of(old(self).chain()[block_height as int]@) is Some,
        ensures
            *final(self) == *old(self),
            Some(res@) == old(self).headers().stacks_block_header_hash_of(old(self).chain()[block_height as int]@),
    {
        let id_bhh = self.get_index_block_header_hash(block_height);
        match self.headers_db.get_stacks_block_header_hash_for_block(&id_bhh) {
            Some(h) => h,
            None => {
                proof { assert(false); }
                crate::types::BlockHeaderHash(crate::types::zero_bytes32())
            },
        }
    }

    /// The burnchain timestamp of the Stacks block at `block_height`.
    pub fn get_block_time(&mut self, block_height: u32) -> (res: u64)
        requires
            block_height < old(self).chain().len(),
            old(self).headers().burn_block_time_of(old(self).chain()[block_height as int]@) is Some,
        ensures
            *final(self) == *old(self),
            Some(res) == old(self).headers().burn_block_time_of(old(self).chain()[block_height as int]@),
    {
        let id_bhh = self.get_index_block_header_hash(block_height);
        match self.headers_db.get_burn_block_time_for_block(&id_bhh) {
            Some(t) => t,
            None => {
                proof { assert(false); }
                0
            },
        }
    }

    /// The header hash of the burnchain block of the Stacks block at `block_height`.
    pub fn get_burnchain_block_header_hash(&mut self, block_height: u32) -> (res: crate::types::BurnchainHeaderHash)
        requires
            block_height < old(self).chain().len(),
            old(self).headers().burn_header_hash_of(old(self).chain()[block_height as int]@) is Some,
        ensures
            *final(self) == *old(self),
            Some(res@) == old(self).headers().burn_header_hash_of(old(self).chain()[block_height as int]@),
    {
        let id_bhh = self.get_index_block_header_hash(block_height);
        match self.headers_db.get_burn_header_hash_for_block(&id_bhh) {
            Some(h) => h,
            None => {
                proof { assert(false); }
                crate::types::BurnchainHeaderHash(crate::types::zero_bytes32())
            },
        }
    }

    /// The burnchain height of the Stacks block `id_bhh`, if known.
    pub fn get_burnchain_block_height(&mut self, id_bhh: &crate::types::StacksBlockId) -> (res: Option<u32>)
        ensures
            *final(self) == *old(self),
            res == old(self).headers().burn_block_height_of(id_bhh@),
    {
        self.headers_db.get_burn_block_height_for_block(id_bhh)
    }

    /// The VRF seed of the Stacks block at `block_height`.
    pub fn get_block_vrf_seed(&mut self, block_height: u32) -> (res: crate::types::VRFSeed)
        requires
            block_height < old(self).chain().len(),
            old(self).headers().vrf_seed_of(old(self).chain()[block_height as int]@) is Some,
        ensures
            *final(self) == *old(self),
            Some(res@) == old(self).headers().vrf_seed_of(old(self).chain()[block_height as int]@),
    {
        let id_bhh = self.get_index_block_header_hash(block_height);
        match self.headers_db.get_vrf_seed_for_block(&id_bhh) {
            Some(s) => s,
            None => {
                proof { assert(false); }
                crate::types::VRFSeed(crate::types::zero_bytes32())
            },
        }
    }

    /// The principal of the miner of the Stacks block at `block_height`.
    pub fn get_miner_address(&mut self, block_height: u32) -> (res: crate::types::StandardPrincipalData)
        requires
            block_height < old(self).chain().len(),
            old(self).headers().miner_address_of(old(self).chain()[block_height as int]@) is Some,
        ensures
            *final(self) == *old(self),
            Some(res@) == old(self).headers().miner_address_of(old(self).chain()[block_height as int]@),
    {
        let id_bhh = self.get_index_block_header_hash(block_height);
        match self.headers_db.get_miner_address(&id_bhh) {
            Some(a) => crate::types::StandardPrincipalData::from_address(a),
            None => {
                proof { assert(false); }
                crate::types::StandardPrincipalData(0, crate::types::zero_bytes20())
            },
        }
    }

    /// The liquid supply of STX at the block being evaluated.
    pub fn get_total_liquid_ustx(&mut self) -> (res: u128)
        requires
            old(self).wf(),
        ensures
            *final(self) == *old(self),
            res == old(self).headers().total_liquid_ustx_of(old(self).chain()[old(self).current_height()]@),
    {
        let cur_height = self.get_current_block_height();
        let cur_id_bhh = self.get_index_block_header_hash(cur_height);
        self.headers_db.get_total_liquid_ustx(&cur_id_bhh)
    }

    /// The burnchain height of a sortition, if known.
    pub fn get_burn_block_height(&self, sortition_id: &crate::types::SortitionId) -> (res: Option<u32>)
        ensures
            res == self.burn_state().burn_block_height_of(sortition_id@),
    {
        self.burn_state_db.get_burn_block_height(sortition_id)
    }

    /// The header hash of the burnchain block at `height` in the fork of a
    /// sortition, if known.
    pub fn get_burn_header_hash(&self, height: u32, sortition_id: &crate::types::SortitionId) -> (res: Option<crate::types::BurnchainHeaderHash>)
        ensures
            crate::types::view_opt(res) == self.burn_state().burn_header_hash_of(height, sortition_id@),
    {
        self.burn_state_db.get_burn_header_hash(height, sortition_id)
    }
}

/// The key of a data variable's metadata.
pub open spec fn variable_meta_key(name: Seq<char>) -> Seq<char> {
    metadata_key(store_type_code(StoreType::VariableMeta), name)
}

/// The key of a data variable's value.
pub open spec fn variable_key(c: Seq<char>, name: Seq<char>) -> Seq<char> {
    trip_key(c, store_type_code(StoreType::Variable), name)
}

/// The key of a data map's metadata.
pub open spec fn map_meta_key(name: Seq<char>) -> Seq<char> {
    metadata_key(store_type_code(StoreType::DataMapMeta), name)
}

/// The key of a data map's entry, by the textual form of its key.
pub open spec fn map_entry_key(c: Seq<char>, name: Seq<char>, key_value: Seq<char>) -> Seq<char> {
    quad_key(c, store_type_code(StoreType::DataMap), name, key_value)
}

/// A stored value, if any, is a data variable's metadata.
pub open spec fn variable_meta_or_absent(v: Option<ValueView>) -> bool {
    match v {
        None => true,
        Some(ValueView::DataVariable(_)) => true,
        _ => false,
    }
}

/// A stored value, if any, is a data map's metadata.
pub open spec fn map_meta_or_absent(v: Option<ValueView>) -> bool {
    match v {
        None => true,
        Some(ValueView::DataMap(_, _)) => true,
        _ => false,
    }
}

/// A stored value, if any, is a data map entry.
pub open spec fn entry_or_absent(v: Option<ValueView>) -> bool {
    match v {
        None => true,
        Some(ValueView::Entry(_)) => true,
        _ => false,
    }
}

/// A data map entry is stored and has not been deleted.
pub open spec fn entry_present(v: Option<ValueView>) -> bool {
    v matches Some(ValueView::Entry(Some(_)))
}

/// The error is a type error of `value` against the type `ty`.
pub open spec fn is_type_error<T>(res: Result<T, ClarityError>, ty: Seq<char>, value: Seq<char>) -> bool {
    res matches Err(ClarityError::TypeValueError(t, v)) && t@ == ty && v@ == value
}

/// Turns the error of an unknown contract into the absence of the item.
fn map_no_contract_as_none(res: Result<Option<StoredValue>, ClarityError>) -> (out: Result<Option<StoredValue>, ClarityError>)
    ensures
        match res {
            Err(ClarityError::NoSuchContract(_)) => out matches Ok(None),
            _ => out == res,
        },
{
    match res {
        Err(ClarityError::NoSuchContract(_)) => Ok(None),
        x => x,
    }
}

impl<H: HeadersDB, B: BurnStateDB> ClarityDatabase<H, B> {
    /// Records a data variable and the type of its value.
    pub fn create_variable(&mut self, contract_identifier: &str, variable_name: &str, value_type: String)
        requires
            old(self).wf(),
            !old(self).has_metadata(contract_identifier@, variable_meta_key(variable_name@)),
        ensures
            final(self).wf(),
            final(self).store_view() == old(self).store_view().written(
                KeyView::Metadata(contract_identifier@, variable_meta_key(variable_name@)), ValueView::DataVariable(value_type@)),
            final(self).chain() == old(self).chain(),
            final(self).headers() == old(self).headers(),
            final(self).burn_state() == old(self).burn_state(),
    {
        let key = Self::make_metadata_key(StoreType::VariableMeta, variable_name);
        self.insert_metadata(contract_identifier, key.as_str(), StoredValue::DataVariable(
            crate::structures::DataVariableMetadata { value_type }));
    }

    /// The metadata of a data variable; `NoSuchDataVariable` if the contract
    /// or the variable is unknown.
    pub fn load_variable(&mut self, contract_identifier: &str, variable_name: &str) -> (res: Result<crate::structures::DataVariableMetadata, ClarityError>)
        requires
            variable_meta_or_absent(old(self).metadata_at(contract_identifier@, variable_meta_key(variable_name@))),
        ensures
            *final(self) == *old(self),
            match old(self).metadata_at(contract_identifier@, variable_meta_key(variable_name@)) {
                Some(ValueView::DataVariable(t)) => res matches Ok(m) && m.value_type@ == t,
                _ => res matches Err(ClarityError::NoSuchDataVariable(n)) && n@ == variable_name@,
            },
    {
        let key = Self::make_metadata_key(StoreType::VariableMeta, variable_name);
        match map_no_contract_as_none(self.fetch_metadata(contract_identifier, key.as_str())) {
            Ok(Some(StoredValue::DataVariable(m))) => Ok(m),
            _ => Err(ClarityError::NoSuchDataVariable(variable_name.to_owned())),
        }
    }

    /// Sets a data variable to `value`, the textual form of a Clarity value.
    /// `value_admitted` is whether the variable's type admits the value.
    pub fn set_variable(&mut self, contract_identifier: &str, variable_name: &str, value: String, value_admitted: bool) -> (res: Result<bool, ClarityError>)
        requires
            old(self).wf(),
            variable_meta_or_absent(old(self).metadata_at(contract_identifier@, variable_meta_key(variable_name@))),
        ensures
            final(self).wf(),
            final(self).chain() == old(self).chain(),
            final(self).headers() == old(self).headers(),
            final(self).burn_state() == old(self).burn_state(),
            match old(self).metadata_at(contract_identifier@, variable_meta_key(variable_name@)) {
                Some(ValueView::DataVariable(t)) => if value_admitted {
                    &&& res == Ok::<bool, ClarityError>(true)
                    &&& final(self).store_view() == old(self).store_view().written(
                        KeyView::Data(variable_key(contract_identifier@, variable_name@)), ValueView::Text(value@))
                } else {
                    is_type_error(res, t, value@) && final(self).store_view() == old(self).store_view()
                },
                _ => res matches Err(ClarityError::NoSuchDataVariable(n)) && n@ == variable_name@
                    && final(self).store_view() == old(self).store_view(),
            },
    {
        let variable_descriptor = self.load_variable(contract_identifier, variable_name)?;
        if !value_admitted {
            return Err(ClarityError::TypeValueError(variable_descriptor.value_type, value));
        }
        let key = Self::make_key_for_trip(contract_identifier, StoreType::Variable, variable_name);
        self.put(key.as_str(), StoredValue::Text(value));
        Ok(true)
    }

    /// The value of a data variable, in textual form; `None` if it was never set.
    pub fn lookup_variable(&mut self, contract_identifier: &str, variable_name: &str) -> (res: Result<Option<String>, ClarityError>)
        requires
            variable_meta_or_absent(old(self).metadata_at(contract_identifier@, variable_meta_key(variable_name@))),
            old(self).metadata_at(contract_identifier@, variable_meta_key(variable_name@)) matches Some(ValueView::DataVariable(_))
                ==> text_or_absent(old(self).data_at(variable_key(contract_identifier@, variable_name@))),
        ensures
            *final(self) == *old(self),
            match old(self).metadata_at(contract_identifier@, variable_meta_key(variable_name@)) {
                Some(ValueView::DataVariable(_)) => match old(self).data_at(variable_key(contract_identifier@, variable_name@)) {
                    Some(ValueView::Text(t)) => res matches Ok(Some(v)) && v@ == t,
                    _ => res matches Ok(None),
                },
                _ => res matches Err(ClarityError::NoSuchDataVariable(n)) && n@ == variable_name@,
            },
    {
        let _variable_descriptor = self.load_variable(contract_identifier, variable_name)?;
        let key = Self::make_key_for_trip(contract_identifier, StoreType::Variable, variable_name);
        match self.get(key.as_str()) {
            Some(StoredValue::Text(v)) => Ok(Some(v)),
            _ => Ok(None),
        }
    }

    /// Records a data map and the types of its keys and values.
    pub fn create_map(&mut self, contract_identifier: &str, map_name: &str, key_type: String, value_type: String)
        requires
            old(self).wf(),
            !old(self).has_metadata(contract_identifier@, map_meta_key(map_name@)),
        ensures
            final(self).wf(),
            final(self).store_view() == old(self).store_view().written(
                KeyView::Metadata(contract_identifier@, map_meta_key(map_name@)), ValueView::DataMap(key_type@, value_type@)),
            final(self).chain() == old(self).chain(),
            final(self).headers() == old(self).headers(),
            final(self).burn_state() == old(self).burn_state(),
    {
        let key = Self::make_metadata_key(StoreType::DataMapMeta, map_name);
        self.insert_metadata(contract_identifier, key.as_str(), StoredValue::DataMap(
            crate::structures::DataMapMetadata { key_type, value_type }));
    }

    /// The metadata of a data map; `NoSuchMap` if the contract or the map is unknown.
    pub fn load_map(&mut self, contract_identifier: &str, map_name: &str) -> (res: Result<crate::structures::DataMapMetadata, ClarityError>)
        requires
            map_meta_or_absent(old(self).metadata_at(contract_identifier@, map_meta_key(map_name@))),
        ensures
            *final(self) == *old(self),
            match old(self).metadata_at(contract_identifier@, map_meta_key(map_name@)) {
                Some(ValueView::DataMap(k, v)) => res matches Ok(m) && m.key_type@ == k && m.value_type@ == v,
                _ => res matches Err(ClarityError::NoSuchMap(n)) && n@ == map_name@,
            },
    {
        let key = Self::make_metadata_key(StoreType::DataMapMeta, map_name);
        match map_no_contract_as_none(self.fetch_metadata(contract_identifier, key.as_str())) {
            Ok(Some(StoredValue::DataMap(m))) => Ok(m),
            _ => Err(ClarityError::NoSuchMap(map_name.to_owned())),
        }
    }

    /// The key of a data map's entry, by the textual form of its key.
    pub fn make_key_for_data_map_entry(contract_identifier: &str, map_name: &str, key_value: &str) -> (res: String)
        ensures
            res@ == map_entry_key(contract_identifier@, map_name@, key_value@),
    {
        Self::make_key_for_quad(contract_identifier, StoreType::DataMap, map_name, key_value.to_owned())
    }

    /// The value of a data map's entry, in textual form; `None` if there is
    /// none. `key_admitted` is whether the map's key type admits the key.
    pub fn fetch_entry(&mut self, contract_identifier: &str, map_name: &str, key_value: &str, key_admitted: bool) -> (res: Result<Option<String>, ClarityError>)
        requires
            map_meta_or_absent(old(self).metadata_at(contract_identifier@, map_meta_key(map_name@))),
            old(self).metadata_at(contract_identifier@, map_meta_key(map_name@)) matches Some(ValueView::DataMap(_, _)) && key_admitted
                ==> entry_or_absent(old(self).data_at(map_entry_key(contract_identifier@, map_name@, key_value@))),
        ensures
            *final(self) == *old(self),
            match old(self).metadata_at(contract_identifier@, map_meta_key(map_name@)) {
                Some(ValueView::DataMap(kt, _)) => if key_admitted {
                    match old(self).data_at(map_entry_key(contract_identifier@, map_name@, key_value@)) {
                        Some(ValueView::Entry(Some(t))) => res matches Ok(Some(v)) && v@ == t,
                        _ => res matches Ok(None),
                    }
                } else {
                    is_type_error(res, kt, key_value@)
                },
                _ => res matches Err(ClarityError::NoSuchMap(n)) && n@ == map_name@,
            },
    {
        let map_descriptor = self.load_map(contract_identifier, map_name)?;
        if !key_admitted {
            return Err(ClarityError::TypeValueError(map_descriptor.key_type, key_value.to_owned()));
        }
        let key = Self::make_key_for_data_map_entry(contract_identifier, map_name, key_value);
        match self.get(key.as_str()) {
            Some(StoredValue::Entry(Some(v))) => Ok(Some(v)),
            _ => Ok(None),
        }
    }

    /// Sets a data map's entry, whether or not it exists.
    pub fn set_entry(&mut self, contract_identifier: &str, map_name: &str, key: &str, value: String, key_admitted: bool, value_admitted: bool) -> (res: Result<bool, ClarityError>)
        requires
            old(self).wf(),
            map_meta_or_absent(old(self).metadata_at(contract_identifier@, map_meta_key(map_name@))),
        ensures
            final(self).wf(),
            final(self).chain() == old(self).chain(),
            final(self).headers() == old(self).headers(),
            final(self).burn_state() == old(self).burn_state(),
            old(self).set_entry_outcome(contract_identifier@, map_name@, key@, value@, key_admitted, value_admitted, false, res, final(self).store_view()),
    {
        self.inner_set_entry(contract_identifier, map_name, key, value, key_admitted, value_admitted, false)
    }

    /// Sets a data map's entry only if it does not exist; answers whether it did not.
    pub fn insert_entry(&mut self, contract_identifier: &str, map_name: &str, key: &str, value: String, key_admitted: bool, value_admitted: bool) -> (res: Result<bool, ClarityError>)
        requires
            old(self).wf(),
            map_meta_or_absent(old(self).metadata_at(contract_identifier@, map_meta_key(map_name@))),
            old(self).metadata_at(contract_identifier@, map_meta_key(map_name@)) matches Some(ValueView::DataMap(_, _)) && key_admitted && value_admitted
                ==> entry_or_absent(old(self).data_at(map_entry_key(contract_identifier@, map_name@, key@))),
        ensures
            final(self).wf(),
            final(self).chain() == old(self).chain(),
            final(self).headers() == old(self).headers(),
            final(self).burn_state() == old(self).burn_state(),
            old(self).set_entry_outcome(contract_identifier@, map_name@, key@, value@, key_admitted, value_admitted, true, res, final(self).store_view()),
    {
        self.inner_set_entry(contract_identifier, map_name, key, value, key_admitted, value_admitted, true)
    }

    /// The answer and the store after setting a data map's entry.
    pub open spec fn set_entry_outcome(&self, c: Seq<char>, map_name: Seq<char>, key_value: Seq<char>, value: Seq<char>,
        key_admitted: bool, value_admitted: bool, return_if_exists: bool,
        res: Result<bool, ClarityError>, after: crate::rollback::StoreModel) -> bool
    {
        match self.metadata_at(c, map_meta_key(map_name)) {
            Some(ValueView::DataMap(kt, vt)) => if !key_admitted {
                is_type_error(res, kt, key_value) && after == self.store_view()
            } else if !value_admitted {
                is_type_error(res, vt, value) && after == self.store_view()
            } else if return_if_exists && entry_present(self.data_at(map_entry_key(c, map_name, key_value))) {
                res == Ok::<bool, ClarityError>(false) && after == self.store_view()
            } else {
                &&& res == Ok::<bool, ClarityError>(true)
                &&& after == self.store_view().written(KeyView::Data(map_entry_key(c, map_name, key_value)), ValueView::Entry(Some(value)))
            },
            _ => res matches Err(ClarityError::NoSuchMap(n)) && n@ == map_name && after == self.store_view(),
        }
    }

    /// A data map entry is stored at `key` and has not been deleted.
    fn data_map_entry_exists(&mut self, key: &str) -> (res: bool)
        requires
            entry_or_absent(old(self).data_at(key@)),
        ensures
            *final(self) == *old(self),
            res == entry_present(old(self).data_at(key@)),
    {
        match self.get(key) {
            Some(StoredValue::Entry(Some(_))) => true,
            _ => false,
        }
    }

    fn inner_set_entry(&mut self, contract_identifier: &str, map_name: &str, key_value: &str, value: String, key_admitted: bool, value_admitted: bool, return_if_exists: bool) -> (res: Result<bool, ClarityError>)
        requires
            old(self).wf(),
            map_meta_or_absent(old(self).metadata_at(contract_identifier@, map_meta_key(map_name@))),
            old(self).metadata_at(contract_identifier@, map_meta_key(map_name@)) matches Some(ValueView::DataMap(_, _)) && key_admitted && value_admitted && return_if_exists
                ==> entry_or_absent(old(self).data_at(map_entry_key(contract_identifier@, map_name@, key_value@))),
        ensures
            final(self).wf(),
            final(self).chain() == old(self).chain(),
            final(self).headers() == old(self).headers(),
            final(self).burn_state() == old(self).burn_state(),
            old(self).set_entry_outcome(contract_identifier@, map_name@, key_value@, value@, key_admitted, value_admitted, return_if_exists, res, final(self).store_view()),
    {
        let map_descriptor = self.load_map(contract_identifier, map_name)?;
        if !key_admitted {
            return Err(ClarityError::TypeValueError(map_descriptor.key_type, key_value.to_owned()));
        }
        if !value_admitted {
            return Err(ClarityError::TypeValueError(map_descriptor.value_type, value));
        }
        let key = Self::make_key_for_quad(contract_identifier, StoreType::DataMap, map_name, key_value.to_owned());
        if return_if_exists && self.data_map_entry_exists(key.as_str()) {
            return Ok(false);
        }
        self.put(key.as_str(), StoredValue::Entry(Some(value)));
        Ok(true)
    }

    /// Deletes a data map's entry; answers whether it existed.
    pub fn delete_entry(&mut self, contract_identifier: &str, map_name: &str, key_value: &str, key_admitted: bool) -> (res: Result<bool, ClarityError>)
        requires
            old(self).wf(),
            map_meta_or_absent(old(self).metadata_at(contract_identifier@, map_meta_key(map_name@))),
            old(self).metadata_at(contract_identifier@, map_meta_key(map_name@)) matches Some(ValueView::DataMap(_, _)) && key_admitted
                ==> entry_or_absent(old(self).data_at(map_entry_key(contract_identifier@, map_name@, key_value@))),
        ensures
            final(self).wf(),
            final(self).chain() == old(self).chain(),
            final(self).headers() == old(self).headers(),
            final(self).burn_state() == old(self).burn_state(),
            match old(self).metadata_at(contract_identifier@, map_meta_key(map_name@)) {
                Some(ValueView::DataMap(kt, _)) => if !key_admitted {
                    is_type_error(res, kt, key_value@) && final(self).store_view() == old(self).store_view()
                } else if !entry_present(old(self).data_at(map_entry_key(contract_identifier@, map_name@, key_value@))) {
                    res == Ok::<bool, ClarityError>(false) && final(self).store_view() == old(self).store_view()
                } else {
                    &&& res == Ok::<bool, ClarityError>(true)
                    &&& final(self).store_view() == old(self).store_view().written(
                        KeyView::Data(map_entry_key(contract_identifier@, map_name@, key_value@)), ValueView::Entry(None))
                },
                _ => res matches Err(ClarityError::NoSuchMap(n)) && n@ == map_name@
                    && final(self).store_view() == old(self).store_view(),
            },
    {
        let map_descriptor = self.load_map(contract_identifier, map_name)?;
        if !key_admitted {
            return Err(ClarityError::TypeValueError(map_descriptor.key_type, key_value.to_owned()));
        }
        let key = Self::make_key_for_quad(contract_identifier, StoreType::DataMap, map_name, key_value.to_owned());
        if !self.data_map_entry_exists(key.as_str()) {
            return Ok(false);
        }
        self.put(key.as_str(), StoredValue::Entry(None));
        Ok(true)
    }
}

/// The key of a fungible token's metadata.
pub open spec fn ft_meta_key(name: Seq<char>) -> Seq<char> {
    metadata_key(store_type_code(StoreType::FungibleTokenMeta), name)
}

/// The key of a fungible token's circulating supply.
pub open spec fn ft_supply_key(c: Seq<char>, name: Seq<char>) -> Seq<char> {
    trip_key(c, store_type_code(StoreType::CirculatingSupply), name)
}

/// The key of a principal's balance of a fungible token.
pub open spec fn ft_balance_key(c: Seq<char>, name: Seq<char>, principal: Seq<char>) -> Seq<char> {
    quad_key(c, store_type_code(StoreType::FungibleToken), name, principal)
}

/// The key of a non-fungible token's metadata.
pub open spec fn nft_meta_key(name: Seq<char>) -> Seq<char> {
    metadata_key(store_type_code(StoreType::NonFungibleTokenMeta), name)
}

/// The key of the owner of a non-fungible token's asset.
pub open spec fn nft_owner_key(c: Seq<char>, name: Seq<char>, asset: Seq<char>) -> Seq<char> {
    quad_key(c, store_type_code(StoreType::NonFungibleToken), name, asset)
}

/// A stored value, if any, is a fungible token's metadata.
pub open spec fn ft_meta_or_absent(v: Option<ValueView>) -> bool {
    match v {
        None => true,
        Some(ValueView::FungibleToken(_)) => true,
        _ => false,
    }
}

/// A stored value, if any, is a non-fungible token's metadata.
pub open spec fn nft_meta_or_absent(v: Option<ValueView>) -> bool {
    match v {
        None => true,
        Some(ValueView::NonFungibleToken(_)) => true,
        _ => false,
    }
}

/// A stored value, if any, is an STX balance.
pub open spec fn balance_or_absent(v: Option<ValueView>) -> bool {
    match v {
        None => true,
        Some(ValueView::Balance(_)) => true,
        _ => false,
    }
}

/// The answer and the store after raising the circulating supply of a
/// fungible token by `amount`.
pub open spec fn supply_increase_outcome(meta: Option<ValueView>, supply: Option<ValueView>, amount: u128,
    supply_key: Seq<char>, name: Seq<char>, before: crate::rollback::StoreModel,
    res: Result<(), ClarityError>, after: crate::rollback::StoreModel) -> bool
{
    match meta {
        Some(ValueView::FungibleToken(m)) => match m.total_supply {
            None => res is Ok && after == before,
            Some(total) => match supply {
                Some(ValueView::Amount(current)) => if current + amount > u128::MAX {
                    res == Err::<(), ClarityError>(ClarityError::ArithmeticOverflow) && after == before
                } else if current + amount > total {
                    res == Err::<(), ClarityError>(ClarityError::SupplyOverflow((current + amount) as u128, total))
                        && after == before
                } else {
                    res is Ok && after == before.written(KeyView::Data(supply_key), ValueView::Amount((current + amount) as u128))
                },
                _ => false,
            },
        },
        _ => res matches Err(ClarityError::NoSuchFT(n)) && n@ == name && after == before,
    }
}

impl<H: HeadersDB, B: BurnStateDB> ClarityDatabase<H, B> {
    /// Records a fungible token and its total supply, if any; a token with a
    /// total supply starts with a circulating supply of 0.
    pub fn create_fungible_token(&mut self, contract_identifier: &str, token_name: &str, total_supply: &Option<u128>)
        requires
            old(self).wf(),
            !old(self).has_metadata(contract_identifier@, ft_meta_key(token_name@)),
        ensures
            final(self).wf(),
            final(self).chain() == old(self).chain(),
            final(self).headers() == old(self).headers(),
            final(self).burn_state() == old(self).burn_state(),
            ({
                let with_meta = old(self).store_view().written(
                    KeyView::Metadata(contract_identifier@, ft_meta_key(token_name@)),
                    ValueView::FungibleToken(crate::structures::FungibleTokenMetadata { total_supply: *total_supply }));
                match total_supply {
                    Some(_) => final(self).store_view() == with_meta.written(
                        KeyView::Data(ft_supply_key(contract_identifier@, token_name@)), ValueView::Amount(0)),
                    None => final(self).store_view() == with_meta,
                }
            }),
    {
        let data = crate::structures::FungibleTokenMetadata { total_supply: *total_supply };
        let key = Self::make_metadata_key(StoreType::FungibleTokenMeta, token_name);
        self.insert_metadata(contract_identifier, key.as_str(), StoredValue::FungibleToken(data));

        if total_supply.is_some() {
            let supply_key = Self::make_key_for_trip(contract_identifier, StoreType::CirculatingSupply, token_name);
            self.put(supply_key.as_str(), StoredValue::Amount(0));
        }
    }

    /// The metadata of a fungible token; `NoSuchFT` if the contract or the
    /// token is unknown.
    fn load_ft(&mut self, contract_identifier: &str, token_name: &str) -> (res: Result<crate::structures::FungibleTokenMetadata, ClarityError>)
        requires
            ft_meta_or_absent(old(self).metadata_at(contract_identifier@, ft_meta_key(token_name@))),
        ensures
            *final(self) == *old(self),
            match old(self).metadata_at(contract_identifier@, ft_meta_key(token_name@)) {
                Some(ValueView::FungibleToken(m)) => res == Ok::<crate::structures::FungibleTokenMetadata, ClarityError>(m),
                _ => res matches Err(ClarityError::NoSuchFT(n)) && n@ == token_name@,
            },
    {
        let key = Self::make_metadata_key(StoreType::FungibleTokenMeta, token_name);
        match map_no_contract_as_none(self.fetch_metadata(contract_identifier, key.as_str())) {
            Ok(Some(StoredValue::FungibleToken(m))) => Ok(m),
            _ => Err(ClarityError::NoSuchFT(token_name.to_owned())),
        }
    }

    /// Raises the circulating supply of a fungible token by `amount`, unless
    /// that overflows or exceeds the token's total supply. Tokens without a
    /// total supply are not tracked.
    pub fn checked_increase_token_supply(&mut self, contract_identifier: &str, token_name: &str, amount: u128) -> (res: Result<(), ClarityError>)
        requires
            old(self).wf(),
            ft_meta_or_absent(old(self).metadata_at(contract_identifier@, ft_meta_key(token_name@))),
            old(self).metadata_at(contract_identifier@, ft_meta_key(token_name@))
                matches Some(ValueView::FungibleToken(m)) && m.total_supply is Some
                ==> old(self).data_at(ft_supply_key(contract_identifier@, token_name@)) matches Some(ValueView::Amount(_)),
        ensures
            final(self).wf(),
            final(self).chain() == old(self).chain(),
            final(self).headers() == old(self).headers(),
            final(self).burn_state() == old(self).burn_state(),
            supply_increase_outcome(
                old(self).metadata_at(contract_identifier@, ft_meta_key(token_name@)),
                old(self).data_at(ft_supply_key(contract_identifier@, token_name@)),
                amount, ft_supply_key(contract_identifier@, token_name@), token_name@,
                old(self).store_view(), res, final(self).store_view()),
    {
        let descriptor = self.load_ft(contract_identifier, token_name)?;

        if let Some(total_supply) = descriptor.total_supply {
            let key = Self::make_key_for_trip(contract_identifier, StoreType::CirculatingSupply, token_name);
            let current_supply: u128 = match self.get(key.as_str()) {
                Some(StoredValue::Amount(n)) => n,
                _ => {
                    proof { assert(false); }
                    0
                },
            };

            let new_supply = match current_supply.checked_add(amount) {
                Some(n) => n,
                None => return Err(ClarityError::ArithmeticOverflow),
            };

            if new_supply > total_supply {
                Err(ClarityError::SupplyOverflow(new_supply, total_supply))
            } else {
                self.put(key.as_str(), StoredValue::Amount(new_supply));
                Ok(())
            }
        } else {
            Ok(())
        }
    }

    /// A principal's balance of a fungible token; 0 if none was recorded.
    pub fn get_ft_balance(&mut self, contract_identifier: &str, token_name: &str, principal: &str) -> (res: Result<u128, ClarityError>)
        requires
            ft_meta_or_absent(old(self).metadata_at(contract_identifier@, ft_meta_key(token_name@))),
            old(self).metadata_at(contract_identifier@, ft_meta_key(token_name@)) matches Some(ValueView::FungibleToken(_))
                ==> amount_or_absent(old(self).data_at(ft_balance_key(contract_identifier@, token_name@, principal@))),
        ensures
            *final(self) == *old(self),
            match old(self).metadata_at(contract_identifier@, ft_meta_key(token_name@)) {
                Some(ValueView::FungibleToken(_)) => match old(self).data_at(ft_balance_key(contract_identifier@, token_name@, principal@)) {
                    Some(ValueView::Amount(b)) => res == Ok::<u128, ClarityError>(b),
                    _ => res == Ok::<u128, ClarityError>(0),
                },
                _ => res matches Err(ClarityError::NoSuchFT(n)) && n@ == token_name@,
            },
    {
        self.load_ft(contract_identifier, token_name)?;
        let key = Self::make_key_for_quad(contract_identifier, StoreType::FungibleToken, token_name, principal.to_owned());
        match self.get(key.as_str()) {
            Some(StoredValue::Amount(balance)) => Ok(balance),
            _ => Ok(0),
        }
    }

    /// Records a principal's balance of a fungible token.
    pub fn set_ft_balance(&mut self, contract_identifier: &str, token_name: &str, principal: &str, balance: u128) -> (res: Result<(), ClarityError>)
        requires
            old(self).wf(),
        ensures
            final(self).wf(),
            res is Ok,
            final(self).store_view() == old(self).store_view().written(
                KeyView::Data(ft_balance_key(contract_identifier@, token_name@, principal@)), ValueView::Amount(balance)),
            final(self).chain() == old(self).chain(),
            final(self).headers() == old(self).headers(),
            final(self).burn_state() == old(self).burn_state(),
    {
        let key = Self::make_key_for_quad(contract_identifier, StoreType::FungibleToken, token_name, principal.to_owned());
        self.put(key.as_str(), StoredValue::Amount(balance));
        Ok(())
    }

    /// Records a non-fungible token and the type of its asset identifiers.
    pub fn create_non_fungible_token(&mut self, contract_identifier: &str, token_name: &str, key_type: &str)
        requires
            old(self).wf(),
            !old(self).has_metadata(contract_identifier@, nft_meta_key(token_name@)),
        ensures
            final(self).wf(),
            final(self).store_view() == old(self).store_view().written(
                KeyView::Metadata(contract_identifier@, nft_meta_key(token_name@)), ValueView::NonFungibleToken(key_type@)),
            final(self).chain() == old(self).chain(),
            final(self).headers() == old(self).headers(),
            final(self).burn_state() == old(self).burn_state(),
    {
        let data = crate::structures::NonFungibleTokenMetadata { key_type: key_type.to_owned() };
        let key = Self::make_metadata_key(StoreType::NonFungibleTokenMeta, token_name);
        self.insert_metadata(contract_identifier, key.as_str(), StoredValue::NonFungibleToken(data));
    }

    /// The metadata of a non-fungible token; `NoSuchNFT` if the contract or
    /// the token is unknown.
    fn load_nft(&mut self, contract_identifier: &str, token_name: &str) -> (res: Result<crate::structures::NonFungibleTokenMetadata, ClarityError>)
        requires
            nft_meta_or_absent(old(self).metadata_at(contract_identifier@, nft_meta_key(token_name@))),
        ensures
            *final(self) == *old(self),
            match old(self).metadata_at(contract_identifier@, nft_meta_key(token_name@)) {
                Some(ValueView::NonFungibleToken(t)) => res matches Ok(m) && m.key_type@ == t,
                _ => res matches Err(ClarityError::NoSuchNFT(n)) && n@ == token_name@,
            },
    {
        let key = Self::make_metadata_key(StoreType::NonFungibleTokenMeta, token_name);
        match map_no_contract_as_none(self.fetch_metadata(contract_identifier, key.as_str())) {
            Ok(Some(StoredValue::NonFungibleToken(m))) => Ok(m),
            _ => Err(ClarityError::NoSuchNFT(token_name.to_owned())),
        }
    }

    /// The owner of an asset of a non-fungible token, in textual form;
    /// `NoSuchToken` if it has none. `asset_admitted` is whether the token's
    /// key type admits the asset.
    pub fn get_nft_owner(&mut self, contract_identifier: &str, asset_name: &str, asset: &str, asset_admitted: bool) -> (res: Result<String, ClarityError>)
        requires
            nft_meta_or_absent(old(self).metadata_at(contract_identifier@, nft_meta_key(asset_name@))),
            old(self).metadata_at(contract_identifier@, nft_meta_key(asset_name@)) matches Some(ValueView::NonFungibleToken(_))
                && asset_admitted ==> text_or_absent(old(self).data_at(nft_owner_key(contract_identifier@, asset_name@, asset@))),
        ensures
            *final(self) == *old(self),
            match old(self).metadata_at(contract_identifier@, nft_meta_key(asset_name@)) {
                Some(ValueView::NonFungibleToken(kt)) => if !asset_admitted {
                    is_type_error(res, kt, asset@)
                } else {
                    match old(self).data_at(nft_owner_key(contract_identifier@, asset_name@, asset@)) {
                        Some(ValueView::Text(owner)) => res matches Ok(p) && p@ == owner,
                        _ => res == Err::<String, ClarityError>(ClarityError::NoSuchToken),
                    }
                },
                _ => res matches Err(ClarityError::NoSuchNFT(n)) && n@ == asset_name@,
            },
    {
        let descriptor = self.load_nft(contract_identifier, asset_name)?;
        if !asset_admitted {
            return Err(ClarityError::TypeValueError(descriptor.key_type, asset.to_owned()));
        }
        let key = Self::make_key_for_quad(contract_identifier, StoreType::NonFungibleToken, asset_name, asset.to_owned());
        match self.get(key.as_str()) {
            Some(StoredValue::Text(owner)) => Ok(owner),
            _ => Err(ClarityError::NoSuchToken),
        }
    }

    /// The type of the asset identifiers of a non-fungible token.
    pub fn get_nft_key_type(&mut self, contract_identifier: &str, asset_name: &str) -> (res: Result<String, ClarityError>)
        requires
            nft_meta_or_absent(old(self).metadata_at(contract_identifier@, nft_meta_key(asset_name@))),
        ensures
            *final(self) == *old(self),
            match old(self).metadata_at(contract_identifier@, nft_meta_key(asset_name@)) {
                Some(ValueView::NonFungibleToken(kt)) => res matches Ok(t) && t@ == kt,
                _ => res matches Err(ClarityError::NoSuchNFT(n)) && n@ == asset_name@,
            },
    {
        let descriptor = self.load_nft(contract_identifier, asset_name)?;
        Ok(descriptor.key_type)
    }

    /// Records the owner of an asset of a non-fungible token.
    /// `asset_admitted` is whether the token's key type admits the asset.
    pub fn set_nft_owner(&mut self, contract_identifier: &str, asset_name: &str, asset: &str, asset_admitted: bool, principal: &str) -> (res: Result<(), ClarityError>)
        requires
            old(self).wf(),
            nft_meta_or_absent(old(self).metadata_at(contract_identifier@, nft_meta_key(asset_name@))),
        ensures
            final(self).wf(),
            final(self).chain() == old(self).chain(),
            final(self).headers() == old(self).headers(),
            final(self).burn_state() == old(self).burn_state(),
            match old(self).metadata_at(contract_identifier@, nft_meta_key(asset_name@)) {
                Some(ValueView::NonFungibleToken(kt)) => if !asset_admitted {
                    is_type_error(res, kt, asset@) && final(self).store_view() == old(self).store_view()
                } else {
                    res is Ok && final(self).store_view() == old(self).store_view().written(
                        KeyView::Data(nft_owner_key(contract_identifier@, asset_name@, asset@)), ValueView::Text(principal@))
                },
                _ => res matches Err(ClarityError::NoSuchNFT(n)) && n@ == asset_name@
                    && final(self).store_view() == old(self).store_view(),
            },
    {
        let descriptor = self.load_nft(contract_identifier, asset_name)?;
        if !asset_admitted {
            return Err(ClarityError::TypeValueError(descriptor.key_type, asset.to_owned()));
        }
        let key = Self::make_key_for_quad(contract_identifier, StoreType::NonFungibleToken, asset_name, asset.to_owned());
        self.put(key.as_str(), StoredValue::Text(principal.to_owned()));
        Ok(())
    }

    // ------------------------------------------------------------------
    // STX balances and nonces
    // ------------------------------------------------------------------

    fn make_key_for_account(principal: &str, data: StoreType) -> (res: String)
        ensures
            res@ == account_key(principal@, store_type_code(data)),
    {
        let mut key = "vm-account::".to_owned();
        key.append(principal);
        key.append("::");
        push_decimal_u64(&mut key, data.code() as u64);
        key
    }

    /// The key of a principal's STX balance.
    pub fn make_key_for_account_balance(principal: &str) -> (res: String)
        ensures
            res@ == account_key(principal@, store_type_code(StoreType::STXBalance)),
    {
        Self::make_key_for_account(principal, StoreType::STXBalance)
    }

    /// The key of a principal's nonce.
    pub fn make_key_for_account_nonce(principal: &str) -> (res: String)
        ensures
            res@ == account_key(principal@, store_type_code(StoreType::Nonce)),
    {
        Self::make_key_for_account(principal, StoreType::Nonce)
    }

    /// The key of a principal's STX locked by PoX.
    pub fn make_key_for_account_stx_locked(principal: &str) -> (res: String)
        ensures
            res@ == account_key(principal@, store_type_code(StoreType::PoxSTXLockup)),
    {
        Self::make_key_for_account(principal, StoreType::PoxSTXLockup)
    }

    /// The key of the height at which a principal's PoX lock expires.
    pub fn make_key_for_account_unlock_height(principal: &str) -> (res: String)
        ensures
            res@ == account_key(principal@, store_type_code(StoreType::PoxUnlockHeight)),
    {
        Self::make_key_for_account(principal, StoreType::PoxUnlockHeight)
    }

    /// A principal's STX balance; the zero balance if none was recorded.
    pub fn get_account_stx_balance(&mut self, principal: &str) -> (res: crate::balance::STXBalance)
        requires
            balance_or_absent(old(self).data_at(account_key(principal@, store_type_code(StoreType::STXBalance)))),
        ensures
            *final(self) == *old(self),
            match old(self).data_at(account_key(principal@, store_type_code(StoreType::STXBalance))) {
                Some(ValueView::Balance(b)) => res == b,
                _ => res == (crate::balance::STXBalance { amount_unlocked: 0, amount_locked: 0, unlock_height: 0 }),
            },
    {
        let key = Self::make_key_for_account_balance(principal);
        match self.get(key.as_str()) {
            Some(StoredValue::Balance(balance)) => balance,
            _ => crate::balance::STXBalance::zero(),
        }
    }

    /// Records a principal's STX balance.
    pub fn set_account_stx_balance(&mut self, principal: &str, balance: &crate::balance::STXBalance)
        requires
            old(self).wf(),
        ensures
            final(self).wf(),
            final(self).store_view() == old(self).store_view().written(
                KeyView::Data(account_key(principal@, store_type_code(StoreType::STXBalance))), ValueView::Balance(*balance)),
            final(self).chain() == old(self).chain(),
            final(self).headers() == old(self).headers(),
            final(self).burn_state() == old(self).burn_state(),
    {
        let key = Self::make_key_for_account_balance(principal);
        let copy = crate::balance::STXBalance {
            amount_unlocked: balance.amount_unlocked,
            amount_locked: balance.amount_locked,
            unlock_height: balance.unlock_height,
        };
        self.put(key.as_str(), StoredValue::Balance(copy));
    }

    /// A principal's nonce; 0 if none was recorded.
    pub fn get_account_nonce(&mut self, principal: &str) -> (res: u64)
        requires
            count_or_absent(old(self).data_at(account_key(principal@, store_type_code(StoreType::Nonce)))),
        ensures
            *final(self) == *old(self),
            match old(self).data_at(account_key(principal@, store_type_code(StoreType::Nonce))) {
                Some(ValueView::Count(n)) => res == n,
                _ => res == 0,
            },
    {
        let key = Self::make_key_for_account_nonce(principal);
        match self.get(key.as_str()) {
            Some(StoredValue::Count(nonce)) => nonce,
            _ => 0,
        }
    }

    /// Records a principal's nonce.
    pub fn set_account_nonce(&mut self, principal: &str, nonce: u64)
        requires
            old(self).wf(),
        ensures
            final(self).wf(),
            final(self).store_view() == old(self).store_view().written(
                KeyView::Data(account_key(principal@, store_type_code(StoreType::Nonce))), ValueView::Count(nonce)),
            final(self).chain() == old(self).chain(),
            final(self).headers() == old(self).headers(),
            final(self).burn_state() == old(self).burn_state(),
    {
        let key = Self::make_key_for_account_nonce(principal);
        self.put(key.as_str(), StoredValue::Count(nonce));
    }
}

/// The metadata keys of a contract differ from each other.
pub proof fn lemma_contract_keys_differ()
    ensures
        contract_size_key() != contract_src_key(),
        contract_size_key() != contract_data_size_key(),
        contract_size_key() != contract_body_key(),
        contract_src_key() != contract_data_size_key(),
        contract_src_key() != contract_body_key(),
        contract_data_size_key() != contract_body_key(),
{
    reveal_strlit("contract-size");
    reveal_strlit("contract-src");
    reveal_strlit("contract-data-size");
    reveal_strlit("contract");
    reveal_strlit("vm-metadata::");
    reveal_strlit("::");
    let p = "vm-metadata::"@ + crate::keys::decimal(9) + "::"@;
    assert(contract_size_key() == p + "contract-size"@);
    assert(contract_src_key() == p + "contract-src"@);
    assert(contract_data_size_key() == p + "contract-data-size"@);
    assert(contract_body_key() == p + "contract"@);
    let n: int = p.len() as int;
    assert(contract_size_key()[n + 10] != contract_src_key()[n + 10]);
    assert(contract_size_key()[n + 9] != contract_data_size_key()[n + 9]);
    assert(contract_size_key().len() != contract_body_key().len());
    assert(contract_src_key()[n + 9] != contract_data_size_key()[n + 9]);
    assert(contract_src_key().len() != contract_body_key().len());
    assert(contract_data_size_key().len() != contract_body_key().len());
}

/// Raising a token's circulating supply never takes it above the token's
/// total supply: if it was within the total before, it is within it after,
/// whether the raise succeeded or was refused.
pub proof fn law_supply_stays_within_total(meta: Option<ValueView>, amount: u128, supply_key: Seq<char>,
    name: Seq<char>, before: crate::rollback::StoreModel, res: Result<(), ClarityError>, after: crate::rollback::StoreModel,
    total: u128, current: u128)
    requires
        meta matches Some(ValueView::FungibleToken(m)) && m.total_supply == Some(total),
        before.lookup(KeyView::Data(supply_key)) == Some(ValueView::Amount(current)),
        current <= total,
        supply_increase_outcome(meta, Some(ValueView::Amount(current)), amount, supply_key, name, before, res, after),
    ensures
        after.lookup(KeyView::Data(supply_key)) matches Some(ValueView::Amount(s)) && s <= total,
        res is Ok ==> current + amount <= total
            && after.lookup(KeyView::Data(supply_key)) == Some(ValueView::Amount((current + amount) as u128)),
        res is Err ==> after == before,
{
    if res is Ok {
        crate::rollback::law_read_after_write(before, KeyView::Data(supply_key),
            ValueView::Amount((current + amount) as u128), KeyView::Data(supply_key));
    }
}

/// The STX balance, nonce, locked amount and unlock height of an account are
/// kept under four different keys, so writing one leaves the others alone.
pub proof fn law_account_keys_differ(principal: Seq<char>)
    ensures
        account_key(principal, store_type_code(StoreType::STXBalance)) != account_key(principal, store_type_code(StoreType::Nonce)),
        account_key(principal, store_type_code(StoreType::STXBalance)) != account_key(principal, store_type_code(StoreType::PoxSTXLockup)),
        account_key(principal, store_type_code(StoreType::STXBalance)) != account_key(principal, store_type_code(StoreType::PoxUnlockHeight)),
        account_key(principal, store_type_code(StoreType::Nonce)) != account_key(principal, store_type_code(StoreType::PoxSTXLockup)),
        account_key(principal, store_type_code(StoreType::Nonce)) != account_key(principal, store_type_code(StoreType::PoxUnlockHeight)),
        account_key(principal, store_type_code(StoreType::PoxSTXLockup)) != account_key(principal, store_type_code(StoreType::PoxUnlockHeight)),
{
    reveal_with_fuel(crate::keys::decimal, 3);
    let prefix = "vm-account::"@ + principal + "::"@;
    let d18 = crate::keys::decimal(18);
    let d19 = crate::keys::decimal(19);
    let d20 = crate::keys::decimal(20);
    let d21 = crate::keys::decimal(21);
    assert(d18.len() == 2 && d19.len() == 2 && d20.len() == 2 && d21.len() == 2);
    let n: int = prefix.len() as int + 1;
    assert((prefix + d18)[n] == d18[1]);
    assert((prefix + d19)[n] == d19[1]);
    assert((prefix + d20)[n] == d20[1]);
    assert((prefix + d21)[n] == d21[1]);
    assert(d18[1] != d19[1] && d18[1] != d20[1] && d18[1] != d21[1]);
    assert(d19[1] != d20[1] && d19[1] != d21[1] && d20[1] != d21[1]);
}

/// Once a contract's code is committed to and the size of its constants is
/// recorded, its size is that of its code in bytes plus that of its constants.
pub proof fn law_contract_size_is_code_plus_data(m: crate::rollback::StoreModel, c: Seq<char>, code: Seq<char>,
    code_len: u64, hash: Seq<u8>, data_size: u64)
    ensures
        ({
            let after = m
                .written(KeyView::Commitment(c), ValueView::Commitment(hash))
                .written(KeyView::Metadata(c, contract_size_key()), ValueView::Count(code_len))
                .written(KeyView::Metadata(c, contract_src_key()), ValueView::Text(code))
                .written(KeyView::Metadata(c, contract_data_size_key()), ValueView::Count(data_size));
            &&& after.lookup(KeyView::Commitment(c)) is Some
            &&& after.lookup(KeyView::Metadata(c, contract_size_key())) == Some(ValueView::Count(code_len))
            &&& after.lookup(KeyView::Metadata(c, contract_data_size_key())) == Some(ValueView::Count(data_size))
            &&& after.lookup(KeyView::Metadata(c, contract_src_key())) == Some(ValueView::Text(code))
        }),
{
    lemma_contract_keys_differ();
    let m1 = m.written(KeyView::Commitment(c), ValueView::Commitment(hash));
    let m2 = m1.written(KeyView::Metadata(c, contract_size_key()), ValueView::Count(code_len));
    let m3 = m2.written(KeyView::Metadata(c, contract_src_key()), ValueView::Text(code));
    let m4 = m3.written(KeyView::Metadata(c, contract_data_size_key()), ValueView::Count(data_size));
    crate::rollback::law_read_after_write(m, KeyView::Commitment(c), ValueView::Commitment(hash), KeyView::Commitment(c));
    crate::rollback::law_read_after_write(m1, KeyView::Metadata(c, contract_size_key()), ValueView::Count(code_len), KeyView::Commitment(c));
    crate::rollback::law_read_after_write(m2, KeyView::Metadata(c, contract_src_key()), ValueView::Text(code), KeyView::Commitment(c));
    crate::rollback::law_read_after_write(m3, KeyView::Metadata(c, contract_data_size_key()), ValueView::Count(data_size), KeyView::Commitment(c));
    crate::rollback::law_read_after_write(m1, KeyView::Metadata(c, contract_size_key()), ValueView::Count(code_len), KeyView::Metadata(c, contract_size_key()));
    crate::rollback::law_read_after_write(m2, KeyView::Metadata(c, contract_src_key()), ValueView::Text(code), KeyView::Metadata(c, contract_size_key()));
    crate::rollback::law_read_after_write(m3, KeyView::Metadata(c, contract_data_size_key()), ValueView::Count(data_size), KeyView::Metadata(c, contract_size_key()));
    crate::rollback::law_read_after_write(m2, KeyView::Metadata(c, contract_src_key()), ValueView::Text(code), KeyView::Metadata(c, contract_src_key()));
    crate::rollback::law_read_after_write(m3, KeyView::Metadata(c, contract_data_size_key()), ValueView::Count(data_size), KeyView::Metadata(c, contract_src_key()));
    crate::rollback::law_read_after_write(m3, KeyView::Metadata(c, contract_data_size_key()), ValueView::Count(data_size), KeyView::Metadata(c, contract_data_size_key()));
}

/// Once a data variable is created for a contract, its metadata reads back
/// with the type it was created with, whether or not the contract's code has
/// been committed to; until then it reads as absent, which loading answers
/// as no such variable.
pub proof fn law_load_after_create_variable<H: HeadersDB, B: BurnStateDB>(before: ClarityDatabase<H, B>,
    after: ClarityDatabase<H, B>, c: Seq<char>, v: Seq<char>, t: Seq<char>)
    requires
        after.store_view() == before.store_view().written(
            KeyView::Metadata(c, variable_meta_key(v)), ValueView::DataVariable(t)),
    ensures
        after.metadata_at(c, variable_meta_key(v)) == Some(ValueView::DataVariable(t)),
        forall|w: Seq<char>| w != v ==> after.metadata_at(c, variable_meta_key(w)) == before.metadata_at(c, variable_meta_key(w)),
{
    let key = KeyView::Metadata(c, variable_meta_key(v));
    crate::rollback::law_read_after_write(before.store_view(), key, ValueView::DataVariable(t), key);
    assert forall|w: Seq<char>| w != v implies after.metadata_at(c, variable_meta_key(w)) == before.metadata_at(c, variable_meta_key(w)) by {
        let prefix = "vm-metadata::"@ + crate::keys::decimal(store_type_code(StoreType::VariableMeta) as nat) + "::"@;
        assert(variable_meta_key(w) == prefix + w);
        assert(variable_meta_key(v) == prefix + v);
        assert((prefix + w).subrange(prefix.len() as int, (prefix + w).len() as int) =~= w);
        assert((prefix + v).subrange(prefix.len() as int, (prefix + v).len() as int) =~= v);
        crate::rollback::law_read_after_write(before.store_view(), key, ValueView::DataVariable(t),
            KeyView::Metadata(c, variable_meta_key(w)));
    }
}

/// Recording an item of one principal's account (its STX balance, nonce,
/// locked amount or unlock height) leaves that item of every other
/// principal's account as it was.
pub proof fn law_accounts_independent(m: crate::rollback::StoreModel, p: Seq<char>, q: Seq<char>,
    code: u8, value: ValueView)
    requires
        p != q,
    ensures
        m.written(KeyView::Data(account_key(p, code)), value).lookup(KeyView::Data(account_key(q, code)))
            == m.lookup(KeyView::Data(account_key(q, code))),
{
    crate::keys::law_account_key_injective(p, q, code);
    crate::rollback::law_read_after_write(m, KeyView::Data(account_key(p, code)), value,
        KeyView::Data(account_key(q, code)));
}

/// Inserting into a data map whose key already has an entry is refused: the
/// answer is `false` and the store is left as it was, whatever the value
/// offered, even one equal to the stored one. An insert at a key without an
/// entry, and every set, answers `true` and the entry then reads back as the
/// value given, with every other entry of the map as it was.
pub proof fn law_insert_never_overwrites<H: HeadersDB, B: BurnStateDB>(db: ClarityDatabase<H, B>,
    c: Seq<char>, map_name: Seq<char>, key_value: Seq<char>, value: Seq<char>, return_if_exists: bool,
    res: Result<bool, ClarityError>, after: crate::rollback::StoreModel, other_key: Seq<char>)
    requires
        db.metadata_at(c, map_meta_key(map_name)) matches Some(ValueView::DataMap(_, _)),
        db.set_entry_outcome(c, map_name, key_value, value, true, true, return_if_exists, res, after),
    ensures
        return_if_exists && entry_present(db.data_at(map_entry_key(c, map_name, key_value))) ==> {
            &&& res == Ok::<bool, ClarityError>(false)
            &&& after == db.store_view()
        },
        !(return_if_exists && entry_present(db.data_at(map_entry_key(c, map_name, key_value)))) ==> {
            &&& res == Ok::<bool, ClarityError>(true)
            &&& after.lookup(KeyView::Data(map_entry_key(c, map_name, key_value))) == Some(ValueView::Entry(Some(value)))
            &&& other_key != key_value ==> after.lookup(KeyView::Data(map_entry_key(c, map_name, other_key)))
                == db.data_at(map_entry_key(c, map_name, other_key))
        },
{
    let code = store_type_code(StoreType::DataMap);
    crate::keys::law_item_keys_injective(c, code, map_name, key_value, other_key);
    crate::rollback::law_read_after_write(db.store_view(), KeyView::Data(map_entry_key(c, map_name, key_value)),
        ValueView::Entry(Some(value)), KeyView::Data(map_entry_key(c, map_name, other_key)));
}

/// The last-known burnchain height is read for the parent of the block being
/// evaluated: at a height of 1 or more, the block just below it in the chain;
/// at height 0, the first block.
pub proof fn law_last_mined_block_is_parent<H: HeadersDB, B: BurnStateDB>(db: ClarityDatabase<H, B>)
    requires
        db.chain().len() >= 1,
    ensures
        db.chain().len() >= 2 ==> db.last_mined_block() == db.chain()[db.chain().len() - 2]@,
        db.chain().len() == 1 ==> db.last_mined_block() == first_index_block_hash(),
{
}

/// Recording an account's nonce gives it back on the next read, and leaves
/// the account's STX balance as it was; recording the balance leaves the nonce.
pub proof fn law_account_nonce_and_balance_independent(m: crate::rollback::StoreModel, principal: Seq<char>,
    nonce: u64, balance: crate::balance::STXBalance)
    ensures
        ({
            let nonce_key = KeyView::Data(account_key(principal, store_type_code(StoreType::Nonce)));
            let balance_key = KeyView::Data(account_key(principal, store_type_code(StoreType::STXBalance)));
            &&& m.written(nonce_key, ValueView::Count(nonce)).lookup(nonce_key) == Some(ValueView::Count(nonce))
            &&& m.written(nonce_key, ValueView::Count(nonce)).lookup(balance_key) == m.lookup(balance_key)
            &&& m.written(balance_key, ValueView::Balance(balance)).lookup(balance_key) == Some(ValueView::Balance(balance))
            &&& m.written(balance_key, ValueView::Balance(balance)).lookup(nonce_key) == m.lookup(nonce_key)
        }),
{
    let nonce_key = KeyView::Data(account_key(principal, store_type_code(StoreType::Nonce)));
    let balance_key = KeyView::Data(account_key(principal, store_type_code(StoreType::STXBalance)));
    law_account_keys_differ(principal);
    crate::rollback::law_read_after_write(m, nonce_key, ValueView::Count(nonce), balance_key);
    crate::rollback::law_read_after_write(m, balance_key, ValueView::Balance(balance), nonce_key);
}

/// The sum of the amounts of the raises that succeeded.
pub open spec fn successful_sum(amounts: Seq<u128>, results: Seq<Result<(), ClarityError>>) -> int
    decreases amounts.len(),
{
    if amounts.len() == 0 {
        0
    } else {
        successful_sum(amounts.drop_last(), results.drop_last())
            + if results.last() is Ok { amounts.last() as int } else { 0 }
    }
}

/// Over any sequence of raises of a token's circulating supply, each made
/// on the store that the one before left (`states[i]` to `states[i + 1]`),
/// the supply after each raise is the initial supply plus the amounts of the
/// raises that succeeded so far, and never exceeds the token's total supply.
/// A token starts with a circulating supply of 0 (`create_fungible_token`).
pub proof fn law_supply_over_raises(meta: Option<ValueView>, supply_key: Seq<char>, name: Seq<char>, total: u128,
    initial: u128, amounts: Seq<u128>, results: Seq<Result<(), ClarityError>>, states: Seq<crate::rollback::StoreModel>)
    requires
        meta matches Some(ValueView::FungibleToken(m)) && m.total_supply == Some(total),
        initial <= total,
        states.len() == amounts.len() + 1,
        results.len() == amounts.len(),
        states[0].lookup(KeyView::Data(supply_key)) == Some(ValueView::Amount(initial)),
        forall|i: int| 0 <= i < amounts.len() ==> supply_increase_outcome(meta,
            #[trigger] states[i].lookup(KeyView::Data(supply_key)), amounts[i], supply_key, name,
            states[i], results[i], states[i + 1]),
    ensures
        forall|i: int| 0 <= i < states.len() ==> {
            &&& initial + successful_sum(amounts.take(i), results.take(i)) <= total
            &&& #[trigger] states[i].lookup(KeyView::Data(supply_key))
                == Some(ValueView::Amount((initial + successful_sum(amounts.take(i), results.take(i))) as u128))
        },
{
    assert forall|i: int| 0 <= i < states.len() implies {
        &&& initial + successful_sum(amounts.take(i), results.take(i)) <= total
        &&& #[trigger] states[i].lookup(KeyView::Data(supply_key))
            == Some(ValueView::Amount((initial + successful_sum(amounts.take(i), results.take(i))) as u128))
    } by {
        lemma_supply_prefix(meta, supply_key, name, total, initial, amounts, results, states, i);
    }
}

proof fn lemma_supply_prefix(meta: Option<ValueView>, supply_key: Seq<char>, name: Seq<char>, total: u128,
    initial: u128, amounts: Seq<u128>, results: Seq<Result<(), ClarityError>>, states: Seq<crate::rollback::StoreModel>, k: int)
    requires
        meta matches Some(ValueView::FungibleToken(m)) && m.total_supply == Some(total),
        initial <= total,
        states.len() == amounts.len() + 1,
        results.len() == amounts.len(),
        states[0].lookup(KeyView::Data(supply_key)) == Some(ValueView::Amount(initial)),
        forall|i: int| 0 <= i < amounts.len() ==> supply_increase_outcome(meta,
            #[trigger] states[i].lookup(KeyView::Data(supply_key)), amounts[i], supply_key, name,
            states[i], results[i], states[i + 1]),
        0 <= k < states.len(),
    ensures
        successful_sum(amounts.take(k), results.take(k)) >= 0,
        initial + successful_sum(amounts.take(k), results.take(k)) <= total,
        states[k].lookup(KeyView::Data(supply_key))
            == Some(ValueView::Amount((initial + successful_sum(amounts.take(k), results.take(k))) as u128)),
    decreases k,
{
    if k == 0 {
        assert(amounts.take(0).len() == 0);
    } else {
        let j = k - 1;
        lemma_supply_prefix(meta, supply_key, name, total, initial, amounts, results, states, j);
        let before_sum = initial + successful_sum(amounts.take(j), results.take(j));
        assert(amounts.take(k).drop_last() =~= amounts.take(j));
        assert(results.take(k).drop_last() =~= results.take(j));
        assert(amounts.take(k).last() == amounts[j]);
        assert(results.take(k).last() == results[j]);
        assert(supply_increase_outcome(meta, states[j].lookup(KeyView::Data(supply_key)), amounts[j], supply_key, name,
            states[j], results[j], states[j + 1]));
        law_supply_stays_within_total(meta, amounts[j], supply_key, name, states[j], results[j], states[j + 1],
            total, before_sum as u128);
    }
}

} // verus!
