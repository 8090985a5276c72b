//! The store under the Clarity database: a log of writes with nested
//! transactions that can be committed or rolled back, and the chain of
//! blocks below the block being evaluated.

use vstd::prelude::*;
use crate::balance::STXBalance;
use crate::structures::{
    DataMapMetadata, DataVariableMetadata, FungibleTokenMetadata, NonFungibleTokenMetadata,
};
use crate::types::{view_opt, StacksBlockId};

verus! {

/// Where a value is stored: in the data of the chain, in the metadata of a
/// contract, or as the commitment to a contract's code.
pub enum StoreKey {
    Data(String),
    Metadata(String, String),
    Commitment(String),
}

/// The mathematical form of a `StoreKey`.
pub enum KeyView {
    Data(Seq<char>),
    Metadata(Seq<char>, Seq<char>),
    Commitment(Seq<char>),
}

impl View for StoreKey {
    type V = KeyView;

    open spec fn view(&self) -> KeyView {
        match self {
            StoreKey::Data(k) => KeyView::Data(k@),
            StoreKey::Metadata(c, k) => KeyView::Metadata(c@, k@),
            StoreKey::Commitment(c) => KeyView::Commitment(c@),
        }
    }
}

impl StoreKey {
    /// Whether two keys name the same place.
    pub fn same_as(&self, other: &StoreKey) -> (res: bool)
        ensures
            res == (self@ == other@),
    {
        match self {
            StoreKey::Data(a) => match other {
                StoreKey::Data(b) => a.eq(b),
                _ => false,
            },
            StoreKey::Metadata(c1, k1) => match other {
                StoreKey::Metadata(c2, k2) => c1.eq(c2) && k1.eq(k2),
                _ => false,
            },
            StoreKey::Commitment(a) => match other {
                StoreKey::Commitment(b) => a.eq(b),
                _ => false,
            },
        }
    }

    /// A copy of the key.
    pub fn duplicate(&self) -> (res: StoreKey)
        ensures
            res == *self,
    {
        match self {
            StoreKey::Data(k) => StoreKey::Data(k.clone()),
            StoreKey::Metadata(c, k) => StoreKey::Metadata(c.clone(), k.clone()),
            StoreKey::Commitment(c) => StoreKey::Commitment(c.clone()),
        }
    }
}

/// A stored value.
pub enum StoredValue {
    /// A count: a nonce, or a size in bytes.
    Count(u64),
    /// An amount of tokens.
    Amount(u128),
    /// A text: a contract's source or body, a Clarity value, a principal.
    Text(String),
    /// A data map entry: its value, or `None` once deleted.
    Entry(Option<String>),
    Balance(STXBalance),
    FungibleToken(FungibleTokenMetadata),
    NonFungibleToken(NonFungibleTokenMetadata),
    DataVariable(DataVariableMetadata),
    DataMap(DataMapMetadata),
    /// The hash of a contract's code.
    Commitment([u8; 32]),
}

/// The mathematical form of a `StoredValue`: texts are sequences of
/// characters, hashes sequences of bytes.
pub enum ValueView {
    Count(u64),
    Amount(u128),
    Text(Seq<char>),
    Entry(Option<Seq<char>>),
    Balance(STXBalance),
    FungibleToken(FungibleTokenMetadata),
    NonFungibleToken(Seq<char>),
    DataVariable(Seq<char>),
    DataMap(Seq<char>, Seq<char>),
    Commitment(Seq<u8>),
}

impl View for StoredValue {
    type V = ValueView;

    open spec fn view(&self) -> ValueView {
        match self {
            StoredValue::Count(n) => ValueView::Count(*n),
            StoredValue::Amount(n) => ValueView::Amount(*n),
            StoredValue::Text(t) => ValueView::Text(t@),
            StoredValue::Entry(e) => ValueView::Entry(match e {
                Some(t) => Some(t@),
                None => None,
            }),
            StoredValue::Balance(b) => ValueView::Balance(*b),
            StoredValue::FungibleToken(m) => ValueView::FungibleToken(*m),
            StoredValue::NonFungibleToken(m) => ValueView::NonFungibleToken(m.key_type@),
            StoredValue::DataVariable(m) => ValueView::DataVariable(m.value_type@),
            StoredValue::DataMap(m) => ValueView::DataMap(m.key_type@, m.value_type@),
            StoredValue::Commitment(h) => ValueView::Commitment(h@),
        }
    }
}

impl StoredValue {
    /// A copy of the value.
    pub fn duplicate(&self) -> (res: StoredValue)
        ensures
            res@ == self@,
    {
        match self {
            StoredValue::Count(n) => StoredValue::Count(*n),
            StoredValue::Amount(n) => StoredValue::Amount(*n),
            StoredValue::Text(t) => StoredValue::Text(t.clone()),
            StoredValue::Entry(e) => match e {
                Some(t) => StoredValue::Entry(Some(t.clone())),
                None => StoredValue::Entry(None),
            },
            StoredValue::Balance(b) => StoredValue::Balance(STXBalance {
                amount_unlocked: b.amount_unlocked,
                amount_locked: b.amount_locked,
                unlock_height: b.unlock_height,
            }),
            StoredValue::FungibleToken(m) => StoredValue::FungibleToken(FungibleTokenMetadata {
                total_supply: m.total_supply,
            }),
            StoredValue::NonFungibleToken(m) => StoredValue::NonFungibleToken(
                NonFungibleTokenMetadata { key_type: m.key_type.clone() },
            ),
            StoredValue::DataVariable(m) => StoredValue::DataVariable(
                DataVariableMetadata { value_type: m.value_type.clone() },
            ),
            StoredValue::DataMap(m) => StoredValue::DataMap(
                DataMapMetadata { key_type: m.key_type.clone(), value_type: m.value_type.clone() },
            ),
            StoredValue::Commitment(h) => StoredValue::Commitment(*h),
        }
    }
}

/// One write: a value put at a key.
pub struct Write {
    pub key: StoreKey,
    pub value: StoredValue,
}

/// The value that a log of writes holds at `key`: that of the last write to it.
pub open spec fn lookup_in(writes: Seq<(KeyView, ValueView)>, key: KeyView) -> Option<ValueView>
    decreases writes.len(),
{
    if writes.len() == 0 {
        None
    } else if writes.last().0 == key {
        Some(writes.last().1)
    } else {
        lookup_in(writes.drop_last(), key)
    }
}

/// The writes of a log, appended one after the other.
pub open spec fn append_all(writes: Seq<(KeyView, ValueView)>, more: Seq<(KeyView, ValueView)>) -> Seq<(KeyView, ValueView)> {
    writes + more
}

/// The mathematical model of the store: the log of writes, for each open
/// transaction, from bottom to top, the length of the log when it began,
/// and the index hashes of the blocks up to the one being evaluated.
#[verifier::ext_equal]
pub struct StoreModel {
    pub writes: Seq<(KeyView, ValueView)>,
    pub marks: Seq<nat>,
    pub chain: Seq<StacksBlockId>,
}

impl StoreModel {
    /// The marks are ordered and lie within the log.
    pub open spec fn wf(self) -> bool {
        &&& forall|i: int| 0 <= i < self.marks.len() ==> #[trigger] self.marks[i] <= self.writes.len()
        &&& forall|i: int, j: int| 0 <= i <= j < self.marks.len() ==> self.marks[i] <= self.marks[j]
    }

    /// How many transactions are open.
    pub open spec fn depth(self) -> nat {
        self.marks.len()
    }

    /// What a read of `key` gives.
    pub open spec fn lookup(self, key: KeyView) -> Option<ValueView> {
        lookup_in(self.writes, key)
    }

    /// The store once a transaction is opened.
    pub open spec fn nested(self) -> StoreModel {
        StoreModel { writes: self.writes, marks: self.marks.push(self.writes.len()), chain: self.chain }
    }

    /// The store once the innermost transaction is committed: its writes now
    /// belong to the transaction around it, or to the store itself.
    pub open spec fn committed(self) -> StoreModel {
        StoreModel { writes: self.writes, marks: self.marks.drop_last(), chain: self.chain }
    }

    /// The store once the innermost transaction is rolled back: its writes
    /// are gone.
    pub open spec fn rolled_back(self) -> StoreModel {
        StoreModel { writes: self.writes.take(self.marks.last() as int), marks: self.marks.drop_last(), chain: self.chain }
    }

    /// The store once `value` is written at `key`.
    pub open spec fn written(self, key: KeyView, value: ValueView) -> StoreModel {
        StoreModel { writes: self.writes.push((key, value)), marks: self.marks, chain: self.chain }
    }

    /// The store once each of `more` is written, in order.
    pub open spec fn written_all(self, more: Seq<(KeyView, ValueView)>) -> StoreModel {
        StoreModel { writes: append_all(self.writes, more), marks: self.marks, chain: self.chain }
    }
}

/// A read gives back the value of the last write to the same key, and a write
/// leaves every other key as it was.
pub proof fn law_read_after_write(m: StoreModel, key: KeyView, value: ValueView, other: KeyView)
    ensures
        m.written(key, value).lookup(key) == Some(value),
        other != key ==> m.written(key, value).lookup(other) == m.lookup(other),
{
    assert(m.written(key, value).writes.drop_last() =~= m.writes);
}

/// Writing `more` one by one is appending it to the log.
pub proof fn law_written_all_steps(m: StoreModel, more: Seq<(KeyView, ValueView)>, key: KeyView, value: ValueView)
    ensures
        m.written_all(more).written(key, value) == m.written_all(more.push((key, value))),
        m.written_all(Seq::empty()) == m,
{
    assert(append_all(m.writes, more).push((key, value)) =~= append_all(m.writes, more.push((key, value))));
    assert(append_all(m.writes, Seq::empty()) =~= m.writes);
}

/// Committing a transaction changes no read.
pub proof fn law_commit_keeps_reads(m: StoreModel, key: KeyView)
    ensures
        m.committed().lookup(key) == m.lookup(key),
{
}

/// Opening a transaction, writing anything in it, and rolling it back gives
/// back the store exactly as it was.
pub proof fn law_rollback_undoes_writes(m: StoreModel, more: Seq<(KeyView, ValueView)>)
    ensures
        m.nested().written_all(more).rolled_back() == m,
{
    let r = m.nested().written_all(more).rolled_back();
    assert(r.writes =~= m.writes);
    assert(r.marks =~= m.marks);
}

/// Opening a transaction and committing it at once changes nothing.
pub proof fn law_commit_after_nest(m: StoreModel)
    ensures
        m.nested().committed() == m,
{
    assert(m.nested().committed().marks =~= m.marks);
}

/// Committing a nested transaction hands its writes to the transaction
/// around it: rolling that one back then undoes both, and gives back the
/// store as it was before the outer transaction began.
pub proof fn law_rollback_undoes_committed_nested(m: StoreModel, a: Seq<(KeyView, ValueView)>,
    b: Seq<(KeyView, ValueView)>)
    ensures
        m.nested().written_all(a).nested().written_all(b).committed().rolled_back() == m,
{
    let r = m.nested().written_all(a).nested().written_all(b).committed().rolled_back();
    assert(r.writes =~= m.writes);
    assert(r.marks =~= m.marks);
}

/// With two or more transactions open, committing the innermost and rolling
/// back the next undoes exactly what rolling back both does.
pub proof fn law_commit_then_rollback_is_double_rollback(m: StoreModel)
    requires
        m.wf(),
        m.depth() >= 2,
    ensures
        m.committed().rolled_back() == m.rolled_back().rolled_back(),
        m.committed().depth() == m.depth() - 1,
        m.committed().writes == m.writes,
{
    let n = m.marks.len();
    assert(m.marks[n - 2] <= m.marks[n - 1]);
    assert(m.marks.drop_last().last() == m.marks[n - 2]);
    assert(m.committed().rolled_back().writes =~= m.rolled_back().rolled_back().writes);
    assert(m.committed().rolled_back().marks =~= m.rolled_back().rolled_back().marks);
}

/// Every step keeps the model well formed.
pub proof fn law_steps_keep_wf(m: StoreModel, key: KeyView, value: ValueView)
    requires
        m.wf(),
    ensures
        m.nested().wf(),
        m.written(key, value).wf(),
        m.depth() > 0 ==> m.committed().wf(),
        m.depth() > 0 ==> m.rolled_back().wf(),
{
    if m.depth() > 0 {
        let r = m.rolled_back();
        assert forall|i: int| 0 <= i < r.marks.len() implies #[trigger] r.marks[i] <= r.writes.len() by {
            assert(m.marks[i] <= m.marks[m.marks.len() - 1]);
        }
    }
}

/// The store: a log of writes with nested transactions, and the index hashes
/// of the blocks at heights `0 ..= n`, where `n` is the height of the block
/// being evaluated.
pub struct RollbackWrapper {
    log: Vec<Write>,
    marks: Vec<usize>,
    block_ids: Vec<StacksBlockId>,
}

impl View for RollbackWrapper {
    type V = StoreModel;

    closed spec fn view(&self) -> StoreModel {
        StoreModel {
            writes: self.log@.map_values(|w: Write| (w.key@, w.value@)),
            marks: self.marks@.map_values(|m: usize| m as nat),
            chain: self.block_ids@,
        }
    }
}

impl RollbackWrapper {
    /// The index hashes of the blocks up to the one being evaluated.
    pub open spec fn chain(&self) -> Seq<StacksBlockId> {
        self@.chain
    }

    /// The store is well formed.
    pub closed spec fn wf(&self) -> bool {
        &&& self@.wf()
        &&& 1 <= self.block_ids@.len() <= u32::MAX + 1
    }

    /// An empty store over a chain of blocks, from height 0 up to the block
    /// being evaluated, which is the last.
    pub fn with_chain(block_ids: Vec<StacksBlockId>) -> (res: RollbackWrapper)
        requires
            1 <= block_ids@.len() <= u32::MAX + 1,
        ensures
            res.wf(),
            res@.writes == Seq::<(KeyView, ValueView)>::empty(),
            res@.marks == Seq::<nat>::empty(),
            res.chain() == block_ids@,
    {
        let res = RollbackWrapper { log: Vec::new(), marks: Vec::new(), block_ids };
        assert(res@.writes =~= Seq::<(KeyView, ValueView)>::empty());
        assert(res@.marks =~= Seq::<nat>::empty());
        res
    }

    /// How many transactions are open.
    pub fn depth(&self) -> (res: usize)
        ensures
            res == self@.depth(),
    {
        self.marks.len()
    }

    /// Opens a transaction.
    pub fn nest(&mut self)
        requires
            old(self).wf(),
        ensures
            final(self).wf(),
            final(self)@ == old(self)@.nested(),
            final(self).chain() == old(self).chain(),
    {
        let ghost before = self@;
        self.marks.push(self.log.len());
        assert(self@.marks =~= before.marks.push(before.writes.len()));
        assert(self@.writes =~= before.writes);
    }

    /// Commits the innermost transaction.
    pub fn commit(&mut self)
        requires
            old(self).wf(),
            old(self)@.depth() > 0,
        ensures
            final(self).wf(),
            final(self)@ == old(self)@.committed(),
            final(self).chain() == old(self).chain(),
    {
        let ghost before = self@;
        let _ = self.marks.pop();
        assert(self@.marks =~= before.marks.drop_last());
        assert(self@.writes =~= before.writes);
        proof { law_steps_keep_wf(before, KeyView::Data(Seq::empty()), ValueView::Count(0)); }
    }

    /// Rolls back the innermost transaction.
    pub fn rollback(&mut self)
        requires
            old(self).wf(),
            old(self)@.depth() > 0,
        ensures
            final(self).wf(),
            final(self)@ == old(self)@.rolled_back(),
            final(self).chain() == old(self).chain(),
    {
        let ghost before = self@;
        let mark = match self.marks.pop() {
            Some(m) => m,
            None => {
                proof { assert(false); }
                0
            },
        };
        assert(before.marks[before.marks.len() - 1] == mark as nat);
        assert(mark <= self.log.len()) by {
            assert(before.marks[before.marks.len() - 1] <= before.writes.len());
        }
        self.log.truncate(mark);
        assert(self@.marks =~= before.marks.drop_last());
        assert(self@.writes =~= before.writes.take(mark as int));
        proof { law_steps_keep_wf(before, KeyView::Data(Seq::empty()), ValueView::Count(0)); }
    }

    /// Writes `value` at `key`.
    pub fn write(&mut self, key: StoreKey, value: StoredValue)
        requires
            old(self).wf(),
        ensures
            final(self).wf(),
            final(self)@ == old(self)@.written(key@, value@),
            final(self).chain() == old(self).chain(),
    {
        let ghost before = self@;
        let ghost k = key@;
        let ghost v = value@;
        self.log.push(Write { key, value });
        assert(self@.writes =~= before.writes.push((k, v)));
        assert(self@.marks =~= before.marks);
        proof { law_steps_keep_wf(before, k, v); }
    }

    /// Reads the value at `key`.
    pub fn read(&self, key: &StoreKey) -> (res: Option<StoredValue>)
        ensures
            view_opt(res) == self@.lookup(key@),
    {
        let mut i = self.log.len();
        assert(self@.writes.take(i as int) =~= self@.writes);
        while i > 0
            invariant
                i <= self.log@.len(),
                lookup_in(self@.writes.take(i as int), key@) == self@.lookup(key@),
            decreases i,
        {
            let ghost prefix = self@.writes.take(i as int);
            assert(prefix.last() == self@.writes[i - 1]);
            assert(prefix.drop_last() =~= self@.writes.take(i - 1));
            if self.log[i - 1].key.same_as(key) {
                return Some(self.log[i - 1].value.duplicate());
            }
            i -= 1;
        }
        None
    }

    /// The height of the block being evaluated.
    pub fn get_current_block_height(&self) -> (res: u32)
        requires
            self.wf(),
        ensures
            res == self.chain().len() - 1,
    {
        (self.block_ids.len() - 1) as u32
    }

    /// The index hash of the block at `block_height`, if it is not above the
    /// block being evaluated.
    pub fn get_block_header_hash(&self, block_height: u32) -> (res: Option<StacksBlockId>)
        ensures
            block_height < self.chain().len() ==> res == Some(self.chain()[block_height as int]),
            block_height >= self.chain().len() ==> res is None,
    {
        if (block_height as usize) < self.block_ids.len() {
            Some(self.block_ids[block_height as usize])
        } else {
            None
        }
    }
}

} // verus!
