//! The kinds of stored items, and the keys under which the Clarity database
//! stores them.

use vstd::prelude::*;

verus! {

/// The kind of a stored item. Its code is part of the item's key.
#[derive(Debug, Clone, Copy, PartialEq, Eq, Structural)]
pub enum StoreType {
    DataMap,
    Variable,
    FungibleToken,
    CirculatingSupply,
    NonFungibleToken,
    DataMapMeta,
    VariableMeta,
    FungibleTokenMeta,
    NonFungibleTokenMeta,
    Contract,
    SimmedBlock,
    SimmedBlockHeight,
    Nonce,
    STXBalance,
    PoxSTXLockup,
    PoxUnlockHeight,
}

/// The code of each kind of stored item.
pub open spec fn store_type_code(t: StoreType) -> u8 {
    match t {
        StoreType::DataMap => 0x00,
        StoreType::Variable => 0x01,
        StoreType::FungibleToken => 0x02,
        StoreType::CirculatingSupply => 0x03,
        StoreType::NonFungibleToken => 0x04,
        StoreType::DataMapMeta => 0x05,
        StoreType::VariableMeta => 0x06,
        StoreType::FungibleTokenMeta => 0x07,
        StoreType::NonFungibleTokenMeta => 0x08,
        StoreType::Contract => 0x09,
        StoreType::SimmedBlock => 0x10,
        StoreType::SimmedBlockHeight => 0x11,
        StoreType::Nonce => 0x12,
        StoreType::STXBalance => 0x13,
        StoreType::PoxSTXLockup => 0x14,
        StoreType::PoxUnlockHeight => 0x15,
    }
}

impl StoreType {
    /// The code of this kind of item.
    pub fn code(&self) -> (res: u8)
        ensures
            res == store_type_code(*self),
    {
        match self {
            StoreType::DataMap => 0x00,
            StoreType::Variable => 0x01,
            StoreType::FungibleToken => 0x02,
            StoreType::CirculatingSupply => 0x03,
            StoreType::NonFungibleToken => 0x04,
            StoreType::DataMapMeta => 0x05,
            StoreType::VariableMeta => 0x06,
            StoreType::FungibleTokenMeta => 0x07,
            StoreType::NonFungibleTokenMeta => 0x08,
            StoreType::Contract => 0x09,
            StoreType::SimmedBlock => 0x10,
            StoreType::SimmedBlockHeight => 0x11,
            StoreType::Nonce => 0x12,
            StoreType::STXBalance => 0x13,
            StoreType::PoxSTXLockup => 0x14,
            StoreType::PoxUnlockHeight => 0x15,
        }
    }
}

/// The character of a decimal digit.
pub open spec fn digit_char(d: nat) -> char
    recommends
        d < 10,
{
    (d + 48) as char
}

/// The decimal form of a natural number, without leading zeros.
pub open spec fn decimal(n: nat) -> Seq<char>
    decreases n,
{
    if n < 10 {
        seq![digit_char(n)]
    } else {
        decimal(n / 10).push(digit_char(n % 10))
    }
}

/// The one-character text of a decimal digit.
fn digit_text(d: u64) -> (res: &'static str)
    requires
        d < 10,
    ensures
        res@ == seq![digit_char(d as nat)],
{
    match d {
        0 => {
            proof { reveal_strlit("0"); }
            "0"
        },
        1 => {
            proof { reveal_strlit("1"); }
            "1"
        },
        2 => {
            proof { reveal_strlit("2"); }
            "2"
        },
        3 => {
            proof { reveal_strlit("3"); }
            "3"
        },
        4 => {
            proof { reveal_strlit("4"); }
            "4"
        },
        5 => {
            proof { reveal_strlit("5"); }
            "5"
        },
        6 => {
            proof { reveal_strlit("6"); }
            "6"
        },
        7 => {
            proof { reveal_strlit("7"); }
            "7"
        },
        8 => {
            proof { reveal_strlit("8"); }
            "8"
        },
        _ => {
            proof { reveal_strlit("9"); }
            "9"
        },
    }
}

/// Appends the decimal form of `n` to `s`.
pub fn push_decimal_u64(s: &mut String, n: u64)
    ensures
        final(s)@ == old(s)@ + decimal(n as nat),
    decreases n,
{
    if n >= 10 {
        push_decimal_u64(s, n / 10);
    }
    s.append(digit_text(n % 10));
    assert(final(s)@ =~= old(s)@ + decimal(n as nat));
}

/// The key of a contract's data item: `vm::<contract>::<code>::<name>`.
pub open spec fn trip_key(contract: Seq<char>, code: u8, var_name: Seq<char>) -> Seq<char> {
    "vm::"@ + contract + "::"@ + decimal(code as nat) + "::"@ + var_name
}

/// The key of a contract's metadata item: `vm-metadata::<code>::<name>`.
pub open spec fn metadata_key(code: u8, var_name: Seq<char>) -> Seq<char> {
    "vm-metadata::"@ + decimal(code as nat) + "::"@ + var_name
}

/// The key of an entry of a contract's data item:
/// `vm::<contract>::<code>::<name>::<key>`.
pub open spec fn quad_key(contract: Seq<char>, code: u8, var_name: Seq<char>, key_value: Seq<char>) -> Seq<char> {
    trip_key(contract, code, var_name) + "::"@ + key_value
}

/// The key of an account's item: `vm-account::<principal>::<code>`.
pub open spec fn account_key(principal: Seq<char>, code: u8) -> Seq<char> {
    "vm-account::"@ + principal + "::"@ + decimal(code as nat)
}

/// Two texts that start alike are equal exactly when what follows is.
proof fn lemma_prefix_cancels(pre: Seq<char>, a: Seq<char>, b: Seq<char>)
    requires
        pre + a == pre + b,
    ensures
        a == b,
{
    assert((pre + a).subrange(pre.len() as int, (pre + a).len() as int) =~= a);
    assert((pre + b).subrange(pre.len() as int, (pre + b).len() as int) =~= b);
}

/// Two texts that start and end alike are equal exactly when what stands
/// between is.
proof fn lemma_affixes_cancel(pre: Seq<char>, a: Seq<char>, b: Seq<char>, post: Seq<char>)
    requires
        pre + a + post == pre + b + post,
    ensures
        a == b,
{
    assert((pre + a + post).len() == (pre + a).len() + post.len());
    assert((pre + b + post).len() == (pre + b).len() + post.len());
    assert((pre + a).len() == pre.len() + a.len());
    assert((pre + b).len() == pre.len() + b.len());
    assert((pre + a + post).len() == (pre + b + post).len());
    assert(a.len() == b.len());
    assert((pre + a + post).subrange(pre.len() as int, (pre.len() + a.len()) as int) =~= a);
    assert((pre + b + post).subrange(pre.len() as int, (pre.len() + b.len()) as int) =~= b);
    assert(a =~= b);
}

/// Each account item is kept under a key of its own per principal: two
/// principals share the key of an item only if they are the same principal.
pub proof fn law_account_key_injective(p: Seq<char>, q: Seq<char>, code: u8)
    ensures
        account_key(p, code) == account_key(q, code) ==> p == q,
{
    if account_key(p, code) == account_key(q, code) {
        let pre = "vm-account::"@;
        let post = "::"@ + decimal(code as nat);
        assert(account_key(p, code) =~= pre + p + post);
        assert(account_key(q, code) =~= pre + q + post);
        lemma_affixes_cancel(pre, p, q, post);
    }
}

/// Within one contract and one kind of item, different names have different
/// keys, and within one data item, different keys of its entries have
/// different keys in the store; different names have different metadata keys.
pub proof fn law_item_keys_injective(contract: Seq<char>, code: u8, var_name: Seq<char>,
    a: Seq<char>, b: Seq<char>)
    ensures
        trip_key(contract, code, a) == trip_key(contract, code, b) ==> a == b,
        metadata_key(code, a) == metadata_key(code, b) ==> a == b,
        quad_key(contract, code, var_name, a) == quad_key(contract, code, var_name, b) ==> a == b,
{
    let trip_pre = "vm::"@ + contract + "::"@ + decimal(code as nat) + "::"@;
    if trip_key(contract, code, a) == trip_key(contract, code, b) {
        lemma_prefix_cancels(trip_pre, a, b);
    }
    let meta_pre = "vm-metadata::"@ + decimal(code as nat) + "::"@;
    if metadata_key(code, a) == metadata_key(code, b) {
        lemma_prefix_cancels(meta_pre, a, b);
    }
    let quad_pre = trip_key(contract, code, var_name) + "::"@;
    if quad_key(contract, code, var_name, a) == quad_key(contract, code, var_name, b) {
        assert(quad_key(contract, code, var_name, a) =~= quad_pre + a);
        assert(quad_key(contract, code, var_name, b) =~= quad_pre + b);
        lemma_prefix_cancels(quad_pre, a, b);
    }
}

} // verus!
