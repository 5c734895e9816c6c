//! Plain data that the provider reads and returns.

use vstd::prelude::*;

verus! {

/// A 32-byte hash (block hash, beacon root, randomness).
pub type Hash32 = [u8; 32];

/// A 20-byte account address.
pub type Address = [u8; 20];

/// An immutable block header together with its precomputed hash.
#[derive(Clone, Copy, Debug, PartialEq, Eq)]
pub struct SealedHeader {
    pub hash: Hash32,
    pub parent_hash: Hash32,
    pub number: u64,
    pub timestamp: u64,
    pub beneficiary: Address,
    pub gas_limit: u64,
    pub parent_beacon_block_root: Option<Hash32>,
}

/// A transaction whose sender has been recovered from its signature.
#[derive(Clone, Copy, Debug, PartialEq, Eq)]
pub struct Transaction {
    pub hash: Hash32,
    pub sender: Address,
    pub nonce: u64,
    pub gas_limit: u64,
}

/// The outcome of executing one transaction.
#[derive(Clone, Copy, Debug, PartialEq, Eq)]
pub struct Receipt {
    pub success: bool,
    pub gas_used: u64,
    pub cumulative_gas_used: u64,
    pub log_count: u64,
}

/// A validator withdrawal carried by a block.
#[derive(Clone, Copy, Debug, PartialEq, Eq)]
pub struct Withdrawal {
    pub index: u64,
    pub validator_index: u64,
    pub address: Address,
    pub amount: u64,
}

/// A block body whose transaction senders are all resolved.
#[derive(Debug, PartialEq, Eq)]
pub struct RecoveredBlock {
    pub header: SealedHeader,
    pub transactions: Vec<Transaction>,
}

/// The mathematical value of a `RecoveredBlock`.
pub struct RecoveredBlockView {
    pub header: SealedHeader,
    pub transactions: Seq<Transaction>,
}

impl View for RecoveredBlock {
    type V = RecoveredBlockView;

    open spec fn view(&self) -> RecoveredBlockView {
        RecoveredBlockView { header: self.header, transactions: self.transactions@ }
    }
}

/// What a lookup was trying to resolve when it came up empty.
#[derive(Clone, Copy, Debug, PartialEq, Eq)]
pub enum BlockRef {
    Latest,
    Hash(Hash32),
}

/// A failure reported by the storage layer itself.
#[derive(Clone, Copy, Debug, PartialEq, Eq)]
pub enum StorageError {
    Io,
    Corruption,
}

/// Errors of the pending-block provider.
#[derive(Clone, Copy, Debug, PartialEq, Eq)]
pub enum PendingBlockError {
    /// No header could be resolved for the identifier.
    HeaderNotFound(BlockRef),
    /// The block resolved but its receipts are missing.
    ReceiptsNotFound(BlockRef),
    /// Passed through from the storage layer.
    Storage(StorageError),
    /// The next block's environment could not be derived.
    EnvConstruction,
}

/// Equality of two hashes, byte by byte.
pub fn hashes_equal(a: &Hash32, b: &Hash32) -> (r: bool)
    ensures
        r == (a@ == b@),
{
    let mut i: usize = 0;
    while i < 32
        invariant
            i <= 32,
            a@.len() == 32,
            b@.len() == 32,
            forall|j: int| 0 <= j < i ==> a@[j] == b@[j],
        decreases 32 - i,
    {
        if a[i] != b[i] {
            return false;
        }
        i = i + 1;
    }
    assert(a@ =~= b@);
    true
}

/// A fresh vector with the same elements.
pub fn copy_vec<T: Copy>(v: &Vec<T>) -> (r: Vec<T>)
    ensures
        r@ == v@,
{
    let mut r: Vec<T> = Vec::new();
    let mut i: usize = 0;
    while i < v.len()
        invariant
            i <= v.len(),
            r@ == v@.subrange(0, i as int),
        decreases v.len() - i,
    {
        r.push(v[i]);
        i = i + 1;
    }
    assert(r@ =~= v@);
    r
}

impl RecoveredBlock {
    /// A copy of this block.
    pub fn duplicate(&self) -> (r: RecoveredBlock)
        ensures
            r@ == self@,
    {
        RecoveredBlock { header: self.header, transactions: copy_vec(&self.transactions) }
    }
}

} // verus!
