//! The storage interface that the provider reads committed blocks through,
//! and an in-memory store that implements it.

use vstd::prelude::*;

use crate::types::{
    copy_vec, hashes_equal, Hash32, Receipt, RecoveredBlock, RecoveredBlockView, SealedHeader,
    StorageError,
};

verus! {

/// Read access to committed headers, block bodies and receipts.
pub trait BlockStore {
    /// What `latest_header` returns.
    spec fn spec_latest_header(&self) -> Result<Option<SealedHeader>, StorageError>;

    /// What `recovered_block` returns for the block with this hash.
    spec fn spec_recovered_block(&self, hash: Hash32) -> Result<
        Option<RecoveredBlockView>,
        StorageError,
    >;

    /// What `receipts_by_block` returns for the block with this hash.
    spec fn spec_receipts_by_block(&self, hash: Hash32) -> Result<
        Option<Seq<Receipt>>,
        StorageError,
    >;

    /// The header of the latest committed block, if any.
    fn latest_header(&self) -> (r: Result<Option<SealedHeader>, StorageError>)
        ensures
            r == self.spec_latest_header(),
    ;

    /// The block with this hash, senders recovered, if stored.
    fn recovered_block(&self, hash: &Hash32) -> (r: Result<Option<RecoveredBlock>, StorageError>)
        ensures
            lookup_view(r) == self.spec_recovered_block(*hash),
    ;

    /// The receipts of the block with this hash, if stored.
    fn receipts_by_block(&self, hash: &Hash32) -> (r: Result<Option<Vec<Receipt>>, StorageError>)
        ensures
            lookup_view(r) == self.spec_receipts_by_block(*hash),
    ;
}

/// The value of a lookup's result.
pub open spec fn lookup_view<T: View>(r: Result<Option<T>, StorageError>) -> Result<
    Option<T::V>,
    StorageError,
> {
    match r {
        Ok(Some(v)) => Ok(Some(v@)),
        Ok(None) => Ok(None),
        Err(e) => Err(e),
    }
}

/// Every block's receipts, where both are stored, match its transactions one
/// to one.
pub open spec fn receipts_align<S: BlockStore>(s: &S) -> bool {
    forall|h: Hash32|
        #![trigger s.spec_recovered_block(h)]
        match (s.spec_recovered_block(h), s.spec_receipts_by_block(h)) {
            (Ok(Some(b)), Ok(Some(rs))) => rs.len() == b.transactions.len(),
            _ => true,
        }
}

/// The receipts of one stored block.
#[derive(Debug)]
pub struct BlockReceipts {
    pub block_hash: Hash32,
    pub receipts: Vec<Receipt>,
}

/// A store held in memory. Headers are kept in commit order, so the last
/// one is the latest; where a hash occurs twice, the later entry wins.
#[derive(Debug)]
pub struct InMemoryStore {
    pub headers: Vec<SealedHeader>,
    pub bodies: Vec<RecoveredBlock>,
    pub receipts: Vec<BlockReceipts>,
}

/// The last body in `s` whose header has hash `h`.
pub open spec fn find_body(s: Seq<RecoveredBlock>, h: Hash32) -> Option<RecoveredBlockView>
    decreases s.len(),
{
    if s.len() == 0 {
        None
    } else if s.last().header.hash@ == h@ {
        Some(s.last()@)
    } else {
        find_body(s.drop_last(), h)
    }
}

/// The last receipt list in `s` recorded for hash `h`.
pub open spec fn find_receipts(s: Seq<BlockReceipts>, h: Hash32) -> Option<Seq<Receipt>>
    decreases s.len(),
{
    if s.len() == 0 {
        None
    } else if s.last().block_hash@ == h@ {
        Some(s.last().receipts@)
    } else {
        find_receipts(s.drop_last(), h)
    }
}

impl InMemoryStore {
    /// A store with nothing committed.
    pub fn new() -> (r: InMemoryStore)
        ensures
            r.headers@.len() == 0,
            r.bodies@.len() == 0,
            r.receipts@.len() == 0,
    {
        InMemoryStore { headers: Vec::new(), bodies: Vec::new(), receipts: Vec::new() }
    }
}

impl BlockStore for InMemoryStore {
    open spec fn spec_latest_header(&self) -> Result<Option<SealedHeader>, StorageError> {
        if self.headers@.len() == 0 {
            Ok(None)
        } else {
            Ok(Some(self.headers@.last()))
        }
    }

    open spec fn spec_recovered_block(&self, hash: Hash32) -> Result<
        Option<RecoveredBlockView>,
        StorageError,
    > {
        Ok(find_body(self.bodies@, hash))
    }

    open spec fn spec_receipts_by_block(&self, hash: Hash32) -> Result<
        Option<Seq<Receipt>>,
        StorageError,
    > {
        Ok(find_receipts(self.receipts@, hash))
    }

    fn latest_header(&self) -> (r: Result<Option<SealedHeader>, StorageError>) {
        let n = self.headers.len();
        if n == 0 {
            Ok(None)
        } else {
            Ok(Some(self.headers[n - 1]))
        }
    }

    fn recovered_block(&self, hash: &Hash32) -> (r: Result<Option<RecoveredBlock>, StorageError>) {
        let mut i: usize = self.bodies.len();
        assert(self.bodies@.subrange(0, i as int) =~= self.bodies@);
        while i > 0
            invariant
                i <= self.bodies@.len(),
                find_body(self.bodies@, *hash) == find_body(self.bodies@.subrange(0, i as int), *hash),
            decreases i,
        {
            let b = &self.bodies[i - 1];
            assert(self.bodies@.subrange(0, i as int).drop_last() =~= self.bodies@.subrange(0, i - 1));
            if hashes_equal(&b.header.hash, hash) {
                return Ok(Some(b.duplicate()));
            }
            i = i - 1;
        }
        Ok(None)
    }

    fn receipts_by_block(&self, hash: &Hash32) -> (r: Result<Option<Vec<Receipt>>, StorageError>) {
        let mut i: usize = self.receipts.len();
        assert(self.receipts@.subrange(0, i as int) =~= self.receipts@);
        while i > 0
            invariant
                i <= self.receipts@.len(),
                find_receipts(self.receipts@, *hash) == find_receipts(
                    self.receipts@.subrange(0, i as int),
                    *hash,
                ),
            decreases i,
        {
            let e = &self.receipts[i - 1];
            assert(self.receipts@.subrange(0, i as int).drop_last() =~= self.receipts@.subrange(0, i - 1));
            if hashes_equal(&e.block_hash, hash) {
                return Ok(Some(copy_vec(&e.receipts)));
            }
            i = i - 1;
        }
        Ok(None)
    }
}

} // verus!
