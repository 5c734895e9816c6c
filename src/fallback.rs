//! Presents the latest committed block as the pending block when no build is
//! cached.

use vstd::prelude::*;

use crate::cache::{CacheSlot, PendingCache};
use crate::store::{receipts_align, BlockStore};
use crate::types::{
    copy_vec, BlockRef, PendingBlockError, Receipt, RecoveredBlock, RecoveredBlockView,
};

verus! {

/// The value of a fallback result.
pub open spec fn fallback_view(
    r: Result<Option<(RecoveredBlock, Vec<Receipt>)>, PendingBlockError>,
) -> Result<Option<(RecoveredBlockView, Seq<Receipt>)>, PendingBlockError> {
    match r {
        Ok(Some((b, rs))) => Ok(Some((b@, rs@))),
        Ok(None) => Ok(None),
        Err(e) => Err(e),
    }
}

/// The latest committed block and its receipts, or the first lookup that
/// failed or came up empty.
pub open spec fn spec_local_pending_block<S: BlockStore>(s: &S) -> Result<
    Option<(RecoveredBlockView, Seq<Receipt>)>,
    PendingBlockError,
> {
    match s.spec_latest_header() {
        Err(e) => Err(PendingBlockError::Storage(e)),
        Ok(None) => Err(PendingBlockError::HeaderNotFound(BlockRef::Latest)),
        Ok(Some(h)) => match s.spec_recovered_block(h.hash) {
            Err(e) => Err(PendingBlockError::Storage(e)),
            Ok(None) => Err(PendingBlockError::HeaderNotFound(BlockRef::Hash(h.hash))),
            Ok(Some(b)) => match s.spec_receipts_by_block(h.hash) {
                Err(e) => Err(PendingBlockError::Storage(e)),
                Ok(None) => Err(PendingBlockError::ReceiptsNotFound(BlockRef::Hash(h.hash))),
                Ok(Some(rs)) => Ok(Some((b, rs))),
            },
        },
    }
}

/// Returns the latest committed block, with its receipts, as the pending
/// block.
pub fn local_pending_block<S: BlockStore>(store: &S) -> (r: Result<
    Option<(RecoveredBlock, Vec<Receipt>)>,
    PendingBlockError,
>)
    ensures
        fallback_view(r) == spec_local_pending_block(store),
{
    let latest = match store.latest_header() {
        Err(e) => return Err(PendingBlockError::Storage(e)),
        Ok(None) => return Err(PendingBlockError::HeaderNotFound(BlockRef::Latest)),
        Ok(Some(h)) => h,
    };
    let block_hash = latest.hash;
    let block = match store.recovered_block(&block_hash) {
        Err(e) => return Err(PendingBlockError::Storage(e)),
        Ok(None) => return Err(PendingBlockError::HeaderNotFound(BlockRef::Hash(block_hash))),
        Ok(Some(b)) => b,
    };
    let receipts = match store.receipts_by_block(&block_hash) {
        Err(e) => return Err(PendingBlockError::Storage(e)),
        Ok(None) => return Err(PendingBlockError::ReceiptsNotFound(BlockRef::Hash(block_hash))),
        Ok(Some(rs)) => rs,
    };
    Ok(Some((block, receipts)))
}

/// The pending block: the cached one when a build for the current tip is
/// ready, else the latest committed block as `local_pending_block` gives it.
pub fn cached_or_latest<S: BlockStore>(cache: &PendingCache, store: &S) -> (r: Result<
    Option<(RecoveredBlock, Vec<Receipt>)>,
    PendingBlockError,
>)
    requires
        cache.inv(),
    ensures
        cache.slot_view() matches CacheSlot::Ready { block, .. } ==> fallback_view(r) == Ok::<
            _,
            PendingBlockError,
        >(Some((block.block_view(), block.receipts_view()))),
        !(cache.slot_view() is Ready) ==> fallback_view(r) == spec_local_pending_block(store),
{
    match cache.get() {
        Some(p) => Ok(Some((p.block().duplicate(), copy_vec(p.receipts())))),
        None => local_pending_block(store),
    }
}

/// With no latest header, the fallback fails with `HeaderNotFound(Latest)`.
pub proof fn lemma_no_latest_header<S: BlockStore>(s: &S)
    requires
        s.spec_latest_header() == Ok::<_, crate::types::StorageError>(None::<crate::types::SealedHeader>),
    ensures
        spec_local_pending_block(s) == Err::<Option<(RecoveredBlockView, Seq<Receipt>)>, _>(
            PendingBlockError::HeaderNotFound(BlockRef::Latest),
        ),
{
}

/// When the latest header's body is missing, the fallback fails with
/// `HeaderNotFound` naming that header's hash.
pub proof fn lemma_body_missing<S: BlockStore>(s: &S)
    requires
        s.spec_latest_header() matches Ok(Some(h)) && s.spec_recovered_block(h.hash) == Ok::<
            _,
            crate::types::StorageError,
        >(None::<RecoveredBlockView>),
    ensures
        s.spec_latest_header() matches Ok(Some(h)) && spec_local_pending_block(s) == Err::<
            Option<(RecoveredBlockView, Seq<Receipt>)>,
            _,
        >(PendingBlockError::HeaderNotFound(BlockRef::Hash(h.hash))),
{
}

/// When the latest block resolves but its receipts are missing, the fallback
/// fails with `ReceiptsNotFound` naming that block.
pub proof fn lemma_receipts_missing<S: BlockStore>(s: &S)
    requires
        s.spec_latest_header() matches Ok(Some(h)) && s.spec_recovered_block(h.hash) matches Ok(
            Some(_),
        ) && s.spec_receipts_by_block(h.hash) == Ok::<_, crate::types::StorageError>(
            None::<Seq<Receipt>>,
        ),
    ensures
        s.spec_latest_header() matches Ok(Some(h)) && spec_local_pending_block(s) == Err::<
            Option<(RecoveredBlockView, Seq<Receipt>)>,
            _,
        >(PendingBlockError::ReceiptsNotFound(BlockRef::Hash(h.hash))),
{
}

/// When the latest block and its receipts both resolve, the fallback returns
/// them, one receipt per transaction in a store whose receipts align.
pub proof fn lemma_block_and_receipts<S: BlockStore>(s: &S)
    requires
        receipts_align(s),
        s.spec_latest_header() matches Ok(Some(h)) && s.spec_recovered_block(h.hash) matches Ok(
            Some(_),
        ) && s.spec_receipts_by_block(h.hash) matches Ok(Some(_)),
    ensures
        s.spec_latest_header() matches Ok(Some(h)) && s.spec_recovered_block(h.hash) matches Ok(
            Some(b),
        ) && s.spec_receipts_by_block(h.hash) matches Ok(Some(rs)) && spec_local_pending_block(s)
            == Ok::<_, PendingBlockError>(Some((b, rs))) && rs.len() == b.transactions.len(),
{
    let h = s.spec_latest_header()->Ok_0->Some_0;
    let _ = s.spec_recovered_block(h.hash);
}

} // verus!
