//! The pending-block cache: one slot, tagged with the chain tip that its
//! content was built against, moving through Empty, Building and Ready.

use vstd::prelude::*;

use crate::types::{hashes_equal, Hash32, Receipt, RecoveredBlock, RecoveredBlockView};

verus! {

/// A candidate next block with one receipt per transaction.
#[derive(Debug)]
pub struct PendingBlock {
    block: RecoveredBlock,
    receipts: Vec<Receipt>,
}

impl PendingBlock {
    /// Receipts and transactions correspond one to one.
    pub open spec fn wf(&self) -> bool {
        self.receipts_view().len() == self.block_view().transactions.len()
    }

    pub closed spec fn block_view(&self) -> RecoveredBlockView {
        self.block@
    }

    pub closed spec fn receipts_view(&self) -> Seq<Receipt> {
        self.receipts@
    }

    /// Pairs a block with its receipts; `None` when their counts differ.
    pub fn new(block: RecoveredBlock, receipts: Vec<Receipt>) -> (r: Option<PendingBlock>)
        ensures
            r is Some <==> receipts@.len() == block.transactions@.len(),
            r matches Some(p) ==> p.block_view() == block@ && p.receipts_view() == receipts@
                && p.receipts_view().len() == p.block_view().transactions.len(),
    {
        if receipts.len() == block.transactions.len() {
            Some(PendingBlock { block, receipts })
        } else {
            None
        }
    }

    pub fn block(&self) -> (r: &RecoveredBlock)
        ensures
            r@ == self.block_view(),
    {
        &self.block
    }

    pub fn receipts(&self) -> (r: &Vec<Receipt>)
        ensures
            r@ == self.receipts_view(),
    {
        &self.receipts
    }
}

/// The content of the cache slot.
#[derive(Debug)]
pub enum CacheSlot {
    /// Nothing built for the current tip.
    Empty,
    /// A build for `tip` has been handed out and not yet published.
    Building { tip: Hash32 },
    /// A published block built against `tip`.
    Ready { tip: Hash32, block: PendingBlock },
}

/// What a caller asking for the pending block is to do next.
#[derive(Clone, Copy, Debug, PartialEq, Eq)]
pub enum CacheAction {
    /// A block is ready: read it with `get`.
    Serve,
    /// Nothing is cached: build against `tip` and `publish` the result.
    Build { tip: Hash32 },
    /// A build is in flight: wait for it rather than start another.
    Wait,
}

/// The pending-block cache together with the chain tip it follows.
#[derive(Debug)]
pub struct PendingCache {
    tip: Hash32,
    slot: CacheSlot,
}

impl PendingCache {
    /// The chain tip that the cache follows.
    pub closed spec fn tip_view(&self) -> Hash32 {
        self.tip
    }

    pub closed spec fn slot_view(&self) -> &CacheSlot {
        &self.slot
    }

    /// Whatever the slot holds was built against the current tip, and a
    /// ready block has one receipt per transaction.
    pub open spec fn inv(&self) -> bool {
        match self.slot_view() {
            CacheSlot::Empty => true,
            CacheSlot::Building { tip } => tip@ == self.tip_view()@,
            CacheSlot::Ready { tip, block } => tip@ == self.tip_view()@ && block.wf(),
        }
    }

    /// An empty cache following `tip`.
    pub fn new(tip: Hash32) -> (r: PendingCache)
        ensures
            r.inv(),
            r.tip_view() == tip,
            r.slot_view() is Empty,
    {
        PendingCache { tip, slot: CacheSlot::Empty }
    }

    pub fn tip(&self) -> (r: Hash32)
        ensures
            r == self.tip_view(),
    {
        self.tip
    }

    pub fn is_empty(&self) -> (r: bool)
        ensures
            r == self.slot_view() is Empty,
    {
        match &self.slot {
            CacheSlot::Empty => true,
            _ => false,
        }
    }

    pub fn is_building(&self) -> (r: bool)
        ensures
            r == self.slot_view() is Building,
    {
        match &self.slot {
            CacheSlot::Building { .. } => true,
            _ => false,
        }
    }

    /// The published block, if one is ready.
    pub fn get(&self) -> (r: Option<&PendingBlock>)
        requires
            self.inv(),
        ensures
            r is Some <==> self.slot_view() is Ready,
            r matches Some(p) ==> self.slot_view() matches CacheSlot::Ready { block, .. } && p
                == block && p.wf(),
    {
        match &self.slot {
            CacheSlot::Ready { block, .. } => Some(block),
            _ => None,
        }
    }

    /// Decides what a caller asking for the pending block does: serve a
    /// ready block, wait for an in-flight build, or start the one build.
    pub fn request(&mut self) -> (r: CacheAction)
        requires
            old(self).inv(),
        ensures
            final(self).inv(),
            final(self).tip_view() == old(self).tip_view(),
            old(self).slot_view() is Empty ==> r == (CacheAction::Build { tip: old(self).tip_view() })
                && final(self).slot_view() == (CacheSlot::Building { tip: old(self).tip_view() }),
            old(self).slot_view() is Building ==> r == CacheAction::Wait && final(self).slot_view()
                == old(self).slot_view(),
            old(self).slot_view() is Ready ==> r == CacheAction::Serve && final(self).slot_view()
                == old(self).slot_view(),
    {
        match &self.slot {
            CacheSlot::Empty => {
                self.slot = CacheSlot::Building { tip: self.tip };
                CacheAction::Build { tip: self.tip }
            },
            CacheSlot::Building { .. } => CacheAction::Wait,
            CacheSlot::Ready { .. } => CacheAction::Serve,
        }
    }

    /// Publishes a block built against `built_for`. It is kept only when a
    /// build for the current tip is in flight and `built_for` is that tip;
    /// otherwise the cache is left as it was. Returns whether it was kept.
    pub fn publish(&mut self, built_for: Hash32, block: PendingBlock) -> (r: bool)
        requires
            old(self).inv(),
            block.wf(),
        ensures
            final(self).inv(),
            final(self).tip_view() == old(self).tip_view(),
            r == (old(self).slot_view() is Building && built_for@ == old(self).tip_view()@),
            r ==> final(self).slot_view() == (CacheSlot::Ready { tip: built_for, block }),
            !r ==> final(self).slot_view() == old(self).slot_view(),
    {
        let building = match &self.slot {
            CacheSlot::Building { .. } => true,
            _ => false,
        };
        if building && hashes_equal(&built_for, &self.tip) {
            self.slot = CacheSlot::Ready { tip: built_for, block };
            true
        } else {
            false
        }
    }

    /// Gives up an in-flight build, so that the next request starts anew.
    pub fn abandon(&mut self)
        requires
            old(self).inv(),
        ensures
            final(self).inv(),
            final(self).tip_view() == old(self).tip_view(),
            old(self).slot_view() is Building ==> final(self).slot_view() is Empty,
            !(old(self).slot_view() is Building) ==> final(self).slot_view() == old(self).slot_view(),
    {
        let building = match &self.slot {
            CacheSlot::Building { .. } => true,
            _ => false,
        };
        if building {
            self.slot = CacheSlot::Empty;
        }
    }

    /// Clears the slot.
    pub fn invalidate(&mut self)
        ensures
            final(self).inv(),
            final(self).tip_view() == old(self).tip_view(),
            final(self).slot_view() is Empty,
    {
        self.slot = CacheSlot::Empty;
    }

    /// Follows a new chain tip. A different tip clears the slot; the same
    /// tip leaves the cache as it was.
    pub fn on_new_tip(&mut self, tip: Hash32)
        requires
            old(self).inv(),
        ensures
            final(self).inv(),
            final(self).tip_view()@ == tip@,
            tip@ != old(self).tip_view()@ ==> final(self).slot_view() is Empty,
            tip@ == old(self).tip_view()@ ==> final(self).slot_view() == old(self).slot_view(),
    {
        if !hashes_equal(&tip, &self.tip) {
            self.tip = tip;
            self.slot = CacheSlot::Empty;
        }
    }
}

} // verus!
