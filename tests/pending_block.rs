use pending_block::attributes::{next_env_attributes, next_env_attributes_with, SLOT_INTERVAL};
use pending_block::cache::{CacheAction, PendingBlock, PendingCache};
use pending_block::fallback::local_pending_block;
use pending_block::store::{BlockReceipts, BlockStore, InMemoryStore};
use pending_block::types::{
    hashes_equal, BlockRef, PendingBlockError, Receipt, RecoveredBlock, SealedHeader, Transaction,
};

fn header(hash_byte: u8, number: u64, timestamp: u64) -> SealedHeader {
    SealedHeader {
        hash: [hash_byte; 32],
        parent_hash: [hash_byte.wrapping_sub(1); 32],
        number,
        timestamp,
        beneficiary: [0xAA; 20],
        gas_limit: 30_000_000,
        parent_beacon_block_root: Some([7; 32]),
    }
}

fn tx(n: u8) -> Transaction {
    Transaction { hash: [n; 32], sender: [n; 20], nonce: n as u64, gas_limit: 21_000 }
}

fn receipt(gas: u64) -> Receipt {
    Receipt { success: true, gas_used: gas, cumulative_gas_used: gas, log_count: 0 }
}

fn block(h: SealedHeader, n: u8) -> RecoveredBlock {
    RecoveredBlock { header: h, transactions: (0..n).map(tx).collect() }
}

#[test]
fn attributes_from_parent_scenario() {
    let parent = header(1, 5, 1000);
    let a = next_env_attributes_with(&parent, [9; 32]);
    assert_eq!(a.timestamp, 1012);
    assert_eq!(a.gas_limit, 30_000_000);
    assert_eq!(a.suggested_fee_recipient, [0xAA; 20]);
    assert_eq!(a.prev_randao, [9; 32]);
    assert_eq!(a.parent_beacon_block_root, Some([7; 32]));
    assert!(a.withdrawals.is_none());
}

#[test]
fn timestamp_is_one_slot_later() {
    for t in [0u64, 1, 1000, 1_700_000_000] {
        let a = next_env_attributes_with(&header(1, 1, t), [0; 32]);
        assert_eq!(a.timestamp, t + SLOT_INTERVAL);
        assert!(a.timestamp >= t);
    }
}

#[test]
fn timestamp_saturates_at_max() {
    let a = next_env_attributes_with(&header(1, 1, u64::MAX - 5), [0; 32]);
    assert_eq!(a.timestamp, u64::MAX);
}

#[test]
fn gas_limit_and_recipient_inherited() {
    let mut parent = header(2, 3, 50);
    parent.gas_limit = 12_345;
    parent.beneficiary = [0x11; 20];
    parent.parent_beacon_block_root = None;
    let a = next_env_attributes_with(&parent, [1; 32]);
    assert_eq!(a.gas_limit, 12_345);
    assert_eq!(a.suggested_fee_recipient, [0x11; 20]);
    assert_eq!(a.parent_beacon_block_root, None);
}

#[test]
fn random_attributes_follow_parent() {
    let parent = header(1, 5, 1000);
    let a = next_env_attributes(&parent).expect("system randomness");
    assert_eq!(a.timestamp, 1012);
    assert_eq!(a.gas_limit, 30_000_000);
    assert_eq!(a.suggested_fee_recipient, [0xAA; 20]);
    let b = next_env_attributes(&parent).expect("system randomness");
    assert_ne!(a.prev_randao, b.prev_randao);
}

#[test]
fn empty_chain_fails_with_latest_not_found() {
    let store = InMemoryStore::new();
    assert_eq!(store.latest_header(), Ok(None));
    let r = local_pending_block(&store);
    assert_eq!(r, Err(PendingBlockError::HeaderNotFound(BlockRef::Latest)));
}

#[test]
fn missing_body_fails_with_header_hash() {
    let mut store = InMemoryStore::new();
    store.headers.push(header(1, 1, 10));
    store.headers.push(header(2, 2, 22));
    store.bodies.push(block(header(1, 1, 10), 1));
    let r = local_pending_block(&store);
    assert_eq!(r, Err(PendingBlockError::HeaderNotFound(BlockRef::Hash([2; 32]))));
}

#[test]
fn missing_receipts_fail_with_block_hash() {
    let mut store = InMemoryStore::new();
    store.headers.push(header(3, 1, 10));
    store.bodies.push(block(header(3, 1, 10), 2));
    store.receipts.push(BlockReceipts { block_hash: [4; 32], receipts: vec![receipt(1)] });
    let r = local_pending_block(&store);
    assert_eq!(r, Err(PendingBlockError::ReceiptsNotFound(BlockRef::Hash([3; 32]))));
}

#[test]
fn latest_block_served_as_pending() {
    let mut store = InMemoryStore::new();
    store.headers.push(header(1, 1, 10));
    store.headers.push(header(2, 2, 22));
    store.bodies.push(block(header(1, 1, 10), 1));
    store.bodies.push(block(header(2, 2, 22), 3));
    store.receipts.push(BlockReceipts { block_hash: [1; 32], receipts: vec![receipt(5)] });
    store.receipts.push(BlockReceipts {
        block_hash: [2; 32],
        receipts: vec![receipt(21_000), receipt(42_000), receipt(63_000)],
    });
    let (b, rs) = local_pending_block(&store).unwrap().unwrap();
    assert_eq!(b.header, header(2, 2, 22));
    assert_eq!(b.transactions, vec![tx(0), tx(1), tx(2)]);
    assert_eq!(rs.len(), b.transactions.len());
    assert_eq!(rs[1].gas_used, 42_000);
}

#[test]
fn later_entry_for_a_hash_wins() {
    let mut store = InMemoryStore::new();
    store.bodies.push(block(header(1, 1, 10), 1));
    store.bodies.push(block(header(1, 1, 10), 2));
    store.receipts.push(BlockReceipts { block_hash: [1; 32], receipts: vec![receipt(1)] });
    store.receipts.push(BlockReceipts { block_hash: [1; 32], receipts: vec![receipt(2), receipt(3)] });
    assert_eq!(store.recovered_block(&[1; 32]).unwrap().unwrap().transactions.len(), 2);
    assert_eq!(store.receipts_by_block(&[1; 32]), Ok(Some(vec![receipt(2), receipt(3)])));
    assert_eq!(store.recovered_block(&[5; 32]), Ok(None));
    assert_eq!(store.receipts_by_block(&[5; 32]), Ok(None));
}

#[test]
fn pending_block_requires_matching_counts() {
    assert!(PendingBlock::new(block(header(1, 1, 1), 2), vec![receipt(1)]).is_none());
    let p = PendingBlock::new(block(header(1, 1, 1), 2), vec![receipt(1), receipt(2)]).unwrap();
    assert_eq!(p.block().transactions.len(), 2);
    assert_eq!(p.receipts().len(), 2);
}

#[test]
fn cache_single_flight_build() {
    let tip = [1; 32];
    let mut cache = PendingCache::new(tip);
    assert!(cache.is_empty());
    assert!(cache.get().is_none());
    assert_eq!(cache.request(), CacheAction::Build { tip });
    assert!(cache.is_building());
    assert_eq!(cache.request(), CacheAction::Wait);
    let p = PendingBlock::new(block(header(1, 1, 1), 1), vec![receipt(7)]).unwrap();
    assert!(cache.publish(tip, p));
    assert_eq!(cache.request(), CacheAction::Serve);
    let got = cache.get().unwrap();
    assert_eq!(got.receipts()[0].gas_used, 7);
    assert_eq!(cache.request(), CacheAction::Serve);
}

#[test]
fn cache_drops_stale_build() {
    let mut cache = PendingCache::new([1; 32]);
    assert_eq!(cache.request(), CacheAction::Build { tip: [1; 32] });
    cache.on_new_tip([2; 32]);
    assert!(cache.is_empty());
    assert_eq!(cache.tip(), [2; 32]);
    let p = PendingBlock::new(block(header(1, 1, 1), 0), vec![]).unwrap();
    assert!(!cache.publish([1; 32], p));
    assert!(cache.is_empty());
}

#[test]
fn cache_same_tip_keeps_block() {
    let mut cache = PendingCache::new([1; 32]);
    cache.request();
    let p = PendingBlock::new(block(header(1, 1, 1), 0), vec![]).unwrap();
    assert!(cache.publish([1; 32], p));
    cache.on_new_tip([1; 32]);
    assert!(cache.get().is_some());
    cache.invalidate();
    assert!(cache.get().is_none());
}

#[test]
fn cache_abandon_allows_new_build() {
    let mut cache = PendingCache::new([3; 32]);
    assert_eq!(cache.request(), CacheAction::Build { tip: [3; 32] });
    cache.abandon();
    assert!(cache.is_empty());
    assert_eq!(cache.request(), CacheAction::Build { tip: [3; 32] });
    let p = PendingBlock::new(block(header(1, 1, 1), 0), vec![]).unwrap();
    assert!(!cache.publish([4; 32], p));
    assert!(cache.is_building());
}

#[test]
fn hash_comparison() {
    let mut a = [5u8; 32];
    assert!(hashes_equal(&a, &[5; 32]));
    a[31] = 6;
    assert!(!hashes_equal(&a, &[5; 32]));
}
