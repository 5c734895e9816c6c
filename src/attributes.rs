//! Derivation of the next block's environment from its parent header.

use vstd::prelude::*;

use crate::types::{Address, Hash32, PendingBlockError, SealedHeader, Withdrawal};

verus! {

/// Seconds between consecutive blocks.
pub const SLOT_INTERVAL: u64 = 12;

/// The attributes that the next block must satisfy.
#[derive(Debug, PartialEq, Eq)]
pub struct NextBlockEnvAttributes {
    pub timestamp: u64,
    pub suggested_fee_recipient: Address,
    pub prev_randao: Hash32,
    pub gas_limit: u64,
    pub parent_beacon_block_root: Option<Hash32>,
    pub withdrawals: Option<Vec<Withdrawal>>,
}

/// The parent's timestamp plus one slot, saturating at the largest `u64`.
pub open spec fn next_timestamp(parent_timestamp: u64) -> u64 {
    if parent_timestamp + SLOT_INTERVAL <= u64::MAX {
        (parent_timestamp + SLOT_INTERVAL) as u64
    } else {
        u64::MAX
    }
}

/// The attributes derived from `parent` with the given randomness value.
pub open spec fn next_env(parent: SealedHeader, prev_randao: Hash32) -> NextBlockEnvAttributes {
    NextBlockEnvAttributes {
        timestamp: next_timestamp(parent.timestamp),
        suggested_fee_recipient: parent.beneficiary,
        prev_randao,
        gas_limit: parent.gas_limit,
        parent_beacon_block_root: parent.parent_beacon_block_root,
        withdrawals: None,
    }
}

/// Relies on alloy_primitives::FixedBytes::<32>::try_random: 32 bytes from the
/// system's cryptographic source, or an error when that source fails.
#[verifier::external_body]
fn random_hash() -> (r: Option<Hash32>) {
    alloy_primitives::B256::try_random().ok().map(|b| b.0)
}

/// Derives the next block's attributes from `parent`, with `prev_randao`
/// supplied by the caller.
pub fn next_env_attributes_with(parent: &SealedHeader, prev_randao: Hash32) -> (r:
    NextBlockEnvAttributes)
    ensures
        r == next_env(*parent, prev_randao),
{
    NextBlockEnvAttributes {
        timestamp: parent.timestamp.saturating_add(SLOT_INTERVAL),
        suggested_fee_recipient: parent.beneficiary,
        prev_randao,
        gas_limit: parent.gas_limit,
        parent_beacon_block_root: parent.parent_beacon_block_root,
        withdrawals: None,
    }
}

/// Derives the next block's attributes from `parent`, drawing `prev_randao`
/// from the system's randomness source; fails only when that source does.
pub fn next_env_attributes(parent: &SealedHeader) -> (r: Result<
    NextBlockEnvAttributes,
    PendingBlockError,
>)
    ensures
        r matches Ok(a) ==> a == next_env(*parent, a.prev_randao),
        r matches Err(e) ==> e == PendingBlockError::EnvConstruction,
{
    match random_hash() {
        Some(randao) => Ok(next_env_attributes_with(parent, randao)),
        None => Err(PendingBlockError::EnvConstruction),
    }
}

/// The next block comes one slot after its parent, whenever that does not
/// overflow.
pub proof fn lemma_next_timestamp(parent: SealedHeader, prev_randao: Hash32)
    requires
        parent.timestamp + SLOT_INTERVAL <= u64::MAX,
    ensures
        next_env(parent, prev_randao).timestamp == parent.timestamp + SLOT_INTERVAL,
        next_env(parent, prev_randao).timestamp >= parent.timestamp,
{
}

/// Gas limit, fee recipient and beacon root are inherited unchanged from the
/// parent.
pub proof fn lemma_inherited_fields(parent: SealedHeader, prev_randao: Hash32)
    ensures
        next_env(parent, prev_randao).gas_limit == parent.gas_limit,
        next_env(parent, prev_randao).suggested_fee_recipient == parent.beneficiary,
        next_env(parent, prev_randao).parent_beacon_block_root == parent.parent_beacon_block_root,
{
}

} // verus!
