//! The mathematical state of a cache and the meaning of its operations.
use alloy_primitives::B256;
use revm_database::BundleState;
use vstd::prelude::*;

verus! {

/// What a cache holds, with `R` the type of a receipt.
#[verifier::ext_equal]
pub struct CacheModel<R> {
    /// The block that the cached results belong to.
    pub block_number: u64,
    /// The hashes of the executed transactions, in execution order.
    pub tx_hashes: Seq<B256>,
    /// The cumulative bundle after all of them.
    pub bundle: BundleState,
    /// Their receipts, in execution order.
    pub receipts: Seq<R>,
}

impl<R> CacheModel<R> {
    /// The cache belongs to `block_number` and holds no result.
    pub open spec fn is_empty_for(self, block_number: u64) -> bool {
        &&& self.block_number == block_number
        &&& self.tx_hashes == Seq::<B256>::empty()
        &&& crate::primitives::bundle_is_empty(self.bundle)
        &&& self.receipts == Seq::<R>::empty()
    }

    /// The cached results can serve a build of `tx_hashes` in block `block_number`: they belong to
    /// that block, there are some, and the build begins with all of the cached transactions.
    pub open spec fn covers(self, block_number: u64, tx_hashes: Seq<B256>) -> bool {
        &&& self.block_number == block_number
        &&& self.tx_hashes.len() > 0
        &&& self.tx_hashes.is_prefix_of(tx_hashes)
    }

    /// What the cache offers to a build of `tx_hashes` in block `block_number`: the bundle, the
    /// receipts and how many transactions they cover, or nothing.
    pub open spec fn resumable_state(self, block_number: u64, tx_hashes: Seq<B256>) -> Option<
        (BundleState, Seq<R>, nat),
    > {
        if self.covers(block_number, tx_hashes) {
            Some((self.bundle, self.receipts, self.tx_hashes.len()))
        } else {
            None
        }
    }

    /// `next` is the cache after it was moved from `self` to `block_number`, where `cleared` tells
    /// whether that dropped the results: they stay exactly if the block stays.
    pub open spec fn moves_to_block(self, block_number: u64, next: Self, cleared: bool) -> bool {
        &&& cleared == (self.block_number != block_number)
        &&& if cleared {
            next.is_empty_for(block_number)
        } else {
            next == self
        }
    }
}

/// `len` is the length of the longest common prefix of `left` and `right`: they agree below `len`,
/// and one of them ends there or they differ there.
pub open spec fn is_common_prefix_len<T>(left: Seq<T>, right: Seq<T>, len: nat) -> bool {
    &&& len <= left.len()
    &&& len <= right.len()
    &&& forall|i: int| 0 <= i < len ==> left[i] == right[i]
    &&& len < left.len() && len < right.len() ==> left[len as int] != right[len as int]
}

} // verus!
