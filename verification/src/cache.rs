//! The executable cache.
use alloy_primitives::B256;
use revm_database::BundleState;
use vstd::prelude::*;

use crate::model::CacheModel;

verus! {

/// Cache of transaction execution results for a single block, with `R` the type of a receipt.
///
/// Stores cumulative execution state that can be used as a prestate, so that a build that
/// continues the cached transactions finds the accounts and storage they touched already loaded.
///
/// **Note**: no transaction goes unexecuted because of the cache. It only speeds up state reads.
///
/// The cached results are of no use any more when
/// - a new block starts (different block number),
/// - a reorg is detected (the transaction list diverges from the cached one), or
/// - the cache is cleared.
#[derive(Debug)]
pub struct TransactionCache<R> {
    /// Block number this cache is valid for.
    block_number: u64,
    /// Ordered list of transaction hashes that have been executed.
    executed_tx_hashes: Vec<B256>,
    /// Cumulative bundle state after executing all cached transactions.
    cumulative_bundle: BundleState,
    /// Receipts for all cached transactions, in execution order.
    receipts: Vec<R>,
}

impl<R> View for TransactionCache<R> {
    type V = CacheModel<R>;

    closed spec fn view(&self) -> CacheModel<R> {
        CacheModel {
            block_number: self.block_number,
            tx_hashes: self.executed_tx_hashes@,
            bundle: self.cumulative_bundle,
            receipts: self.receipts@,
        }
    }
}

impl<R> Default for TransactionCache<R> {
    fn default() -> (cache: Self)
        ensures
            cache@.is_empty_for(0),
    {
        Self::new()
    }
}

impl<R> TransactionCache<R> {
    /// Creates a new empty transaction cache.
    pub fn new() -> (cache: Self)
        ensures
            cache@.is_empty_for(0),
    {
        Self {
            block_number: 0,
            executed_tx_hashes: Vec::new(),
            cumulative_bundle: BundleState::default(),
            receipts: Vec::new(),
        }
    }

    /// Creates a new cache for a specific block number.
    pub fn for_block(block_number: u64) -> (cache: Self)
        ensures
            cache@.is_empty_for(block_number),
    {
        Self { block_number, ..Self::new() }
    }

    /// Returns the block number this cache is valid for.
    pub fn block_number(&self) -> (block_number: u64)
        ensures
            block_number == self@.block_number,
    {
        self.block_number
    }

    /// Checks if this cache is valid for the given block number.
    pub fn is_valid_for_block(&self, block_number: u64) -> (valid: bool)
        ensures
            valid == (self@.block_number == block_number),
    {
        self.block_number == block_number
    }

    /// Returns the number of cached transactions.
    pub fn len(&self) -> (len: usize)
        ensures
            len == self@.tx_hashes.len(),
    {
        self.executed_tx_hashes.len()
    }

    /// Returns true if the cache is empty.
    pub fn is_empty(&self) -> (empty: bool)
        ensures
            empty == (self@.tx_hashes.len() == 0),
    {
        self.executed_tx_hashes.is_empty()
    }

    /// Returns the cached transaction hashes.
    pub fn executed_tx_hashes(&self) -> (tx_hashes: &[B256])
        ensures
            tx_hashes@ == self@.tx_hashes,
    {
        self.executed_tx_hashes.as_slice()
    }

    /// Returns the cached receipts.
    pub fn receipts(&self) -> (receipts: &[R])
        ensures
            receipts@ == self@.receipts,
    {
        self.receipts.as_slice()
    }

    /// Returns the cumulative bundle state.
    pub fn bundle(&self) -> (bundle: &BundleState)
        ensures
            *bundle == self@.bundle,
    {
        &self.cumulative_bundle
    }

    /// Clears the cache.
    pub fn clear(&mut self)
        ensures
            final(self)@.is_empty_for(0),
    {
        self.executed_tx_hashes.clear();
        self.cumulative_bundle = BundleState::default();
        self.receipts.clear();
        self.block_number = 0;
    }

    /// Updates the cache for a new block, clearing if the block number changed.
    ///
    /// Returns true if the cache was cleared.
    pub fn update_for_block(&mut self, block_number: u64) -> (cleared: bool)
        ensures
            old(self)@.moves_to_block(block_number, final(self)@, cleared),
    {
        if self.block_number == block_number {
            false
        } else {
            self.clear();
            self.block_number = block_number;
            true
        }
    }

    /// Computes the length of the matching prefix between cached transactions
    /// and the provided transaction hashes: the number of leading transactions
    /// that are the same, in the same order, in both.
    pub fn matching_prefix_len(&self, tx_hashes: &[B256]) -> (len: usize)
        ensures
            crate::model::is_common_prefix_len(self@.tx_hashes, tx_hashes@, len as nat),
    {
        let mut len: usize = 0;
        while len < self.executed_tx_hashes.len() && len < tx_hashes.len()
            && self.executed_tx_hashes[len] == tx_hashes[len]
            invariant
                len <= self.executed_tx_hashes@.len(),
                len <= tx_hashes@.len(),
                forall|i: int| 0 <= i < len ==> self.executed_tx_hashes@[i] == tx_hashes@[i],
            decreases tx_hashes@.len() - len,
        {
            len += 1;
        }
        len
    }

    /// Returns cached state for resuming execution if the incoming transactions
    /// continue the cached ones.
    ///
    /// Returns `Some((bundle, receipts, skip_count))` if all cached transactions
    /// lead the incoming list, where:
    /// - `bundle` is the cumulative state after the cached transactions
    /// - `receipts` is the receipts for the cached transactions
    /// - `skip_count` is the number of transactions that these cover
    ///
    /// Returns `None` if:
    /// - The cache is empty
    /// - The incoming list ends before the cached one or diverges from it: the
    ///   state after a part of the cached transactions is not stored
    /// - Block number doesn't match
    pub fn get_resumable_state(&self, block_number: u64, tx_hashes: &[B256]) -> (resumable: Option<
        (&BundleState, &[R], usize),
    >)
        ensures
            match resumable {
                Some((bundle, receipts, skip_count)) => self@.resumable_state(
                    block_number,
                    tx_hashes@,
                ) == Some((*bundle, receipts@, skip_count as nat)),
                None => self@.resumable_state(block_number, tx_hashes@) is None,
            },
    {
        if !self.is_valid_for_block(block_number) || self.is_empty() {
            return None;
        }
        let prefix_len: usize = self.matching_prefix_len(tx_hashes);
        if prefix_len == 0 {
            return None;
        }
        if prefix_len == self.executed_tx_hashes.len() {
            Some((&self.cumulative_bundle, self.receipts.as_slice(), prefix_len))
        } else {
            None
        }
    }

    /// Updates the cache with new execution results.
    ///
    /// This should be called after executing a flashblock. The provided bundle
    /// and receipts should represent the cumulative state after all transactions.
    pub fn update(
        &mut self,
        block_number: u64,
        tx_hashes: Vec<B256>,
        bundle: BundleState,
        receipts: Vec<R>,
    )
        ensures
            final(self)@ == (CacheModel {
                block_number,
                tx_hashes: tx_hashes@,
                bundle,
                receipts: receipts@,
            }),
    {
        self.block_number = block_number;
        self.executed_tx_hashes = tx_hashes;
        self.cumulative_bundle = bundle;
        self.receipts = receipts;
    }
}

} // verus!
