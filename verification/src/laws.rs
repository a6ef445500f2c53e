//! What holds across the operations of a cache.
//!
//! A law speaks of a cache by its [`CacheModel`], the view in which the contracts of
//! [`crate::cache::TransactionCache`] are stated.
use alloy_primitives::B256;
use revm_database::BundleState;
use vstd::prelude::*;

use crate::model::CacheModel;

verus! {

/// A build reads back what an update wrote: after an update with some transactions, every list
/// that continues them in the same block is offered the bundle and the receipts of the update,
/// which cover all of its transactions.
pub proof fn law_update_is_read_back<R>(
    block_number: u64,
    tx_hashes: Seq<B256>,
    bundle: BundleState,
    receipts: Seq<R>,
    more: Seq<B256>,
)
    requires
        tx_hashes.len() > 0,
    ensures
        (CacheModel { block_number, tx_hashes, bundle, receipts }).resumable_state(
            block_number,
            tx_hashes + more,
        ) == Some((bundle, receipts, tx_hashes.len())),
{
}

/// A cache offers nothing to a build in another block, whatever its transactions are.
pub proof fn law_other_block_is_refused<R>(
    cache: CacheModel<R>,
    block_number: u64,
    tx_hashes: Seq<B256>,
)
    requires
        cache.block_number != block_number,
    ensures
        cache.resumable_state(block_number, tx_hashes) is None,
{
}

/// A cache without transactions offers nothing to any build. That goes for a new cache, for one
/// that was cleared, and for one that was updated with an empty list.
pub proof fn law_no_transactions_nothing_to_resume<R>(
    cache: CacheModel<R>,
    block_number: u64,
    tx_hashes: Seq<B256>,
)
    requires
        cache.tx_hashes.len() == 0,
    ensures
        cache.resumable_state(block_number, tx_hashes) is None,
{
}

/// A reorg makes the cache useless: if the incoming list differs from the cached one at any
/// position that both have, nothing is offered, however long the prefix before it is.
pub proof fn law_divergence_is_refused<R>(
    cache: CacheModel<R>,
    block_number: u64,
    tx_hashes: Seq<B256>,
    position: int,
)
    requires
        0 <= position < cache.tx_hashes.len(),
        position < tx_hashes.len(),
        cache.tx_hashes[position] != tx_hashes[position],
    ensures
        cache.resumable_state(block_number, tx_hashes) is None,
{
}

/// A list that ends before the cached one is offered nothing.
pub proof fn law_shorter_list_is_refused<R>(
    cache: CacheModel<R>,
    block_number: u64,
    tx_hashes: Seq<B256>,
)
    requires
        tx_hashes.len() < cache.tx_hashes.len(),
    ensures
        cache.resumable_state(block_number, tx_hashes) is None,
{
}

/// What is offered is sound: it is the stored bundle and receipts, the build is in the block of
/// the cache, and the transactions that are said to be covered are at least one, are all of the
/// cached ones, and are the ones that the build begins with.
pub proof fn law_offer_is_sound<R>(
    cache: CacheModel<R>,
    block_number: u64,
    tx_hashes: Seq<B256>,
    bundle: BundleState,
    receipts: Seq<R>,
    skip_count: nat,
)
    requires
        cache.resumable_state(block_number, tx_hashes) == Some((bundle, receipts, skip_count)),
    ensures
        cache.block_number == block_number,
        bundle == cache.bundle,
        receipts == cache.receipts,
        0 < skip_count <= tx_hashes.len(),
        tx_hashes.take(skip_count as int) == cache.tx_hashes,
{
}

/// The matching prefix decides: a cache offers its state exactly to the builds in its block whose
/// matching prefix is not empty and is the whole cached list, and then the number of covered
/// transactions is the length of that prefix.
pub proof fn law_full_match_decides<R>(
    cache: CacheModel<R>,
    block_number: u64,
    tx_hashes: Seq<B256>,
    prefix_len: nat,
)
    requires
        crate::model::is_common_prefix_len(cache.tx_hashes, tx_hashes, prefix_len),
    ensures
        cache.resumable_state(block_number, tx_hashes) is Some <==> (cache.block_number
            == block_number && prefix_len > 0 && prefix_len == cache.tx_hashes.len()),
        cache.resumable_state(block_number, tx_hashes) matches Some((_, _, skip_count))
            ==> skip_count == prefix_len,
{
}

/// A continuation keeps the offer: if a list is offered something, every list that continues it
/// is offered the same.
pub proof fn law_continuation_keeps_offer<R>(
    cache: CacheModel<R>,
    block_number: u64,
    tx_hashes: Seq<B256>,
    more: Seq<B256>,
)
    requires
        cache.resumable_state(block_number, tx_hashes) is Some,
    ensures
        cache.resumable_state(block_number, tx_hashes + more) == cache.resumable_state(
            block_number,
            tx_hashes,
        ),
{
}

/// The matching prefix is the longest one: two lists agree on their first `n` transactions exactly
/// if `n` does not exceed its length.
pub proof fn law_matching_prefix_is_longest(
    cached: Seq<B256>,
    incoming: Seq<B256>,
    prefix_len: nat,
    n: nat,
)
    requires
        crate::model::is_common_prefix_len(cached, incoming, prefix_len),
        n <= cached.len(),
        n <= incoming.len(),
    ensures
        cached.take(n as int) == incoming.take(n as int) <==> n <= prefix_len,
{
    if n <= prefix_len {
        assert(cached.take(n as int) =~= incoming.take(n as int));
    } else {
        assert(cached.take(n as int)[prefix_len as int] == cached[prefix_len as int]);
    }
}

/// The matching prefix lies in both lists, so it is empty if one of them is; the lists agree on it;
/// and it ends where one of them ends or where they first differ.
pub proof fn law_matching_prefix_is_exact(cached: Seq<B256>, incoming: Seq<B256>, prefix_len: nat)
    requires
        crate::model::is_common_prefix_len(cached, incoming, prefix_len),
    ensures
        prefix_len <= cached.len(),
        prefix_len <= incoming.len(),
        cached.len() == 0 || incoming.len() == 0 ==> prefix_len == 0,
        cached.take(prefix_len as int) == incoming.take(prefix_len as int),
        prefix_len == cached.len() || prefix_len == incoming.len() || cached[prefix_len as int]
            != incoming[prefix_len as int],
{
}

/// Two lists have only one matching prefix length, whichever of them is the cached one.
pub proof fn law_matching_prefix_is_unique(
    left: Seq<B256>,
    right: Seq<B256>,
    left_to_right: nat,
    right_to_left: nat,
)
    requires
        crate::model::is_common_prefix_len(left, right, left_to_right),
        crate::model::is_common_prefix_len(right, left, right_to_left),
    ensures
        left_to_right == right_to_left,
{
}

/// A block transition drops the results: once the cache was moved to another block, it belongs to
/// that block, holds nothing, and offers nothing to any build in any block.
pub proof fn law_new_block_clears<R>(
    before: CacheModel<R>,
    after: CacheModel<R>,
    new_block: u64,
    cleared: bool,
    block_number: u64,
    tx_hashes: Seq<B256>,
)
    requires
        before.moves_to_block(new_block, after, cleared),
        before.block_number != new_block,
    ensures
        cleared,
        after.is_empty_for(new_block),
        after.resumable_state(block_number, tx_hashes) is None,
{
}

/// Moving a cache to the block it is in clears nothing and changes nothing, whatever it holds.
pub proof fn law_same_block_changes_nothing<R>(
    cache: CacheModel<R>,
    next: CacheModel<R>,
    cleared: bool,
)
    requires
        cache.moves_to_block(cache.block_number, next, cleared),
    ensures
        !cleared,
        next == cache,
{
}

/// Once a cache was moved to a block, it is in that block; so the second of two moves to one
/// block never clears and changes nothing.
pub proof fn law_second_move_changes_nothing<R>(
    before: CacheModel<R>,
    between: CacheModel<R>,
    after: CacheModel<R>,
    block_number: u64,
    first_cleared: bool,
    second_cleared: bool,
)
    requires
        before.moves_to_block(block_number, between, first_cleared),
        between.moves_to_block(block_number, after, second_cleared),
    ensures
        between.block_number == block_number,
        !second_cleared,
        after == between,
{
}

/// Leaving a block loses its results for good: after moves to another block and back, the cache
/// is in its old block and holds nothing.
pub proof fn law_results_do_not_come_back<R>(
    before: CacheModel<R>,
    between: CacheModel<R>,
    after: CacheModel<R>,
    other_block: u64,
    first_cleared: bool,
    second_cleared: bool,
)
    requires
        before.block_number != other_block,
        before.moves_to_block(other_block, between, first_cleared),
        between.moves_to_block(before.block_number, after, second_cleared),
    ensures
        first_cleared,
        second_cleared,
        after.is_empty_for(before.block_number),
{
}

/// An empty cache for a block is in that block and holds no transaction, no receipt, and no change
/// in its bundle.
pub proof fn law_empty_holds_nothing<R>(cache: CacheModel<R>, block_number: u64)
    requires
        cache.is_empty_for(block_number),
    ensures
        cache.block_number == block_number,
        cache.tx_hashes.len() == 0,
        cache.receipts.len() == 0,
        crate::primitives::bundle_accounts(cache.bundle) == Set::<Seq<u8>>::empty(),
        crate::primitives::bundle_contracts(cache.bundle) == Set::<Seq<u8>>::empty(),
        crate::primitives::bundle_reverts(cache.bundle).len() == 0,
        crate::primitives::bundle_state_size(cache.bundle) == 0,
        crate::primitives::bundle_reverts_size(cache.bundle) == 0,
{
}

/// Empty caches for one block hold the same: a new cache, a default cache, one made for block 0
/// and one that was cleared agree in block, transactions and receipts, and their bundles hold the
/// same accounts, contracts, reverts and sizes.
pub proof fn law_empty_caches_agree<R>(
    left: CacheModel<R>,
    right: CacheModel<R>,
    block_number: u64,
)
    requires
        left.is_empty_for(block_number),
        right.is_empty_for(block_number),
    ensures
        left.block_number == right.block_number,
        left.tx_hashes == right.tx_hashes,
        left.receipts == right.receipts,
        crate::primitives::bundle_accounts(left.bundle) == crate::primitives::bundle_accounts(
            right.bundle,
        ),
        crate::primitives::bundle_contracts(left.bundle) == crate::primitives::bundle_contracts(
            right.bundle,
        ),
        crate::primitives::bundle_reverts(left.bundle) == crate::primitives::bundle_reverts(
            right.bundle,
        ),
        crate::primitives::bundle_state_size(left.bundle) == crate::primitives::bundle_state_size(
            right.bundle,
        ),
        crate::primitives::bundle_reverts_size(left.bundle)
            == crate::primitives::bundle_reverts_size(right.bundle),
{
}

/// Flashblocks of one block build on each other: if the lists of three of them continue one
/// another, the results of the first are offered to the second, and those of the second, once
/// they replaced the first, to the third, each covering all that was cached.
pub proof fn law_flashblocks_build_on_each_other<R>(
    block_number: u64,
    first: Seq<B256>,
    second: Seq<B256>,
    third: Seq<B256>,
    first_bundle: BundleState,
    second_bundle: BundleState,
    first_receipts: Seq<R>,
    second_receipts: Seq<R>,
)
    requires
        first.len() > 0,
        first.is_prefix_of(second),
        second.is_prefix_of(third),
    ensures
        (CacheModel {
            block_number,
            tx_hashes: first,
            bundle: first_bundle,
            receipts: first_receipts,
        }).resumable_state(block_number, second) == Some(
            (first_bundle, first_receipts, first.len()),
        ),
        (CacheModel {
            block_number,
            tx_hashes: second,
            bundle: second_bundle,
            receipts: second_receipts,
        }).resumable_state(block_number, third) == Some(
            (second_bundle, second_receipts, second.len()),
        ),
{
}

} // verus!
