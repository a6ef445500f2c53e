//! What holds of every call of a cache's methods, and of calls that follow one another.
//!
//! A law here takes the arguments and results of calls that were made, which `call_ensures` says
//! of them, and relates them to each other: what was stored, what is read, what is reported. Where
//! a call changes the cache, `old(cache)` is the cache it was given and `final(cache)` the one it
//! left.
use alloy_primitives::B256;
use revm_database::BundleState;
use vstd::prelude::*;

use crate::cache::TransactionCache;

verus! {

/// Every method that reads a cache reads back what `update` was given.
pub proof fn law_getters_read_the_update<R>(
    cache: &mut TransactionCache<R>,
    block_number: u64,
    tx_hashes: Vec<B256>,
    bundle: BundleState,
    receipts: Vec<R>,
    read_block_number: u64,
    read_tx_hashes: &[B256],
    read_bundle: &BundleState,
    read_receipts: &[R],
)
    requires
        call_ensures(
            TransactionCache::<R>::update,
            (cache, block_number, tx_hashes, bundle, receipts),
            (),
        ),
        call_ensures(TransactionCache::<R>::block_number, (&*final(cache),), read_block_number),
        call_ensures(TransactionCache::<R>::executed_tx_hashes, (&*final(cache),), read_tx_hashes),
        call_ensures(TransactionCache::<R>::bundle, (&*final(cache),), read_bundle),
        call_ensures(TransactionCache::<R>::receipts, (&*final(cache),), read_receipts),
    ensures
        read_block_number == block_number,
        read_tx_hashes@ == tx_hashes@,
        *read_bundle == bundle,
        read_receipts@ == receipts@,
{
}

/// The methods that read a cache agree with each other and with the view: the length is that of
/// the list of hashes, the cache is empty exactly if that list is, and it is valid for exactly the
/// block it names.
pub proof fn law_getters_agree<R>(
    cache: &TransactionCache<R>,
    asked_block: u64,
    block_number: u64,
    valid: bool,
    tx_hashes: &[B256],
    len: usize,
    empty: bool,
    bundle: &BundleState,
    receipts: &[R],
)
    requires
        call_ensures(TransactionCache::<R>::block_number, (cache,), block_number),
        call_ensures(TransactionCache::<R>::is_valid_for_block, (cache, asked_block), valid),
        call_ensures(TransactionCache::<R>::executed_tx_hashes, (cache,), tx_hashes),
        call_ensures(TransactionCache::<R>::len, (cache,), len),
        call_ensures(TransactionCache::<R>::is_empty, (cache,), empty),
        call_ensures(TransactionCache::<R>::bundle, (cache,), bundle),
        call_ensures(TransactionCache::<R>::receipts, (cache,), receipts),
    ensures
        valid <==> asked_block == block_number,
        len == tx_hashes@.len(),
        empty <==> len == 0,
        cache@.block_number == block_number,
        cache@.tx_hashes == tx_hashes@,
        cache@.bundle == *bundle,
        cache@.receipts == receipts@,
{
}

/// A new cache belongs to block 0 and holds nothing.
pub proof fn law_new_holds_nothing<R>(cache: TransactionCache<R>)
    requires
        call_ensures(TransactionCache::<R>::new, (), cache),
    ensures
        cache@.block_number == 0,
        cache@.tx_hashes.len() == 0,
        cache@.receipts.len() == 0,
        crate::primitives::bundle_accounts(cache@.bundle) == Set::<Seq<u8>>::empty(),
        crate::primitives::bundle_contracts(cache@.bundle) == Set::<Seq<u8>>::empty(),
        crate::primitives::bundle_reverts(cache@.bundle).len() == 0,
        crate::primitives::bundle_state_size(cache@.bundle) == 0,
        crate::primitives::bundle_reverts_size(cache@.bundle) == 0,
{
}

/// The default cache belongs to block 0 and holds nothing.
pub proof fn law_default_holds_nothing<R>(cache: TransactionCache<R>)
    requires
        call_ensures(<TransactionCache::<R> as Default>::default, (), cache),
    ensures
        cache@.block_number == 0,
        cache@.tx_hashes.len() == 0,
        cache@.receipts.len() == 0,
        crate::primitives::bundle_accounts(cache@.bundle) == Set::<Seq<u8>>::empty(),
        crate::primitives::bundle_contracts(cache@.bundle) == Set::<Seq<u8>>::empty(),
        crate::primitives::bundle_reverts(cache@.bundle).len() == 0,
        crate::primitives::bundle_state_size(cache@.bundle) == 0,
        crate::primitives::bundle_reverts_size(cache@.bundle) == 0,
{
}

/// A cache made for a block belongs to that block and holds nothing.
pub proof fn law_for_block_holds_nothing<R>(block_number: u64, cache: TransactionCache<R>)
    requires
        call_ensures(TransactionCache::<R>::for_block, (block_number,), cache),
    ensures
        cache@.block_number == block_number,
        cache@.tx_hashes.len() == 0,
        cache@.receipts.len() == 0,
        crate::primitives::bundle_accounts(cache@.bundle) == Set::<Seq<u8>>::empty(),
        crate::primitives::bundle_contracts(cache@.bundle) == Set::<Seq<u8>>::empty(),
        crate::primitives::bundle_reverts(cache@.bundle).len() == 0,
        crate::primitives::bundle_state_size(cache@.bundle) == 0,
        crate::primitives::bundle_reverts_size(cache@.bundle) == 0,
{
}

/// Clearing any cache leaves it with block 0 and nothing in it.
pub proof fn law_clear_drops_everything<R>(cache: &mut TransactionCache<R>)
    requires
        call_ensures(TransactionCache::<R>::clear, (cache,), ()),
    ensures
        final(cache)@.block_number == 0,
        final(cache)@.tx_hashes.len() == 0,
        final(cache)@.receipts.len() == 0,
        crate::primitives::bundle_accounts(final(cache)@.bundle) == Set::<Seq<u8>>::empty(),
        crate::primitives::bundle_contracts(final(cache)@.bundle) == Set::<Seq<u8>>::empty(),
        crate::primitives::bundle_reverts(final(cache)@.bundle).len() == 0,
        crate::primitives::bundle_state_size(final(cache)@.bundle) == 0,
        crate::primitives::bundle_reverts_size(final(cache)@.bundle) == 0,
{
}

/// Moving any cache, whatever it holds, to the block it is in reports that nothing was cleared and
/// leaves its block, transactions, bundle and receipts as they were.
pub proof fn law_same_block_keeps_everything<R>(
    cache: &mut TransactionCache<R>,
    block_number: u64,
    cleared: bool,
)
    requires
        call_ensures(TransactionCache::<R>::update_for_block, (cache, block_number), cleared),
        old(cache)@.block_number == block_number,
    ensures
        !cleared,
        final(cache)@.block_number == block_number,
        final(cache)@.tx_hashes == old(cache)@.tx_hashes,
        final(cache)@.bundle == old(cache)@.bundle,
        final(cache)@.receipts == old(cache)@.receipts,
{
}

/// Moving any cache, whatever it holds, to another block reports that it was cleared, and leaves
/// it in that block with nothing in it.
pub proof fn law_other_block_drops_everything<R>(
    cache: &mut TransactionCache<R>,
    block_number: u64,
    cleared: bool,
)
    requires
        call_ensures(TransactionCache::<R>::update_for_block, (cache, block_number), cleared),
        old(cache)@.block_number != block_number,
    ensures
        cleared,
        final(cache)@.block_number == block_number,
        final(cache)@.tx_hashes.len() == 0,
        final(cache)@.receipts.len() == 0,
        crate::primitives::bundle_accounts(final(cache)@.bundle) == Set::<Seq<u8>>::empty(),
        crate::primitives::bundle_contracts(final(cache)@.bundle) == Set::<Seq<u8>>::empty(),
        crate::primitives::bundle_reverts(final(cache)@.bundle).len() == 0,
        crate::primitives::bundle_state_size(final(cache)@.bundle) == 0,
        crate::primitives::bundle_reverts_size(final(cache)@.bundle) == 0,
{
}

/// The matching prefix lies in both lists, so it is empty if one of them is; the lists agree on it;
/// and it is the longest such prefix: where the lists agree on their first `n` transactions, `n`
/// does not exceed it.
pub proof fn law_prefix_is_the_longest_shared<R>(
    cache: &TransactionCache<R>,
    incoming: &[B256],
    len: usize,
    n: nat,
)
    requires
        call_ensures(TransactionCache::<R>::matching_prefix_len, (cache, incoming), len),
    ensures
        len <= cache@.tx_hashes.len(),
        len <= incoming@.len(),
        cache@.tx_hashes.len() == 0 || incoming@.len() == 0 ==> len == 0,
        cache@.tx_hashes.take(len as int) == incoming@.take(len as int),
        n <= cache@.tx_hashes.len() && n <= incoming@.len() && cache@.tx_hashes.take(n as int)
            == incoming@.take(n as int) ==> n <= len,
{
    if len < n && n <= cache@.tx_hashes.len() && n <= incoming@.len() {
        assert(cache@.tx_hashes.take(n as int)[len as int] == cache@.tx_hashes[len as int]);
        assert(incoming@.take(n as int)[len as int] == incoming@[len as int]);
    }
}

/// The matching prefix depends on the two lists alone, and not on which of them is cached: two
/// caches, each asked about the transactions of the other, give the same answer.
pub proof fn law_prefix_is_symmetric<R>(
    left: &TransactionCache<R>,
    right: &TransactionCache<R>,
    left_hashes: &[B256],
    right_hashes: &[B256],
    left_len: usize,
    right_len: usize,
)
    requires
        call_ensures(TransactionCache::<R>::executed_tx_hashes, (left,), left_hashes),
        call_ensures(TransactionCache::<R>::executed_tx_hashes, (right,), right_hashes),
        call_ensures(TransactionCache::<R>::matching_prefix_len, (left, right_hashes), left_len),
        call_ensures(TransactionCache::<R>::matching_prefix_len, (right, left_hashes), right_len),
    ensures
        left_len == right_len,
{
}

/// A cache matches its own transactions in full, and every list that continues them as well.
pub proof fn law_prefix_of_a_continuation_is_full<R>(
    cache: &TransactionCache<R>,
    incoming: &[B256],
    more: Seq<B256>,
    len: usize,
)
    requires
        incoming@ == cache@.tx_hashes + more,
        call_ensures(TransactionCache::<R>::matching_prefix_len, (cache, incoming), len),
    ensures
        len == cache@.tx_hashes.len(),
{
}

/// A cache offers state exactly where the build is in its block, it holds transactions, and each
/// of them stands at its place in the incoming list; it then offers the bundle and the receipts it
/// holds, and the number of its transactions.
pub proof fn law_offer_is_exact<R>(
    cache: &TransactionCache<R>,
    block_number: u64,
    incoming: &[B256],
    resumable: Option<(&BundleState, &[R], usize)>,
)
    requires
        call_ensures(
            TransactionCache::<R>::get_resumable_state,
            (cache, block_number, incoming),
            resumable,
        ),
    ensures
        resumable is Some <==> {
            &&& cache@.block_number == block_number
            &&& 0 < cache@.tx_hashes.len() <= incoming@.len()
            &&& forall|i: int|
                0 <= i < cache@.tx_hashes.len() ==> cache@.tx_hashes[i] == #[trigger] incoming@[i]
        },
        resumable matches Some((bundle, receipts, skip_count)) ==> *bundle == cache@.bundle
            && receipts@ == cache@.receipts && skip_count == cache@.tx_hashes.len(),
{
    let cached = cache@.tx_hashes;
    if cached.is_prefix_of(incoming@) {
        assert forall|i: int| 0 <= i < cached.len() implies cached[i]
            == #[trigger] incoming@[i] by {
            assert(incoming@.subrange(0, cached.len() as int)[i] == incoming@[i]);
        }
    } else if cached.len() <= incoming@.len() && (forall|i: int|
        0 <= i < cached.len() ==> cached[i] == #[trigger] incoming@[i]) {
        assert(cached =~= incoming@.subrange(0, cached.len() as int));
    }
}

/// The matching prefix and the offer go together: for a build in the block of the cache, state is
/// offered exactly if the matching prefix is not empty and is as long as the cache, and the number
/// of covered transactions is then that length.
pub proof fn law_offer_follows_the_prefix<R>(
    cache: &TransactionCache<R>,
    block_number: u64,
    incoming: &[B256],
    valid: bool,
    len: usize,
    prefix_len: usize,
    resumable: Option<(&BundleState, &[R], usize)>,
)
    requires
        call_ensures(TransactionCache::<R>::is_valid_for_block, (cache, block_number), valid),
        call_ensures(TransactionCache::<R>::len, (cache,), len),
        call_ensures(TransactionCache::<R>::matching_prefix_len, (cache, incoming), prefix_len),
        call_ensures(
            TransactionCache::<R>::get_resumable_state,
            (cache, block_number, incoming),
            resumable,
        ),
    ensures
        resumable is Some <==> valid && 0 < prefix_len && prefix_len == len,
        resumable matches Some((_, _, skip_count)) ==> skip_count == prefix_len,
{
    crate::laws::law_full_match_decides(cache@, block_number, incoming@, prefix_len as nat);
}

/// What an update stored is still offered after the cache was moved to the block it is in: every
/// list that continues the transactions of the update gets its bundle and its receipts.
pub proof fn law_update_survives_its_block<R>(
    updated: &mut TransactionCache<R>,
    moved: &mut TransactionCache<R>,
    block_number: u64,
    tx_hashes: Vec<B256>,
    bundle: BundleState,
    receipts: Vec<R>,
    cleared: bool,
    incoming: &[B256],
    more: Seq<B256>,
    resumable: Option<(&BundleState, &[R], usize)>,
)
    requires
        tx_hashes@.len() > 0,
        incoming@ == tx_hashes@ + more,
        call_ensures(
            TransactionCache::<R>::update,
            (updated, block_number, tx_hashes, bundle, receipts),
            (),
        ),
        *old(moved) == *final(updated),
        call_ensures(TransactionCache::<R>::update_for_block, (moved, block_number), cleared),
        call_ensures(
            TransactionCache::<R>::get_resumable_state,
            (&*final(moved), block_number, incoming),
            resumable,
        ),
    ensures
        !cleared,
        resumable matches Some((read_bundle, read_receipts, skip_count)) && *read_bundle == bundle
            && read_receipts@ == receipts@ && skip_count == tx_hashes@.len(),
{
    crate::laws::law_update_is_read_back(block_number, tx_hashes@, bundle, receipts@, more);
}

/// What an update stored is not offered to a list that differs from its transactions at a position
/// that both have, also after the cache was moved to the block it is in.
pub proof fn law_reorg_is_refused_after_update<R>(
    updated: &mut TransactionCache<R>,
    moved: &mut TransactionCache<R>,
    block_number: u64,
    tx_hashes: Vec<B256>,
    bundle: BundleState,
    receipts: Vec<R>,
    cleared: bool,
    incoming: &[B256],
    position: int,
    resumable: Option<(&BundleState, &[R], usize)>,
)
    requires
        0 <= position < tx_hashes@.len(),
        position < incoming@.len(),
        tx_hashes@[position] != incoming@[position],
        call_ensures(
            TransactionCache::<R>::update,
            (updated, block_number, tx_hashes, bundle, receipts),
            (),
        ),
        *old(moved) == *final(updated),
        call_ensures(TransactionCache::<R>::update_for_block, (moved, block_number), cleared),
        call_ensures(
            TransactionCache::<R>::get_resumable_state,
            (&*final(moved), block_number, incoming),
            resumable,
        ),
    ensures
        resumable is None,
{
    crate::laws::law_divergence_is_refused(final(moved)@, block_number, incoming@, position);
}

/// Once a cache was moved to another block, it offers nothing to any build in any block.
pub proof fn law_nothing_survives_a_new_block<R>(
    cache: &mut TransactionCache<R>,
    new_block: u64,
    cleared: bool,
    block_number: u64,
    incoming: &[B256],
    resumable: Option<(&BundleState, &[R], usize)>,
)
    requires
        old(cache)@.block_number != new_block,
        call_ensures(TransactionCache::<R>::update_for_block, (cache, new_block), cleared),
        call_ensures(
            TransactionCache::<R>::get_resumable_state,
            (&*final(cache), block_number, incoming),
            resumable,
        ),
    ensures
        resumable is None,
{
}

/// Once a cache was cleared, it offers nothing to any build in any block.
pub proof fn law_nothing_survives_a_clear<R>(
    cache: &mut TransactionCache<R>,
    block_number: u64,
    incoming: &[B256],
    resumable: Option<(&BundleState, &[R], usize)>,
)
    requires
        call_ensures(TransactionCache::<R>::clear, (cache,), ()),
        call_ensures(
            TransactionCache::<R>::get_resumable_state,
            (&*final(cache), block_number, incoming),
            resumable,
        ),
    ensures
        resumable is None,
{
}

} // verus!
