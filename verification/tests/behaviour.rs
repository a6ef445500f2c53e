//! Edge cases and laws on concrete values.

use alloy_primitives::B256;
use revm_database::BundleState;
use tx_cache::TransactionCache;

/// A bundle that can be told apart from an empty one and from others by `tag`.
fn marked_bundle(tag: usize) -> BundleState {
    BundleState { state_size: tag, reverts_size: tag + 1, ..BundleState::default() }
}

fn hash(byte: u8) -> B256 {
    B256::repeat_byte(byte)
}

/// A cache for block 7 with transactions 1, 2 and receipts 10, 20.
fn filled_cache() -> TransactionCache<u64> {
    let mut cache = TransactionCache::new();
    cache.update(7, vec![hash(1), hash(2)], marked_bundle(5), vec![10, 20]);
    cache
}

fn assert_holds_nothing(cache: &TransactionCache<u64>, block_number: u64) {
    assert_eq!(cache.block_number(), block_number);
    assert!(cache.is_empty());
    assert_eq!(cache.len(), 0);
    assert!(cache.executed_tx_hashes().is_empty());
    assert!(cache.receipts().is_empty());
    assert!(cache.bundle().state.is_empty());
    assert!(cache.bundle().contracts.is_empty());
    assert!(cache.bundle().reverts.is_empty());
    assert_eq!(cache.bundle().state_size, 0);
    assert_eq!(cache.bundle().reverts_size, 0);
}

#[test]
fn fresh_caches_hold_nothing() {
    assert_holds_nothing(&TransactionCache::new(), 0);
    assert_holds_nothing(&TransactionCache::default(), 0);
    assert_holds_nothing(&TransactionCache::for_block(0), 0);
    assert_holds_nothing(&TransactionCache::for_block(u64::MAX), u64::MAX);
}

#[test]
fn update_stores_its_arguments() {
    let cache = filled_cache();
    assert_eq!(cache.block_number(), 7);
    assert!(cache.is_valid_for_block(7));
    assert!(!cache.is_valid_for_block(0));
    assert_eq!(cache.len(), 2);
    assert!(!cache.is_empty());
    assert_eq!(cache.executed_tx_hashes(), &[hash(1), hash(2)]);
    assert_eq!(cache.receipts(), &[10, 20]);
    assert_eq!(cache.bundle(), &marked_bundle(5));
}

#[test]
fn update_replaces_everything() {
    let mut cache = filled_cache();
    cache.update(8, vec![hash(3)], marked_bundle(9), vec![30, 40, 50]);
    assert_eq!(cache.block_number(), 8);
    assert_eq!(cache.executed_tx_hashes(), &[hash(3)]);
    assert_eq!(cache.receipts(), &[30, 40, 50]);
    assert_eq!(cache.bundle(), &marked_bundle(9));
    assert!(cache.get_resumable_state(7, &[hash(1), hash(2)]).is_none());
}

#[test]
fn clear_drops_everything() {
    let mut cache = filled_cache();
    cache.clear();
    assert_holds_nothing(&cache, 0);
    assert!(cache.get_resumable_state(7, &[hash(1), hash(2)]).is_none());
    assert!(cache.get_resumable_state(0, &[]).is_none());
}

#[test]
fn same_block_keeps_the_results() {
    let mut cache = filled_cache();
    assert!(!cache.update_for_block(7));
    assert_eq!(cache.executed_tx_hashes(), &[hash(1), hash(2)]);
    assert_eq!(cache.receipts(), &[10, 20]);
    assert_eq!(cache.bundle(), &marked_bundle(5));
}

#[test]
fn other_block_drops_the_results_for_good() {
    let mut cache = filled_cache();
    assert!(cache.update_for_block(8));
    assert_holds_nothing(&cache, 8);
    assert!(!cache.update_for_block(8));
    assert_holds_nothing(&cache, 8);
    assert!(cache.update_for_block(7));
    assert_holds_nothing(&cache, 7);
    assert!(cache.get_resumable_state(7, &[hash(1), hash(2)]).is_none());
}

#[test]
fn block_zero_is_an_ordinary_block() {
    let mut cache = filled_cache();
    assert!(cache.update_for_block(0));
    assert!(!cache.update_for_block(0));
    cache.update(0, vec![hash(1)], marked_bundle(3), vec![]);
    assert!(!cache.update_for_block(0));
    assert!(cache.get_resumable_state(0, &[hash(1)]).is_some());
}

#[test]
fn hashes_are_compared_byte_for_byte() {
    let mut first = [0xAA; 32];
    first[0] = 0xAB;
    let mut last = [0xAA; 32];
    last[31] = 0xAB;
    let mut cache: TransactionCache<u64> = TransactionCache::new();
    cache.update(7, vec![B256::new([0xAA; 32])], BundleState::default(), vec![]);
    assert_eq!(cache.matching_prefix_len(&[B256::new(first)]), 0);
    assert_eq!(cache.matching_prefix_len(&[B256::new(last)]), 0);
    assert_eq!(cache.matching_prefix_len(&[hash(0xAA)]), 1);
}

#[test]
fn matching_prefix_ends_at_the_first_difference() {
    let mut cache: TransactionCache<u64> = TransactionCache::new();
    assert_eq!(cache.matching_prefix_len(&[]), 0);
    assert_eq!(cache.matching_prefix_len(&[hash(1)]), 0);
    cache.update(7, vec![hash(1), hash(2), hash(3)], BundleState::default(), vec![]);
    // The two lists agree again at the last position.
    assert_eq!(cache.matching_prefix_len(&[hash(1), hash(9), hash(3)]), 1);
    assert_eq!(cache.matching_prefix_len(&[hash(1), hash(2)]), 2);
    assert_eq!(cache.matching_prefix_len(&[hash(2), hash(3)]), 0);
    assert_eq!(cache.matching_prefix_len(&[hash(1), hash(2), hash(3), hash(3)]), 3);
}

#[test]
fn repeated_hashes_match_by_position() {
    let mut cache: TransactionCache<u64> = TransactionCache::new();
    cache.update(7, vec![hash(1), hash(1)], BundleState::default(), vec![]);
    assert_eq!(cache.matching_prefix_len(&[hash(1)]), 1);
    assert_eq!(cache.matching_prefix_len(&[hash(1), hash(1), hash(1)]), 2);
    assert!(cache.get_resumable_state(7, &[hash(1)]).is_none());
}

#[test]
fn continuation_is_offered_what_was_stored() {
    let cache = filled_cache();
    for incoming in [vec![hash(1), hash(2)], vec![hash(1), hash(2), hash(3), hash(4)]] {
        let (bundle, receipts, skip_count) = cache.get_resumable_state(7, &incoming).unwrap();
        assert_eq!(bundle, &marked_bundle(5));
        assert_eq!(receipts, &[10, 20]);
        assert_eq!(skip_count, 2);
        assert_eq!(&incoming[..skip_count], cache.executed_tx_hashes());
        assert_eq!(skip_count, cache.matching_prefix_len(&incoming));
    }
}

#[test]
fn anything_but_a_continuation_is_refused() {
    let cache = filled_cache();
    assert!(cache.get_resumable_state(7, &[]).is_none());
    assert!(cache.get_resumable_state(7, &[hash(1)]).is_none());
    assert!(cache.get_resumable_state(7, &[hash(1), hash(3)]).is_none());
    assert!(cache.get_resumable_state(7, &[hash(3), hash(2)]).is_none());
    assert!(cache.get_resumable_state(7, &[hash(2), hash(1)]).is_none());
    assert!(cache.get_resumable_state(6, &[hash(1), hash(2)]).is_none());
    assert!(cache.get_resumable_state(8, &[hash(1), hash(2)]).is_none());
}

#[test]
fn receipts_without_transactions_are_not_offered() {
    let mut cache: TransactionCache<u64> = TransactionCache::new();
    cache.update(7, vec![], marked_bundle(5), vec![10]);
    assert!(cache.is_empty());
    assert_eq!(cache.receipts(), &[10]);
    assert!(cache.get_resumable_state(7, &[]).is_none());
    assert!(cache.get_resumable_state(7, &[hash(1)]).is_none());
}

#[test]
fn flashblocks_build_on_each_other() {
    let lists = [
        vec![hash(1)],
        vec![hash(1), hash(2), hash(3)],
        vec![hash(1), hash(2), hash(3), hash(4)],
    ];
    let mut cache: TransactionCache<u64> = TransactionCache::for_block(7);
    let mut tag = 1;
    for list in lists {
        if !cache.is_empty() {
            let covered = cache.len();
            let (bundle, _, skip_count) = cache.get_resumable_state(7, &list).unwrap();
            assert_eq!(bundle, &marked_bundle(tag - 1));
            assert_eq!(skip_count, covered);
        }
        cache.update(7, list, marked_bundle(tag), vec![]);
        tag += 1;
    }
    assert_eq!(cache.len(), 4);
}

#[test]
fn caches_are_printable() {
    let printed = format!("{:?}", filled_cache());
    assert!(printed.contains("block_number: 7"));
}
