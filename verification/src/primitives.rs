//! The outside types that the cache stores.
//!
//! Both are opaque here. A transaction hash is only ever compared, and a bundle state is only ever
//! stored, handed out and replaced by an empty one, so the items below state what equality of
//! hashes means and what an empty bundle holds, and nothing more.
use alloy_primitives::FixedBytes;
use revm_database::BundleState;
use vstd::prelude::*;

verus! {

/// `alloy_primitives::FixedBytes`, of which `B256`, the type of a transaction hash, is the
/// instance with 32 bytes.
#[verifier::external_type_specification]
#[verifier::external_body]
pub struct ExFixedBytes<const N: usize>(FixedBytes<N>);

/// `revm_database::BundleState`, the cumulative changes of a run of transactions.
#[verifier::external_type_specification]
#[verifier::external_body]
pub struct ExBundleState(BundleState);

/// `FixedBytes::eq` compares the byte arrays that the two values wrap, which are all that the
/// values hold: it answers `true` exactly when they are the same value.
pub assume_specification<const N: usize>[ <FixedBytes<N> as PartialEq>::eq ](
    left: &FixedBytes<N>,
    right: &FixedBytes<N>,
) -> (same: bool)
    ensures
        same == (*left == *right),
;

/// The addresses of the accounts in `bundle.state`, as bytes.
pub uninterp spec fn bundle_accounts(bundle: BundleState) -> Set<Seq<u8>>;

/// The code hashes of the contracts in `bundle.contracts`, as bytes.
pub uninterp spec fn bundle_contracts(bundle: BundleState) -> Set<Seq<u8>>;

/// The addresses that `bundle.reverts` lists for each transition, as bytes and in its order.
pub uninterp spec fn bundle_reverts(bundle: BundleState) -> Seq<Seq<Seq<u8>>>;

/// The size of the plain state, `bundle.state_size`.
pub uninterp spec fn bundle_state_size(bundle: BundleState) -> nat;

/// The size of the reverts, `bundle.reverts_size`.
pub uninterp spec fn bundle_reverts_size(bundle: BundleState) -> nat;

/// `BundleState::default` makes a bundle without accounts, contracts and reverts, whose two sizes
/// are zero. Two such bundles are not claimed to be the same value: each of their hash maps
/// carries a hasher with a seed of its own.
pub assume_specification[ <BundleState as Default>::default ]() -> (bundle: BundleState)
    ensures
        bundle_accounts(bundle) == Set::<Seq<u8>>::empty(),
        bundle_contracts(bundle) == Set::<Seq<u8>>::empty(),
        bundle_reverts(bundle) == Seq::<Seq<Seq<u8>>>::empty(),
        bundle_state_size(bundle) == 0,
        bundle_reverts_size(bundle) == 0,
;

/// The bundle records no change at all.
pub open spec fn bundle_is_empty(bundle: BundleState) -> bool {
    &&& bundle_accounts(bundle) == Set::<Seq<u8>>::empty()
    &&& bundle_contracts(bundle) == Set::<Seq<u8>>::empty()
    &&& bundle_reverts(bundle) == Seq::<Seq<Seq<u8>>>::empty()
    &&& bundle_state_size(bundle) == 0
    &&& bundle_reverts_size(bundle) == 0
}

} // verus!
