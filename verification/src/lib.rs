//! Transaction execution caching for flashblock building.
//!
//! Flashblocks of one block arrive one after another, and each of them carries the whole list of
//! transactions so far. Every arrival rebuilds the pending state from that list. The cache keeps
//! what the last build left behind: the hashes of the transactions in the order in which they ran,
//! the cumulative bundle state after all of them, and their receipts. If the next list continues
//! the cached one, the cached bundle serves as the prestate of the next build, and accounts and
//! storage that were loaded before need not be read from disk again.
//!
//! The cache only warms state. It never lets a transaction go unexecuted: the count that
//! [`TransactionCache::get_resumable_state`] hands out says how many transactions the cached
//! bundle covers.
//!
//! - [`primitives`]: the outside types that the cache stores, and what is believed of them;
//! - [`model`]: the mathematical state of a cache and the meaning of its operations;
//! - [`cache`]: the executable cache;
//! - [`laws`]: what holds of the model across operations;
//! - [`calls`]: what holds of every call, and of calls that follow one another.

pub mod cache;
pub mod calls;
pub mod laws;
pub mod model;
pub mod primitives;

pub use cache::TransactionCache;
