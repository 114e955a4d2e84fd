//! The reactor's token table: a dense slab with stable integer keys,
//! provided by the `slab` crate and used from verified code through the
//! trusted declarations below.
//!
//! The table's contents are named by `slab_entries`, the key its next
//! insertion uses by `slab_vacant_key`; every contract below speaks over
//! those two names, and states only what the crate's source shows.

use vstd::prelude::*;
use slab::Slab;
use crate::ready_states::ReadyStates;

verus! {

/// The slab type of the `slab` crate, opaque to the verifier.
#[verifier::external_type_specification]
#[verifier::external_body]
#[verifier::reject_recursive_types(T)]
pub struct ExSlab<T>(Slab<T>);

/// The latches a slab stores, keyed by their tokens.
pub uninterp spec fn slab_entries(s: Slab<ReadyStates>) -> Map<usize, ReadyStates>;

/// The contents of a slab no insertion has touched.
pub open spec fn empty_latch_table() -> Map<usize, ReadyStates> {
    Map::empty()
}

/// The key the slab's next insertion is assigned.
pub uninterp spec fn slab_vacant_key(s: Slab<ReadyStates>) -> usize;

/// Relies on slab::Slab::with_capacity: the fresh slab stores no values,
/// and its first insertion gets key 0.
#[verifier::external_body]
pub fn slab_with_capacity(capacity: usize) -> (s: Slab<ReadyStates>)
    ensures
        slab_entries(s) == empty_latch_table(),
        slab_vacant_key(s) == 0,
{
    Slab::with_capacity(capacity)
}

/// Relies on slab::Slab::insert: the value is stored under the vacant
/// key, which no stored value occupied, and other entries are untouched.
/// The slab grows its storage by itself when full.
#[verifier::external_body]
pub fn slab_put(s: &mut Slab<ReadyStates>, v: ReadyStates) -> (k: usize)
    ensures
        k == slab_vacant_key(*old(s)),
        !slab_entries(*old(s)).dom().contains(k),
        slab_entries(*final(s)) == slab_entries(*old(s)).insert(k, v),
{
    s.insert(v)
}

/// Relies on slab::Slab::try_remove: the value under the key moves out
/// and the key becomes the next vacant one; an unoccupied key changes
/// nothing.
#[verifier::external_body]
pub fn slab_take(s: &mut Slab<ReadyStates>, k: usize) -> (r: Option<ReadyStates>)
    ensures
        match r {
            Some(v) => {
                &&& slab_entries(*old(s)).dom().contains(k)
                &&& v == slab_entries(*old(s))[k]
                &&& slab_entries(*final(s)) == slab_entries(*old(s)).remove(k)
                &&& slab_vacant_key(*final(s)) == k
            },
            None => {
                &&& !slab_entries(*old(s)).dom().contains(k)
                &&& slab_entries(*final(s)) == slab_entries(*old(s))
                &&& slab_vacant_key(*final(s)) == slab_vacant_key(*old(s))
            },
        },
{
    s.try_remove(k)
}

/// Relies on slab::Slab::contains: whether a value is stored under `k`.
#[verifier::external_body]
pub fn slab_contains(s: &Slab<ReadyStates>, k: usize) -> (r: bool)
    ensures
        r == slab_entries(*s).dom().contains(k),
{
    s.contains(k)
}

} // verus!
