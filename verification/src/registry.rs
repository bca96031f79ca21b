//! The table of live cancellation tokens.
//!
//! A batch reserves a token before it starts and releases it when it ends. The
//! holder of the id may ask for cancellation at any time; the batch observes the
//! request between items and, where the platform allows it, during one. An id
//! that is reserved never names a token that is live.

use std::collections::HashMap;
use vstd::prelude::*;

verus! {

broadcast use vstd::std_specs::hash::group_hash_axioms;

/// Maps the id of each live token to whether cancellation was requested.
pub struct CancellationRegistry {
    next_id: u32,
    tokens: HashMap<u32, bool>,
}

impl View for CancellationRegistry {
    type V = Map<u32, bool>;

    closed spec fn view(&self) -> Map<u32, bool> {
        self.tokens@
    }
}

impl CancellationRegistry {
    /// The id that the next reservation hands out.
    pub closed spec fn next_id(&self) -> u32 {
        self.next_id
    }

    /// Every live id lies behind the counter. This holds from creation for as
    /// long as ids are only reserved, not chosen by the caller, and the counter
    /// has not wrapped around.
    pub open spec fn ids_behind_counter(&self) -> bool {
        forall|id: u32| #[trigger] self@.contains_key(id) ==> id < self.next_id()
    }

    /// Whether `id` names a live token.
    pub open spec fn is_live(&self, id: u32) -> bool {
        self@.contains_key(id)
    }

    /// A registry without tokens, counting from zero.
    pub fn new() -> (registry: Self)
        ensures
            registry@ == Map::<u32, bool>::empty(),
            registry.next_id() == 0,
            registry.ids_behind_counter(),
    {
        CancellationRegistry { next_id: 0, tokens: HashMap::new() }
    }

    /// Number of live tokens.
    pub fn len(&self) -> (n: usize)
        ensures
            n == self@.len(),
    {
        self.tokens.len()
    }
}

/// The counter after one more reservation: it wraps to zero past `u32::MAX`.
pub open spec fn counter_after(next_id: u32) -> u32 {
    if next_id == u32::MAX {
        0
    } else {
        (next_id + 1) as u32
    }
}

/// The id that lies `steps` places after `from`, counting on from zero past
/// `u32::MAX`.
pub open spec fn id_after(from: u32, steps: int) -> u32 {
    ((from + steps) % 0x1_0000_0000) as u32
}

/// How many places `id` lies after `from`, counting on from zero past
/// `u32::MAX`.
pub open spec fn places_after(from: u32, id: u32) -> int {
    if id >= from {
        id - from
    } else {
        id + 0x1_0000_0000 - from
    }
}

/// Whether `id` is the first id from `from` on that names no token.
pub open spec fn is_next_free(tokens: Map<u32, bool>, from: u32, id: u32) -> bool {
    &&& !tokens.contains_key(id)
    &&& forall|other: u32|
        !#[trigger] tokens.contains_key(other) ==> places_after(from, id) <= places_after(
            from,
            other,
        )
}

/// Whether every id names a token, so that none is free.
pub open spec fn all_taken(tokens: Map<u32, bool>) -> bool {
    forall|id: u32| #[trigger] tokens.contains_key(id)
}

/// Creates a token that is not cancelled and returns its id: the first id from
/// the counter on that names no live token. No live token is touched. Only
/// where every id there is names a live token, the token at the counter is
/// replaced.
pub fn reserve_cancellable(registry: &mut CancellationRegistry) -> (id: u32)
    ensures
        !all_taken(old(registry)@) ==> is_next_free(old(registry)@, old(registry).next_id(), id),
        all_taken(old(registry)@) ==> id == old(registry).next_id(),
        final(registry)@ == old(registry)@.insert(id, false),
        final(registry).next_id() == counter_after(id),
        old(registry).ids_behind_counter() ==> id == old(registry).next_id(),
        old(registry).ids_behind_counter() && id < u32::MAX
            ==> final(registry).ids_behind_counter(),
{
    let start = registry.next_id;
    let mut id = start;
    let mut tried: u64 = 0;
    while tried < 0x1_0000_0000 && registry.tokens.contains_key(&id)
        invariant
            tried <= 0x1_0000_0000,
            start == old(registry).next_id(),
            registry.next_id == start,
            registry@ == old(registry)@,
            id == id_after(start, tried as int),
            forall|j: int| 0 <= j < tried ==> registry@.contains_key(#[trigger] id_after(start, j)),
        decreases 0x1_0000_0000 - tried,
    {
        id = id.wrapping_add(1);
        tried = tried + 1;
    }
    proof {
        if tried == 0x1_0000_0000 {
            assert forall|other: u32| #[trigger] registry@.contains_key(other) by {
                assert(id_after(start, places_after(start, other)) == other);
            }
        } else {
            assert(places_after(start, id) == tried);
            assert forall|other: u32| !#[trigger] registry@.contains_key(other) implies places_after(
                start,
                id,
            ) <= places_after(start, other) by {
                assert(id_after(start, places_after(start, other)) == other);
            }
            assert(!all_taken(registry@));
        }
        if old(registry).ids_behind_counter() {
            if registry@.contains_key(start) {
                assert(start < start);
            }
            assert(tried == 0);
        }
    }
    registry.next_id = id.wrapping_add(1);
    registry.tokens.insert(id, false);
    id
}

/// Stores a token that is not cancelled under an id that the caller chose. A
/// token already stored under that id is replaced.
pub fn register_cancellable(registry: &mut CancellationRegistry, cancel_id: u32)
    ensures
        final(registry)@ == old(registry)@.insert(cancel_id, false),
        final(registry).next_id() == old(registry).next_id(),
{
    registry.tokens.insert(cancel_id, false);
}

/// Marks the token `id` as cancelled. Returns whether the token existed; an
/// unknown id changes nothing.
pub fn cancel(registry: &mut CancellationRegistry, id: u32) -> (found: bool)
    ensures
        found == old(registry).is_live(id),
        found ==> final(registry)@ == old(registry)@.insert(id, true),
        !found ==> final(registry)@ == old(registry)@,
        final(registry).next_id() == old(registry).next_id(),
{
    if registry.tokens.contains_key(&id) {
        registry.tokens.insert(id, true);
        true
    } else {
        false
    }
}

/// Whether the token `id` is live and cancellation was requested for it.
pub fn is_cancelled(registry: &CancellationRegistry, id: u32) -> (cancelled: bool)
    ensures
        cancelled == (registry.is_live(id) && registry@[id]),
{
    match registry.tokens.get(&id) {
        Some(flag) => *flag,
        None => false,
    }
}

/// Removes the token `id`, if it is live.
pub fn release(registry: &mut CancellationRegistry, id: u32)
    ensures
        final(registry)@ == old(registry)@.remove(id),
        final(registry).next_id() == old(registry).next_id(),
{
    registry.tokens.remove(&id);
}

/// Releases the token of a batch that has ended. A batch that ran without a
/// token (`None`) leaves the registry as it is.
pub fn clean_up(registry: &mut CancellationRegistry, cancel_id: Option<u32>)
    ensures
        final(registry)@ == match cancel_id {
            Some(id) => old(registry)@.remove(id),
            None => old(registry)@,
        },
        final(registry).next_id() == old(registry).next_id(),
{
    if let Some(id) = cancel_id {
        release(registry, id);
    }
}

/// An id that is reserved names no token that was live, and every token that
/// was live keeps its id and its flag, as long as any id is free at all.
pub proof fn lemma_reserved_id_is_fresh(before: CancellationRegistry, after: CancellationRegistry, id: u32)
    requires
        !all_taken(before@),
        is_next_free(before@, before.next_id(), id),
        after@ == before@.insert(id, false),
    ensures
        !before.is_live(id),
        after.is_live(id) && !after@[id],
        forall|other: u32|
            before.is_live(other) ==> other != id && after.is_live(other) && after@[other]
                == before@[other],
{
}

/// While every live id lies behind the counter, ids are handed out in rising
/// order: the id reserved is the counter itself, above every live id, and until
/// the counter reaches its end this stays so.
pub proof fn lemma_ids_rise(before: CancellationRegistry, after: CancellationRegistry, id: u32)
    requires
        before.ids_behind_counter(),
        is_next_free(before@, before.next_id(), id),
        after@ == before@.insert(id, false),
        after.next_id() == counter_after(id),
    ensures
        id == before.next_id(),
        forall|other: u32| before.is_live(other) ==> other < id,
        id < u32::MAX ==> after.ids_behind_counter(),
{
    if before@.contains_key(before.next_id()) {
        assert(before.next_id() < before.next_id());
    }
    assert(places_after(before.next_id(), id) <= places_after(before.next_id(), before.next_id()));
    if id < u32::MAX {
        assert forall|other: u32| #[trigger] after@.contains_key(other) implies other
            < after.next_id() by {
            if other != id {
                assert(before@.contains_key(other));
            }
        }
    }
}

/// Cancelling and releasing hand out no ids: live ids that lay behind the
/// counter still do, so an id that was released is not handed out again
/// before the counter wraps around.
pub proof fn lemma_release_keeps_ids_behind(before: CancellationRegistry, after: CancellationRegistry, id: u32)
    requires
        before.ids_behind_counter(),
        after.next_id() == before.next_id(),
        after@ == before@.remove(id) || after@ == before@ || (before.is_live(id) && after@
            == before@.insert(id, true)),
    ensures
        after.ids_behind_counter(),
{
    assert forall|other: u32| #[trigger] after@.contains_key(other) implies other
        < after.next_id() by {
        assert(before@.contains_key(other));
    }
}

} // verus!
