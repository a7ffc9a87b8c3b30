//! What holds of cached sources and of output slots, whatever was done with them before.

use vstd::prelude::*;

use crate::vulkan::cache::{
    claim_idle_source, claimed_entries, oldest_idle, position_of, stream_entries, without_stream,
    CachedSource, Nv12SourceCacheKey, PackedSourceCacheKey, SourceCache, SourceIdentity,
    SourceInsertion, SourceKey, SourceLease, SourceLookup,
};
use crate::vulkan::pool::{
    idle_place, matching_place, place_of, slots_in_use, OutputKey, OutputPool, OutputSlot,
    SlotClaim, SlotPlace,
};

verus! {

/// The entry at `index` is the one for `key`.
pub open spec fn is_for<K, S>(entries: Seq<CachedSource<K, S>>, key: K, index: int) -> bool {
    0 <= index < entries.len() && entries[index].key == key
}

proof fn lemma_position<K, S>(entries: Seq<CachedSource<K, S>>, key: K, from: int)
    requires
        0 <= from,
    ensures
        match position_of(entries, key, from) {
            Some(index) => from <= index && is_for(entries, key, index),
            None => forall|index: int| from <= index ==> !(#[trigger] is_for(entries, key, index)),
        },
    decreases entries.len() - from,
{
    if from < entries.len() && entries[from].key != key {
        lemma_position(entries, key, from + 1);
    }
}

/// In a well-formed cache, the entry for a key is where it is found.
proof fn lemma_unique<K: SourceKey, S>(cache: SourceCache<K, S>, key: K, index: int)
    requires
        cache.well_formed(),
        is_for(cache.entries@, key, index),
    ensures
        position_of(cache.entries@, key, 0) == Some(index),
{
    lemma_position(cache.entries@, key, 0);
    if position_of(cache.entries@, key, 0) is None {
        assert(is_for(cache.entries@, key, index));
    } else {
        let found = position_of(cache.entries@, key, 0)->0;
        assert(cache.entries[found].key.identity_of() == cache.entries[index].key.identity_of());
    }
}

/// The buffer of the key is cached, under this key or another.
pub open spec fn is_cached<K: SourceKey, S>(entries: Seq<CachedSource<K, S>>, key: K) -> bool {
    exists|index: int|
        0 <= index < entries.len() && (#[trigger] entries[index]).key.identity_of()
            == key.identity_of()
}

/// A source is claimed if and only if it is cached and nobody has claimed it; it is then claimed
/// once more and as recent as the claim. A source that is claimed is refused, a buffer under another
/// key is told apart from one that is not cached, and no other entry is touched.
pub proof fn claims_take_idle_sources<K: SourceKey, S>(
    key: &K,
    generation: u64,
    lookup: SourceLookup,
    index: int,
)
    ensures
        forall|c: &mut SourceCache<K, S>| #[trigger]
            call_ensures(SourceCache::<K, S>::claim, (c, key, generation), lookup)
                && (*c).well_formed() ==> {
                let before = (*c).entries@;
                let after = final(c).entries@;
                &&& after.len() == before.len()
                &&& is_for(before, *key, index) ==> {
                    &&& lookup is Claimed <==> !before[index].claimed && before[index].leases
                        < usize::MAX
                    &&& lookup is Claimed || lookup is Active
                    &&& lookup is Claimed ==> after[index].claimed && after[index].leases
                        == before[index].leases + 1 && after[index].last_used == generation
                        && after[index].key == *key && after[index].source == before[index].source
                    &&& lookup is Active ==> after[index] == before[index]
                }
                &&& 0 <= index < before.len() && before[index].key != *key ==> after[index]
                    == before[index]
                &&& lookup is Claimed || lookup is Active <==> exists|at: int| #[trigger]
                    is_for(before, *key, at)
                &&& lookup is Missing <==> !is_cached(before, *key)
            },
{
    assert forall|c: &mut SourceCache<K, S>| #[trigger]
        call_ensures(SourceCache::<K, S>::claim, (c, key, generation), lookup)
            && (*c).well_formed() implies {
        let before = (*c).entries@;
        let after = final(c).entries@;
        &&& after.len() == before.len()
        &&& is_for(before, *key, index) ==> {
            &&& lookup is Claimed <==> !before[index].claimed && before[index].leases < usize::MAX
            &&& lookup is Claimed || lookup is Active
            &&& lookup is Claimed ==> after[index].claimed && after[index].leases
                == before[index].leases + 1 && after[index].last_used == generation
                && after[index].key == *key && after[index].source == before[index].source
            &&& lookup is Active ==> after[index] == before[index]
        }
        &&& 0 <= index < before.len() && before[index].key != *key ==> after[index]
            == before[index]
        &&& lookup is Claimed || lookup is Active <==> exists|at: int| #[trigger]
            is_for(before, *key, at)
        &&& lookup is Missing <==> !is_cached(before, *key)
    } by {
        let before = (*c).entries@;
        lemma_position(before, *key, 0);
        if is_for(before, *key, index) {
            lemma_unique(*c, *key, index);
        }
        if exists|at: int| #[trigger] is_for(before, *key, at) {
            let at = choose|at: int| #[trigger] is_for(before, *key, at);
            lemma_unique(*c, *key, at);
        }
        if position_of(before, *key, 0) is Some {
            let at = position_of(before, *key, 0)->0;
            assert(before[at].key.identity_of() == key.identity_of());
        }
        if is_cached(before, *key) {
            let at = choose|at: int|
                0 <= at < before.len() && (#[trigger] before[at]).key.identity_of()
                    == key.identity_of();
            assert(crate::vulkan::cache::holds_identity(before, *key));
        }
        if crate::vulkan::cache::holds_identity(before, *key) {
            let at = choose|at: int|
                0 <= at < before.len() && (#[trigger] before[at]).key.identity_of()
                    == key.identity_of();
            assert(is_cached(before, *key));
        }
    }
}

/// Between a claim and its release the same buffer is refused, and afterwards it can be claimed
/// again. A second release does nothing.
pub proof fn releases_end_claims<K: SourceKey, S>(
    key: &K,
    generation: u64,
    first: SourceLookup,
    second: SourceLookup,
    released: bool,
    again: bool,
    index: int,
)
    ensures
        forall|c: &mut SourceCache<K, S>, d: &mut SourceCache<K, S>|
            #[trigger] call_ensures(SourceCache::<K, S>::claim, (c, key, generation), first)
                && #[trigger] call_ensures(
                SourceCache::<K, S>::claim,
                (d, key, generation),
                second,
            ) && (*c).well_formed() && *d == *final(c) && first is Claimed ==> second is Active
                && final(d).entries@ == (*d).entries@,
        forall|c: &mut SourceCache<K, S>, lease: &mut SourceLease<K>| #[trigger]
            call_ensures(SourceCache::<K, S>::release, (c, lease), released) && (*c).well_formed()
                ==> {
                let before = (*c).entries@;
                let after = final(c).entries@;
                &&& released == !(*lease).released
                &&& final(lease).released && final(lease).key == (*lease).key
                &&& after.len() == before.len()
                &&& is_for(before, (*lease).key, index) && released ==> !after[index].claimed
                    && after[index].leases == before[index].leases && after[index].last_used
                    == before[index].last_used && after[index].source == before[index].source
                    && after[index].key == before[index].key
                &&& 0 <= index < before.len() && (before[index].key != (*lease).key || !released)
                    ==> after[index] == before[index]
            },
        forall|
            c: &mut SourceCache<K, S>,
            lease: &mut SourceLease<K>,
            d: &mut SourceCache<K, S>,
            spent: &mut SourceLease<K>,
        |
            #[trigger] call_ensures(SourceCache::<K, S>::release, (c, lease), released)
                && #[trigger] call_ensures(SourceCache::<K, S>::release, (d, spent), again)
                && *spent == *final(lease) ==> !again && final(d).entries@ == (*d).entries@,
{
    assert forall|c: &mut SourceCache<K, S>, d: &mut SourceCache<K, S>|
        #[trigger] call_ensures(SourceCache::<K, S>::claim, (c, key, generation), first)
            && #[trigger] call_ensures(SourceCache::<K, S>::claim, (d, key, generation), second)
            && (*c).well_formed() && *d == *final(c) && first is Claimed implies second is Active
        && final(d).entries@ == (*d).entries@ by {
        lemma_position((*c).entries@, *key, 0);
        let at = position_of((*c).entries@, *key, 0)->0;
        assert(is_for((*d).entries@, *key, at));
        lemma_unique(*d, *key, at);
    }
    assert forall|c: &mut SourceCache<K, S>, lease: &mut SourceLease<K>| #[trigger]
        call_ensures(SourceCache::<K, S>::release, (c, lease), released)
            && (*c).well_formed() implies {
        let before = (*c).entries@;
        let after = final(c).entries@;
        &&& released == !(*lease).released
        &&& final(lease).released && final(lease).key == (*lease).key
        &&& after.len() == before.len()
        &&& is_for(before, (*lease).key, index) && released ==> !after[index].claimed
            && after[index].leases == before[index].leases && after[index].last_used
            == before[index].last_used && after[index].source == before[index].source
            && after[index].key == before[index].key
        &&& 0 <= index < before.len() && (before[index].key != (*lease).key || !released)
            ==> after[index] == before[index]
    } by {
        lemma_position((*c).entries@, (*lease).key, 0);
        if is_for((*c).entries@, (*lease).key, index) {
            lemma_unique(*c, (*lease).key, index);
        }
    }
}

/// A lease that is given back ends its claim, where it has not been released, and counts no more;
/// no other entry is touched, and the source stays cached.
pub proof fn retired_leases_count_no_more<K: SourceKey, S>(lease: SourceLease<K>, index: int)
    ensures
        forall|c: &mut SourceCache<K, S>| #[trigger]
            call_ensures(SourceCache::<K, S>::retire, (c, lease), ()) && (*c).well_formed() ==> {
                let before = (*c).entries@;
                let after = final(c).entries@;
                &&& after.len() == before.len()
                &&& is_for(before, lease.key, index) ==> {
                    &&& after[index].claimed == (before[index].claimed && lease.released)
                    &&& before[index].leases > 1 ==> after[index].leases == before[index].leases - 1
                    &&& before[index].leases == 1 && !after[index].claimed ==> after[index].leases
                        == 0
                    &&& after[index].claimed ==> after[index].leases > 0
                    &&& after[index].key == before[index].key && after[index].source
                        == before[index].source && after[index].last_used == before[index].last_used
                }
                &&& 0 <= index < before.len() && before[index].key != lease.key ==> after[index]
                    == before[index]
            },
{
    assert forall|c: &mut SourceCache<K, S>| #[trigger]
        call_ensures(SourceCache::<K, S>::retire, (c, lease), ()) && (*c).well_formed() implies {
        let before = (*c).entries@;
        let after = final(c).entries@;
        &&& after.len() == before.len()
        &&& is_for(before, lease.key, index) ==> {
            &&& after[index].claimed == (before[index].claimed && lease.released)
            &&& before[index].leases > 1 ==> after[index].leases == before[index].leases - 1
            &&& before[index].leases == 1 && !after[index].claimed ==> after[index].leases == 0
            &&& after[index].claimed ==> after[index].leases > 0
            &&& after[index].key == before[index].key && after[index].source
                == before[index].source && after[index].last_used == before[index].last_used
        }
        &&& 0 <= index < before.len() && before[index].key != lease.key ==> after[index]
            == before[index]
    } by {
        lemma_position((*c).entries@, lease.key, 0);
        if is_for((*c).entries@, lease.key, index) {
            lemma_unique(*c, lease.key, index);
            assert((*c).entries[index].claimed ==> (*c).entries[index].leases > 0);
        }
    }
}

/// Nobody holds the source.
pub open spec fn is_free<K, S>(entry: CachedSource<K, S>) -> bool {
    !entry.claimed && entry.leases == 0
}

proof fn lemma_oldest<K, S>(entries: Seq<CachedSource<K, S>>, count: int)
    requires
        0 <= count <= entries.len(),
    ensures
        match oldest_idle(entries, count) {
            Some(index) => {
                &&& 0 <= index < count
                &&& is_free(entries[index])
                &&& forall|other: int|
                    0 <= other < count && is_free(#[trigger] entries[other])
                        ==> entries[index].last_used <= entries[other].last_used
                &&& forall|other: int|
                    0 <= other < index && is_free(#[trigger] entries[other])
                        ==> entries[index].last_used < entries[other].last_used
            },
            None => forall|other: int|
                0 <= other < count ==> !is_free(#[trigger] entries[other]),
        },
    decreases count,
{
    if count > 0 {
        lemma_oldest(entries, count - 1);
    }
}

/// What is evicted is free, and was used no later than anything else that is free, the first of
/// several that were used at the same time; everything else
/// stays, in its order. Nothing is evicted if and only if nothing is free.
pub proof fn evictions_take_the_least_recent_free_source<K: SourceKey, S>(evicted: bool)
    ensures
        forall|c: &mut SourceCache<K, S>| #[trigger]
            call_ensures(SourceCache::<K, S>::evict_one_idle, (c,), evicted) ==> {
                let before = (*c).entries@;
                let after = final(c).entries@;
                &&& evicted <==> exists|index: int|
                    0 <= index < before.len() && is_free(#[trigger] before[index])
                &&& evicted ==> exists|gone: int| #[trigger]
                    is_least_recent(before, gone) && after == before.remove(gone)
                &&& !evicted ==> after == before
            },
{
    assert forall|c: &mut SourceCache<K, S>| #[trigger]
        call_ensures(SourceCache::<K, S>::evict_one_idle, (c,), evicted) implies {
        let before = (*c).entries@;
        let after = final(c).entries@;
        &&& evicted <==> exists|index: int|
            0 <= index < before.len() && is_free(#[trigger] before[index])
        &&& evicted ==> exists|gone: int| #[trigger]
            is_least_recent(before, gone) && after == before.remove(gone)
        &&& !evicted ==> after == before
    } by {
        let before = (*c).entries@;
        lemma_oldest(before, before.len() as int);
        if evicted {
            let gone = oldest_idle(before, before.len() as int)->0;
            assert(is_least_recent(before, gone));
            assert(is_free(before[gone]));
        }
    }
}

/// The entry is free, no free entry was used before it, and those in front of it were used later.
pub open spec fn is_least_recent<K, S>(entries: Seq<CachedSource<K, S>>, index: int) -> bool {
    &&& 0 <= index < entries.len()
    &&& is_free(entries[index])
    &&& forall|other: int|
        0 <= other < entries.len() && is_free(#[trigger] entries[other])
            ==> entries[index].last_used <= entries[other].last_used
    &&& forall|other: int|
        0 <= other < index && is_free(#[trigger] entries[other]) ==> entries[index].last_used
            < entries[other].last_used
}

/// A source that is not cached is put behind the others, claimed by its one lease and as recent as
/// its import. Where the cache is full the least recent free source makes room, and where none is
/// free nothing is inserted. A buffer that is cached already is treated as a claim.
pub proof fn insertions_make_room_among_free_sources<K: SourceKey, S>(
    key: K,
    source: S,
    generation: u64,
    outcome: SourceInsertion,
)
    ensures
        forall|c: &mut SourceCache<K, S>| #[trigger]
            call_ensures(SourceCache::<K, S>::insert, (c, key, source, generation), outcome) ==> {
                let before = (*c).entries@;
                let after = final(c).entries@;
                let room = before.len() < (*c).max_entries;
                let free = exists|index: int|
                    0 <= index < before.len() && is_free(#[trigger] before[index]);
                &&& outcome is Existing <==> is_cached(before, key) || exists|at: int| #[trigger]
                    is_for(before, key, at)
                &&& outcome is Saturated ==> after == before && !room
                &&& outcome is Saturated && before.len() <= (*c).max_entries && (*c).max_entries > 0
                    ==> !free
                &&& outcome matches SourceInsertion::Inserted { evicted } ==> {
                    &&& after.len() > 0
                    &&& after.last().key == key && after.last().source == source
                    &&& after.last().claimed && after.last().leases == 1 && after.last().last_used
                        == generation
                    &&& !evicted ==> after.drop_last() == before && room
                    &&& evicted ==> !room && exists|gone: int| #[trigger]
                        is_least_recent(before, gone) && after.drop_last() == before.remove(gone)
                }
                &&& !(outcome is Existing) && room ==> outcome == (SourceInsertion::Inserted {
                    evicted: false,
                })
                &&& !(outcome is Existing) && !room && free && before.len() <= (*c).max_entries
                    ==> outcome == (SourceInsertion::Inserted { evicted: true })
            },
{
    assert forall|c: &mut SourceCache<K, S>| #[trigger]
        call_ensures(SourceCache::<K, S>::insert, (c, key, source, generation), outcome) implies {
        let before = (*c).entries@;
        let after = final(c).entries@;
        let room = before.len() < (*c).max_entries;
        let free = exists|index: int|
            0 <= index < before.len() && is_free(#[trigger] before[index]);
        &&& outcome is Existing <==> is_cached(before, key) || exists|at: int| #[trigger]
            is_for(before, key, at)
        &&& outcome is Saturated ==> after == before && !room
        &&& outcome is Saturated && before.len() <= (*c).max_entries && (*c).max_entries > 0
            ==> !free
        &&& outcome matches SourceInsertion::Inserted { evicted } ==> {
            &&& after.len() > 0
            &&& after.last().key == key && after.last().source == source
            &&& after.last().claimed && after.last().leases == 1 && after.last().last_used
                == generation
            &&& !evicted ==> after.drop_last() == before && room
            &&& evicted ==> !room && exists|gone: int| #[trigger]
                is_least_recent(before, gone) && after.drop_last() == before.remove(gone)
        }
        &&& !(outcome is Existing) && room ==> outcome == (SourceInsertion::Inserted {
            evicted: false,
        })
        &&& !(outcome is Existing) && !room && free && before.len() <= (*c).max_entries
            ==> outcome == (SourceInsertion::Inserted { evicted: true })
    } by {
        let before = (*c).entries@;
        let after = final(c).entries@;
        lemma_position(before, key, 0);
        lemma_oldest(before, before.len() as int);
        assert(crate::vulkan::cache::holds_identity(before, key) == is_cached(before, key)) by {
            if is_cached(before, key) {
                let at = choose|at: int|
                    0 <= at < before.len() && (#[trigger] before[at]).key.identity_of()
                        == key.identity_of();
                assert(before[at].key.identity_of() == key.identity_of());
            }
            if crate::vulkan::cache::holds_identity(before, key) {
                let at = choose|at: int|
                    0 <= at < before.len() && (#[trigger] before[at]).key.identity_of()
                        == key.identity_of();
                assert(before[at].key.identity_of() == key.identity_of());
            }
        }
        if let SourceInsertion::Inserted { evicted } = outcome {
            assert(after.drop_last() =~= crate::vulkan::cache::after_eviction(
                before,
                (*c).max_entries,
            ));
            if evicted {
                let gone = oldest_idle(before, before.len() as int)->0;
                assert(is_least_recent(before, gone));
            }
        }
    }
}

/// The entry goes with its stream: it is the stream's, and free.
pub open spec fn goes_with<K: SourceKey, S>(entry: CachedSource<K, S>, stream: u64) -> bool {
    entry.key.identity_of().stream_incarnation == stream && is_free(entry)
}

proof fn lemma_without_stream<K: SourceKey, S>(
    entries: Seq<CachedSource<K, S>>,
    stream: u64,
    count: int,
)
    requires
        0 <= count <= entries.len(),
    ensures
        without_stream(entries, stream, count) == entries.take(count).filter(
            |entry: CachedSource<K, S>| !goes_with(entry, stream),
        ),
    decreases count,
{
    reveal(Seq::filter);
    let keep = |entry: CachedSource<K, S>| !goes_with(entry, stream);
    if count > 0 {
        lemma_without_stream(entries, stream, count - 1);
        assert(entries.take(count).drop_last() =~= entries.take(count - 1));
        assert(entries.take(count).last() == entries[count - 1]);
    }
    assert(without_stream(entries, stream, count) =~= entries.take(count).filter(keep));
}

proof fn lemma_stream_entries<K: SourceKey, S>(
    entries: Seq<CachedSource<K, S>>,
    stream: u64,
    count: int,
)
    requires
        0 <= count <= entries.len(),
    ensures
        stream_entries(entries, stream, count) == entries.take(count).filter(
            |entry: CachedSource<K, S>| entry.key.identity_of().stream_incarnation == stream,
        ).len(),
    decreases count,
{
    reveal(Seq::filter);
    if count > 0 {
        lemma_stream_entries(entries, stream, count - 1);
        assert(entries.take(count).drop_last() =~= entries.take(count - 1));
        assert(entries.take(count).last() == entries[count - 1]);
    }
}

/// Evicting a stream keeps exactly the entries of other streams and those that somebody holds, in
/// their order, and counts what went and what of the stream is left.
pub proof fn streams_leave_with_their_free_sources<K: SourceKey, S>(
    stream: u64,
    counts: (usize, usize),
)
    ensures
        forall|c: &mut SourceCache<K, S>| #[trigger]
            call_ensures(SourceCache::<K, S>::evict_stream, (c, stream), counts) ==> {
                let before = (*c).entries@;
                let after = final(c).entries@;
                &&& after == before.filter(
                    |entry: CachedSource<K, S>| !goes_with(entry, stream),
                )
                &&& counts.0 == before.len() - after.len()
                &&& counts.1 == after.filter(
                    |entry: CachedSource<K, S>|
                        entry.key.identity_of().stream_incarnation == stream,
                ).len()
            },
{
    assert forall|c: &mut SourceCache<K, S>| #[trigger]
        call_ensures(SourceCache::<K, S>::evict_stream, (c, stream), counts) implies {
        let before = (*c).entries@;
        let after = final(c).entries@;
        &&& after == before.filter(|entry: CachedSource<K, S>| !goes_with(entry, stream))
        &&& counts.0 == before.len() - after.len()
        &&& counts.1 == after.filter(
            |entry: CachedSource<K, S>| entry.key.identity_of().stream_incarnation == stream,
        ).len()
    } by {
        let before = (*c).entries@;
        let after = final(c).entries@;
        lemma_without_stream(before, stream, before.len() as int);
        lemma_stream_entries(after, stream, after.len() as int);
        assert(before.take(before.len() as int) =~= before);
        assert(after.take(after.len() as int) =~= after);
    }
}

proof fn lemma_claimed_entries<K, S>(entries: Seq<CachedSource<K, S>>, count: int)
    requires
        0 <= count <= entries.len(),
    ensures
        claimed_entries(entries, count) == entries.take(count).filter(
            |entry: CachedSource<K, S>| entry.claimed,
        ).len(),
    decreases count,
{
    reveal(Seq::filter);
    if count > 0 {
        lemma_claimed_entries(entries, count - 1);
        assert(entries.take(count).drop_last() =~= entries.take(count - 1));
        assert(entries.take(count).last() == entries[count - 1]);
    }
}

/// The sources in use are those that are claimed, and a lease leads to the source that is cached
/// under its key.
pub proof fn caches_know_their_sources<K: SourceKey, S>(
    cache: SourceCache<K, S>,
    lease: SourceLease<K>,
    active: usize,
    source: Option<&S>,
    index: int,
)
    requires
        cache.well_formed(),
        call_ensures(SourceCache::<K, S>::active_sources, (&cache,), active),
        call_ensures(SourceCache::<K, S>::source_of, (&cache, &lease), source),
    ensures
        active == cache.entries@.filter(|entry: CachedSource<K, S>| entry.claimed).len(),
        is_for(cache.entries@, lease.key, index) ==> source == Some(&cache.entries@[index].source),
        source is Some ==> exists|at: int| #[trigger] is_for(cache.entries@, lease.key, at),
{
    lemma_claimed_entries(cache.entries@, cache.entries.len() as int);
    assert(cache.entries@.take(cache.entries.len() as int) =~= cache.entries@);
    lemma_position(cache.entries@, lease.key, 0);
    if is_for(cache.entries@, lease.key, index) {
        lemma_unique(cache, lease.key, index);
    }
}

/// A new cache is empty and holds as many sources as it was made for.
pub proof fn new_caches_are_empty<K: SourceKey, S>(limit: usize, cache: SourceCache<K, S>)
    requires
        call_ensures(SourceCache::<K, S>::new, (limit,), cache),
    ensures
        cache.entries@.len() == 0,
        cache.max_entries == limit,
{
}

/// A claim is set where it was not, and refused where it was; it is set afterwards either way.
pub proof fn idle_claims_are_taken_once(result: Result<(), String>)
    ensures
        forall|claimed: &mut bool| #[trigger]
            call_ensures(claim_idle_source, (claimed,), result) ==> *final(claimed) && (result is Ok
                <==> !*claimed),
{
}

/// A buffer is told by its stream and by the device and the inode of its file, and a key by
/// everything that it holds.
pub proof fn keys_name_the_buffer(
    planar: Nv12SourceCacheKey,
    other_planar: Nv12SourceCacheKey,
    packed: PackedSourceCacheKey,
    other_packed: PackedSourceCacheKey,
    planar_identity: SourceIdentity,
    packed_identity: SourceIdentity,
    same_planar: bool,
    same_packed: bool,
)
    requires
        call_ensures(
            <Nv12SourceCacheKey as SourceKey>::identity,
            (&planar,),
            planar_identity,
        ),
        call_ensures(
            <PackedSourceCacheKey as SourceKey>::identity,
            (&packed,),
            packed_identity,
        ),
        call_ensures(
            <Nv12SourceCacheKey as SourceKey>::same_key,
            (&planar, &other_planar),
            same_planar,
        ),
        call_ensures(
            <PackedSourceCacheKey as SourceKey>::same_key,
            (&packed, &other_packed),
            same_packed,
        ),
    ensures
        planar_identity.stream_incarnation == planar.stream_incarnation && planar_identity.device
            == planar.device && planar_identity.inode == planar.inode,
        packed_identity.stream_incarnation == packed.stream_incarnation && packed_identity.device
            == packed.device && packed_identity.inode == packed.inode,
        same_planar ==> planar.topology == other_planar.topology && planar.strategy
            == other_planar.strategy && planar.inode == other_planar.inode && planar.device
            == other_planar.device && planar.stream_incarnation == other_planar.stream_incarnation,
        same_packed ==> packed.topology == other_packed.topology && packed.inode
            == other_packed.inode && packed.device == other_packed.device
            && packed.stream_incarnation == other_packed.stream_incarnation,
{
}

/// The place holds an idle slot with the key.
pub open spec fn is_ready<K, R>(places: Seq<SlotPlace<K, R>>, key: K, index: int) -> bool {
    0 <= index < places.len() && places[index].key == key && places[index].idle is Some
}

proof fn lemma_matching<K, R>(places: Seq<SlotPlace<K, R>>, key: K, from: int)
    requires
        0 <= from,
    ensures
        match matching_place(places, key, from) {
            Some(index) => from <= index && is_ready(places, key, index),
            None => forall|index: int|
                from <= index ==> !(#[trigger] is_ready(places, key, index)),
        },
    decreases places.len() - from,
{
    if from < places.len() && !is_ready(places, key, from) {
        lemma_matching(places, key, from + 1);
    }
}

proof fn lemma_idle<K, R>(places: Seq<SlotPlace<K, R>>, from: int)
    requires
        0 <= from,
    ensures
        match idle_place(places, from) {
            Some(index) => from <= index < places.len() && places[index].idle is Some,
            None => forall|index: int|
                from <= index < places.len() ==> (#[trigger] places[index]).idle is None,
        },
    decreases places.len() - from,
{
    if from < places.len() && places[from].idle is None {
        lemma_idle(places, from + 1);
    }
}

/// An idle slot with the right key is used again wherever there is one; else there is room for a new
/// one, for which an idle slot of another shape goes where the pool is full. A claim is refused if
/// and only if every slot is in use and the pool is full.
pub proof fn slots_are_used_again_before_new_ones<K: OutputKey, R>(
    key: &K,
    claim: Option<SlotClaim<K, R>>,
)
    ensures
        forall|p: &mut OutputPool<K, R>| #[trigger]
            call_ensures(OutputPool::<K, R>::claim, (p, key), claim) && (*p).well_formed() ==> {
                let before = (*p).places@;
                let after = final(p).places@;
                let full = before.len() >= (*p).max_slots;
                &&& claim matches Some(SlotClaim::Reuse(slot)) ==> exists|index: int| #[trigger]
                    is_ready(before, *key, index) && before[index].idle == Some(slot) && slot.key
                        == *key && after.len() == before.len() && after[index].idle is None
                        && after[index].ticket == slot.ticket && forall|other: int|
                        0 <= other < before.len() && other != index ==> after[other]
                            == before[other]
                &&& (claim matches Some(SlotClaim::Reuse(_))) <==> exists|index: int| #[trigger]
                    is_ready(before, *key, index)
                &&& claim matches Some(SlotClaim::Create { dropped }) ==> {
                    &&& dropped is Some <==> full
                    &&& !full ==> after == before
                    &&& full ==> after.len() == before.len() - 1 && exists|gone: int| #[trigger]
                        is_idle_with(before, gone, dropped)
                }
                &&& claim is None <==> full && forall|index: int|
                    0 <= index < before.len() ==> (#[trigger] before[index]).idle is None
                &&& claim is None ==> after == before
                &&& forall|index: int|
                    0 <= index < before.len() && (#[trigger] before[index]).idle is None
                        ==> after.contains(before[index])
            },
{
    assert forall|p: &mut OutputPool<K, R>| #[trigger]
        call_ensures(OutputPool::<K, R>::claim, (p, key), claim) && (*p).well_formed() implies {
        let before = (*p).places@;
        let after = final(p).places@;
        let full = before.len() >= (*p).max_slots;
        &&& claim matches Some(SlotClaim::Reuse(slot)) ==> exists|index: int| #[trigger]
            is_ready(before, *key, index) && before[index].idle == Some(slot) && slot.key == *key
                && after.len() == before.len() && after[index].idle is None && after[index].ticket
                == slot.ticket && forall|other: int|
                0 <= other < before.len() && other != index ==> after[other] == before[other]
        &&& (claim matches Some(SlotClaim::Reuse(_))) <==> exists|index: int| #[trigger]
            is_ready(before, *key, index)
        &&& claim matches Some(SlotClaim::Create { dropped }) ==> {
            &&& dropped is Some <==> full
            &&& !full ==> after == before
            &&& full ==> after.len() == before.len() - 1 && exists|gone: int| #[trigger]
                is_idle_with(before, gone, dropped)
        }
        &&& claim is None <==> full && forall|index: int|
            0 <= index < before.len() ==> (#[trigger] before[index]).idle is None
        &&& claim is None ==> after == before
        &&& forall|index: int|
            0 <= index < before.len() && (#[trigger] before[index]).idle is None
                ==> after.contains(before[index])
    } by {
        let before = (*p).places@;
        let after = final(p).places@;
        lemma_matching(before, *key, 0);
        lemma_idle(before, 0);
        assert forall|index: int|
            0 <= index < before.len() && (
            #[trigger] before[index]).idle is None implies after.contains(before[index]) by {
            if matching_place(before, *key, 0) is Some || before.len() < (*p).max_slots
                || idle_place(before, 0) is None {
                assert(after[index] == before[index]);
            } else {
                let gone = idle_place(before, 0)->0;
                if index == before.len() - 1 {
                    assert(after[gone] == before[index]);
                } else {
                    assert(after[index] == before[index]);
                }
            }
        }
        if let Some(SlotClaim::Create { dropped }) = claim {
            if before.len() >= (*p).max_slots {
                let gone = idle_place(before, 0)->0;
                assert(is_idle_with(before, gone, dropped));
            }
        }
        if matching_place(before, *key, 0) is Some {
            let index = matching_place(before, *key, 0)->0;
            assert(is_ready(before, *key, index));
            assert(before[index].idle is Some);
        }
    }
}

/// The place holds an idle slot with these resources.
pub open spec fn is_idle_with<K, R>(
    places: Seq<SlotPlace<K, R>>,
    index: int,
    resources: Option<R>,
) -> bool {
    0 <= index < places.len() && (places[index].idle matches Some(slot) && resources == Some(
        slot.resources,
    ))
}

/// A new slot has a number that no slot had before, no contents, and a place that is in use.
pub proof fn new_slots_have_new_numbers<K: OutputKey, R>(
    key: K,
    resources: R,
    slot: OutputSlot<K, R>,
)
    ensures
        forall|p: &mut OutputPool<K, R>| #[trigger]
            call_ensures(OutputPool::<K, R>::occupy, (p, key, resources), slot)
                && (*p).well_formed() ==> {
                let before = (*p).places@;
                let after = final(p).places@;
                &&& slot.key == key && slot.resources == resources && !slot.initialized
                &&& forall|index: int|
                    0 <= index < before.len() ==> (#[trigger] before[index]).ticket < slot.ticket
                &&& slot.ticket == (*p).next_ticket && final(p).next_ticket == slot.ticket + 1
                &&& after.len() == before.len() + 1
                &&& after.last().ticket == slot.ticket && after.last().key == key
                    && after.last().idle is None
                &&& after.drop_last() =~= before
            },
{
}

/// A slot goes back into the place that it came from, and can be used again; a slot without a place
/// hands its resources back to be destroyed.
pub proof fn slots_go_back_to_their_place<K: OutputKey, R>(
    slot: OutputSlot<K, R>,
    orphan: Option<R>,
    index: int,
)
    ensures
        forall|p: &mut OutputPool<K, R>| #[trigger]
            call_ensures(OutputPool::<K, R>::release, (p, slot), orphan) && (*p).well_formed()
                ==> {
                let before = (*p).places@;
                let after = final(p).places@;
                let own = 0 <= index < before.len() && before[index].ticket == slot.ticket;
                &&& after.len() == before.len()
                &&& own && before[index].key == slot.key && before[index].idle is None
                    ==> orphan is None && after[index].idle == Some(slot) && after[index].key
                    == slot.key
                &&& own && (before[index].key != slot.key || before[index].idle is Some)
                    ==> orphan == Some(slot.resources) && after[index] == before[index]
                &&& 0 <= index < before.len() && !own ==> after[index] == before[index]
                &&& (forall|at: int|
                    0 <= at < before.len() ==> (#[trigger] before[at]).ticket != slot.ticket)
                    ==> orphan == Some(slot.resources)
                &&& orphan matches Some(resources) ==> resources == slot.resources && after
                    == before
            },
{
    assert forall|p: &mut OutputPool<K, R>| #[trigger]
        call_ensures(OutputPool::<K, R>::release, (p, slot), orphan) && (*p).well_formed() implies {
        let before = (*p).places@;
        let after = final(p).places@;
        let own = 0 <= index < before.len() && before[index].ticket == slot.ticket;
        &&& after.len() == before.len()
        &&& own && before[index].key == slot.key && before[index].idle is None ==> orphan is None
            && after[index].idle == Some(slot) && after[index].key == slot.key
        &&& own && (before[index].key != slot.key || before[index].idle is Some) ==> orphan == Some(
            slot.resources,
        ) && after[index] == before[index]
        &&& 0 <= index < before.len() && !own ==> after[index] == before[index]
        &&& (forall|at: int|
            0 <= at < before.len() ==> (#[trigger] before[at]).ticket != slot.ticket) ==> orphan
            == Some(slot.resources)
        &&& orphan matches Some(resources) ==> resources == slot.resources && after == before
    } by {
        let before = (*p).places@;
        lemma_place(before, slot.ticket, 0);
    }
}

proof fn lemma_place<K, R>(places: Seq<SlotPlace<K, R>>, ticket: u64, from: int)
    requires
        0 <= from,
    ensures
        match place_of(places, ticket, from) {
            Some(index) => from <= index < places.len() && places[index].ticket == ticket,
            None => forall|index: int|
                from <= index < places.len() ==> (#[trigger] places[index]).ticket != ticket,
        },
    decreases places.len() - from,
{
    if from < places.len() && places[from].ticket != ticket {
        lemma_place(places, ticket, from + 1);
    }
}

proof fn lemma_slots_in_use<K, R>(places: Seq<SlotPlace<K, R>>, count: int)
    requires
        0 <= count <= places.len(),
    ensures
        slots_in_use(places, count) == places.take(count).filter(
            |place: SlotPlace<K, R>| place.idle is None,
        ).len(),
    decreases count,
{
    reveal(Seq::filter);
    if count > 0 {
        lemma_slots_in_use(places, count - 1);
        assert(places.take(count).drop_last() =~= places.take(count - 1));
        assert(places.take(count).last() == places[count - 1]);
    }
}

/// The outputs in use are the places whose slot is out.
pub proof fn pools_know_their_outputs<K: OutputKey, R>(pool: OutputPool<K, R>, active: usize)
    requires
        call_ensures(OutputPool::<K, R>::active_outputs, (&pool,), active),
    ensures
        active == pool.places@.filter(|place: SlotPlace<K, R>| place.idle is None).len(),
{
    lemma_slots_in_use(pool.places@, pool.places.len() as int);
    assert(pool.places@.take(pool.places.len() as int) =~= pool.places@);
}

/// No operation changes how much a cache or a pool may hold.
pub proof fn limits_stay<K: SourceKey, S, L: OutputKey, R>(
    key: K,
    source: S,
    generation: u64,
    lookup: SourceLookup,
    outcome: SourceInsertion,
    answer: bool,
    lease: SourceLease<K>,
    stream: u64,
    counts: (usize, usize),
    slot_key: L,
    slot: OutputSlot<L, R>,
    claim: Option<SlotClaim<L, R>>,
    resources: R,
    orphan: Option<R>,
)
    ensures
        forall|c: &mut SourceCache<K, S>| #[trigger]
            call_ensures(SourceCache::<K, S>::claim, (c, &key, generation), lookup)
                ==> final(c).max_entries == (*c).max_entries,
        forall|c: &mut SourceCache<K, S>| #[trigger]
            call_ensures(SourceCache::<K, S>::insert, (c, key, source, generation), outcome)
                ==> final(c).max_entries == (*c).max_entries && final(c).entries@.len()
                <= final(c).max_entries,
        forall|c: &mut SourceCache<K, S>| #[trigger]
            call_ensures(SourceCache::<K, S>::evict_one_idle, (c,), answer)
                ==> final(c).max_entries == (*c).max_entries,
        forall|c: &mut SourceCache<K, S>, l: &mut SourceLease<K>| #[trigger]
            call_ensures(SourceCache::<K, S>::release, (c, l), answer) ==> final(c).max_entries
                == (*c).max_entries,
        forall|c: &mut SourceCache<K, S>| #[trigger]
            call_ensures(SourceCache::<K, S>::retire, (c, lease), ()) ==> final(c).max_entries
                == (*c).max_entries,
        forall|c: &mut SourceCache<K, S>| #[trigger]
            call_ensures(SourceCache::<K, S>::evict_stream, (c, stream), counts)
                ==> final(c).max_entries == (*c).max_entries,
        forall|p: &mut OutputPool<L, R>| #[trigger]
            call_ensures(OutputPool::<L, R>::claim, (p, &slot_key), claim) ==> final(p).max_slots
                == (*p).max_slots && final(p).next_ticket == (*p).next_ticket,
        forall|p: &mut OutputPool<L, R>| #[trigger]
            call_ensures(OutputPool::<L, R>::occupy, (p, slot_key, resources), slot)
                ==> final(p).max_slots == (*p).max_slots && final(p).places@.len()
                <= final(p).max_slots,
        forall|p: &mut OutputPool<L, R>| #[trigger]
            call_ensures(OutputPool::<L, R>::release, (p, slot), orphan) ==> final(p).max_slots
                == (*p).max_slots && final(p).next_ticket == (*p).next_ticket,
{
}

/// A new pool is empty and holds as many slots as it was made for.
pub proof fn new_pools_are_empty<K: OutputKey, R>(limit: usize, pool: OutputPool<K, R>)
    requires
        call_ensures(OutputPool::<K, R>::new, (limit,), pool),
    ensures
        pool.places@.len() == 0 && pool.next_ticket == 0,
        pool.max_slots == limit,
{
}

} // verus!
