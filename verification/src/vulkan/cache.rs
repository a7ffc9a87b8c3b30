//! Bounded caches of imported sources, with at most one claim on a source at a time.

use vstd::prelude::*;

use crate::text::agrees;
use crate::vulkan::types::{
    ImportedPlane, Nv12FrameTopology, Nv12ImportStrategy, PackedImageFormat,
    PackedImageImportStrategy,
};

verus! {

/// Which buffer of which stream a source was imported from.
#[derive(Clone, Copy, Debug, PartialEq, Eq, Structural)]
pub struct SourceIdentity {
    pub stream_incarnation: u64,
    pub device: u64,
    pub inode: u64,
}

/// Everything by which a cached source is found again: the buffer, and how it is read.
pub trait SourceKey: Copy {
    /// The buffer that the key is for.
    spec fn identity_of(self) -> SourceIdentity;

    /// The buffer that the key is for.
    fn identity(&self) -> (identity: SourceIdentity)
        ensures
            identity == self.identity_of(),
    ;

    /// Tests that two keys are the same in every respect.
    fn same_key(&self, other: &Self) -> (same: bool)
        ensures
            same == (*self == *other),
    ;
}

/// The key of a biplanar source.
#[derive(Clone, Copy, Debug, PartialEq, Eq, Hash)]
pub struct Nv12SourceCacheKey {
    pub stream_incarnation: u64,
    pub device: u64,
    pub inode: u64,
    pub topology: Nv12FrameTopology,
    pub strategy: Nv12ImportStrategy,
}

impl SourceKey for Nv12SourceCacheKey {
    open spec fn identity_of(self) -> SourceIdentity {
        SourceIdentity {
            stream_incarnation: self.stream_incarnation,
            device: self.device,
            inode: self.inode,
        }
    }

    fn identity(&self) -> (identity: SourceIdentity) {
        SourceIdentity {
            stream_incarnation: self.stream_incarnation,
            device: self.device,
            inode: self.inode,
        }
    }

    fn same_key(&self, other: &Self) -> (same: bool) {
        self.stream_incarnation == other.stream_incarnation && self.device == other.device
            && self.inode == other.inode && self.topology.same_as(&other.topology) && self.strategy
            == other.strategy
    }
}

/// Everything by which one packed source is told from another.
#[derive(Clone, Copy, Debug, PartialEq, Eq, Hash)]
pub struct PackedSourceTopology {
    pub dimensions: (u32, u32),
    pub object_size: u64,
    pub modifier: u64,
    pub plane: ImportedPlane,
    pub format: PackedImageFormat,
    pub strategy: PackedImageImportStrategy,
}

/// The key of a packed source.
#[derive(Clone, Copy, Debug, PartialEq, Eq, Hash)]
pub struct PackedSourceCacheKey {
    pub stream_incarnation: u64,
    pub device: u64,
    pub inode: u64,
    pub topology: PackedSourceTopology,
}

impl SourceKey for PackedSourceCacheKey {
    open spec fn identity_of(self) -> SourceIdentity {
        SourceIdentity {
            stream_incarnation: self.stream_incarnation,
            device: self.device,
            inode: self.inode,
        }
    }

    fn identity(&self) -> (identity: SourceIdentity) {
        SourceIdentity {
            stream_incarnation: self.stream_incarnation,
            device: self.device,
            inode: self.inode,
        }
    }

    fn same_key(&self, other: &Self) -> (same: bool) {
        self.stream_incarnation == other.stream_incarnation && self.device == other.device
            && self.inode == other.inode && self.topology.dimensions.0
            == other.topology.dimensions.0 && self.topology.dimensions.1
            == other.topology.dimensions.1 && self.topology.object_size
            == other.topology.object_size && self.topology.modifier == other.topology.modifier
            && self.topology.plane == other.topology.plane && self.topology.format
            == other.topology.format && self.topology.strategy == other.topology.strategy
    }
}

/// A cached source: the imported resource `S`, whether a frame is being read from it, how many
/// leases on it exist, and when it was last claimed.
pub struct CachedSource<K, S> {
    pub key: K,
    pub source: S,
    pub claimed: bool,
    pub leases: usize,
    pub last_used: u64,
}

impl<K, S> CachedSource<K, S> {
    /// A frame may be read from the source.
    pub open spec fn is_claimable(self) -> bool {
        !self.claimed && self.leases < usize::MAX
    }

    /// Nobody uses the source, so that it may leave the cache.
    pub open spec fn is_idle(self) -> bool {
        !self.claimed && self.leases == 0
    }

    /// The source after a claim.
    pub open spec fn after_claim(self, generation: u64) -> CachedSource<K, S> {
        CachedSource {
            claimed: true,
            leases: (self.leases + 1) as usize,
            last_used: generation,
            ..self
        }
    }
}

/// A claim on a cached source. It can be released once, and keeps the source cached until it is
/// retired.
#[derive(Debug)]
pub struct SourceLease<K> {
    pub key: K,
    pub released: bool,
}

/// A cache of at most `max_entries` sources.
pub struct SourceCache<K, S> {
    pub entries: Vec<CachedSource<K, S>>,
    pub max_entries: usize,
}

/// The cache of biplanar sources.
pub type Nv12SourceCache<S> = SourceCache<Nv12SourceCacheKey, S>;

/// The cache of packed sources.
pub type PackedSourceCache<S> = SourceCache<PackedSourceCacheKey, S>;

/// What a look into the cache found.
#[derive(Clone, Copy, Debug, PartialEq, Eq, Structural)]
pub enum SourceLookup {
    /// The source was idle and is claimed now.
    Claimed,
    /// The source is cached, and its previous lease has not been released.
    Active,
    /// The buffer is cached under another key.
    Collision,
    /// The buffer is not cached.
    Missing,
}

/// The position of the entry for `key`, at or behind `from`.
pub open spec fn position_of<K, S>(
    entries: Seq<CachedSource<K, S>>,
    key: K,
    from: int,
) -> Option<int>
    decreases entries.len() - from,
{
    if from < 0 || from >= entries.len() {
        None
    } else if entries[from].key == key {
        Some(from)
    } else {
        position_of(entries, key, from + 1)
    }
}

/// Some entry is for the same buffer as `key`.
pub open spec fn holds_identity<K: SourceKey, S>(
    entries: Seq<CachedSource<K, S>>,
    key: K,
) -> bool {
    exists|index: int|
        0 <= index < entries.len() && (#[trigger] entries[index]).key.identity_of()
            == key.identity_of()
}

/// Among the first `count` entries, the idle one that was claimed the longest time ago.
pub open spec fn oldest_idle<K, S>(entries: Seq<CachedSource<K, S>>, count: int) -> Option<int>
    decreases count,
{
    if count <= 0 {
        None
    } else {
        let earlier = oldest_idle(entries, count - 1);
        if !entries[count - 1].is_idle() {
            earlier
        } else {
            match earlier {
                Some(index) if entries[index].last_used <= entries[count - 1].last_used => earlier,
                _ => Some(count - 1),
            }
        }
    }
}

/// What a look for `key` finds.
pub open spec fn lookup_of<K: SourceKey, S>(
    entries: Seq<CachedSource<K, S>>,
    key: K,
) -> SourceLookup {
    match position_of(entries, key, 0) {
        Some(index) => if entries[index].is_claimable() {
            SourceLookup::Claimed
        } else {
            SourceLookup::Active
        },
        None => if holds_identity(entries, key) {
            SourceLookup::Collision
        } else {
            SourceLookup::Missing
        },
    }
}

/// The entries after a look for `key`.
pub open spec fn after_lookup<K: SourceKey, S>(
    entries: Seq<CachedSource<K, S>>,
    key: K,
    generation: u64,
) -> Seq<CachedSource<K, S>> {
    if lookup_of(entries, key) is Claimed {
        let index = position_of(entries, key, 0)->0;
        entries.update(index, entries[index].after_claim(generation))
    } else {
        entries
    }
}

/// The entries after one idle entry has made room, where the cache was full and had one.
pub open spec fn after_eviction<K, S>(
    entries: Seq<CachedSource<K, S>>,
    max_entries: usize,
) -> Seq<CachedSource<K, S>> {
    match oldest_idle(entries, entries.len() as int) {
        Some(index) if entries.len() >= max_entries => entries.remove(index),
        _ => entries,
    }
}

/// What came of putting a source into the cache.
#[derive(Clone, Copy, Debug, PartialEq, Eq, Structural)]
pub enum SourceInsertion {
    /// The source was not inserted, because the buffer is cached already.
    Existing(SourceLookup),
    /// The source was inserted and claimed; another may have been dropped for it.
    Inserted { evicted: bool },
    /// The cache is full of sources in use.
    Saturated,
}

/// What `insert` reports.
pub open spec fn insertion_of<K: SourceKey, S>(
    entries: Seq<CachedSource<K, S>>,
    max_entries: usize,
    key: K,
) -> SourceInsertion {
    if lookup_of(entries, key) !is Missing {
        SourceInsertion::Existing(lookup_of(entries, key))
    } else if after_eviction(entries, max_entries).len() >= max_entries {
        SourceInsertion::Saturated
    } else {
        SourceInsertion::Inserted {
            evicted: after_eviction(entries, max_entries).len() < entries.len(),
        }
    }
}

/// The entries after `insert`.
pub open spec fn after_insertion<K: SourceKey, S>(
    entries: Seq<CachedSource<K, S>>,
    max_entries: usize,
    entry: CachedSource<K, S>,
    generation: u64,
) -> Seq<CachedSource<K, S>> {
    match insertion_of(entries, max_entries, entry.key) {
        SourceInsertion::Existing(_) => after_lookup(entries, entry.key, generation),
        SourceInsertion::Inserted { .. } => after_eviction(entries, max_entries).push(entry),
        SourceInsertion::Saturated => entries,
    }
}

/// The entries after `release`.
pub open spec fn after_release<K, S>(
    entries: Seq<CachedSource<K, S>>,
    lease: SourceLease<K>,
) -> Seq<CachedSource<K, S>> {
    match position_of(entries, lease.key, 0) {
        Some(index) if !lease.released => entries.update(
            index,
            CachedSource { claimed: false, ..entries[index] },
        ),
        _ => entries,
    }
}

/// The entries after `retire`.
pub open spec fn after_retirement<K, S>(
    entries: Seq<CachedSource<K, S>>,
    lease: SourceLease<K>,
) -> Seq<CachedSource<K, S>> {
    match position_of(entries, lease.key, 0) {
        Some(index) => {
            let claimed = entries[index].claimed && lease.released;
            let needed: int = if claimed {
                1
            } else {
                0
            };
            entries.update(
                index,
                CachedSource {
                    claimed,
                    leases: if entries[index].leases > needed {
                        (entries[index].leases - 1) as usize
                    } else {
                        entries[index].leases
                    },
                    ..entries[index]
                },
            )
        },
        None => entries,
    }
}

proof fn lemma_position_survives_update<K, S>(
    entries: Seq<CachedSource<K, S>>,
    key: K,
    from: int,
    changed: int,
    entry: CachedSource<K, S>,
)
    requires
        0 <= from,
        0 <= changed < entries.len(),
        entry.key == entries[changed].key,
    ensures
        position_of(entries.update(changed, entry), key, from) == position_of(entries, key, from),
    decreases entries.len() - from,
{
    if from < entries.len() {
        lemma_position_survives_update(entries, key, from + 1, changed, entry);
    }
}

/// The first `count` entries without the idle ones of a stream.
pub open spec fn without_stream<K: SourceKey, S>(
    entries: Seq<CachedSource<K, S>>,
    stream_incarnation: u64,
    count: int,
) -> Seq<CachedSource<K, S>>
    decreases count,
{
    if count <= 0 {
        Seq::empty()
    } else {
        let earlier = without_stream(entries, stream_incarnation, count - 1);
        let entry = entries[count - 1];
        if entry.key.identity_of().stream_incarnation == stream_incarnation && entry.is_idle() {
            earlier
        } else {
            earlier.push(entry)
        }
    }
}

/// How many of the first `count` entries belong to a stream.
pub open spec fn stream_entries<K: SourceKey, S>(
    entries: Seq<CachedSource<K, S>>,
    stream_incarnation: u64,
    count: int,
) -> nat
    decreases count,
{
    if count <= 0 {
        0
    } else {
        stream_entries(entries, stream_incarnation, count - 1) + (if entries[count
            - 1].key.identity_of().stream_incarnation == stream_incarnation {
            1nat
        } else {
            0
        })
    }
}

/// How many of the first `count` entries are claimed.
pub open spec fn claimed_entries<K, S>(entries: Seq<CachedSource<K, S>>, count: int) -> nat
    decreases count,
{
    if count <= 0 {
        0
    } else {
        claimed_entries(entries, count - 1) + (if entries[count - 1].claimed {
            1nat
        } else {
            0
        })
    }
}

proof fn lemma_position_of<K, S>(entries: Seq<CachedSource<K, S>>, key: K, from: int)
    requires
        0 <= from,
    ensures
        match position_of(entries, key, from) {
            Some(index) => from <= index < entries.len() && entries[index].key == key,
            None => forall|index: int|
                from <= index < entries.len() ==> (#[trigger] entries[index]).key != key,
        },
    decreases entries.len() - from,
{
    if from < entries.len() && entries[from].key != key {
        lemma_position_of(entries, key, from + 1);
    }
}

proof fn lemma_oldest_idle<K, S>(entries: Seq<CachedSource<K, S>>, count: int)
    requires
        0 <= count <= entries.len(),
    ensures
        match oldest_idle(entries, count) {
            Some(index) => {
                &&& 0 <= index < count
                &&& entries[index].is_idle()
                &&& forall|other: int|
                    0 <= other < count && (#[trigger] entries[other]).is_idle()
                        ==> entries[index].last_used <= entries[other].last_used
            },
            None => forall|other: int|
                0 <= other < count ==> !(#[trigger] entries[other]).is_idle(),
        },
    decreases count,
{
    if count > 0 {
        lemma_oldest_idle(entries, count - 1);
    }
}

/// Sets a claim that is not set, and refuses one that is.
pub fn claim_idle_source(claimed: &mut bool) -> (result: Result<(), String>)
    ensures
        *final(claimed),
        agrees(
            result,
            if *old(claimed) {
                Err(nv12_reuse_text())
            } else {
                Ok(())
            },
        ),
{
    if *claimed {
        return Err(
            "cached NV12 DMA-BUF reappeared before its previous lease completed".to_owned(),
        );
    }
    *claimed = true;
    Ok(())
}

/// The diagnostic for a biplanar buffer that comes again while it is still being read.
pub open spec fn nv12_reuse_text() -> Seq<char> {
    "cached NV12 DMA-BUF reappeared before its previous lease completed"@
}

/// A source that was claimed is refused to everybody else, whatever else stays cached, until its
/// lease is released; then it can be claimed again.
pub proof fn claimed_source_is_refused_until_its_release<K: SourceKey, S>(
    cache: SourceCache<K, S>,
    key: K,
    generation: u64,
)
    requires
        cache.well_formed(),
        lookup_of(cache.entries@, key) is Claimed,
        cache.entries[position_of(cache.entries@, key, 0)->0].leases < usize::MAX - 1,
    ensures
        ({
            let claimed = after_lookup(cache.entries@, key, generation);
            let released = after_release(claimed, SourceLease { key, released: false });
            &&& lookup_of(claimed, key) is Active
            &&& after_lookup(claimed, key, generation) == claimed
            &&& lookup_of(released, key) is Claimed
        }),
{
    let entries = cache.entries@;
    lemma_position_of(entries, key, 0);
    let index = position_of(entries, key, 0)->0;
    let claimed = after_lookup(entries, key, generation);
    lemma_position_survives_update(entries, key, 0, index, entries[index].after_claim(generation));
    let freed = CachedSource { claimed: false, ..claimed[index] };
    lemma_position_survives_update(claimed, key, 0, index, freed);
}

/// Releasing a lease a second time changes nothing, also where another frame has claimed the source
/// meanwhile.
pub proof fn second_release_changes_nothing<K: SourceKey, S>(
    entries: Seq<CachedSource<K, S>>,
    lease: SourceLease<K>,
)
    ensures
        after_release(entries, SourceLease { released: true, ..lease }) == entries,
{
}

/// No source that is claimed or leased leaves the cache to make room for another.
pub proof fn eviction_spares_sources_in_use<K: SourceKey, S>(
    entries: Seq<CachedSource<K, S>>,
    max_entries: usize,
    index: int,
)
    requires
        0 <= index < entries.len(),
        !entries[index].is_idle(),
    ensures
        after_eviction(entries, max_entries).contains(entries[index]),
{
    lemma_oldest_idle(entries, entries.len() as int);
    match oldest_idle(entries, entries.len() as int) {
        Some(oldest) if entries.len() >= max_entries => {
            let rest = entries.remove(oldest);
            if index < oldest {
                assert(rest[index] == entries[index]);
            } else {
                assert(rest[index - 1] == entries[index]);
            }
        },
        _ => {
            assert(entries.contains(entries[index]));
        },
    }
}

/// Evicting a stream drops no source that is in use and no source of another stream.
pub proof fn stream_eviction_spares_the_rest<K: SourceKey, S>(
    entries: Seq<CachedSource<K, S>>,
    stream_incarnation: u64,
    count: int,
    index: int,
)
    requires
        0 <= index < count <= entries.len(),
        !entries[index].is_idle() || entries[index].key.identity_of().stream_incarnation
            != stream_incarnation,
    ensures
        without_stream(entries, stream_incarnation, count).contains(entries[index]),
    decreases count,
{
    let kept = without_stream(entries, stream_incarnation, count);
    if index == count - 1 {
        assert(kept.last() == entries[index]);
    } else {
        stream_eviction_spares_the_rest(entries, stream_incarnation, count - 1, index);
        let earlier = without_stream(entries, stream_incarnation, count - 1);
        let position = choose|position: int|
            0 <= position < earlier.len() && earlier[position] == entries[index];
        assert(kept[position] == entries[index]);
    }
}

/// A source whose only lease is given up is idle.
pub proof fn retiring_the_only_lease_frees_the_source<K: SourceKey, S>(
    entries: Seq<CachedSource<K, S>>,
    lease: SourceLease<K>,
    index: int,
)
    requires
        position_of(entries, lease.key, 0) == Some(index),
        entries[index].leases == 1,
        lease.released ==> !entries[index].claimed,
    ensures
        after_retirement(entries, lease)[index].is_idle(),
{
    lemma_position_of(entries, lease.key, 0);
}

/// Giving up a claim that was never released undoes it: the source can be claimed by the next
/// frame, and may leave the cache if it could before. Only its age has changed.
pub proof fn giving_up_a_claim_undoes_it<K: SourceKey, S>(
    entries: Seq<CachedSource<K, S>>,
    key: K,
    generation: u64,
)
    requires
        lookup_of(entries, key) is Claimed,
    ensures
        ({
            let index = position_of(entries, key, 0)->0;
            let given_up = after_retirement(
                after_lookup(entries, key, generation),
                SourceLease { key, released: false },
            );
            &&& given_up == entries.update(
                index,
                CachedSource { last_used: generation, ..entries[index] },
            )
            &&& lookup_of(given_up, key) is Claimed
        }),
{
    lemma_position_of(entries, key, 0);
    let index = position_of(entries, key, 0)->0;
    let claimed = entries[index].after_claim(generation);
    lemma_position_survives_update(entries, key, 0, index, claimed);
    let aged = CachedSource { last_used: generation, ..entries[index] };
    lemma_position_survives_update(entries, key, 0, index, aged);
    let given_up = after_retirement(
        after_lookup(entries, key, generation),
        SourceLease { key, released: false },
    );
    assert(given_up =~= entries.update(index, aged));
}

impl<K: SourceKey, S> SourceCache<K, S> {
    /// The cache is within its bound, holds every buffer once, and every claim has a lease.
    pub open spec fn well_formed(self) -> bool {
        &&& self.entries.len() <= self.max_entries
        &&& forall|left: int, right: int|
            #![trigger self.entries[left], self.entries[right]]
            0 <= left < right < self.entries.len() ==> self.entries[left].key.identity_of()
                != self.entries[right].key.identity_of()
        &&& forall|index: int|
            0 <= index < self.entries.len() && (#[trigger] self.entries[index]).claimed
                ==> self.entries[index].leases > 0
    }

    /// An empty cache.
    pub fn new(max_entries: usize) -> (cache: SourceCache<K, S>)
        ensures
            cache.well_formed(),
            cache.entries@ == Seq::<CachedSource<K, S>>::empty(),
            cache.max_entries == max_entries,
    {
        SourceCache { entries: Vec::new(), max_entries }
    }

    fn find(&self, key: &K) -> (found: Option<usize>)
        ensures
            match found {
                Some(index) => position_of(self.entries@, *key, 0) == Some(index as int) && index
                    < self.entries.len(),
                None => position_of(self.entries@, *key, 0) is None,
            },
    {
        let mut index: usize = 0;
        while index < self.entries.len()
            invariant
                index <= self.entries.len(),
                position_of(self.entries@, *key, 0) == position_of(
                    self.entries@,
                    *key,
                    index as int,
                ),
            decreases self.entries.len() - index,
        {
            if self.entries[index].key.same_key(key) {
                return Some(index);
            }
            index += 1;
        }
        None
    }

    fn holds(&self, key: &K) -> (held: bool)
        ensures
            held == holds_identity(self.entries@, *key),
    {
        let identity = key.identity();
        let mut index: usize = 0;
        while index < self.entries.len()
            invariant
                index <= self.entries.len(),
                identity == key.identity_of(),
                forall|before: int|
                    0 <= before < index ==> (#[trigger] self.entries[before]).key.identity_of()
                        != identity,
            decreases self.entries.len() - index,
        {
            if self.entries[index].key.identity() == identity {
                assert(self.entries@[index as int].key.identity_of() == identity);
                return true;
            }
            index += 1;
        }
        false
    }

    /// Looks for a source and claims it where it is idle.
    pub fn claim(&mut self, key: &K, generation: u64) -> (lookup: SourceLookup)
        requires
            old(self).well_formed(),
        ensures
            final(self).well_formed(),
            lookup == lookup_of(old(self).entries@, *key),
            final(self).entries@ == after_lookup(old(self).entries@, *key, generation),
            final(self).max_entries == old(self).max_entries,
    {
        match self.find(key) {
            Some(index) => {
                if self.entries[index].leases == usize::MAX {
                    return SourceLookup::Active;
                }
                match claim_idle_source(&mut self.entries[index].claimed) {
                    Ok(()) => {},
                    Err(_) => {
                        assert(self.entries@ =~= old(self).entries@);
                        return SourceLookup::Active;
                    },
                }
                self.entries[index].leases = self.entries[index].leases + 1;
                self.entries[index].last_used = generation;
                assert(self.entries@ =~= after_lookup(old(self).entries@, *key, generation));
                SourceLookup::Claimed
            },
            None => {
                if self.holds(key) {
                    SourceLookup::Collision
                } else {
                    SourceLookup::Missing
                }
            },
        }
    }

    /// Drops the idle source that was claimed the longest time ago, where there is one.
    pub fn evict_one_idle(&mut self) -> (evicted: bool)
        requires
            old(self).well_formed(),
        ensures
            final(self).well_formed(),
            final(self).max_entries == old(self).max_entries,
            match oldest_idle(old(self).entries@, old(self).entries.len() as int) {
                Some(index) => evicted && final(self).entries@ == old(self).entries@.remove(index),
                None => !evicted && final(self).entries@ == old(self).entries@,
            },
    {
        let mut oldest: Option<usize> = None;
        let mut index: usize = 0;
        while index < self.entries.len()
            invariant
                index <= self.entries.len(),
                match oldest {
                    Some(found) => found < index && oldest_idle(self.entries@, index as int)
                        == Some(found as int),
                    None => oldest_idle(self.entries@, index as int) is None,
                },
            decreases self.entries.len() - index,
        {
            if !self.entries[index].claimed && self.entries[index].leases == 0 {
                oldest = match oldest {
                    Some(found) => {
                        if self.entries[found].last_used <= self.entries[index].last_used {
                            Some(found)
                        } else {
                            Some(index)
                        }
                    },
                    None => Some(index),
                };
            }
            index += 1;
        }
        match oldest {
            Some(found) => {
                let _evicted = self.entries.remove(found);
                true
            },
            None => false,
        }
    }

    /// Puts a newly imported source into the cache and claims it, where nothing happened meanwhile
    /// that forbids it. A full cache first drops its oldest idle source.
    pub fn insert(&mut self, key: K, source: S, generation: u64) -> (outcome: SourceInsertion)
        requires
            old(self).well_formed(),
        ensures
            final(self).well_formed(),
            final(self).max_entries == old(self).max_entries,
            outcome == insertion_of(old(self).entries@, old(self).max_entries, key),
            final(self).entries@ == after_insertion(
                old(self).entries@,
                old(self).max_entries,
                CachedSource { key, source, claimed: true, leases: 1, last_used: generation },
                generation,
            ),
    {
        match self.claim(&key, generation) {
            SourceLookup::Missing => {},
            lookup => return SourceInsertion::Existing(lookup),
        }
        let ghost before = self.entries@;
        proof {
            lemma_oldest_idle(before, before.len() as int);
        }
        let evicted = self.entries.len() >= self.max_entries && self.evict_one_idle();
        assert(forall|index: int|
            0 <= index < self.entries.len() ==> (#[trigger] self.entries[index]).key.identity_of()
                != key.identity_of());
        if self.entries.len() >= self.max_entries {
            return SourceInsertion::Saturated;
        }
        self.entries.push(
            CachedSource { key, source, claimed: true, leases: 1, last_used: generation },
        );
        SourceInsertion::Inserted { evicted }
    }

    /// Ends the claim of a lease, once. The source stays cached.
    pub fn release(&mut self, lease: &mut SourceLease<K>) -> (released: bool)
        requires
            old(self).well_formed(),
        ensures
            final(self).well_formed(),
            final(self).max_entries == old(self).max_entries,
            released == !old(lease).released,
            final(lease).released,
            final(lease).key == old(lease).key,
            final(self).entries@ == after_release(old(self).entries@, *old(lease)),
    {
        if lease.released {
            return false;
        }
        lease.released = true;
        match self.find(&lease.key) {
            Some(index) => {
                self.entries[index].claimed = false;
                assert(self.entries@ =~= after_release(old(self).entries@, *old(lease)));
            },
            None => {},
        }
        true
    }

    /// The source of a lease, while it is cached.
    pub fn source_of(&self, lease: &SourceLease<K>) -> (source: Option<&S>)
        ensures
            match position_of(self.entries@, lease.key, 0) {
                Some(index) => source == Some(&self.entries@[index].source),
                None => source is None,
            },
    {
        match self.find(&lease.key) {
            Some(index) => Some(&self.entries[index].source),
            None => None,
        }
    }

    /// Gives a lease up. Its claim ends where it has not been released before, and the source may
    /// leave the cache once no lease on it is left.
    pub fn retire(&mut self, lease: SourceLease<K>)
        requires
            old(self).well_formed(),
        ensures
            final(self).well_formed(),
            final(self).max_entries == old(self).max_entries,
            final(self).entries@ == after_retirement(old(self).entries@, lease),
    {
        match self.find(&lease.key) {
            Some(index) => {
                let claimed = self.entries[index].claimed && lease.released;
                let needed: usize = if claimed {
                    1
                } else {
                    0
                };
                if self.entries[index].leases > needed {
                    self.entries[index].leases = self.entries[index].leases - 1;
                }
                self.entries[index].claimed = claimed;
                assert(self.entries@ =~= after_retirement(old(self).entries@, lease));
            },
            None => {},
        }
    }

    /// Drops every idle source of a stream. Returns how many were dropped and how many of the
    /// stream are left, because they are in use.
    pub fn evict_stream(&mut self, stream_incarnation: u64) -> (counts: (usize, usize))
        requires
            old(self).well_formed(),
        ensures
            final(self).well_formed(),
            final(self).max_entries == old(self).max_entries,
            final(self).entries@ == without_stream(
                old(self).entries@,
                stream_incarnation,
                old(self).entries.len() as int,
            ),
            counts.0 == old(self).entries.len() - final(self).entries.len(),
            counts.1 == stream_entries(
                final(self).entries@,
                stream_incarnation,
                final(self).entries.len() as int,
            ),
    {
        let before: usize = self.entries.len();
        let mut index: usize = 0;
        while index < self.entries.len()
            invariant
                self.well_formed(),
                self.max_entries == old(self).max_entries,
                index <= self.entries.len() <= before,
                before == old(self).entries.len(),
                self.entries@ == without_stream(
                    old(self).entries@,
                    stream_incarnation,
                    before - (self.entries.len() - index),
                ) + old(self).entries@.skip(before - (self.entries.len() - index)),
                index == without_stream(
                    old(self).entries@,
                    stream_incarnation,
                    before - (self.entries.len() - index),
                ).len(),
            decreases self.entries.len() - index,
        {
            let ghost entries = self.entries@;
            let ghost done = before - (self.entries.len() - index);
            let ghost kept = without_stream(old(self).entries@, stream_incarnation, done);
            assert(entries[index as int] == old(self).entries@[done]);
            assert(old(self).entries@.skip(done) =~= seq![old(self).entries@[done]]
                + old(self).entries@.skip(done + 1));
            if self.entries[index].key.identity().stream_incarnation == stream_incarnation
                && !self.entries[index].claimed && self.entries[index].leases == 0 {
                let _evicted = self.entries.remove(index);
                assert(self.entries@ =~= kept + old(self).entries@.skip(done + 1));
            } else {
                index += 1;
                assert(self.entries@ =~= kept.push(old(self).entries@[done])
                    + old(self).entries@.skip(done + 1));
            }
        }
        assert(self.entries@ =~= without_stream(
            old(self).entries@,
            stream_incarnation,
            before as int,
        ));
        let mut retained: usize = 0;
        let mut position: usize = 0;
        while position < self.entries.len()
            invariant
                position <= self.entries.len(),
                retained <= position,
                retained == stream_entries(self.entries@, stream_incarnation, position as int),
            decreases self.entries.len() - position,
        {
            if self.entries[position].key.identity().stream_incarnation == stream_incarnation {
                retained += 1;
            }
            position += 1;
        }
        (before - self.entries.len(), retained)
    }

    /// How many sources are claimed.
    pub fn active_sources(&self) -> (count: usize)
        ensures
            count == claimed_entries(self.entries@, self.entries.len() as int),
    {
        let mut count: usize = 0;
        let mut index: usize = 0;
        while index < self.entries.len()
            invariant
                count <= index <= self.entries.len(),
                count == claimed_entries(self.entries@, index as int),
            decreases self.entries.len() - index,
        {
            if self.entries[index].claimed {
                count += 1;
            }
            index += 1;
        }
        count
    }
}

} // verus!
