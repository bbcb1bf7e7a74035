//! Resolution of per-seed resources, with the fallback allocation
//! policy.
//!
//! Cache resolution first uses a stored entry if one exists. Otherwise
//! construction is attempted with the preferred allocation flags; if
//! that fails it is retried exactly once with the conservative default
//! flag set, and a second failure is fatal for the current template.
//! The flags that actually produced the cache travel with it: datasets
//! and hashing engines for the seed are built with those flags, never
//! with the originally requested ones. Construction itself is performed
//! by the native hashing library; the functions here decide what to
//! attempt and commit what came of it.

use vstd::prelude::*;

verus! {

use crate::errors::MinerError;
use crate::errors::ResourceStage;
use crate::store::ResourceStore;
use crate::store::clone_bytes;

/// Allocation-flag bits of the conservative default flag set that the
/// fallback retry uses: no optional features enabled.
pub const DEFAULT_FLAGS: u32 = 0;

/// A cache entry together with the allocation flags that actually
/// produced it.
pub struct CacheSlot<T> {
    pub flags: u32,
    pub entry: T,
}

/// What a resolution does next: use the stored entry, or construct a
/// new one with the given allocation flags.
#[derive(Clone, Copy, PartialEq, Eq, Structural, Debug)]
pub enum ResourcePlan {
    UseStored,
    Build { flags: u32 },
}

/// The first step of cache resolution: hit the store, or build with the
/// preferred flags.
pub open spec fn spec_cache_plan<T>(
    m: Map<Seq<u8>, CacheSlot<T>>,
    seed: Seq<u8>,
    preferred_flags: u32,
) -> ResourcePlan {
    if m.contains_key(seed) {
        ResourcePlan::UseStored
    } else {
        ResourcePlan::Build { flags: preferred_flags }
    }
}

/// The flags a finished attempt sequence establishes: the preferred
/// ones if the first construction succeeded, else the default ones.
pub open spec fn spec_effective_flags(preferred_flags: u32, first_ok: bool) -> u32 {
    if first_ok {
        preferred_flags
    } else {
        DEFAULT_FLAGS
    }
}

/// Decides the first step of cache resolution for `seed`: an entry
/// already stored is used as it is; otherwise construction is to be
/// attempted with the preferred flags.
pub fn plan_cache_resolution<T>(
    store: &ResourceStore<CacheSlot<T>>,
    seed: &Vec<u8>,
    preferred_flags: u32,
) -> (r: ResourcePlan)
    requires
        store.wf(),
    ensures
        r == spec_cache_plan(store@, seed@, preferred_flags),
{
    match store.get(seed) {
        Some(_) => ResourcePlan::UseStored,
        None => ResourcePlan::Build { flags: preferred_flags },
    }
}

/// Commits the outcome of the two-step construction attempt sequence
/// for a cache: the entry built with the preferred flags if that
/// attempt succeeded, else the entry built by the single fallback retry
/// with the default flags, else nothing — a fatal allocation failure
/// for the current template. On success the slot is stored for `seed`,
/// replacing whatever a racing resolution may have stored, and the
/// flags that actually produced the entry are returned.
pub fn finish_cache_resolution<T>(
    store: &mut ResourceStore<CacheSlot<T>>,
    seed: &Vec<u8>,
    preferred_flags: u32,
    first: Option<T>,
    fallback: Option<T>,
) -> (r: Result<u32, MinerError>)
    requires
        old(store).wf(),
    ensures
        final(store).wf(),
        (r is Ok) == (first is Some || fallback is Some),
        r is Ok ==> r.unwrap() == spec_effective_flags(preferred_flags, first is Some),
        first is None && fallback is None ==> r == Err::<u32, MinerError>(
            MinerError::ResourceAllocation { stage: ResourceStage::Cache },
        ),
        first is Some ==> final(store)@ == old(store)@.insert(
            seed@,
            (CacheSlot { flags: preferred_flags, entry: first.unwrap() }),
        ),
        first is None && fallback is Some ==> final(store)@ == old(store)@.insert(
            seed@,
            (CacheSlot { flags: DEFAULT_FLAGS, entry: fallback.unwrap() }),
        ),
        first is None && fallback is None ==> final(store)@ == old(store)@,
{
    match first {
        Some(entry) => {
            store.insert(clone_bytes(seed), CacheSlot { flags: preferred_flags, entry });
            Ok(preferred_flags)
        },
        None => match fallback {
            Some(entry) => {
                store.insert(clone_bytes(seed), CacheSlot { flags: DEFAULT_FLAGS, entry });
                Ok(DEFAULT_FLAGS)
            },
            None => Err(MinerError::ResourceAllocation { stage: ResourceStage::Cache }),
        },
    }
}

/// Decides dataset resolution for `seed`: a stored dataset is used as
/// it is; otherwise construction uses exactly the flags that produced
/// the cache for this seed, never independently retried.
pub fn plan_dataset_resolution<T>(
    store: &ResourceStore<T>,
    seed: &Vec<u8>,
    cache_flags: u32,
) -> (r: ResourcePlan)
    requires
        store.wf(),
    ensures
        store@.contains_key(seed@) ==> r == ResourcePlan::UseStored,
        !store@.contains_key(seed@) ==> r == (ResourcePlan::Build { flags: cache_flags }),
{
    match store.get(seed) {
        Some(_) => ResourcePlan::UseStored,
        None => ResourcePlan::Build { flags: cache_flags },
    }
}

/// Commits a dataset construction for `seed`: a built dataset is
/// stored; a failed construction is fatal for the current template.
pub fn finish_dataset_resolution<T>(
    store: &mut ResourceStore<T>,
    seed: &Vec<u8>,
    built: Option<T>,
) -> (r: Result<(), MinerError>)
    requires
        old(store).wf(),
    ensures
        final(store).wf(),
        (r is Ok) == (built is Some),
        r is Err ==> r == Err::<(), MinerError>(
            MinerError::ResourceAllocation { stage: ResourceStage::Dataset },
        ),
        built is Some ==> final(store)@ == old(store)@.insert(seed@, built.unwrap()),
        built is None ==> final(store)@ == old(store)@,
{
    match built {
        Some(entry) => {
            store.insert(clone_bytes(seed), entry);
            Ok(())
        },
        None => Err(MinerError::ResourceAllocation { stage: ResourceStage::Dataset }),
    }
}

/// Fallback correctness: when construction with the preferred flags
/// fails, the flags the finished resolution establishes — and every
/// dataset or engine construction for the seed thereafter uses — are
/// the default ones, never the originally preferred ones.
pub proof fn lemma_fallback_correctness(preferred_flags: u32)
    ensures
        spec_effective_flags(preferred_flags, false) == DEFAULT_FLAGS,
        preferred_flags != DEFAULT_FLAGS ==> spec_effective_flags(preferred_flags, false)
            != preferred_flags,
{
}

/// Idempotent resolution: once a resolution has stored a slot for a
/// seed, any later resolution for that seed — whatever flags it prefers
/// — hits the store and uses that same slot, entry and flags alike, so
/// hashing proceeds from the same entry both times.
pub proof fn lemma_resolution_idempotent<T>(
    m: Map<Seq<u8>, CacheSlot<T>>,
    seed: Seq<u8>,
    slot: CacheSlot<T>,
    preferred_flags: u32,
)
    ensures
        spec_cache_plan(m.insert(seed, slot), seed, preferred_flags) == ResourcePlan::UseStored,
        m.insert(seed, slot)[seed] == slot,
{
}

} // verus!
