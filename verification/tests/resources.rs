use randomx_miner::resolve::finish_cache_resolution;
use randomx_miner::resolve::finish_dataset_resolution;
use randomx_miner::resolve::plan_cache_resolution;
use randomx_miner::resolve::plan_dataset_resolution;
use randomx_miner::resolve::CacheSlot;
use randomx_miner::resolve::ResourcePlan;
use randomx_miner::resolve::DEFAULT_FLAGS;
use randomx_miner::errors::MinerError;
use randomx_miner::errors::ResourceStage;
use randomx_miner::store::ResourceStore;

const PREFERRED: u32 = 0b0000_0110;

#[test]
fn resolution_is_idempotent() {
    let mut store: ResourceStore<CacheSlot<u64>> = ResourceStore::new();
    let seed = vec![0xaau8];
    assert!(matches!(
        plan_cache_resolution(&store, &seed, PREFERRED),
        ResourcePlan::Build { flags: PREFERRED }
    ));
    let flags = finish_cache_resolution(&mut store, &seed, PREFERRED, Some(7u64), None).unwrap();
    assert_eq!(flags, PREFERRED);
    // The second resolution with the same preferred flags hits the
    // store and hands back the very entry the first one stored.
    assert!(matches!(plan_cache_resolution(&store, &seed, PREFERRED), ResourcePlan::UseStored));
    let slot = store.get(&seed).unwrap();
    assert_eq!(slot.flags, PREFERRED);
    assert_eq!(slot.entry, 7);
    let again = store.get(&seed).unwrap();
    assert_eq!(again.entry, slot.entry);
}

#[test]
fn fallback_establishes_default_flags() {
    let mut store: ResourceStore<CacheSlot<u64>> = ResourceStore::new();
    let seed = vec![1u8, 2u8];
    // The preferred-flag construction failed; the fallback succeeded.
    let flags = finish_cache_resolution(&mut store, &seed, PREFERRED, None, Some(9u64)).unwrap();
    assert_eq!(flags, DEFAULT_FLAGS);
    assert_ne!(flags, PREFERRED);
    let slot = store.get(&seed).unwrap();
    assert_eq!(slot.flags, DEFAULT_FLAGS);
    assert_eq!(slot.entry, 9);
    // The dataset for this seed is then built with the established
    // flags, never with the originally preferred ones.
    let datasets: ResourceStore<u64> = ResourceStore::new();
    assert!(matches!(
        plan_dataset_resolution(&datasets, &seed, slot.flags),
        ResourcePlan::Build { flags: DEFAULT_FLAGS }
    ));
}

#[test]
fn failed_fallback_is_fatal_and_stores_nothing() {
    let mut store: ResourceStore<CacheSlot<u64>> = ResourceStore::new();
    let seed = vec![3u8];
    let r = finish_cache_resolution(&mut store, &seed, PREFERRED, None, None);
    assert_eq!(
        r.err(),
        Some(MinerError::ResourceAllocation { stage: ResourceStage::Cache })
    );
    assert!(store.get(&seed).is_none());
    assert_eq!(store.entry_count(), 0);
}

#[test]
fn racing_first_time_resolutions_leave_one_entry() {
    let mut store: ResourceStore<CacheSlot<u64>> = ResourceStore::new();
    let seed = vec![0xbbu8, 0xcc];
    // Two workers both miss, both construct, both commit; the store
    // ends with a single entry for the seed, the one written last.
    assert!(matches!(
        plan_cache_resolution(&store, &seed, PREFERRED),
        ResourcePlan::Build { .. }
    ));
    finish_cache_resolution(&mut store, &seed, PREFERRED, Some(1u64), None).unwrap();
    finish_cache_resolution(&mut store, &seed, PREFERRED, Some(2u64), None).unwrap();
    assert_eq!(store.entry_count(), 1);
    assert_eq!(store.get(&seed).unwrap().entry, 2);
}

#[test]
fn store_keeps_entries_per_seed() {
    let mut datasets: ResourceStore<u64> = ResourceStore::new();
    let seed_a = vec![1u8];
    let seed_b = vec![2u8];
    assert!(finish_dataset_resolution(&mut datasets, &seed_a, Some(10u64)).is_ok());
    assert!(finish_dataset_resolution(&mut datasets, &seed_b, Some(20u64)).is_ok());
    assert_eq!(
        finish_dataset_resolution(&mut datasets, &seed_a, None).err(),
        Some(MinerError::ResourceAllocation { stage: ResourceStage::Dataset })
    );
    assert_eq!(datasets.entry_count(), 2);
    assert_eq!(*datasets.get(&seed_a).unwrap(), 10);
    assert_eq!(*datasets.get(&seed_b).unwrap(), 20);
    assert!(datasets.get(&vec![3u8]).is_none());
}
