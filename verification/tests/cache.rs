use entity_cache::cache::{Cache, CachePtr, PlayerSlot, ProcessData, TeamTag};
use entity_cache::config::{CharacterConfig, HitboxConfig, ItemGlowConfig, PlayerGlowConfig};
use entity_cache::network::{MemChunk, CMD};

fn cache_with(medium: &[u64]) -> CachePtr {
    let mut c = CachePtr::default();
    c.cache_medium = medium.to_vec();
    c.cache_high = vec![77];
    c
}

const LOCAL: u64 = 0x1000;
const TEAM: TeamTag = TeamTag { team: 5, team_index: 2 };

#[test]
fn update_needed_when_sizes_disagree() {
    let c = cache_with(&[1, 2]);
    // others: 1, 2, 3 -> 3 - 1 == 2 == cached length
    assert!(!c.update_cache_needed(&vec![1, LOCAL, 2, 3], LOCAL));
    assert!(c.update_cache_needed(&vec![1, 2], LOCAL));
    assert!(c.update_cache_needed(&vec![1, 2, 3, 4], LOCAL));
}

#[test]
fn update_drops_listed_pointers() {
    let mut c = cache_with(&[10, 20, 30, LOCAL]);
    let change = c.update_cache(&vec![20, LOCAL, 40], &vec![], LOCAL, TEAM);
    assert_eq!(change.removed, vec![20]);
    assert!(change.added.is_empty());
    assert_eq!(c.cache_medium, vec![10, 30, LOCAL]);
    assert_eq!(c.cache_high, vec![77]);
}

#[test]
fn update_appends_new_entries_once() {
    let mut c = cache_with(&[10, 30]);
    let list = vec![[0, 10], [1, 50], [2, 60], [3, 50], [4, 30]];
    let change = c.update_cache(&vec![10, 99], &list, LOCAL, TEAM);
    assert_eq!(change.removed, vec![10]);
    assert_eq!(change.added, vec![[0, 10], [1, 50], [2, 60]]);
    assert_eq!(c.cache_medium, vec![30, 10, 50, 60]);
}

#[test]
fn update_adds_nothing_when_local_team_reads_as_unread() {
    let mut c = cache_with(&[10]);
    let unread = TeamTag { team: 0, team_index: 0 };
    let change = c.update_cache(&vec![99], &vec![[0, 50]], LOCAL, unread);
    assert!(change.removed.is_empty());
    assert!(change.added.is_empty());
    assert_eq!(c.cache_medium, vec![10]);
    // a team of 0 with another index still adds
    let mut d = cache_with(&[10]);
    let change = d.update_cache(&vec![99], &vec![[0, 50]], LOCAL, TeamTag { team: 0, team_index: 1 });
    assert_eq!(change.added, vec![[0, 50]]);
}

#[test]
fn update_partitions_the_old_cache() {
    let old = vec![1, 2, 3, 4, 5, 6];
    let mut c = cache_with(&old);
    let now = vec![2, 4, 6, 8];
    let change = c.update_cache(&now, &vec![], LOCAL, TEAM);
    assert_eq!(change.removed.len() + c.cache_medium.len(), old.len());
    assert!(change.removed.iter().all(|p| now.contains(p)));
    assert!(c.cache_medium.iter().all(|p| !now.contains(p)));
}

#[test]
fn update_keeps_pointers_distinct() {
    let mut c = cache_with(&[1, 2, 3]);
    let list = vec![[0, 3], [1, 4], [2, 4], [3, 1], [4, 2], [5, 5]];
    c.update_cache(&vec![2], &list, LOCAL, TEAM);
    let mut sorted = c.cache_medium.clone();
    sorted.sort();
    sorted.dedup();
    assert_eq!(sorted.len(), c.cache_medium.len());
    assert_eq!(c.cache_medium, vec![1, 3, 4, 2, 5]);
}

#[test]
fn initialize_admits_other_teams() {
    let mut c = cache_with(&[9]);
    let mate = TeamTag { team: 5, team_index: 2 };
    let other = TeamTag { team: 6, team_index: 2 };
    let same_team_other_index = TeamTag { team: 5, team_index: 3 };
    let slots = vec![
        PlayerSlot { index: 0, pointer: 100, team: mate },
        PlayerSlot { index: 1, pointer: 101, team: other },
        PlayerSlot { index: 2, pointer: 102, team: same_team_other_index },
        PlayerSlot { index: 3, pointer: 101, team: other },
    ];
    let admitted = c.initialize(&slots, TEAM);
    assert_eq!(admitted, vec![slots[1], slots[2], slots[3]]);
    assert_eq!(c.cache_medium, vec![9, 101, 102, 101]);
}

#[test]
fn defaults_are_empty() {
    let c = CachePtr::default();
    assert!(c.cache_high.is_empty() && c.cache_medium.is_empty());
    assert!(c.cache_low.is_empty() && c.cache_static.is_empty());
    let p = ProcessData::default();
    assert_eq!((p.pid, p.base, p.name.as_str()), (0, 0, ""));
    let m = MemChunk::default();
    assert_eq!(m.cmd, CMD::Read);
    assert_eq!((m.addr, m.size, m.data.len()), (0, 0, 0));
    assert_eq!(CMD::default(), CMD::Read);
    assert!(!PlayerGlowConfig::default().enable);
    assert_eq!(ItemGlowConfig::default().delay, 0);
    assert_eq!(CharacterConfig::default().hitbox, HitboxConfig::default());
    assert_ne!(Cache::High, Cache::Static);
}

#[test]
fn refresh_skips_when_sizes_agree() {
    let mut c = cache_with(&[1, 2]);
    let r = c.refresh(&vec![1, LOCAL, 2, 3], &vec![[0, 9]], LOCAL, TEAM);
    assert!(r.is_none());
    assert_eq!(c.cache_medium, vec![1, 2]);
}

#[test]
fn refresh_updates_when_sizes_disagree() {
    let mut c = cache_with(&[1, 2]);
    let r = c.refresh(&vec![2, 3], &vec![[0, 2], [1, 3]], LOCAL, TEAM).unwrap();
    assert_eq!(r.removed, vec![2]);
    assert_eq!(r.added, vec![[0, 2], [1, 3]]);
    assert_eq!(c.cache_medium, vec![1, 2, 3]);
}

use entity_cache::cache::{EntityCache, PlayerEntry};

fn keys_match(cache: &EntityCache) -> bool {
    let mut keys: Vec<u64> = cache.players().keys().copied().collect();
    keys.sort();
    let mut ptrs = cache.pointers().cache_medium.clone();
    ptrs.sort();
    ptrs.dedup();
    keys == ptrs && cache.players().iter().all(|(k, e)| e.pointer == *k)
}

#[test]
fn entity_cache_keeps_players_in_step() {
    let mut cache = EntityCache::new();
    assert!(keys_match(&cache));
    assert_eq!(cache.base(), 0);
    let slots = vec![
        PlayerSlot { index: 0, pointer: 10, team: TeamTag { team: 1, team_index: 0 } },
        PlayerSlot { index: 1, pointer: 20, team: TEAM },
        PlayerSlot { index: 2, pointer: 30, team: TeamTag { team: 2, team_index: 0 } },
    ];
    let admitted = cache.initialize(0x7ff6_0000_0000, &slots, TEAM);
    assert_eq!(admitted.len(), 2);
    assert_eq!(cache.base(), 0x7ff6_0000_0000);
    assert!(keys_match(&cache));
    assert_eq!(cache.players()[&30], PlayerEntry { index: 2, pointer: 30 });
    // table lists 10 and 40: 10 leaves, then 10 and 40 join from the entries
    let r = cache.refresh(&vec![10, 40], &vec![[4, 40], [5, 10]], LOCAL, TEAM).unwrap();
    assert_eq!(r.removed, vec![10]);
    assert_eq!(cache.pointers().cache_medium, vec![30, 40, 10]);
    assert!(keys_match(&cache));
    assert_eq!(cache.players()[&10], PlayerEntry { index: 5, pointer: 10 });
    assert_eq!(cache.players()[&40], PlayerEntry { index: 4, pointer: 40 });
    assert_eq!(cache.base(), 0x7ff6_0000_0000);
}

#[test]
fn entity_cache_refresh_none_leaves_players() {
    let mut cache = EntityCache::new();
    let r = cache.refresh(&vec![5], &vec![[0, 5]], LOCAL, TEAM);
    // one entry besides the local player, zero cached: 1 - 1 == 0, nothing to do
    assert!(r.is_none());
    assert!(cache.players().is_empty());
}

#[test]
fn entity_cache_update_keeps_one_entry_per_pointer() {
    let mut cache = EntityCache::new();
    let slots: Vec<PlayerSlot> = (0..4)
        .map(|i| PlayerSlot { index: i, pointer: 100 + i, team: TeamTag { team: 9, team_index: 0 } })
        .collect();
    cache.initialize(1, &slots, TEAM);
    // the table holds only the local player: no refresh test, straight update
    let change = cache.update_cache(&vec![LOCAL], &vec![[7, 100], [8, 200], [9, 200]], LOCAL, TEAM);
    assert!(change.removed.is_empty());
    assert_eq!(change.added, vec![[8, 200]]);
    assert!(keys_match(&cache));
    assert_eq!(cache.players().len(), 5);
    assert_eq!(cache.players()[&100], PlayerEntry { index: 0, pointer: 100 });
}
