use std::collections::HashMap;
use vstd::prelude::*;

verus! {

/// How often a cached entity is refreshed.
#[derive(Clone, Copy, Debug, PartialEq, Eq, Structural)]
pub enum Cache {
    /// Near entities.
    High,
    /// Far entities.
    Medium,
    /// Dead entities.
    Low,
    /// Pointers that never change.
    Static,
}

/// The entity pointers kept in each refresh class.
#[derive(Clone, Debug)]
pub struct CachePtr {
    pub cache_high: Vec<u64>,
    pub cache_medium: Vec<u64>,
    pub cache_low: Vec<u64>,
    pub cache_static: Vec<u64>,
}

impl Default for CachePtr {
    fn default() -> (res: Self)
        ensures
            res.cache_high@ == Seq::<u64>::empty(),
            res.cache_medium@ == Seq::<u64>::empty(),
            res.cache_low@ == Seq::<u64>::empty(),
            res.cache_static@ == Seq::<u64>::empty(),
    {
        CachePtr {
            cache_high: Vec::new(),
            cache_medium: Vec::new(),
            cache_low: Vec::new(),
            cache_static: Vec::new(),
        }
    }
}

/// The process the entities are read from.
#[derive(Clone, Debug)]
pub struct ProcessData {
    pub pid: u32,
    pub base: u64,
    pub name: String,
}

impl Default for ProcessData {
    fn default() -> (res: Self)
        ensures
            res.pid == 0,
            res.base == 0,
            res.name@ == Seq::<char>::empty(),
    {
        ProcessData { pid: 0, base: 0, name: String::new() }
    }
}

/// The team an entity belongs to, as the game stores it.
#[derive(Clone, Copy, Debug, PartialEq, Eq, Structural)]
pub struct TeamTag {
    pub team: u16,
    pub team_index: u16,
}

/// An entity found in the entity table, with its team.
#[derive(Clone, Copy, Debug, PartialEq, Eq, Structural)]
pub struct PlayerSlot {
    pub index: u64,
    pub pointer: u64,
    pub team: TeamTag,
}

/// What a refresh of the pointer cache did: the pointers it dropped, and the
/// `[index, pointer]` entries it added, in order.
#[derive(Clone, Debug)]
pub struct CacheChange {
    pub removed: Vec<u64>,
    pub added: Vec<[u64; 2]>,
}

/// Whether the entity table currently lists `p` as an entity other than the local player.
pub open spec fn seen_now(now: Seq<u64>, local: u64, p: u64) -> bool {
    now.contains(p) && p != local
}

/// How many entries of `now` are not the local player's pointer.
pub open spec fn others_count(now: Seq<u64>, local: u64) -> nat
    decreases now.len(),
{
    if now.len() == 0 {
        0
    } else {
        others_count(now.drop_last(), local) + if now.last() != local { 1nat } else { 0nat }
    }
}

/// The cached pointers that the table still lists, in cache order.
pub open spec fn listed_pointers(cached: Seq<u64>, now: Seq<u64>, local: u64) -> Seq<u64>
    decreases cached.len(),
{
    if cached.len() == 0 {
        Seq::empty()
    } else {
        let rest = listed_pointers(cached.drop_last(), now, local);
        if seen_now(now, local, cached.last()) {
            rest.push(cached.last())
        } else {
            rest
        }
    }
}

/// The cached pointers that the table no longer lists, in cache order.
pub open spec fn unlisted_pointers(cached: Seq<u64>, now: Seq<u64>, local: u64) -> Seq<u64>
    decreases cached.len(),
{
    if cached.len() == 0 {
        Seq::empty()
    } else {
        let rest = unlisted_pointers(cached.drop_last(), now, local);
        if seen_now(now, local, cached.last()) {
            rest
        } else {
            rest.push(cached.last())
        }
    }
}

/// The entries of `list` whose pointer is neither in `seen` nor in an earlier
/// entry of `list`, in order.
pub open spec fn fresh_entries(seen: Seq<u64>, list: Seq<[u64; 2]>) -> Seq<[u64; 2]>
    decreases list.len(),
{
    if list.len() == 0 {
        Seq::empty()
    } else {
        let e = list[0];
        if seen.contains(e[1]) {
            fresh_entries(seen, list.drop_first())
        } else {
            seq![e] + fresh_entries(seen.push(e[1]), list.drop_first())
        }
    }
}

/// The pointers of `entries`.
pub open spec fn entry_pointers(entries: Seq<[u64; 2]>) -> Seq<u64> {
    entries.map_values(|e: [u64; 2]| e[1])
}

/// Whether a newly found entity, whose team is not read yet and so reads as
/// team 0 of index 0, counts as the local player's team mate and is left out.
pub open spec fn unread_team_matches(local_team: TeamTag) -> bool {
    local_team.team_index == 0 && local_team.team == 0
}

/// The entries that a refresh adds after keeping `kept`.
pub open spec fn added_entries(kept: Seq<u64>, list: Seq<[u64; 2]>, local_team: TeamTag) -> Seq<[u64; 2]> {
    if unread_team_matches(local_team) {
        Seq::empty()
    } else {
        fresh_entries(kept, list)
    }
}

/// Whether `slot` is admitted to the cache: it is not on the local player's team.
pub open spec fn admitted(slot: PlayerSlot, local_team: TeamTag) -> bool {
    !(slot.team.team_index == local_team.team_index && slot.team.team == local_team.team)
}

/// The slots admitted to the cache, in order.
pub open spec fn admitted_slots(slots: Seq<PlayerSlot>, local_team: TeamTag) -> Seq<PlayerSlot>
    decreases slots.len(),
{
    if slots.len() == 0 {
        Seq::empty()
    } else {
        let rest = admitted_slots(slots.drop_last(), local_team);
        if admitted(slots.last(), local_team) {
            rest.push(slots.last())
        } else {
            rest
        }
    }
}

/// The pointers of `slots`.
pub open spec fn slot_pointers(slots: Seq<PlayerSlot>) -> Seq<u64> {
    slots.map_values(|s: PlayerSlot| s.pointer)
}

pub(crate) proof fn lemma_split_members(cached: Seq<u64>, now: Seq<u64>, local: u64)
    ensures
        forall|x: u64| #[trigger] listed_pointers(cached, now, local).contains(x) ==> cached.contains(x) && seen_now(now, local, x),
        forall|x: u64| #[trigger] unlisted_pointers(cached, now, local).contains(x) ==> cached.contains(x) && !seen_now(now, local, x),
        listed_pointers(cached, now, local).len() + unlisted_pointers(cached, now, local).len() == cached.len(),
    decreases cached.len(),
{
    if cached.len() > 0 {
        let init = cached.drop_last();
        lemma_split_members(init, now, local);
        assert forall|x: u64| #[trigger] listed_pointers(cached, now, local).contains(x) implies cached.contains(x) && seen_now(now, local, x) by {
            if listed_pointers(init, now, local).contains(x) {
                let i = choose|i: int| 0 <= i < init.len() && init[i] == x;
                assert(cached[i] == x);
            } else {
                assert(cached[cached.len() - 1] == x);
            }
        }
        assert forall|x: u64| #[trigger] unlisted_pointers(cached, now, local).contains(x) implies cached.contains(x) && !seen_now(now, local, x) by {
            if unlisted_pointers(init, now, local).contains(x) {
                let i = choose|i: int| 0 <= i < init.len() && init[i] == x;
                assert(cached[i] == x);
            } else {
                assert(cached[cached.len() - 1] == x);
            }
        }
    }
}

pub(crate) proof fn lemma_split_covers(cached: Seq<u64>, now: Seq<u64>, local: u64)
    ensures
        forall|x: u64| cached.contains(x) ==> (#[trigger] listed_pointers(cached, now, local).contains(x) || unlisted_pointers(cached, now, local).contains(x)),
    decreases cached.len(),
{
    if cached.len() > 0 {
        let init = cached.drop_last();
        lemma_split_covers(init, now, local);
        assert forall|x: u64| cached.contains(x) implies (#[trigger] listed_pointers(cached, now, local).contains(x) || unlisted_pointers(cached, now, local).contains(x)) by {
            let i = choose|i: int| 0 <= i < cached.len() && cached[i] == x;
            if i < cached.len() - 1 {
                assert(init[i] == x);
                if listed_pointers(init, now, local).contains(x) {
                    let j = choose|j: int| 0 <= j < listed_pointers(init, now, local).len() && listed_pointers(init, now, local)[j] == x;
                    assert(listed_pointers(cached, now, local)[j] == x);
                } else {
                    assert(unlisted_pointers(init, now, local).contains(x));
                    let j = choose|j: int| 0 <= j < unlisted_pointers(init, now, local).len() && unlisted_pointers(init, now, local)[j] == x;
                    assert(unlisted_pointers(cached, now, local)[j] == x);
                }
            } else {
                if seen_now(now, local, x) {
                    assert(listed_pointers(cached, now, local).last() == x);
                } else {
                    assert(unlisted_pointers(cached, now, local).last() == x);
                }
            }
        }
    }
}


/// Whether `after` and `change` are what `CachePtr::update_cache` makes of
/// `before` for the table `now`, the entries `list`, the local pointer and team.
pub open spec fn refreshed_by(
    before: CachePtr,
    after: CachePtr,
    change: CacheChange,
    now: Seq<u64>,
    list: Seq<[u64; 2]>,
    local: u64,
    local_team: TeamTag,
) -> bool {
    &&& change.removed@ == listed_pointers(before.cache_medium@, now, local)
    &&& change.added@ == added_entries(unlisted_pointers(before.cache_medium@, now, local), list, local_team)
    &&& after.cache_medium@ == unlisted_pointers(before.cache_medium@, now, local) + entry_pointers(change.added@)
    &&& after.cache_high@ == before.cache_high@
    &&& after.cache_low@ == before.cache_low@
    &&& after.cache_static@ == before.cache_static@
}

/// What a cached player is known by: its slot index and its pointer.
#[derive(Clone, Copy, Debug, PartialEq, Eq, Structural)]
pub struct PlayerEntry {
    pub index: u64,
    pub pointer: u64,
}

/// The player entries that `[index, pointer]` entries stand for, keyed by pointer;
/// a later entry of a pointer wins.
pub open spec fn entry_map(entries: Seq<[u64; 2]>) -> Map<u64, PlayerEntry>
    decreases entries.len(),
{
    if entries.len() == 0 {
        Map::empty()
    } else {
        let e = entries.last();
        entry_map(entries.drop_last()).insert(e[1], PlayerEntry { index: e[0], pointer: e[1] })
    }
}

/// The `[index, pointer]` entries of `slots`.
pub open spec fn slot_entries(slots: Seq<PlayerSlot>) -> Seq<[u64; 2]> {
    slots.map_values(|s: PlayerSlot| [s.index, s.pointer])
}

proof fn lemma_entry_map(entries: Seq<[u64; 2]>)
    ensures
        entry_map(entries).dom() == entry_pointers(entries).to_set(),
        forall|k: u64| #[trigger] entry_map(entries).contains_key(k) ==> entry_map(entries)[k].pointer == k,
    decreases entries.len(),
{
    if entries.len() > 0 {
        let init = entries.drop_last();
        lemma_entry_map(init);
        assert(entry_pointers(entries) =~= entry_pointers(init).push(entries.last()[1]));
        assert(entry_map(entries).dom() =~= entry_pointers(entries).to_set()) by {
            assert forall|k: u64| entry_pointers(entries).contains(k) <==> entry_pointers(init).contains(k) || k == entries.last()[1] by {
                let ps = entry_pointers(entries);
                let pi = entry_pointers(init);
                if ps.contains(k) {
                    let i = choose|i: int| 0 <= i < ps.len() && ps[i] == k;
                    if i < pi.len() {
                        assert(pi[i] == k);
                    }
                }
                if pi.contains(k) {
                    let i = choose|i: int| 0 <= i < pi.len() && pi[i] == k;
                    assert(ps[i] == k);
                }
                if k == entries.last()[1] {
                    assert(ps[ps.len() - 1] == k);
                }
            }
        }
    } else {
        assert(entry_map(entries).dom() =~= entry_pointers(entries).to_set());
    }
}

proof fn lemma_concat_contains(a: Seq<u64>, b: Seq<u64>, k: u64)
    ensures
        (a + b).contains(k) <==> a.contains(k) || b.contains(k),
{
    if (a + b).contains(k) {
        let i = choose|i: int| 0 <= i < (a + b).len() && (a + b)[i] == k;
        if i >= a.len() {
            assert(b[i - a.len()] == k);
        }
    }
    if a.contains(k) {
        let i = choose|i: int| 0 <= i < a.len() && a[i] == k;
        assert((a + b)[i] == k);
    }
    if b.contains(k) {
        let i = choose|i: int| 0 <= i < b.len() && b[i] == k;
        assert((a + b)[a.len() + i] == k);
    }
}

/// Whether `v` holds `x`.
fn contains_u64(v: &Vec<u64>, x: u64) -> (res: bool)
    ensures
        res == v@.contains(x),
{
    let n = v.len();
    let mut i: usize = 0;
    while i < n
        invariant
            i <= n,
            n == v@.len(),
            forall|j: int| 0 <= j < i ==> v@[j] != x,
        decreases n - i,
    {
        if v[i] == x {
            return true;
        }
        i = i + 1;
    }
    false
}

impl CachePtr {
    /// Whether the entity table `now_pointer` disagrees with the cached
    /// entities in size, so that `update_cache` must run: the table lists,
    /// besides the local player, a number other than one more than the cache holds.
    pub fn update_cache_needed(&self, now_pointer: &Vec<u64>, local_pointer: u64) -> (res: bool)
        requires
            others_count(now_pointer@, local_pointer) >= 1,
        ensures
            res == (others_count(now_pointer@, local_pointer) - 1 != self.cache_medium@.len()),
    {
        let n = now_pointer.len();
        let mut count: usize = 0;
        let mut i: usize = 0;
        while i < n
            invariant
                i <= n,
                n == now_pointer@.len(),
                count == others_count(now_pointer@.take(i as int), local_pointer),
                count <= i,
            decreases n - i,
        {
            assert(now_pointer@.take(i + 1).drop_last() =~= now_pointer@.take(i as int));
            if now_pointer[i] != local_pointer {
                count = count + 1;
            }
            i = i + 1;
        }
        assert(now_pointer@.take(n as int) =~= now_pointer@);
        count - 1 != self.cache_medium.len()
    }

    /// Refreshes the medium-range cache against the entity table: drops every
    /// cached pointer that the table `now_pointer` lists (the local player's
    /// pointer aside), then appends each `[index, pointer]` entry of `now_list`
    /// whose pointer is not cached yet, unless the local player's team reads as
    /// the one that unread entities have. Returns what it dropped and added.
    pub fn update_cache(
        &mut self,
        now_pointer: &Vec<u64>,
        now_list: &Vec<[u64; 2]>,
        local_pointer: u64,
        local_team: TeamTag,
    ) -> (change: CacheChange)
        ensures
            change.removed@ == listed_pointers(old(self).cache_medium@, now_pointer@, local_pointer),
            change.added@ == added_entries(
                unlisted_pointers(old(self).cache_medium@, now_pointer@, local_pointer),
                now_list@,
                local_team,
            ),
            final(self).cache_medium@ == unlisted_pointers(
                old(self).cache_medium@,
                now_pointer@,
                local_pointer,
            ) + entry_pointers(change.added@),
            final(self).cache_high@ == old(self).cache_high@,
            final(self).cache_low@ == old(self).cache_low@,
            final(self).cache_static@ == old(self).cache_static@,
    {
        let ghost old_medium = self.cache_medium@;
        let n = self.cache_medium.len();
        let mut removed: Vec<u64> = Vec::new();
        let mut kept: Vec<u64> = Vec::new();
        let mut i: usize = 0;
        while i < n
            invariant
                i <= n,
                n == old_medium.len(),
                self.cache_medium@ == old_medium,
                removed@ == listed_pointers(old_medium.take(i as int), now_pointer@, local_pointer),
                kept@ == unlisted_pointers(old_medium.take(i as int), now_pointer@, local_pointer),
            decreases n - i,
        {
            assert(old_medium.take(i + 1).drop_last() =~= old_medium.take(i as int));
            let p = self.cache_medium[i];
            if p != local_pointer && contains_u64(now_pointer, p) {
                removed.push(p);
            } else {
                kept.push(p);
            }
            i = i + 1;
        }
        assert(old_medium.take(n as int) =~= old_medium);
        self.cache_medium = kept;
        let ghost kept_seq = self.cache_medium@;
        let mut added: Vec<[u64; 2]> = Vec::new();
        if !(0 == local_team.team_index && 0 == local_team.team) {
            let m = now_list.len();
            let mut j: usize = 0;
            assert(now_list@.skip(0) =~= now_list@);
            assert(added@ + fresh_entries(kept_seq, now_list@.skip(0)) =~= fresh_entries(kept_seq, now_list@));
            assert(entry_pointers(added@) =~= Seq::<u64>::empty());
            while j < m
                invariant
                    j <= m,
                    m == now_list@.len(),
                    self.cache_medium@ == kept_seq + entry_pointers(added@),
                    added@ + fresh_entries(self.cache_medium@, now_list@.skip(j as int))
                        == fresh_entries(kept_seq, now_list@),
                    self.cache_high@ == old(self).cache_high@,
                    self.cache_low@ == old(self).cache_low@,
                    self.cache_static@ == old(self).cache_static@,
                decreases m - j,
            {
                let e = now_list[j];
                assert(now_list@.skip(j as int).drop_first() =~= now_list@.skip(j + 1));
                assert(now_list@.skip(j as int)[0] == e);
                if !contains_u64(&self.cache_medium, e[1]) {
                    let ghost before = self.cache_medium@;
                    self.cache_medium.push(e[1]);
                    let ghost old_added = added@;
                    added.push(e);
                    assert(entry_pointers(added@) =~= entry_pointers(old_added).push(e[1]));
                    assert(self.cache_medium@ =~= before.push(e[1]));
                    assert(added@ =~= old_added + seq![e]);
                    assert(old_added + seq![e] + fresh_entries(before.push(e[1]), now_list@.skip(j + 1))
                        =~= old_added + (seq![e] + fresh_entries(before.push(e[1]), now_list@.skip(j + 1))));
                }
                j = j + 1;
            }
            assert(now_list@.skip(m as int) =~= Seq::<[u64; 2]>::empty());
            assert(added@ + Seq::<[u64; 2]>::empty() =~= added@);
        } else {
            assert(entry_pointers(added@) =~= Seq::<u64>::empty());
            assert(self.cache_medium@ =~= kept_seq + entry_pointers(added@));
        }
        CacheChange { removed, added }
    }

    /// Refreshes the medium-range cache against the entity table where the
    /// sizes disagree (see `update_cache_needed`), as `update_cache` does, and
    /// returns what changed; leaves the cache alone and returns `None` where
    /// they agree.
    pub fn refresh(
        &mut self,
        now_pointer: &Vec<u64>,
        now_list: &Vec<[u64; 2]>,
        local_pointer: u64,
        local_team: TeamTag,
    ) -> (r: Option<CacheChange>)
        requires
            others_count(now_pointer@, local_pointer) >= 1,
        ensures
            r is None <==> others_count(now_pointer@, local_pointer) - 1 == old(self).cache_medium@.len(),
            r is None ==> final(self).cache_medium@ == old(self).cache_medium@
                && final(self).cache_high@ == old(self).cache_high@
                && final(self).cache_low@ == old(self).cache_low@
                && final(self).cache_static@ == old(self).cache_static@,
            r matches Some(change) ==> refreshed_by(
                *old(self),
                *final(self),
                change,
                now_pointer@,
                now_list@,
                local_pointer,
                local_team,
            ),
    {
        if self.update_cache_needed(now_pointer, local_pointer) {
            Some(self.update_cache(now_pointer, now_list, local_pointer, local_team))
        } else {
            None
        }
    }

    /// Adds to the medium-range cache, in order, the pointer of every slot
    /// that is not on the local player's team; returns the admitted slots.
    pub fn initialize(&mut self, slots: &Vec<PlayerSlot>, local_team: TeamTag) -> (res: Vec<PlayerSlot>)
        ensures
            res@ == admitted_slots(slots@, local_team),
            final(self).cache_medium@ == old(self).cache_medium@ + slot_pointers(res@),
            final(self).cache_high@ == old(self).cache_high@,
            final(self).cache_low@ == old(self).cache_low@,
            final(self).cache_static@ == old(self).cache_static@,
    {
        let n = slots.len();
        let mut res: Vec<PlayerSlot> = Vec::new();
        let mut i: usize = 0;
        assert(slot_pointers(res@) =~= Seq::<u64>::empty());
        assert(old(self).cache_medium@ + Seq::<u64>::empty() =~= old(self).cache_medium@);
        while i < n
            invariant
                i <= n,
                n == slots@.len(),
                res@ == admitted_slots(slots@.take(i as int), local_team),
                self.cache_medium@ == old(self).cache_medium@ + slot_pointers(res@),
                self.cache_high@ == old(self).cache_high@,
                self.cache_low@ == old(self).cache_low@,
                self.cache_static@ == old(self).cache_static@,
            decreases n - i,
        {
            assert(slots@.take(i + 1).drop_last() =~= slots@.take(i as int));
            let slot = slots[i];
            if !(slot.team.team_index == local_team.team_index && slot.team.team == local_team.team) {
                let ghost before = res@;
                res.push(slot);
                self.cache_medium.push(slot.pointer);
                assert(slot_pointers(res@) =~= slot_pointers(before).push(slot.pointer));
            }
            i = i + 1;
        }
        assert(slots@.take(n as int) =~= slots@);
        res
    }
}

/// Whether the player entries `players` are in step with the cached pointers
/// `medium`: their keys are exactly those pointers, each entry under its own pointer.
pub open spec fn entries_in_step(medium: Seq<u64>, players: Map<u64, PlayerEntry>) -> bool {
    &&& players.dom() == medium.to_set()
    &&& forall|k: u64| #[trigger] players.contains_key(k) ==> players[k].pointer == k
}

/// The module base address, the cached pointers and the player entries kept
/// for them. The entries stay in step with the medium-range pointers
/// (`entries_in_step`): the type keeps this itself.
#[derive(Debug)]
pub struct EntityCache {
    base: u64,
    pointers: CachePtr,
    players: HashMap<u64, PlayerEntry>,
}

impl EntityCache {
    #[verifier::type_invariant]
    spec fn in_step(&self) -> bool {
        entries_in_step(self.pointers.cache_medium@, self.players@)
    }

    /// The base address of the module the entities are read from.
    pub closed spec fn base_view(&self) -> u64 {
        self.base
    }

    /// The cached pointers.
    pub closed spec fn pointers_view(&self) -> CachePtr {
        self.pointers
    }

    /// The player entries, keyed by pointer.
    pub closed spec fn players_view(&self) -> Map<u64, PlayerEntry> {
        self.players@
    }

    /// An empty cache with base address zero.
    pub fn new() -> (res: Self)
        ensures
            res.base_view() == 0,
            res.players_view() == Map::<u64, PlayerEntry>::empty(),
            res.pointers_view().cache_high@ == Seq::<u64>::empty(),
            res.pointers_view().cache_medium@ == Seq::<u64>::empty(),
            res.pointers_view().cache_low@ == Seq::<u64>::empty(),
            res.pointers_view().cache_static@ == Seq::<u64>::empty(),
    {
        let pointers = CachePtr::default();
        let players: HashMap<u64, PlayerEntry> = HashMap::new();
        assert(pointers.cache_medium@.to_set() =~= Set::<u64>::empty());
        assert(players@.dom() =~= Set::<u64>::empty());
        EntityCache { base: 0, pointers, players }
    }

    /// The base address.
    pub fn base(&self) -> (res: u64)
        ensures
            res == self.base_view(),
    {
        self.base
    }

    /// The cached pointers.
    pub fn pointers(&self) -> (res: &CachePtr)
        ensures
            *res == self.pointers_view(),
            entries_in_step(res.cache_medium@, self.players_view()),
    {
        proof {
            use_type_invariant(self);
        }
        &self.pointers
    }

    /// The player entries, keyed by pointer.
    pub fn players(&self) -> (res: &HashMap<u64, PlayerEntry>)
        ensures
            res@ == self.players_view(),
            entries_in_step(self.pointers_view().cache_medium@, res@),
    {
        proof {
            use_type_invariant(self);
        }
        &self.players
    }

    /// Refreshes the pointers as `CachePtr::update_cache` does and keeps the
    /// player entries in step: drops the entries of the removed pointers, then
    /// adds an entry for each added `[index, pointer]`. A cache without
    /// duplicate pointers keeps none.
    pub fn update_cache(
        &mut self,
        now_pointer: &Vec<u64>,
        now_list: &Vec<[u64; 2]>,
        local_pointer: u64,
        local_team: TeamTag,
    ) -> (change: CacheChange)
        ensures
            refreshed_by(
                old(self).pointers_view(),
                final(self).pointers_view(),
                change,
                now_pointer@,
                now_list@,
                local_pointer,
                local_team,
            ),
            final(self).players_view() == old(self).players_view().remove_keys(change.removed@.to_set())
                .union_prefer_right(entry_map(change.added@)),
            final(self).base_view() == old(self).base_view(),
            entries_in_step(final(self).pointers_view().cache_medium@, final(self).players_view()),
            old(self).pointers_view().cache_medium@.no_duplicates()
                ==> final(self).pointers_view().cache_medium@.no_duplicates(),
    {
        broadcast use vstd::std_specs::hash::group_hash_axioms;
        proof {
            use_type_invariant(&*self);
        }
        let mut cur = EntityCache::new();
        std::mem::swap(&mut cur, self);
        let EntityCache { base, mut pointers, mut players } = cur;
        let ghost old_players = players@;
        let ghost old_medium = pointers.cache_medium@;
        let change = pointers.update_cache(now_pointer, now_list, local_pointer, local_team);
        let n = change.removed.len();
        let mut i: usize = 0;
        assert(old_players.remove_keys(change.removed@.take(0).to_set()) =~= old_players);
        while i < n
            invariant
                i <= n,
                n == change.removed@.len(),
                players@ == old_players.remove_keys(change.removed@.take(i as int).to_set()),
            decreases n - i,
        {
            let p = change.removed[i];
            players.remove(&p);
            proof {
                let t0 = change.removed@.take(i as int);
                let t1 = change.removed@.take(i + 1);
                assert forall|k: u64| t1.contains(k) <==> t0.contains(k) || k == p by {
                    if t1.contains(k) {
                        let j = choose|j: int| 0 <= j < t1.len() && t1[j] == k;
                        if j < i {
                            assert(t0[j] == k);
                        }
                    }
                    if t0.contains(k) {
                        let j = choose|j: int| 0 <= j < t0.len() && t0[j] == k;
                        assert(t1[j] == k);
                    }
                    if k == p {
                        assert(t1[i as int] == k);
                    }
                }
                assert(players@ =~= old_players.remove_keys(t1.to_set()));
            }
            i = i + 1;
        }
        assert(change.removed@.take(n as int) =~= change.removed@);
        let ghost removed_players = players@;
        let m = change.added.len();
        let mut j: usize = 0;
        assert(removed_players.union_prefer_right(entry_map(change.added@.take(0))) =~= removed_players);
        while j < m
            invariant
                j <= m,
                m == change.added@.len(),
                players@ == removed_players.union_prefer_right(entry_map(change.added@.take(j as int))),
            decreases m - j,
        {
            let e = change.added[j];
            players.insert(e[1], PlayerEntry { index: e[0], pointer: e[1] });
            proof {
                assert(change.added@.take(j + 1).drop_last() =~= change.added@.take(j as int));
                assert(players@ =~= removed_players.union_prefer_right(entry_map(change.added@.take(j + 1))));
            }
            j = j + 1;
        }
        assert(change.added@.take(m as int) =~= change.added@);
        proof {
            let now = now_pointer@;
            let listed = listed_pointers(old_medium, now, local_pointer);
            let kept = unlisted_pointers(old_medium, now, local_pointer);
            let ptrs = entry_pointers(change.added@);
            lemma_split_members(old_medium, now, local_pointer);
            lemma_split_covers(old_medium, now, local_pointer);
            lemma_entry_map(change.added@);
            assert forall|k: u64| #[trigger] players@.dom().contains(k)
                <==> pointers.cache_medium@.to_set().contains(k) by {
                lemma_concat_contains(kept, ptrs, k);
                if old_medium.contains(k) && !listed.contains(k) {
                    assert(kept.contains(k));
                }
            }
            assert(players@.dom() =~= pointers.cache_medium@.to_set());
            if old_medium.no_duplicates() {
                crate::laws::law_refresh_keeps_distinct(old_medium, now, local_pointer, now_list@, local_team);
            }
        }
        *self = EntityCache { base, pointers, players };
        change
    }

    /// Refreshes as `update_cache` does where the entity table and the cache
    /// disagree in size (see `CachePtr::update_cache_needed`), and returns what
    /// changed; leaves everything alone and returns `None` where they agree.
    pub fn refresh(
        &mut self,
        now_pointer: &Vec<u64>,
        now_list: &Vec<[u64; 2]>,
        local_pointer: u64,
        local_team: TeamTag,
    ) -> (r: Option<CacheChange>)
        requires
            others_count(now_pointer@, local_pointer) >= 1,
        ensures
            r is None <==> others_count(now_pointer@, local_pointer) - 1
                == old(self).pointers_view().cache_medium@.len(),
            r is None ==> final(self).players_view() == old(self).players_view()
                && final(self).pointers_view() == old(self).pointers_view(),
            r matches Some(change) ==> refreshed_by(
                old(self).pointers_view(),
                final(self).pointers_view(),
                change,
                now_pointer@,
                now_list@,
                local_pointer,
                local_team,
            ) && final(self).players_view() == old(self).players_view().remove_keys(change.removed@.to_set())
                .union_prefer_right(entry_map(change.added@)),
            final(self).base_view() == old(self).base_view(),
            entries_in_step(final(self).pointers_view().cache_medium@, final(self).players_view()),
            old(self).pointers_view().cache_medium@.no_duplicates()
                ==> final(self).pointers_view().cache_medium@.no_duplicates(),
    {
        proof {
            use_type_invariant(&*self);
        }
        if self.pointers.update_cache_needed(now_pointer, local_pointer) {
            Some(self.update_cache(now_pointer, now_list, local_pointer, local_team))
        } else {
            None
        }
    }

    /// Records the base address, then initialises the cache from `slots` as
    /// `CachePtr::initialize` does and adds a player entry for each admitted
    /// slot; returns the admitted slots.
    pub fn initialize(&mut self, base: u64, slots: &Vec<PlayerSlot>, local_team: TeamTag) -> (res: Vec<PlayerSlot>)
        ensures
            final(self).base_view() == base,
            res@ == admitted_slots(slots@, local_team),
            final(self).pointers_view().cache_medium@ == old(self).pointers_view().cache_medium@ + slot_pointers(res@),
            final(self).pointers_view().cache_high@ == old(self).pointers_view().cache_high@,
            final(self).pointers_view().cache_low@ == old(self).pointers_view().cache_low@,
            final(self).pointers_view().cache_static@ == old(self).pointers_view().cache_static@,
            final(self).players_view() == old(self).players_view().union_prefer_right(entry_map(slot_entries(res@))),
            entries_in_step(final(self).pointers_view().cache_medium@, final(self).players_view()),
    {
        broadcast use vstd::std_specs::hash::group_hash_axioms;
        proof {
            use_type_invariant(&*self);
        }
        let mut cur = EntityCache::new();
        std::mem::swap(&mut cur, self);
        let EntityCache { base: _, mut pointers, mut players } = cur;
        let ghost old_players = players@;
        let ghost old_medium = pointers.cache_medium@;
        let admitted = pointers.initialize(slots, local_team);
        let n = admitted.len();
        let mut i: usize = 0;
        assert(old_players.union_prefer_right(entry_map(slot_entries(admitted@.take(0)))) =~= old_players);
        while i < n
            invariant
                i <= n,
                n == admitted@.len(),
                players@ == old_players.union_prefer_right(entry_map(slot_entries(admitted@.take(i as int)))),
            decreases n - i,
        {
            let s = admitted[i];
            players.insert(s.pointer, PlayerEntry { index: s.index, pointer: s.pointer });
            proof {
                assert(slot_entries(admitted@.take(i + 1)).drop_last() =~= slot_entries(admitted@.take(i as int)));
                assert(players@ =~= old_players.union_prefer_right(entry_map(slot_entries(admitted@.take(i + 1)))));
            }
            i = i + 1;
        }
        assert(admitted@.take(n as int) =~= admitted@);
        proof {
            lemma_entry_map(slot_entries(admitted@));
            assert(entry_pointers(slot_entries(admitted@)) =~= slot_pointers(admitted@));
            assert forall|k: u64| #[trigger] players@.dom().contains(k)
                <==> pointers.cache_medium@.to_set().contains(k) by {
                lemma_concat_contains(old_medium, slot_pointers(admitted@), k);
            }
            assert(players@.dom() =~= pointers.cache_medium@.to_set());
        }
        *self = EntityCache { base, pointers, players };
        admitted
    }
}

} // verus!
