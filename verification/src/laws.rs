//! Properties that hold across the library's operations.
use vstd::prelude::*;
use crate::bytes::{lemma_le_value_bound, lemma_pow256_small, spec_i32_le, spec_u16_le, spec_u32_le, spec_u64_le};
use crate::interface::{FromBytes, entity_slots, entity_word, nonzero_end, trim_trailing_zeros};
use crate::data::{Character, key_down, key_word_offset, lookup_character, roster, roster_character, text_or_empty};
use vstd::utf8::{decode_utf8, valid_utf8};
use crate::bytes::le_value;
use crate::cache::{
    PlayerSlot, TeamTag, added_entries, admitted, admitted_slots, entry_pointers, fresh_entries,
    listed_pointers, seen_now, unlisted_pointers, lemma_split_members, lemma_split_covers,
};

verus! {

/// Decoding a fixed-width number reads only the leading bytes it needs:
/// whatever follows them does not change the result.
pub proof fn law_decode_reads_prefix(s: Seq<u8>, t: Seq<u8>)
    ensures
        s.len() >= 2 ==> spec_u16_le(s + t) == spec_u16_le(s),
        s.len() >= 4 ==> spec_u32_le(s + t) == spec_u32_le(s),
        s.len() >= 4 ==> spec_i32_le(s + t) == spec_i32_le(s),
        s.len() >= 8 ==> spec_u64_le(s + t) == spec_u64_le(s),
{
    if s.len() >= 2 {
        assert((s + t).take(2) =~= s.take(2));
    }
    if s.len() >= 4 {
        assert((s + t).take(4) =~= s.take(4));
    }
    if s.len() >= 8 {
        assert((s + t).take(8) =~= s.take(8));
    }
}

/// The signed and the unsigned 32-bit decodings of the same bytes agree as
/// bit patterns: they are equal below `2^31`, and differ by `2^32` above.
pub proof fn law_signed_matches_unsigned(s: Seq<u8>)
    requires
        s.len() >= 4,
    ensures
        spec_u32_le(s) < 0x8000_0000 ==> spec_i32_le(s) as int == spec_u32_le(s) as int,
        spec_u32_le(s) >= 0x8000_0000 ==> spec_i32_le(s) as int == spec_u32_le(s) as int - 0x1_0000_0000,
{
    lemma_le_value_bound(s.take(4));
    lemma_pow256_small();
}

/// Reading a number at an offset of a buffer gives what decoding the bytes
/// from that offset gives.
pub proof fn law_read_matches_decode(s: Seq<u8>, addr: int)
    requires
        0 <= addr,
    ensures
        addr + 2 <= s.len() ==> <u16 as FromBytes>::decodes_to(s.skip(addr), Some(spec_u16_le(s.skip(addr)))),
        addr + 4 <= s.len() ==> <u32 as FromBytes>::decodes_to(s.skip(addr), Some(spec_u32_le(s.skip(addr)))),
        addr + 4 <= s.len() ==> <i32 as FromBytes>::decodes_to(s.skip(addr), Some(spec_i32_le(s.skip(addr)))),
        addr + 8 <= s.len() ==> <u64 as FromBytes>::decodes_to(s.skip(addr), Some(spec_u64_le(s.skip(addr)))),
{
}

proof fn lemma_nonzero_end_padded(s: Seq<u8>, k: nat)
    requires
        s.len() > 0,
        s.last() != 0,
    ensures
        nonzero_end(s + Seq::new(k, |i: int| 0u8)) == s.len(),
    decreases k,
{
    let padded = s + Seq::new(k, |i: int| 0u8);
    if k > 0 {
        assert(padded.drop_last() =~= s + Seq::new((k - 1) as nat, |i: int| 0u8));
        lemma_nonzero_end_padded(s, (k - 1) as nat);
    } else {
        assert(padded =~= s);
    }
}

/// Text decoding ignores zero padding: text that ends in a non-zero byte
/// decodes the same with any number of zero bytes after it.
pub proof fn law_text_ignores_zero_padding(s: Seq<u8>, k: nat)
    requires
        s.len() > 0,
        s.last() != 0,
    ensures
        trim_trailing_zeros(s + Seq::new(k, |i: int| 0u8)) == s,
        trim_trailing_zeros(s) == s,
{
    lemma_nonzero_end_padded(s, k);
    lemma_nonzero_end_padded(s, 0);
    assert((s + Seq::new(k, |i: int| 0u8)).take(s.len() as int) =~= s);
    assert(s + Seq::new(0, |i: int| 0u8) =~= s);
    assert(s.take(s.len() as int) =~= s);
}

/// The entity table ignores a partial slot at its end: bytes that stop
/// short of a whole slot add no slot and change none.
pub proof fn law_entity_slots_ignore_partial(s: Seq<u8>, t: Seq<u8>)
    requires
        s.len() % 32 == 0,
        t.len() < 32,
    ensures
        entity_slots(s + t) == entity_slots(s),
{
    let st = s + t;
    assert(st.len() / 32 == s.len() / 32);
    assert forall|k: int| 0 <= k < s.len() / 32 implies #[trigger] entity_word(st, k) == entity_word(s, k) by {
        assert(32 * k + 32 <= s.len());
        assert(st.skip(32 * k).take(8) =~= s.skip(32 * k).take(8));
    }
    assert(entity_slots(st) =~= entity_slots(s));
}

/// A key's state depends on the four bytes of its word alone.
pub proof fn law_key_state_reads_its_word(s1: Seq<u8>, s2: Seq<u8>, key: u8)
    requires
        key_word_offset(key) + 4 <= s1.len(),
        key_word_offset(key) + 4 <= s2.len(),
        s1.subrange(key_word_offset(key), key_word_offset(key) + 4)
            == s2.subrange(key_word_offset(key), key_word_offset(key) + 4),
    ensures
        key_down(s1, key) == key_down(s2, key),
{
    let off = key_word_offset(key);
    assert(s1.skip(off).take(4) =~= s1.subrange(off, off + 4));
    assert(s2.skip(off).take(4) =~= s2.subrange(off, off + 4));
}

/// After the roster is loaded into an empty table, looking up a code gives
/// its roster character, and `Character::NoCharacter` for any other code.
pub proof fn law_lookup_after_roster(code: u16)
    ensures
        lookup_character(Map::<u16, Character>::empty().union_prefer_right(roster()), code)
            == match roster_character(code) {
                Some(c) => c,
                None => Character::NoCharacter,
            },
{
}

/// Loading the roster overrides the table at the roster's codes, keeps every
/// other entry, and loading it twice is the same as loading it once.
pub proof fn law_roster_load(table: Map<u16, Character>, code: u16)
    ensures
        roster_character(code) is Some ==> lookup_character(table.union_prefer_right(roster()), code)
            == roster_character(code).unwrap(),
        roster_character(code) is None ==> lookup_character(table.union_prefer_right(roster()), code)
            == lookup_character(table, code),
        table.union_prefer_right(roster()).union_prefer_right(roster()) == table.union_prefer_right(roster()),
{
    assert(table.union_prefer_right(roster()).union_prefer_right(roster()) =~= table.union_prefer_right(roster()));
}

/// A refresh splits the old cache in two: the pointers it drops are exactly
/// the cached ones that the table lists (the local player's aside), those it
/// keeps are the rest, and together they account for every cached entry.
pub proof fn law_refresh_partitions_cache(cached: Seq<u64>, now: Seq<u64>, local: u64)
    ensures
        forall|x: u64| #[trigger] listed_pointers(cached, now, local).contains(x) ==> cached.contains(x) && seen_now(now, local, x),
        forall|x: u64| #[trigger] unlisted_pointers(cached, now, local).contains(x) ==> cached.contains(x) && !seen_now(now, local, x),
        forall|x: u64| cached.contains(x) ==> (#[trigger] listed_pointers(cached, now, local).contains(x) || unlisted_pointers(cached, now, local).contains(x)),
        listed_pointers(cached, now, local).len() + unlisted_pointers(cached, now, local).len() == cached.len(),
{
    lemma_split_members(cached, now, local);
    lemma_split_covers(cached, now, local);
}

proof fn lemma_unlisted_distinct(cached: Seq<u64>, now: Seq<u64>, local: u64)
    requires
        cached.no_duplicates(),
    ensures
        unlisted_pointers(cached, now, local).no_duplicates(),
    decreases cached.len(),
{
    if cached.len() > 0 {
        let init = cached.drop_last();
        assert(init.no_duplicates());
        lemma_unlisted_distinct(init, now, local);
        lemma_split_members(init, now, local);
        if !seen_now(now, local, cached.last()) {
            let u = unlisted_pointers(init, now, local);
            let x = cached.last();
            assert(!init.contains(x)) by {
                if init.contains(x) {
                    let i = choose|i: int| 0 <= i < init.len() && init[i] == x;
                    assert(cached[i] == cached[cached.len() - 1]);
                }
            }
            assert(!u.contains(x));
            let w = u.push(x);
            assert forall|i: int, j: int| 0 <= i < w.len() && 0 <= j < w.len() && i != j implies w[i] != w[j] by {
                if i < u.len() && j < u.len() {
                } else if i == u.len() {
                    assert(w[j] == u[j]);
                } else {
                    assert(w[i] == u[i]);
                }
            }
        }
    }
}

proof fn lemma_fresh_distinct(seen: Seq<u64>, list: Seq<[u64; 2]>)
    requires
        seen.no_duplicates(),
    ensures
        (seen + entry_pointers(fresh_entries(seen, list))).no_duplicates(),
    decreases list.len(),
{
    if list.len() == 0 {
        assert(seen + entry_pointers(fresh_entries(seen, list)) =~= seen);
    } else {
        let e = list[0];
        let rest = list.drop_first();
        if seen.contains(e[1]) {
            lemma_fresh_distinct(seen, rest);
        } else {
            let seen2 = seen.push(e[1]);
            assert(seen2.no_duplicates());
            lemma_fresh_distinct(seen2, rest);
            assert(entry_pointers(seq![e] + fresh_entries(seen2, rest))
                =~= seq![e[1]] + entry_pointers(fresh_entries(seen2, rest)));
            assert(seen + entry_pointers(fresh_entries(seen, list))
                =~= seen2 + entry_pointers(fresh_entries(seen2, rest)));
        }
    }
}

/// A refresh keeps the cache free of duplicate pointers: where the old cache
/// held each pointer once, the new one does too, so no added pointer is one
/// that was kept.
pub proof fn law_refresh_keeps_distinct(
    cached: Seq<u64>,
    now: Seq<u64>,
    local: u64,
    list: Seq<[u64; 2]>,
    local_team: TeamTag,
)
    requires
        cached.no_duplicates(),
    ensures
        ({
            let kept = unlisted_pointers(cached, now, local);
            (kept + entry_pointers(added_entries(kept, list, local_team))).no_duplicates()
        }),
{
    let kept = unlisted_pointers(cached, now, local);
    lemma_unlisted_distinct(cached, now, local);
    if crate::cache::unread_team_matches(local_team) {
        assert(kept + entry_pointers(added_entries(kept, list, local_team)) =~= kept);
    } else {
        lemma_fresh_distinct(kept, list);
    }
}

/// The slots a cache initialisation admits are exactly those of `slots` off
/// the local player's team, in their order.
pub proof fn law_initialize_admits_other_teams(slots: Seq<PlayerSlot>, local_team: TeamTag)
    ensures
        forall|s: PlayerSlot| #[trigger] admitted_slots(slots, local_team).contains(s)
            <==> slots.contains(s) && !(s.team.team == local_team.team && s.team.team_index == local_team.team_index),
    decreases slots.len(),
{
    if slots.len() > 0 {
        let init = slots.drop_last();
        law_initialize_admits_other_teams(init, local_team);
        let rest = admitted_slots(init, local_team);
        let all = admitted_slots(slots, local_team);
        assert(all == if admitted(slots.last(), local_team) { rest.push(slots.last()) } else { rest });
        assert forall|s: PlayerSlot| #[trigger] all.contains(s)
            <==> slots.contains(s) && !(s.team.team == local_team.team && s.team.team_index == local_team.team_index) by {
            if all.contains(s) {
                if rest.contains(s) {
                    let i = choose|i: int| 0 <= i < init.len() && init[i] == s;
                    assert(slots[i] == s);
                } else {
                    let j = choose|j: int| 0 <= j < all.len() && all[j] == s;
                    assert(j == rest.len());
                    assert(slots[slots.len() - 1] == s);
                }
            }
            if slots.contains(s) && !(s.team.team == local_team.team && s.team.team_index == local_team.team_index) {
                let i = choose|i: int| 0 <= i < slots.len() && slots[i] == s;
                if i < slots.len() - 1 {
                    assert(init[i] == s);
                    assert(init.contains(s));
                    assert(rest.contains(s));
                    let j = choose|j: int| 0 <= j < rest.len() && rest[j] == s;
                    assert(all[j] == s);
                } else {
                    assert(all[all.len() - 1] == s);
                }
            }
        }
    }
}


/// A slot is admitted to the cache exactly when it differs from the local
/// player's team in the team number or in the team index.
pub proof fn law_admission_rule(slot: PlayerSlot, local_team: TeamTag)
    ensures
        admitted(slot, local_team) <==> (slot.team.team != local_team.team || slot.team.team_index != local_team.team_index),
{
}

proof fn lemma_fresh_entries_sound_complete(seen: Seq<u64>, list: Seq<[u64; 2]>)
    ensures
        forall|e: [u64; 2]| #[trigger] fresh_entries(seen, list).contains(e) ==> list.contains(e) && !seen.contains(e[1]),
        forall|i: int| 0 <= i < list.len() && !seen.contains(#[trigger] list[i][1])
            ==> entry_pointers(fresh_entries(seen, list)).contains(list[i][1]),
    decreases list.len(),
{
    if list.len() > 0 {
        let e0 = list[0];
        let rest = list.drop_first();
        let f = fresh_entries(seen, list);
        if seen.contains(e0[1]) {
            lemma_fresh_entries_sound_complete(seen, rest);
            assert(f == fresh_entries(seen, rest));
            assert forall|e: [u64; 2]| #[trigger] f.contains(e) implies list.contains(e) && !seen.contains(e[1]) by {
                assert(fresh_entries(seen, rest).contains(e));
                let j = choose|j: int| 0 <= j < rest.len() && rest[j] == e;
                assert(list[j + 1] == e);
            }
            assert forall|i: int| 0 <= i < list.len() && !seen.contains(#[trigger] list[i][1])
                implies entry_pointers(f).contains(list[i][1]) by {
                assert(i != 0);
                assert(rest[i - 1] == list[i]);
                assert(entry_pointers(fresh_entries(seen, rest)).contains(rest[i - 1][1]));
            }
        } else {
            let seen2 = seen.push(e0[1]);
            let g = fresh_entries(seen2, rest);
            lemma_fresh_entries_sound_complete(seen2, rest);
            assert(f == seq![e0] + g);
            assert(entry_pointers(f) =~= seq![e0[1]] + entry_pointers(g));
            assert forall|e: [u64; 2]| #[trigger] f.contains(e) implies list.contains(e) && !seen.contains(e[1]) by {
                let j = choose|j: int| 0 <= j < f.len() && f[j] == e;
                if j == 0 {
                    assert(list[0] == e);
                } else {
                    assert(g[j - 1] == e);
                    assert(g.contains(e));
                    let k = choose|k: int| 0 <= k < rest.len() && rest[k] == e;
                    assert(list[k + 1] == e);
                    if seen.contains(e[1]) {
                        let m = choose|m: int| 0 <= m < seen.len() && seen[m] == e[1];
                        assert(seen2[m] == e[1]);
                    }
                }
            }
            assert forall|i: int| 0 <= i < list.len() && !seen.contains(#[trigger] list[i][1])
                implies entry_pointers(f).contains(list[i][1]) by {
                if list[i][1] == e0[1] {
                    assert(entry_pointers(f)[0] == list[i][1]);
                } else {
                    assert(i != 0);
                    assert(rest[i - 1] == list[i]);
                    assert(!seen2.contains(rest[i - 1][1])) by {
                        if seen2.contains(rest[i - 1][1]) {
                            let m = choose|m: int| 0 <= m < seen2.len() && seen2[m] == rest[i - 1][1];
                            if m < seen.len() {
                                assert(seen[m] == list[i][1]);
                            }
                        }
                    }
                    let ptrs = entry_pointers(g);
                    let m = choose|m: int| 0 <= m < ptrs.len() && ptrs[m] == list[i][1];
                    assert(entry_pointers(f)[m + 1] == list[i][1]);
                }
            }
        }
    }
}

/// What a refresh adds after the kept pointers `kept`: nothing when the local
/// player's team is team 0 of index 0, the team that an entity whose team is
/// not read yet has; otherwise only entries of `list` whose pointer is not
/// kept, and the pointer of every entry of `list` that is not kept.
pub proof fn law_refresh_adds_unseen_entries(kept: Seq<u64>, list: Seq<[u64; 2]>, local_team: TeamTag)
    ensures
        local_team.team == 0 && local_team.team_index == 0 ==> added_entries(kept, list, local_team) == Seq::<[u64; 2]>::empty(),
        local_team.team != 0 || local_team.team_index != 0 ==> {
            &&& forall|e: [u64; 2]| #[trigger] added_entries(kept, list, local_team).contains(e)
                ==> list.contains(e) && !kept.contains(e[1])
            &&& forall|i: int| 0 <= i < list.len() && !kept.contains(#[trigger] list[i][1])
                ==> entry_pointers(added_entries(kept, list, local_team)).contains(list[i][1])
        },
{
    lemma_fresh_entries_sound_complete(kept, list);
}

/// The text that `read_string` gives for its 32 bytes is their decoding
/// wherever they are valid UTF-8, whatever characters they hold, and empty
/// only where they are not.
pub proof fn law_read_string_text(s: Seq<u8>)
    ensures
        valid_utf8(s) ==> text_or_empty(s) == decode_utf8(s),
        !valid_utf8(s) ==> text_or_empty(s) == Seq::<char>::empty(),
{
}

proof fn lemma_word_bit(b0: u8, b1: u8, b2: u8, b3: u8, u: u32, j: u32)
    by (bit_vector)
    requires
        j < 32,
        u == b0 as u32 + 256u32 * (b1 as u32) + 65536u32 * (b2 as u32) + 16777216u32 * (b3 as u32),
    ensures
        j < 8 ==> (((u >> j) & 1 == 1) == (((b0 as u32) >> j) & 1 == 1)),
        8 <= j < 16 ==> (((u >> j) & 1 == 1) == (((b1 as u32) >> ((j - 8) as u32)) & 1 == 1)),
        16 <= j < 24 ==> (((u >> j) & 1 == 1) == (((b2 as u32) >> ((j - 16) as u32)) & 1 == 1)),
        24 <= j < 32 ==> (((u >> j) & 1 == 1) == (((b3 as u32) >> ((j - 24) as u32)) & 1 == 1)),
{
}

/// Key states are numbered through the bitmap byte by byte: whether `key` is
/// down is bit `(key + 1) % 8` of byte `(key + 1) / 8`, for every key code
/// below 255 whose word the bitmap holds.
pub proof fn law_key_state_is_bitmap_bit(bytes: Seq<u8>, key: u8)
    requires
        key < 255,
        key_word_offset(key) + 4 <= bytes.len(),
    ensures
        key_down(bytes, key) == (((bytes[(key + 1) / 8] as u32) >> (((key + 1) % 8) as u32)) & 1 == 1),
{
    let off = key_word_offset(key);
    let w = bytes.skip(off).take(4);
    reveal_with_fuel(le_value, 5);
    assert(w.drop_first().drop_first().drop_first().drop_first().len() == 0);
    assert(le_value(w) == w[0] as nat + 256 * (w[1] as nat + 256 * (w[2] as nat + 256 * (w[3] as nat + 256 * 0)))) by {
        assert(w.drop_first()[0] == w[1]);
        assert(w.drop_first().drop_first()[0] == w[2]);
        assert(w.drop_first().drop_first().drop_first()[0] == w[3]);
    }
    let u = spec_u32_le(bytes.skip(off));
    lemma_le_value_bound(w);
    lemma_pow256_small();
    let j: u32 = ((key + 1) % 32) as u32;
    lemma_word_bit(w[0], w[1], w[2], w[3], u, j);
    assert(w[0] == bytes[off]);
    assert(w[1] == bytes[off + 1]);
    assert(w[2] == bytes[off + 2]);
    assert(w[3] == bytes[off + 3]);
}

/// The roster's codes and characters, pair by pair, and no other code.
pub proof fn law_roster_table(code: u16)
    ensures
        roster_character(1) == Some(Character::Ash),
        roster_character(2) == Some(Character::Ash),
        roster_character(3) == Some(Character::Ballistic),
        roster_character(4) == Some(Character::Ballistic),
        roster_character(5) == Some(Character::Bangalore),
        roster_character(6) == Some(Character::Bangalore),
        roster_character(7) == Some(Character::Bloodhound),
        roster_character(8) == Some(Character::Bloodhound),
        roster_character(9) == Some(Character::Catalyst),
        roster_character(10) == Some(Character::Catalyst),
        roster_character(11) == Some(Character::Caustic),
        roster_character(12) == Some(Character::Caustic),
        roster_character(13) == Some(Character::Crypto),
        roster_character(14) == Some(Character::Crypto),
        roster_character(15) == Some(Character::Horizon),
        roster_character(16) == Some(Character::Horizon),
        roster_character(17) == Some(Character::Lifeline),
        roster_character(18) == Some(Character::Lifeline),
        roster_character(19) == Some(Character::Loba),
        roster_character(20) == Some(Character::Loba),
        roster_character(21) == Some(Character::MadMaggie),
        roster_character(22) == Some(Character::MadMaggie),
        roster_character(23) == Some(Character::Mirage),
        roster_character(24) == Some(Character::Mirage),
        roster_character(25) == Some(Character::Newcastle),
        roster_character(26) == Some(Character::Newcastle),
        roster_character(27) == Some(Character::Octane),
        roster_character(28) == Some(Character::Octane),
        roster_character(29) == Some(Character::Pathfinder),
        roster_character(30) == Some(Character::Pathfinder),
        roster_character(31) == Some(Character::Rampart),
        roster_character(32) == Some(Character::Rampart),
        roster_character(4173) == Some(Character::Revenant),
        roster_character(35) == Some(Character::Seer),
        roster_character(36) == Some(Character::Seer),
        roster_character(37) == Some(Character::Valkyrie),
        roster_character(38) == Some(Character::Valkyrie),
        roster_character(39) == Some(Character::Vantage),
        roster_character(40) == Some(Character::Vantage),
        roster_character(41) == Some(Character::Wattson),
        roster_character(42) == Some(Character::Wattson),
        roster_character(43) == Some(Character::Wraith),
        roster_character(44) == Some(Character::Wraith),
        !((1 <= code <= 32) || (35 <= code <= 44) || code == 4173) ==> roster_character(code) is None,
{
}

} // verus!
