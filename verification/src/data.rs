use std::collections::HashMap;
use vstd::prelude::*;
use vstd::utf8::{decode_utf8, valid_utf8};
use crate::bytes::{decode_i32, decode_u16, decode_u32, decode_u64, spec_i32_le, spec_u16_le, spec_u32_le, spec_u64_le};
use crate::interface::string_from_utf8;

verus! {

/// A buffer of bytes copied out of memory, read at byte offsets.
#[derive(Clone, Debug)]
pub struct ContinuingData {
    pub value: Vec<u8>,
}

/// The text that `read_string` gives for the 32 bytes `s`: their characters
/// where they are valid UTF-8, else the empty text.
pub open spec fn text_or_empty(s: Seq<u8>) -> Seq<char> {
    if valid_utf8(s) {
        decode_utf8(s)
    } else {
        Seq::empty()
    }
}

impl ContinuingData {
    pub fn new(value: Vec<u8>) -> (res: Self)
        ensures
            res.value@ == value@,
    {
        ContinuingData { value }
    }

    pub fn read_u8(&self, addr: usize) -> (res: u8)
        requires
            addr + 1 <= self.value@.len(),
        ensures
            res == self.value@[addr as int],
    {
        self.value[addr]
    }

    pub fn read_u16(&self, addr: u64) -> (res: u16)
        requires
            addr + 2 <= self.value@.len(),
        ensures
            res == spec_u16_le(self.value@.skip(addr as int)),
    {
        let len = self.value.len();
        assert(addr < len);
        decode_u16(self.value.as_slice(), addr as usize)
    }

    pub fn read_u32(&self, addr: u64) -> (res: u32)
        requires
            addr + 4 <= self.value@.len(),
        ensures
            res == spec_u32_le(self.value@.skip(addr as int)),
    {
        let len = self.value.len();
        assert(addr < len);
        decode_u32(self.value.as_slice(), addr as usize)
    }

    pub fn read_i32(&self, addr: u64) -> (res: i32)
        requires
            addr + 4 <= self.value@.len(),
        ensures
            res == spec_i32_le(self.value@.skip(addr as int)),
    {
        let len = self.value.len();
        assert(addr < len);
        decode_i32(self.value.as_slice(), addr as usize)
    }

    pub fn read_u64(&self, addr: u64) -> (res: u64)
        requires
            addr + 8 <= self.value@.len(),
        ensures
            res == spec_u64_le(self.value@.skip(addr as int)),
    {
        let len = self.value.len();
        assert(addr < len);
        decode_u64(self.value.as_slice(), addr as usize)
    }

    /// Reads the 32 bytes at `addr` as UTF-8 text; invalid text reads as empty.
    pub fn read_string(&self, addr: u64) -> (res: String)
        requires
            addr + 32 <= self.value@.len(),
        ensures
            res@ == text_or_empty(self.value@.subrange(addr as int, addr + 32)),
    {
        let len = self.value.len();
        assert(addr < len);
        let start = addr as usize;
        let mut v: Vec<u8> = Vec::new();
        let mut i: usize = 0;
        while i < 32
            invariant
                i <= 32,
                start == addr,
                start + 32 <= self.value@.len(),
                self.value@.len() == len,
                v@ == self.value@.subrange(start as int, start + i),
            decreases 32 - i,
        {
            v.push(self.value[start + i]);
            i = i + 1;
            assert(v@ =~= self.value@.subrange(start as int, start + i));
        }
        match string_from_utf8(v) {
            Some(s) => s,
            None => String::new(),
        }
    }
}


/// Byte offset of the 32-bit word of the key-state bitmap that holds `key`'s bit.
pub open spec fn key_word_offset(key: u8) -> int {
    ((key + 1) / 32) * 4
}

/// Whether `key` is marked down in the key-state bitmap `bytes`: bit number
/// `(key + 1) % 32` of the little-endian word at `key_word_offset(key)`.
pub open spec fn key_down(bytes: Seq<u8>, key: u8) -> bool {
    (spec_u32_le(bytes.skip(key_word_offset(key))) >> (((key + 1) % 32) as u32)) & 1 == 1
}

proof fn lemma_signed_bit(u: u32, x: i32, s: u32)
    by (bit_vector)
    requires
        s < 32,
        u < 0x8000_0000 ==> x == u as i32,
        u >= 0x8000_0000 ==> x + 0x1_0000_0000 == u,
    ensures
        ((x >> s) & 1 == 1) == ((u >> s) & 1 == 1),
{
}

/// The key-state bitmap of the input system.
#[derive(Clone, Debug)]
pub struct KeyData {
    pub data: ContinuingData,
}

impl KeyData {
    /// Whether `key` is held down according to the bitmap.
    pub fn get_key_state(&self, key: u8) -> (res: bool)
        requires
            key < 255,
            key_word_offset(key) + 4 <= self.data.value@.len(),
        ensures
            res == key_down(self.data.value@, key),
    {
        let value: u8 = key + 1;
        assert(value >> 5 <= 7) by (bit_vector);
        let offset: u8 = (value >> 5) * 4;
        assert(offset == key_word_offset(key)) by (bit_vector)
            requires
                value == key + 1,
                key < 255,
                offset == (value >> 5) * 4;
        let word = self.data.read_i32(offset as u64);
        let shift: u32 = (value & 31) as u32;
        assert(shift == (key + 1) % 32) by (bit_vector)
            requires
                value == key + 1,
                key < 255,
                shift == (value & 31) as u32;
        proof {
            let s = self.data.value@.skip(offset as int);
            let u = spec_u32_le(s);
            crate::bytes::lemma_le_value_bound(s.take(4));
            crate::bytes::lemma_pow256_small();
            lemma_signed_bit(u, word, shift);
        }
        (word >> shift) & 1 == 1
    }
}

/// The playable characters, as the game's skin codes name them.
#[derive(Clone, Copy, Debug, PartialEq, Eq, Structural)]
pub enum Character {
    Table,
    Ash,
    Ballistic,
    Bangalore,
    Bloodhound,
    Catalyst,
    Caustic,
    Crypto,
    Fuse,
    Gibraltar,
    Horizon,
    Lifeline,
    Loba,
    MadMaggie,
    Mirage,
    Newcastle,
    Octane,
    Pathfinder,
    Rampart,
    Revenant,
    Seer,
    Valkyrie,
    Vantage,
    Wattson,
    Wraith,
    NoCharacter,
}

impl Default for Character {
    fn default() -> (res: Self)
        ensures
            res == Character::NoCharacter,
    {
        Character::NoCharacter
    }
}

/// The character that the roster gives the code `code`, where it gives one.
pub open spec fn roster_character(code: u16) -> Option<Character> {
    if code == 1 || code == 2 {
        Some(Character::Ash)
    } else
    if code == 3 || code == 4 {
        Some(Character::Ballistic)
    } else
    if code == 5 || code == 6 {
        Some(Character::Bangalore)
    } else
    if code == 7 || code == 8 {
        Some(Character::Bloodhound)
    } else
    if code == 9 || code == 10 {
        Some(Character::Catalyst)
    } else
    if code == 11 || code == 12 {
        Some(Character::Caustic)
    } else
    if code == 13 || code == 14 {
        Some(Character::Crypto)
    } else
    if code == 15 || code == 16 {
        Some(Character::Horizon)
    } else
    if code == 17 || code == 18 {
        Some(Character::Lifeline)
    } else
    if code == 19 || code == 20 {
        Some(Character::Loba)
    } else
    if code == 21 || code == 22 {
        Some(Character::MadMaggie)
    } else
    if code == 23 || code == 24 {
        Some(Character::Mirage)
    } else
    if code == 25 || code == 26 {
        Some(Character::Newcastle)
    } else
    if code == 27 || code == 28 {
        Some(Character::Octane)
    } else
    if code == 29 || code == 30 {
        Some(Character::Pathfinder)
    } else
    if code == 31 || code == 32 {
        Some(Character::Rampart)
    } else
    if code == 4173 {
        Some(Character::Revenant)
    } else
    if code == 35 || code == 36 {
        Some(Character::Seer)
    } else
    if code == 37 || code == 38 {
        Some(Character::Valkyrie)
    } else
    if code == 39 || code == 40 {
        Some(Character::Vantage)
    } else
    if code == 41 || code == 42 {
        Some(Character::Wattson)
    } else
    if code == 43 || code == 44 {
        Some(Character::Wraith)
    } else {
        None
    }
}

/// The roster as a map from code to character.
pub open spec fn roster() -> Map<u16, Character> {
    Map::new(|code: u16| roster_character(code) is Some, |code: u16| roster_character(code).unwrap())
}

/// What a lookup of `code` in `table` gives: its character, or `Character::NoCharacter`.
pub open spec fn lookup_character(table: Map<u16, Character>, code: u16) -> Character {
    if table.contains_key(code) {
        table[code]
    } else {
        Character::NoCharacter
    }
}

/// A table from skin codes to characters.
#[derive(Clone, Debug)]
pub struct CharacterType {
    pub table: HashMap<u16, Character>,
}

impl Default for CharacterType {
    fn default() -> (res: Self)
        ensures
            res.table@ == Map::<u16, Character>::empty(),
    {
        CharacterType { table: HashMap::new() }
    }
}

impl CharacterType {
    /// Adds every code of the roster to the table, each with its character.
    pub fn initialize_character_type(&mut self)
        ensures
            final(self).table@ == old(self).table@.union_prefer_right(roster()),
    {
        broadcast use vstd::std_specs::hash::group_hash_axioms;
        self.table.insert(1, Character::Ash);
        self.table.insert(2, Character::Ash);
        self.table.insert(3, Character::Ballistic);
        self.table.insert(4, Character::Ballistic);
        self.table.insert(5, Character::Bangalore);
        self.table.insert(6, Character::Bangalore);
        self.table.insert(7, Character::Bloodhound);
        self.table.insert(8, Character::Bloodhound);
        self.table.insert(9, Character::Catalyst);
        self.table.insert(10, Character::Catalyst);
        self.table.insert(11, Character::Caustic);
        self.table.insert(12, Character::Caustic);
        self.table.insert(13, Character::Crypto);
        self.table.insert(14, Character::Crypto);
        self.table.insert(15, Character::Horizon);
        self.table.insert(16, Character::Horizon);
        self.table.insert(17, Character::Lifeline);
        self.table.insert(18, Character::Lifeline);
        self.table.insert(19, Character::Loba);
        self.table.insert(20, Character::Loba);
        self.table.insert(21, Character::MadMaggie);
        self.table.insert(22, Character::MadMaggie);
        self.table.insert(23, Character::Mirage);
        self.table.insert(24, Character::Mirage);
        self.table.insert(25, Character::Newcastle);
        self.table.insert(26, Character::Newcastle);
        self.table.insert(27, Character::Octane);
        self.table.insert(28, Character::Octane);
        self.table.insert(29, Character::Pathfinder);
        self.table.insert(30, Character::Pathfinder);
        self.table.insert(31, Character::Rampart);
        self.table.insert(32, Character::Rampart);
        self.table.insert(4173, Character::Revenant);
        self.table.insert(35, Character::Seer);
        self.table.insert(36, Character::Seer);
        self.table.insert(37, Character::Valkyrie);
        self.table.insert(38, Character::Valkyrie);
        self.table.insert(39, Character::Vantage);
        self.table.insert(40, Character::Vantage);
        self.table.insert(41, Character::Wattson);
        self.table.insert(42, Character::Wattson);
        self.table.insert(43, Character::Wraith);
        self.table.insert(44, Character::Wraith);
        assert(self.table@ =~= old(self).table@.union_prefer_right(roster()));
    }

    /// The character the table gives `value`, or `Character::NoCharacter`.
    pub fn check_character_type(&self, value: u16) -> (res: Character)
        ensures
            res == lookup_character(self.table@, value),
    {
        broadcast use vstd::std_specs::hash::group_hash_axioms;
        match self.table.get(&value) {
            Some(c) => *c,
            None => Character::NoCharacter,
        }
    }
}

/// Lookup tables derived from game data.
pub struct DataTable {
    pub character: CharacterType,
}

/// The maps of the game.
#[derive(Clone, Copy, Debug, PartialEq, Eq, Structural)]
pub enum GameMap {
    CanyonlandsMu3,
    DesertlandsMu3,
    OlympusMu2,
    TropicIslandMu1,
    Lobby,
}

impl GameMap {
    /// The map that a level name stands for: every name, the lobby's
    /// `mp_lobby` among them, gives `GameMap::Lobby`.
    pub fn get_map(v: String) -> (res: GameMap)
        ensures
            res == GameMap::Lobby,
    {
        GameMap::Lobby
    }
}


/// A loot item code. The associated constants name the codes, in order;
/// `Item(Item::R301)` is the R-301 rifle.
#[derive(Clone, Copy, Debug, PartialEq, Eq, Structural)]
pub struct Item(pub u8);

#[allow(non_upper_case_globals)]
impl Item {
    pub const NoItem: u8 = 0;
    pub const R301: u8 = 1;
    pub const Sentinel: u8 = 2;
    pub const Bocek: u8 = 3;
    pub const Alternator: u8 = 4;
    pub const RE45: u8 = 5;
    pub const ChargeRifle: u8 = 6;
    pub const Devotion: u8 = 7;
    pub const Longbow: u8 = 8;
    pub const Havoc: u8 = 9;
    pub const EVA8Auto: u8 = 10;
    pub const Flatline: u8 = 11;
    pub const Hemlok: u8 = 12;
    pub const Kraber: u8 = 13;
    pub const G7Scout: u8 = 14;
    pub const LStar: u8 = 15;
    pub const Mastiff: u8 = 16;
    pub const Mozambique: u8 = 17;
    pub const Prowler: u8 = 18;
    pub const PK: u8 = 19;
    pub const R99: u8 = 20;
    pub const P2020: u8 = 21;
    pub const Spitfire: u8 = 22;
    pub const TripleTake: u8 = 23;
    pub const Wingman: u8 = 24;
    pub const Volt: u8 = 25;
    pub const Repeater: u8 = 26;
    pub const Rampage: u8 = 27;
    pub const CAR: u8 = 28;
    pub const LightRounds: u8 = 29;
    pub const EnergyAmmo: u8 = 30;
    pub const ShotgunShells: u8 = 31;
    pub const HeavyRounds: u8 = 32;
    pub const SniperAmmo: u8 = 33;
    pub const Arrows: u8 = 34;
    pub const UltAccel: u8 = 35;
    pub const PhoenixKit: u8 = 36;
    pub const MedKit: u8 = 37;
    pub const Syringe: u8 = 38;
    pub const Battery: u8 = 39;
    pub const ShieldCell: u8 = 40;
    pub const HelmetLv1: u8 = 41;
    pub const HelmetLv2: u8 = 42;
    pub const HelmetLv3: u8 = 43;
    pub const HelmetLv4: u8 = 44;
    pub const BodyArmorLv1: u8 = 45;
    pub const BodyArmorLv2: u8 = 46;
    pub const BodyArmorLv3: u8 = 47;
    pub const BodyArmorLv4: u8 = 48;
    pub const EvoShieldLv0: u8 = 49;
    pub const EvoShieldLv1: u8 = 50;
    pub const EvoShieldLv2: u8 = 51;
    pub const EvoShieldLv3: u8 = 52;
    pub const EvoShieldLv4: u8 = 53;
    pub const KnockdownShieldLv1: u8 = 54;
    pub const KnockdownShieldLv2: u8 = 55;
    pub const KnockdownShieldLv3: u8 = 56;
    pub const KnockdownShieldLv4: u8 = 57;
    pub const BackpackLv1: u8 = 58;
    pub const BackpackLv2: u8 = 59;
    pub const BackpackLv3: u8 = 60;
    pub const BackpackLv4: u8 = 61;
    pub const Thermite: u8 = 62;
    pub const FragGrenade: u8 = 63;
    pub const ArcStar: u8 = 64;
    pub const HcogClassic: u8 = 65;
    pub const HcogBruiser: u8 = 66;
    pub const HcogRanger: u8 = 67;
    pub const Holo: u8 = 68;
    pub const VariableHolo: u8 = 69;
    pub const VariableAOG: u8 = 70;
    pub const DigiThreat: u8 = 71;
    pub const Sniper: u8 = 72;
    pub const VariableSniper: u8 = 73;
    pub const DigiSniperThreat: u8 = 74;
    pub const BarrelStabilizerLv1: u8 = 75;
    pub const BarrelStabilizerLv2: u8 = 76;
    pub const BarrelStabilizerLv3: u8 = 77;
    pub const BarrelStabilizerLv4: u8 = 78;
    pub const LaserSightLv1: u8 = 79;
    pub const LaserSightLv2: u8 = 80;
    pub const LaserSightLv3: u8 = 81;
    pub const LaserSightLv4: u8 = 82;
    pub const LightMagazineLv1: u8 = 83;
    pub const LightMagazineLv2: u8 = 84;
    pub const LightMagazineLv3: u8 = 85;
    pub const LightMagazineLv4: u8 = 86;
    pub const HeavyMagazineLv1: u8 = 87;
    pub const HeavyMagazineLv2: u8 = 88;
    pub const HeavyMagazineLv3: u8 = 89;
    pub const HeavyMagazineLv4: u8 = 90;
    pub const EnergyMagazineLv1: u8 = 91;
    pub const EnergyMagazineLv2: u8 = 92;
    pub const EnergyMagazineLv3: u8 = 93;
    pub const EnergyMagazineLv4: u8 = 94;
    pub const SniperMagazineLv1: u8 = 95;
    pub const SniperMagazineLv2: u8 = 96;
    pub const SniperMagazineLv3: u8 = 97;
    pub const SniperMagazineLv4: u8 = 98;
    pub const ShotgunBoltLv1: u8 = 99;
    pub const ShotgunBoltLv2: u8 = 100;
    pub const ShotgunBoltLv3: u8 = 101;
    pub const ShotgunBoltLv4: u8 = 102;
    pub const StandardStockLv1: u8 = 103;
    pub const StandardStockLv2: u8 = 104;
    pub const StandardStockLv3: u8 = 105;
    pub const SniperStockLv1: u8 = 106;
    pub const SniperStockLv2: u8 = 107;
    pub const SniperStockLv3: u8 = 108;
    pub const EpicHopUp0: u8 = 109;
    pub const EpicHopUp3: u8 = 110;
    pub const LegendaryHopUp0: u8 = 111;
    pub const LegendaryHopUp4: u8 = 112;
    pub const Keycard: u8 = 113;
    pub const TreasurePack: u8 = 114;
    pub const HeatShield: u8 = 115;
    pub const MobileRespawn: u8 = 116;
    pub const MrvnArm: u8 = 117;
    pub const GoldenTicket: u8 = 118;
    pub const BannerCrafting: u8 = 119;
}

/// Whether reading an entity's skeleton went wrong.
#[derive(Clone, Copy, Debug, PartialEq, Eq, Structural)]
pub enum DataError {
    BoneError,
    NoError,
}

impl Default for DataError {
    fn default() -> (res: Self)
        ensures
            res == DataError::NoError,
    {
        DataError::NoError
    }
}

/// The integer part of an entity's status: life state, health and armour,
/// character and team.
#[derive(Clone, Debug)]
pub struct Status {
    pub dead: u16,
    pub knocked: u16,
    pub health: u16,
    pub max_health: u16,
    pub shield: u16,
    pub max_shield: u16,
    pub helmet_type: u16,
    pub armor_type: u16,
    pub skin: u16,
    pub character: Character,
    pub team: u16,
    pub team_index: u16,
    pub name: String,
    pub platform_id: u64,
}

impl Status {
    /// Whether the entity is alive: its dead flag is zero.
    pub fn alive(&self) -> (res: bool)
        ensures
            res == (self.dead == 0),
    {
        !(self.dead > 0)
    }

    /// Whether the knocked flag is zero, that is, the entity is not knocked down.
    pub fn knocked(&self) -> (res: bool)
        ensures
            res == (self.knocked == 0),
    {
        !(self.knocked > 0)
    }
}

impl Default for KeyData {
    fn default() -> (res: Self)
        ensures
            res.data.value@ == Seq::<u8>::empty(),
    {
        KeyData { data: ContinuingData::new(Vec::new()) }
    }
}

} // verus!
