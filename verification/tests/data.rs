use std::collections::HashMap;
use entity_cache::data::{Character, CharacterType, ContinuingData, DataTable, GameMap, KeyData};
use entity_cache::interface::FromBytes;

#[test]
fn continuing_data_reads_at_offsets() {
    let data = ContinuingData::new(vec![9, 0x34, 0x12, 0x78, 0x56, 0x34, 0x12, 0xff, 0xff, 0xff, 0xff, 1, 0, 0, 0, 0, 0, 0, 0]);
    assert_eq!(data.read_u8(0), 9);
    assert_eq!(data.read_u16(1), 0x1234);
    assert_eq!(data.read_u32(3), 0x1234_5678);
    assert_eq!(data.read_i32(7), -1);
    assert_eq!(data.read_u64(11), 1);
}

#[test]
fn reads_match_from_bytes() {
    let bytes: Vec<u8> = (0u8..24).map(|b| b.wrapping_mul(37)).collect();
    let data = ContinuingData::new(bytes.clone());
    for addr in 0..16u64 {
        let a = addr as usize;
        assert_eq!(Some(data.read_u16(addr)), u16::from_bytes(&bytes[a..]));
        assert_eq!(Some(data.read_u32(addr)), u32::from_bytes(&bytes[a..]));
        assert_eq!(Some(data.read_i32(addr)), i32::from_bytes(&bytes[a..]));
        assert_eq!(Some(data.read_u64(addr)), u64::from_bytes(&bytes[a..]));
    }
}

#[test]
fn read_string_reads_thirty_two_bytes() {
    let mut bytes = vec![0u8; 40];
    bytes[4..12].copy_from_slice(b"mp_rr_ol");
    let data = ContinuingData::new(bytes);
    let s = data.read_string(4);
    assert_eq!(s.len(), 32);
    assert!(s.starts_with("mp_rr_ol"));
    assert!(s[8..].chars().all(|c| c == '\0'));
}

#[test]
fn read_string_of_invalid_text_is_empty() {
    let mut bytes = vec![b'a'; 32];
    bytes[10] = 0xff;
    let data = ContinuingData::new(bytes);
    assert_eq!(data.read_string(0), "");
}

fn bitmap(words: &[u32]) -> KeyData {
    let mut bytes = Vec::new();
    for w in words {
        bytes.extend_from_slice(&w.to_le_bytes());
    }
    KeyData { data: ContinuingData::new(bytes) }
}

#[test]
fn key_state_reads_bit_after_key() {
    // key 0 is bit 1 of word 0
    let keys = bitmap(&[0b10, 0]);
    assert!(keys.get_key_state(0));
    assert!(!keys.get_key_state(1));
    // key 30 is bit 31 of word 0, key 31 is bit 0 of word 1
    let keys = bitmap(&[0x8000_0000, 1]);
    assert!(keys.get_key_state(30));
    assert!(keys.get_key_state(31));
    assert!(!keys.get_key_state(32));
}

#[test]
fn key_state_of_mouse_buttons() {
    // MOUSE_LEFT = 107: bit 12 of word 3
    let mut words = [0u32; 4];
    words[3] = 1 << 12;
    let keys = bitmap(&words);
    assert!(keys.get_key_state(107));
    assert!(!keys.get_key_state(108));
}

#[test]
fn key_state_reads_only_its_word() {
    let a = bitmap(&[0, 1 << 5, 0]);
    let b = bitmap(&[0xffff_ffff, 1 << 5, 0xffff_ffff]);
    // key 36 -> value 37 -> word 1, bit 5
    assert!(a.get_key_state(36));
    assert_eq!(a.get_key_state(36), b.get_key_state(36));
    assert_eq!(a.get_key_state(35), b.get_key_state(35));
}

#[test]
fn key_data_default_is_empty() {
    assert!(KeyData::default().data.value.is_empty());
}

#[test]
fn roster_lookup_after_initialization() {
    let mut t = CharacterType::default();
    t.initialize_character_type();
    assert_eq!(t.table.len(), 43);
    assert_eq!(t.check_character_type(1), Character::Ash);
    assert_eq!(t.check_character_type(2), Character::Ash);
    assert_eq!(t.check_character_type(32), Character::Rampart);
    assert_eq!(t.check_character_type(4173), Character::Revenant);
    assert_eq!(t.check_character_type(44), Character::Wraith);
    assert_eq!(t.check_character_type(33), Character::NoCharacter);
    assert_eq!(t.check_character_type(0), Character::NoCharacter);
    assert_eq!(t.check_character_type(45), Character::NoCharacter);
}

#[test]
fn roster_load_overrides_and_keeps() {
    let mut table = HashMap::new();
    table.insert(1u16, Character::Fuse);
    table.insert(33u16, Character::Gibraltar);
    let mut t = CharacterType { table };
    t.initialize_character_type();
    assert_eq!(t.check_character_type(1), Character::Ash);
    assert_eq!(t.check_character_type(33), Character::Gibraltar);
    let once = t.table.clone();
    t.initialize_character_type();
    assert_eq!(t.table, once);
}

#[test]
fn empty_table_gives_no_character() {
    let t = CharacterType::default();
    assert_eq!(t.check_character_type(1), Character::NoCharacter);
    let table = DataTable { character: t };
    assert!(table.character.table.is_empty());
}

#[test]
fn character_default_is_no_character() {
    assert_eq!(Character::default(), Character::NoCharacter);
}

#[test]
fn every_level_name_maps_to_lobby() {
    assert_eq!(GameMap::get_map("mp_lobby".to_string()), GameMap::Lobby);
    assert_eq!(GameMap::get_map("mp_rr_olympus_mu2".to_string()), GameMap::Lobby);
    assert_eq!(GameMap::get_map(String::new()), GameMap::Lobby);
}

use entity_cache::data::{DataError, Item, Status};
use entity_cache::input::InputSystem;

fn status(dead: u16, knocked: u16) -> Status {
    Status {
        dead, knocked, health: 100, max_health: 100, shield: 0, max_shield: 0, helmet_type: 0,
        armor_type: 0, skin: 0, character: Character::Ash, team: 1, team_index: 0,
        name: String::new(), platform_id: 0,
    }
}

#[test]
fn status_flags() {
    assert!(status(0, 0).alive());
    assert!(!status(1, 0).alive());
    assert!(status(0, 0).knocked());
    assert!(!status(0, 2).knocked());
}

#[test]
fn input_codes_index_the_bitmap() {
    let mut words = [0u32; 4];
    words[3] = 1 << 12;
    let keys = bitmap(&words);
    assert_eq!(InputSystem::MOUSE_LEFT, 107);
    assert!(keys.get_key_state(InputSystem(InputSystem::MOUSE_LEFT).0));
    assert!(!keys.get_key_state(InputSystem::MOUSE_RIGHT));
    assert_eq!(InputSystem::KEY_NONE, InputSystem::KEY_0);
    assert_eq!(InputSystem::KEY_XBUTTON_UP, 242);
}

#[test]
fn item_codes_follow_the_list() {
    assert_eq!(Item::NoItem, 0);
    assert_eq!(Item::R301, 1);
    assert_eq!(Item(Item::CAR), Item(28));
    assert_eq!(Item::BannerCrafting, 119);
}

#[test]
fn data_error_default() {
    assert_eq!(DataError::default(), DataError::NoError);
}
