use vstd::prelude::*;
use vstd::utf8::{decode_utf8, valid_utf8};
use crate::bytes::{
    decode_i32, decode_u16, decode_u32, decode_u64, spec_i32_le, spec_u16_le, spec_u32_le,
    spec_u64_le,
};

verus! {

/// Turns raw bytes, as read from memory, into a value.
pub trait FromBytes: Sized {
    /// Whether `value` is what decoding `bytes` gives.
    spec fn decodes_to(bytes: Seq<u8>, value: Option<Self>) -> bool;

    /// Decodes `bytes`; `None` where they do not hold a value of this type.
    fn from_bytes(bytes: &[u8]) -> (res: Option<Self>)
        ensures
            Self::decodes_to(bytes@, res),
    ;
}

impl FromBytes for u8 {
    open spec fn decodes_to(bytes: Seq<u8>, value: Option<u8>) -> bool {
        value == if bytes.len() >= 1 { Some(bytes[0]) } else { None::<u8> }
    }

    fn from_bytes(bytes: &[u8]) -> (res: Option<u8>) {
        if bytes.len() >= 1 {
            Some(bytes[0])
        } else {
            None
        }
    }
}

impl FromBytes for u16 {
    open spec fn decodes_to(bytes: Seq<u8>, value: Option<u16>) -> bool {
        value == if bytes.len() >= 2 { Some(spec_u16_le(bytes)) } else { None::<u16> }
    }

    fn from_bytes(bytes: &[u8]) -> (res: Option<u16>) {
        if bytes.len() >= 2 {
            proof {
                assert(bytes@.skip(0) =~= bytes@);
            }
            Some(decode_u16(bytes, 0))
        } else {
            None
        }
    }
}

impl FromBytes for u32 {
    open spec fn decodes_to(bytes: Seq<u8>, value: Option<u32>) -> bool {
        value == if bytes.len() >= 4 { Some(spec_u32_le(bytes)) } else { None::<u32> }
    }

    fn from_bytes(bytes: &[u8]) -> (res: Option<u32>) {
        if bytes.len() >= 4 {
            proof {
                assert(bytes@.skip(0) =~= bytes@);
            }
            Some(decode_u32(bytes, 0))
        } else {
            None
        }
    }
}

impl FromBytes for i32 {
    open spec fn decodes_to(bytes: Seq<u8>, value: Option<i32>) -> bool {
        value == if bytes.len() >= 4 { Some(spec_i32_le(bytes)) } else { None::<i32> }
    }

    fn from_bytes(bytes: &[u8]) -> (res: Option<i32>) {
        if bytes.len() >= 4 {
            proof {
                assert(bytes@.skip(0) =~= bytes@);
            }
            Some(decode_i32(bytes, 0))
        } else {
            None
        }
    }
}

impl FromBytes for u64 {
    open spec fn decodes_to(bytes: Seq<u8>, value: Option<u64>) -> bool {
        value == if bytes.len() >= 8 { Some(spec_u64_le(bytes)) } else { None::<u64> }
    }

    fn from_bytes(bytes: &[u8]) -> (res: Option<u64>) {
        if bytes.len() >= 8 {
            proof {
                assert(bytes@.skip(0) =~= bytes@);
            }
            Some(decode_u64(bytes, 0))
        } else {
            None
        }
    }
}

/// One past the position of the last non-zero byte of `s`; zero where every byte is zero.
pub open spec fn nonzero_end(s: Seq<u8>) -> nat
    decreases s.len(),
{
    if s.len() == 0 {
        0
    } else if s.last() != 0 {
        s.len()
    } else {
        nonzero_end(s.drop_last())
    }
}

/// `s` without its trailing zero bytes; `s` itself where every byte is zero.
pub open spec fn trim_trailing_zeros(s: Seq<u8>) -> Seq<u8> {
    if nonzero_end(s) == 0 {
        s
    } else {
        s.take(nonzero_end(s) as int)
    }
}

proof fn lemma_nonzero_end_bound(s: Seq<u8>)
    ensures
        nonzero_end(s) <= s.len(),
    decreases s.len(),
{
    if s.len() > 0 && s.last() == 0 {
        lemma_nonzero_end_bound(s.drop_last());
    }
}

/// Turns `bytes` into a `String` where they are valid UTF-8.
///
/// Calls `std::string::String::from_utf8`, which, as its documentation says,
/// succeeds exactly on valid UTF-8 and then holds the characters the bytes
/// encode; the contract states that over vstd's definition of UTF-8.
#[verifier::external_body]
pub(crate) fn string_from_utf8(bytes: Vec<u8>) -> (res: Option<String>)
    ensures
        res is Some <==> valid_utf8(bytes@),
        res matches Some(s) ==> s@ == decode_utf8(bytes@),
{
    String::from_utf8(bytes).ok()
}

/// Copies the first `n` bytes of `bytes` into a vector.
fn prefix_vec(bytes: &[u8], n: usize) -> (res: Vec<u8>)
    requires
        n <= bytes@.len(),
    ensures
        res@ == bytes@.take(n as int),
{
    let mut v: Vec<u8> = Vec::new();
    let mut i: usize = 0;
    while i < n
        invariant
            i <= n <= bytes@.len(),
            v@ == bytes@.take(i as int),
        decreases n - i,
    {
        v.push(bytes[i]);
        i = i + 1;
        assert(v@ =~= bytes@.take(i as int));
    }
    v
}

/// Decodes UTF-8 text in `bytes` after dropping trailing zero bytes.
pub fn decode_text(bytes: &[u8]) -> (res: Option<String>)
    ensures
        res is Some <==> valid_utf8(trim_trailing_zeros(bytes@)),
        res matches Some(s) ==> s@ == decode_utf8(trim_trailing_zeros(bytes@)),
{
    let len = bytes.len();
    let mut end: usize = len;
    assert(bytes@.take(len as int) =~= bytes@);
    while end > 0 && bytes[end - 1] == 0
        invariant
            end <= len,
            len == bytes@.len(),
            nonzero_end(bytes@) == nonzero_end(bytes@.take(end as int)),
        decreases end,
    {
        assert(bytes@.take(end as int).drop_last() =~= bytes@.take(end - 1));
        end = end - 1;
    }
    proof {
        lemma_nonzero_end_bound(bytes@);
    }
    let keep = if end == 0 { len } else { end };
    let trimmed = prefix_vec(bytes, keep);
    proof {
        if end == 0 {
            assert(bytes@.take(len as int) =~= bytes@);
        }
    }
    string_from_utf8(trimmed)
}

impl FromBytes for String {
    open spec fn decodes_to(bytes: Seq<u8>, value: Option<String>) -> bool {
        &&& value is Some <==> valid_utf8(trim_trailing_zeros(bytes))
        &&& value matches Some(s) ==> s@ == decode_utf8(trim_trailing_zeros(bytes))
    }

    fn from_bytes(bytes: &[u8]) -> (res: Option<String>) {
        decode_text(bytes)
    }
}

/// The entity slots of a raw entity table: for each slot, its index and the
/// entity pointer it holds, `None` for an empty slot.
pub struct EntityList {
    pub data: Vec<(u64, Option<u64>)>,
}

/// Size in bytes of one slot of the entity table.
pub const ENTITY_SLOT_SIZE: usize = 32;

/// Smallest byte length accepted as an entity table (sixty slots).
pub const ENTITY_TABLE_MIN_LEN: usize = 1920;

/// The pointer word stored at the front of slot `k`.
pub open spec fn entity_word(bytes: Seq<u8>, k: int) -> u64 {
    spec_u64_le(bytes.skip(32 * k))
}

/// Slot `k` of the table in `bytes`: its index and its pointer, where non-zero.
pub open spec fn entity_slot(bytes: Seq<u8>, k: int) -> (u64, Option<u64>) {
    (k as u64, if entity_word(bytes, k) != 0 { Some(entity_word(bytes, k)) } else { None })
}

/// Every whole slot of the table in `bytes`, in order; a partial slot at the end is ignored.
pub open spec fn entity_slots(bytes: Seq<u8>) -> Seq<(u64, Option<u64>)> {
    Seq::new(bytes.len() / 32, |k: int| entity_slot(bytes, k))
}

impl FromBytes for EntityList {
    open spec fn decodes_to(bytes: Seq<u8>, value: Option<EntityList>) -> bool {
        if bytes.len() >= 1920 {
            value matches Some(list) && list.data@ == entity_slots(bytes)
        } else {
            value is None
        }
    }

    fn from_bytes(bytes: &[u8]) -> (res: Option<EntityList>) {
        let len = bytes.len();
        if len < ENTITY_TABLE_MIN_LEN {
            return None;
        }
        let mut data: Vec<(u64, Option<u64>)> = Vec::new();
        let mut off: usize = 0;
        let mut k: u64 = 0;
        while off <= len && ENTITY_SLOT_SIZE <= len - off
            invariant
                len == bytes@.len(),
                off == 32 * k,
                off <= len,
                data@ == entity_slots(bytes@).take(k as int),
                k <= len / 32,
            decreases len - off,
        {
            let word = decode_u64(bytes, off);
            let slot = if word != 0 { Some(word) } else { None };
            data.push((k, slot));
            proof {
                assert(entity_slot(bytes@, k as int) == (k, slot));
                assert(data@ =~= entity_slots(bytes@).take(k + 1));
            }
            off = off + ENTITY_SLOT_SIZE;
            k = k + 1;
        }
        assert(k == len / 32);
        assert(data@ =~= entity_slots(bytes@));
        Some(EntityList { data })
    }
}

} // verus!
