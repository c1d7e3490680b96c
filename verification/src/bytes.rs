use vstd::prelude::*;

verus! {

/// The unsigned number that the bytes `s` encode, least significant byte first.
pub open spec fn le_value(s: Seq<u8>) -> nat
    decreases s.len(),
{
    if s.len() == 0 {
        0
    } else {
        s[0] as nat + 256 * le_value(s.drop_first())
    }
}

/// `256` raised to the power `n`.
pub open spec fn pow256(n: nat) -> nat
    decreases n,
{
    if n == 0 {
        1
    } else {
        256 * pow256((n - 1) as nat)
    }
}

/// A little-endian value of `n` bytes is below `256^n`.
pub proof fn lemma_le_value_bound(s: Seq<u8>)
    ensures
        le_value(s) < pow256(s.len()),
    decreases s.len(),
{
    if s.len() > 0 {
        lemma_le_value_bound(s.drop_first());
    }
}

/// The powers of 256 that the fixed-width decodings use.
pub proof fn lemma_pow256_small()
    ensures
        pow256(1) == 0x100,
        pow256(2) == 0x1_0000,
        pow256(4) == 0x1_0000_0000,
        pow256(8) == 0x1_0000_0000_0000_0000,
{
    reveal_with_fuel(pow256, 9);
}

proof fn lemma_pow256_mono(a: nat, b: nat)
    requires
        a <= b,
    ensures
        pow256(a) <= pow256(b),
    decreases b,
{
    if a < b {
        lemma_pow256_mono(a, (b - 1) as nat);
    }
}

/// Reads `n` bytes of `bytes` starting at `start` as a little-endian number.
fn le_read(bytes: &[u8], start: usize, n: usize) -> (res: u64)
    requires
        n <= 8,
        start + n <= bytes@.len(),
    ensures
        res as nat == le_value(bytes@.subrange(start as int, start + n)),
{
    let total = bytes.len();
    let mut acc: u64 = 0;
    let mut i: usize = n;
    proof {
        lemma_pow256_small();
    }
    while i > 0
        invariant
            i <= n <= 8,
            start + n <= bytes@.len(),
            bytes@.len() == total,
            acc as nat == le_value(bytes@.subrange(start + i, start + n)),
            pow256(8) == 0x1_0000_0000_0000_0000,
        decreases i,
    {
        let ghost rest = bytes@.subrange(start + i, start + n);
        let ghost now = bytes@.subrange(start + i - 1, start + n);
        assert(now.drop_first() =~= rest);
        proof {
            lemma_le_value_bound(rest);
            lemma_pow256_mono(rest.len(), 7);
            assert(pow256(8) == 256 * pow256(7));
        }
        acc = acc * 256 + bytes[start + (i - 1)] as u64;
        i = i - 1;
    }
    acc
}


/// The unsigned 16-bit number at the front of `s`, least significant byte first.
pub open spec fn spec_u16_le(s: Seq<u8>) -> u16 {
    le_value(s.take(2)) as u16
}

/// The unsigned 32-bit number at the front of `s`, least significant byte first.
pub open spec fn spec_u32_le(s: Seq<u8>) -> u32 {
    le_value(s.take(4)) as u32
}

/// The unsigned 64-bit number at the front of `s`, least significant byte first.
pub open spec fn spec_u64_le(s: Seq<u8>) -> u64 {
    le_value(s.take(8)) as u64
}

/// The two's-complement 32-bit number at the front of `s`, least significant byte first.
pub open spec fn spec_i32_le(s: Seq<u8>) -> i32 {
    let u = le_value(s.take(4));
    if u < 0x8000_0000 {
        u as i32
    } else {
        (u - 0x1_0000_0000) as i32
    }
}

proof fn lemma_take_subrange(s: Seq<u8>, start: int, n: int)
    requires
        0 <= start,
        0 <= n,
        start + n <= s.len(),
    ensures
        s.subrange(start, start + n) == s.skip(start).take(n),
{
    assert(s.subrange(start, start + n) =~= s.skip(start).take(n));
}

/// Decodes the 16-bit little-endian number at `start`.
pub fn decode_u16(bytes: &[u8], start: usize) -> (res: u16)
    requires
        start + 2 <= bytes@.len(),
    ensures
        res == spec_u16_le(bytes@.skip(start as int)),
{
    let v = le_read(bytes, start, 2);
    proof {
        lemma_take_subrange(bytes@, start as int, 2);
        lemma_le_value_bound(bytes@.subrange(start as int, start + 2));
        lemma_pow256_small();
    }
    v as u16
}

/// Decodes the 32-bit little-endian number at `start`.
pub fn decode_u32(bytes: &[u8], start: usize) -> (res: u32)
    requires
        start + 4 <= bytes@.len(),
    ensures
        res == spec_u32_le(bytes@.skip(start as int)),
{
    let v = le_read(bytes, start, 4);
    proof {
        lemma_take_subrange(bytes@, start as int, 4);
        lemma_le_value_bound(bytes@.subrange(start as int, start + 4));
        lemma_pow256_small();
    }
    v as u32
}

/// Decodes the 64-bit little-endian number at `start`.
pub fn decode_u64(bytes: &[u8], start: usize) -> (res: u64)
    requires
        start + 8 <= bytes@.len(),
    ensures
        res == spec_u64_le(bytes@.skip(start as int)),
{
    let v = le_read(bytes, start, 8);
    proof {
        lemma_take_subrange(bytes@, start as int, 8);
    }
    v
}

/// Decodes the 32-bit little-endian two's-complement number at `start`.
pub fn decode_i32(bytes: &[u8], start: usize) -> (res: i32)
    requires
        start + 4 <= bytes@.len(),
    ensures
        res == spec_i32_le(bytes@.skip(start as int)),
{
    let u = decode_u32(bytes, start);
    proof {
        lemma_take_subrange(bytes@, start as int, 4);
        lemma_le_value_bound(bytes@.subrange(start as int, start + 4));
        lemma_pow256_small();
    }
    if u < 0x8000_0000 {
        u as i32
    } else {
        (u - 0x8000_0000) as i32 + i32::MIN
    }
}

} // verus!
