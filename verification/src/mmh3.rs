//! MurmurHash3 x86 32-bit over little-endian blocks.
//!
//! The hash is defined here as a pure function of the byte sequence, so its
//! value never depends on the endianness of the host.

use vstd::prelude::*;

verus! {

use crate::reader::spec_le32_at;
use vstd::bytes::u32_from_le_bytes;
use vstd::slice::slice_subrange;
use vstd::wrapping::u32_specs;

pub const C1: u32 = 0xcc9e2d51;
pub const C2: u32 = 0x1b873593;
pub const E: u32 = 0xe6546b64;

/// Rotate left by 15 bits.
pub open spec fn spec_rotl15(x: u32) -> u32 {
    (x << 15) | (x >> 17)
}

/// Rotate left by 13 bits.
pub open spec fn spec_rotl13(x: u32) -> u32 {
    (x << 13) | (x >> 19)
}

/// The final mixing step of MurmurHash3.
pub open spec fn spec_mmh3_fmix(h: u32) -> u32 {
    let a = h ^ (h >> 16);
    let b = u32_specs::wrapping_mul(a, 0x85ebca6b);
    let c = b ^ (b >> 13);
    let d = u32_specs::wrapping_mul(c, 0xc2b2ae35);
    d ^ (d >> 16)
}

/// How one 32-bit block is scrambled before it joins the state.
pub open spec fn spec_mmh3_mix_k(k: u32) -> u32 {
    u32_specs::wrapping_mul(spec_rotl15(u32_specs::wrapping_mul(k, C1)), C2)
}

/// How the running state absorbs one scrambled block.
pub open spec fn spec_mmh3_mix_h(h: u32, k: u32) -> u32 {
    u32_specs::wrapping_add(u32_specs::wrapping_mul(spec_rotl13(h ^ k), 5), E)
}

/// The state after the first `n` full 4-byte blocks of `s`.
pub open spec fn spec_mmh3_blocks(s: Seq<u8>, n: int) -> u32
    decreases n,
{
    if n <= 0 {
        0u32
    } else {
        spec_mmh3_mix_h(spec_mmh3_blocks(s, n - 1), spec_mmh3_mix_k(spec_le32_at(s, 4 * (n - 1))))
    }
}

/// The partial block assembled from the 1 to 3 trailing bytes.
pub open spec fn spec_mmh3_tail_k(s: Seq<u8>) -> u32 {
    let i = 4 * (s.len() as int / 4);
    let rem = s.len() as int % 4;
    let k2 = if rem > 2 {
        (s[i + 2] as u32) << 16
    } else {
        0u32
    };
    let k1 = if rem > 1 {
        k2 ^ ((s[i + 1] as u32) << 8)
    } else {
        k2
    };
    k1 ^ (s[i] as u32)
}

/// MurmurHash3 x86 32-bit of a byte sequence, seed 0.
pub open spec fn spec_mmh3_32(s: Seq<u8>) -> u32 {
    let h = spec_mmh3_blocks(s, s.len() as int / 4);
    let h2 = if s.len() as int % 4 > 0 {
        h ^ spec_mmh3_mix_k(spec_mmh3_tail_k(s))
    } else {
        h
    };
    spec_mmh3_fmix(h2 ^ ((s.len() as int % 0x1_0000_0000) as u32))
}

/// The final mixing step of MurmurHash3.
pub fn mmh3_fmix(h: u32) -> (r: u32)
    ensures
        r == spec_mmh3_fmix(h),
{
    let mut h = h;
    h ^= h >> 16;
    h = h.wrapping_mul(0x85ebca6b);
    h ^= h >> 13;
    h = h.wrapping_mul(0xc2b2ae35);
    h ^= h >> 16;
    h
}

fn mmh3_mix_k(k: u32) -> (r: u32)
    ensures
        r == spec_mmh3_mix_k(k),
{
    let a = k.wrapping_mul(C1);
    let b = (a << 15u32) | (a >> 17u32);
    b.wrapping_mul(C2)
}

fn mmh3_mix_h(h: u32, k: u32) -> (r: u32)
    ensures
        r == spec_mmh3_mix_h(h, k),
{
    let a = h ^ k;
    let b = (a << 13u32) | (a >> 19u32);
    b.wrapping_mul(5).wrapping_add(E)
}

/// MurmurHash3 x86 32-bit of `bytes`, seed 0.
#[verifier::rlimit(100)]
pub fn mmh3_32(bytes: &[u8]) -> (r: u32)
    ensures
        r == spec_mmh3_32(bytes@),
{
    let len = bytes.len();
    let nblocks = len / 4;

    let mut h1: u32 = 0;
    let mut b: usize = 0;
    while b < nblocks
        invariant
            b <= nblocks,
            nblocks == len / 4,
            len == bytes@.len(),
            h1 == spec_mmh3_blocks(bytes@, b as int),
        decreases nblocks - b,
    {
        assert(4 * (b + 1) <= 4 * nblocks && 4 * nblocks <= len);
        let i = 4 * b;
        let block = u32_from_le_bytes(slice_subrange(bytes, i, i + 4));
        assert(block == spec_le32_at(bytes@, 4 * b as int));
        let k1 = mmh3_mix_k(block);
        h1 = mmh3_mix_h(h1, k1);
        assert(spec_mmh3_blocks(bytes@, b as int + 1) == spec_mmh3_mix_h(
            spec_mmh3_blocks(bytes@, b as int),
            spec_mmh3_mix_k(spec_le32_at(bytes@, 4 * b as int)),
        ));
        b = b + 1;
    }

    let i = 4 * nblocks;
    let remainder = len - i;
    assert(i == 4 * (bytes@.len() as int / 4) && remainder == bytes@.len() as int % 4);

    if remainder > 0 {
        let k2: u32 = if remainder > 2 {
            (bytes[i + 2] as u32) << 16u32
        } else {
            0
        };
        let k1: u32 = if remainder > 1 {
            k2 ^ ((bytes[i + 1] as u32) << 8u32)
        } else {
            k2
        };
        let k0 = k1 ^ (bytes[i] as u32);
        assert(k0 == spec_mmh3_tail_k(bytes@));
        h1 ^= mmh3_mix_k(k0);
    }

    let ghost s = bytes@;
    proof {
        assert(h1 == if s.len() as int % 4 > 0 {
            spec_mmh3_blocks(s, s.len() as int / 4) ^ spec_mmh3_mix_k(spec_mmh3_tail_k(s))
        } else {
            spec_mmh3_blocks(s, s.len() as int / 4)
        });
    }
    let len32: u32 = ((len as u64) % 0x1_0000_0000) as u32;
    proof {
        assert(len32 == (s.len() as int % 0x1_0000_0000) as u32);
    }
    let r = mmh3_fmix(h1 ^ len32);
    assert(r == spec_mmh3_32(s));
    r
}

} // verus!
