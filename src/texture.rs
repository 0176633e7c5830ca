use vstd::prelude::*;

verus! {

/// Xor mask applied to the coordinate hash before the legacy scrambling step.
pub const MULTIPLIER: i64 = 0x5DEECE66D;

/// Keeps the low 48 bits of the legacy seed.
pub const MASK: i64 = 0xFFFF_FFFF_FFFF;

/// Golden-ratio increment of the alternate mix.
pub const PHI: u64 = 0x9E3779B97F4A7C15;

/// Raw pseudo-random value of a block position, with 32-bit wraparound on the
/// x product and 64-bit wraparound everywhere else.
pub open spec fn coordinate_random_spec(x: i32, y: i32, z: i32) -> i64 {
    let l: i64 = (x.wrapping_mul(3129871) as i64) ^ (z as i64).wrapping_mul(116129781) ^ (y as i64);
    let l: i64 = l.wrapping_mul(l).wrapping_mul(42317861).wrapping_add(l.wrapping_mul(11));
    l >> 16u64
}

/// Bits 16 to 47 of the scrambled legacy seed, read as a signed 32-bit value.
pub open spec fn legacy_bits(x: i32, y: i32, z: i32) -> i32 {
    let seed: i64 = (coordinate_random_spec(x, y, z) ^ MULTIPLIER) & MASK;
    let seed: i64 = seed.wrapping_mul(0xBB20B4600A69).wrapping_add(0x40942DE6BA);
    ((seed as u64) >> 16u64) as i32
}

/// Absolute value of a 32-bit value, as an unsigned 32-bit value.
pub open spec fn abs32(v: i32) -> u32 {
    if v < 0 { (-(v as int)) as u32 } else { v as u32 }
}

/// Face orientation of the legacy family: the low two bits of the absolute value.
#[verifier::opaque]
pub open spec fn texture_top(x: i32, y: i32, z: i32) -> i32 {
    (abs32(legacy_bits(x, y, z)) & 3u32) as i32
}

/// Side orientation of the legacy family: the low bit.
#[verifier::opaque]
pub open spec fn texture_side(x: i32, y: i32, z: i32) -> i32 {
    legacy_bits(x, y, z) & 1i32
}

/// The avalanche finaliser of the alternate family.
pub open spec fn finalize64(seed: u64) -> u64 {
    let s: u64 = seed ^ (seed >> 33u64);
    let s: u64 = s.wrapping_mul(0xff51afd7ed558ccd);
    let s: u64 = s ^ (s >> 33u64);
    let s: u64 = s.wrapping_mul(0xc4ceb9fe1a85ec53);
    s ^ (s >> 33u64)
}

/// Stafford's thirteenth mixing variant.
pub open spec fn stafford13(z: u64) -> u64 {
    let z: u64 = (z ^ (z >> 30u64)).wrapping_mul(0xBF58476D1CE4E5B9);
    let z: u64 = (z ^ (z >> 27u64)).wrapping_mul(0x94D049BB133111EB);
    z ^ (z >> 31u64)
}

/// The combined mix: the finaliser, then two Stafford draws one golden step apart.
pub open spec fn combined_mix(seed: u64) -> u64 {
    let s: u64 = finalize64(seed);
    let s1: u64 = s.wrapping_add(PHI);
    let s2: u64 = s1.wrapping_add(PHI);
    stafford13(s1).wrapping_add(stafford13(s2))
}

/// Absolute value of the low 32 bits of the alternate mix.
pub open spec fn alternate_abs(x: i32, y: i32, z: i32) -> u32 {
    abs32(combined_mix(coordinate_random_spec(x, y, z) as u64) as i32)
}

/// Face orientation of the alternate family.
#[verifier::opaque]
pub open spec fn texture_top_sodium(x: i32, y: i32, z: i32) -> i32 {
    (alternate_abs(x, y, z) % 4) as i32
}

/// Side orientation of the alternate family.
#[verifier::opaque]
pub open spec fn texture_side_sodium(x: i32, y: i32, z: i32) -> i32 {
    (alternate_abs(x, y, z) % 2) as i32
}

/// Raw pseudo-random value of a block position.
pub fn get_coordinate_random(x: i32, y: i32, z: i32) -> (r: i64)
    ensures
        r == coordinate_random_spec(x, y, z),
{
    let l: i64 = (x.wrapping_mul(3129871) as i64) ^ (z as i64).wrapping_mul(116129781) ^ (y as i64);
    let l: i64 = l.wrapping_mul(l).wrapping_mul(42317861).wrapping_add(l.wrapping_mul(11));
    l >> 16u32
}

fn legacy_random(x: i32, y: i32, z: i32) -> (r: i32)
    ensures
        r == legacy_bits(x, y, z),
{
    let seed: i64 = (get_coordinate_random(x, y, z) ^ MULTIPLIER) & MASK;
    let seed: i64 = seed.wrapping_mul(0xBB20B4600A69).wrapping_add(0x40942DE6BA);
    ((seed as u64) >> 16u32) as i32
}

fn unsigned_abs(v: i32) -> (r: u32)
    ensures
        r == abs32(v),
        r as int == if v < 0 { -(v as int) } else { v as int },
{
    if v < 0 {
        (-(v as i64)) as u32
    } else {
        v as u32
    }
}

/// Face orientation of the legacy family, in 0..=3.
pub fn get_texture_top(x: i32, y: i32, z: i32) -> (r: i32)
    ensures
        r == texture_top(x, y, z),
        0 <= r <= 3,
{
    reveal(texture_top);
    let a: u32 = unsigned_abs(legacy_random(x, y, z));
    assert(a & 3u32 <= 3u32) by (bit_vector);
    (a & 3u32) as i32
}

/// Side orientation of the legacy family, in 0..=1.
pub fn get_texture_side(x: i32, y: i32, z: i32) -> (r: i32)
    ensures
        r == texture_side(x, y, z),
        0 <= r <= 1,
{
    reveal(texture_side);
    let s: i32 = legacy_random(x, y, z);
    assert(0i32 <= s & 1i32 <= 1i32) by (bit_vector);
    s & 1i32
}

/// Stafford's thirteenth mixing variant, on the bit pattern of `z`.
pub fn stafford_mix_13(z: i64) -> (r: i64)
    ensures
        r as u64 == stafford13(z as u64),
{
    let z: u64 = z as u64;
    let z: u64 = (z ^ (z >> 30u32)).wrapping_mul(0xBF58476D1CE4E5B9);
    let z: u64 = (z ^ (z >> 27u32)).wrapping_mul(0x94D049BB133111EB);
    let r: u64 = z ^ (z >> 31u32);
    proof {
        lemma_u64_i64_round_trip(r);
    }
    r as i64
}

proof fn lemma_u64_i64_round_trip(v: u64)
    ensures
        (v as i64) as u64 == v,
{
    assert((v as i64) as u64 == v) by (bit_vector);
}

proof fn lemma_low_half(v: i64)
    ensures
        ((v as u64) as i32) == (v as i32),
{
    assert(((v as u64) as i32) == (v as i32)) by (bit_vector);
}

/// The combined mix of the alternate family, on the bit pattern of `seed`.
pub fn sodium_random(seed: i64) -> (r: i64)
    ensures
        r as u64 == combined_mix(seed as u64),
{
    let s: u64 = seed as u64;
    let s: u64 = s ^ (s >> 33u32);
    let s: u64 = s.wrapping_mul(0xff51afd7ed558ccd);
    let s: u64 = s ^ (s >> 33u32);
    let s: u64 = s.wrapping_mul(0xc4ceb9fe1a85ec53);
    let s: u64 = s ^ (s >> 33u32);
    let s1: u64 = s.wrapping_add(PHI);
    let rand1: i64 = stafford_mix_13(s1 as i64);
    let s2: u64 = s1.wrapping_add(PHI);
    let rand2: i64 = stafford_mix_13(s2 as i64);
    proof {
        lemma_u64_i64_round_trip(s1);
        lemma_u64_i64_round_trip(s2);
    }
    let r: u64 = (rand1 as u64).wrapping_add(rand2 as u64);
    proof {
        lemma_u64_i64_round_trip(r);
    }
    r as i64
}

fn alternate_random(x: i32, y: i32, z: i32) -> (r: u32)
    ensures
        r == alternate_abs(x, y, z),
{
    let m: i64 = sodium_random(get_coordinate_random(x, y, z));
    let low: i32 = m as i32;
    proof {
        lemma_low_half(m);
    }
    unsigned_abs(low)
}

/// Face orientation of the alternate family, in 0..=3.
pub fn get_texture_top_sodium(x: i32, y: i32, z: i32) -> (r: i32)
    ensures
        r == texture_top_sodium(x, y, z),
        0 <= r <= 3,
{
    reveal(texture_top_sodium);
    (alternate_random(x, y, z) % 4) as i32
}

/// Side orientation of the alternate family, in 0..=1.
pub fn get_texture_side_sodium(x: i32, y: i32, z: i32) -> (r: i32)
    ensures
        r == texture_side_sodium(x, y, z),
        0 <= r <= 1,
{
    reveal(texture_side_sodium);
    (alternate_random(x, y, z) % 2) as i32
}

} // verus!
