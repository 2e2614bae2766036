//! Little-endian integers inside a byte buffer.

use vstd::prelude::*;

verus! {

/// The 16-bit little-endian value of the two bytes at `at`.
pub open spec fn spec_u16_le(s: Seq<u8>, at: int) -> int {
    s[at] as int + 0x100 * (s[at + 1] as int)
}

/// The 32-bit little-endian value of the four bytes at `at`.
pub open spec fn spec_u32_le(s: Seq<u8>, at: int) -> int {
    spec_u16_le(s, at) + 0x1_0000 * spec_u16_le(s, at + 2)
}

/// The 64-bit little-endian value of the eight bytes at `at`.
pub open spec fn spec_u64_le(s: Seq<u8>, at: int) -> int {
    spec_u32_le(s, at) + 0x1_0000_0000 * spec_u32_le(s, at + 4)
}

/// The 128-bit little-endian value of the sixteen bytes at `at`.
pub open spec fn spec_u128_le(s: Seq<u8>, at: int) -> int {
    spec_u64_le(s, at) + 0x1_0000_0000_0000_0000 * spec_u64_le(s, at + 8)
}

/// Reads two bytes as a little-endian integer.
pub fn read_u16_le(bytes: &[u8], at: usize) -> (v: u16)
    requires
        at + 2 <= bytes.len(),
    ensures
        v == spec_u16_le(bytes@, at as int),
{
    (bytes[at] as u16) + 0x100 * (bytes[at + 1] as u16)
}

/// Reads four bytes as a little-endian integer.
pub fn read_u32_le(bytes: &[u8], at: usize) -> (v: u32)
    requires
        at + 4 <= bytes.len(),
    ensures
        v == spec_u32_le(bytes@, at as int),
{
    let low: u16 = read_u16_le(bytes, at);
    let high: u16 = read_u16_le(bytes, at + 2);
    (low as u32) + 0x1_0000 * (high as u32)
}

/// Reads eight bytes as a little-endian integer.
pub fn read_u64_le(bytes: &[u8], at: usize) -> (v: u64)
    requires
        at + 8 <= bytes.len(),
    ensures
        v == spec_u64_le(bytes@, at as int),
{
    let low: u32 = read_u32_le(bytes, at);
    let high: u32 = read_u32_le(bytes, at + 4);
    (low as u64) + 0x1_0000_0000 * (high as u64)
}

/// Reads sixteen bytes as a little-endian integer.
pub fn read_u128_le(bytes: &[u8], at: usize) -> (v: u128)
    requires
        at + 16 <= bytes.len(),
    ensures
        v == spec_u128_le(bytes@, at as int),
{
    let low: u64 = read_u64_le(bytes, at);
    let high: u64 = read_u64_le(bytes, at + 8);
    (low as u128) + 0x1_0000_0000_0000_0000 * (high as u128)
}

/// Two bytes that read as the same integer in two buffers are the same.
pub proof fn lemma_u16_le_is_injective(a: Seq<u8>, b: Seq<u8>, at: int)
    requires
        spec_u16_le(a, at) == spec_u16_le(b, at),
    ensures
        a[at] == b[at],
        a[at + 1] == b[at + 1],
{
}

/// Splitting a number into a low part below `base` and a high part can be
/// done in one way only.
proof fn lemma_halves_are_determined(
    base: int,
    low_a: int,
    high_a: int,
    low_b: int,
    high_b: int,
)
    requires
        0 <= low_a < base,
        0 <= low_b < base,
        low_a + base * high_a == low_b + base * high_b,
    ensures
        low_a == low_b,
        high_a == high_b,
{
    assert(base * (high_a - high_b) == low_b - low_a) by (nonlinear_arith)
        requires
            low_a + base * high_a == low_b + base * high_b,
    ;
    assert(high_a == high_b) by (nonlinear_arith)
        requires
            base * (high_a - high_b) == low_b - low_a,
            -base < low_b - low_a < base,
    ;
}

/// Four bytes that read as the same integer in two buffers are the same.
pub proof fn lemma_u32_le_is_injective(a: Seq<u8>, b: Seq<u8>, at: int)
    requires
        spec_u32_le(a, at) == spec_u32_le(b, at),
    ensures
        forall|i: int| at <= i < at + 4 ==> a[i] == b[i],
{
    lemma_halves_are_determined(
        0x1_0000,
        spec_u16_le(a, at),
        spec_u16_le(a, at + 2),
        spec_u16_le(b, at),
        spec_u16_le(b, at + 2),
    );
    lemma_u16_le_is_injective(a, b, at);
    lemma_u16_le_is_injective(a, b, at + 2);
}

/// Four bytes read as an integer below 2^32.
pub proof fn lemma_u32_le_is_bounded(s: Seq<u8>, at: int)
    ensures
        0 <= spec_u32_le(s, at) < 0x1_0000_0000,
{
}

/// Eight bytes read as an integer below 2^64.
pub proof fn lemma_u64_le_is_bounded(s: Seq<u8>, at: int)
    ensures
        0 <= spec_u64_le(s, at) < 0x1_0000_0000_0000_0000,
{
    lemma_u32_le_is_bounded(s, at);
    lemma_u32_le_is_bounded(s, at + 4);
}

/// Eight bytes that read as the same integer in two buffers are the same.
pub proof fn lemma_u64_le_is_injective(a: Seq<u8>, b: Seq<u8>, at: int)
    requires
        spec_u64_le(a, at) == spec_u64_le(b, at),
    ensures
        forall|i: int| at <= i < at + 8 ==> a[i] == b[i],
{
    lemma_u32_le_is_bounded(a, at);
    lemma_u32_le_is_bounded(b, at);
    lemma_halves_are_determined(
        0x1_0000_0000,
        spec_u32_le(a, at),
        spec_u32_le(a, at + 4),
        spec_u32_le(b, at),
        spec_u32_le(b, at + 4),
    );
    lemma_u32_le_is_injective(a, b, at);
    lemma_u32_le_is_injective(a, b, at + 4);
}

/// Sixteen bytes and their little-endian reading determine each other: two
/// runs of sixteen bytes that read as the same integer are the same bytes.
pub proof fn lemma_u128_le_is_injective(a: Seq<u8>, b: Seq<u8>)
    requires
        a.len() == 16,
        b.len() == 16,
        spec_u128_le(a, 0) == spec_u128_le(b, 0),
    ensures
        a == b,
{
    lemma_u64_le_is_bounded(a, 0);
    lemma_u64_le_is_bounded(b, 0);
    lemma_halves_are_determined(
        0x1_0000_0000_0000_0000,
        spec_u64_le(a, 0),
        spec_u64_le(a, 8),
        spec_u64_le(b, 0),
        spec_u64_le(b, 8),
    );
    lemma_u64_le_is_injective(a, b, 0);
    lemma_u64_le_is_injective(a, b, 8);
    assert(a =~= b);
}

} // verus!
