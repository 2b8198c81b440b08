//! Little-endian integers inside byte buffers.

use vstd::prelude::*;

verus! {

/// The unsigned integer that eight bytes spell, least significant byte first.
pub open spec fn le_u64(s: Seq<u8>) -> int
    recommends
        s.len() == 8,
{
    s[0] + s[1] * 0x100 + s[2] * 0x1_0000 + s[3] * 0x100_0000 + s[4] * 0x1_0000_0000 + s[5]
        * 0x100_0000_0000 + s[6] * 0x1_0000_0000_0000 + s[7] * 0x100_0000_0000_0000
}

/// The signed integer that eight bytes spell in two's complement, least
/// significant byte first.
pub open spec fn le_i64(s: Seq<u8>) -> int
    recommends
        s.len() == 8,
{
    if le_u64(s) < 0x8000_0000_0000_0000 {
        le_u64(s)
    } else {
        le_u64(s) - 0x1_0000_0000_0000_0000
    }
}

/// The eight bytes that spell `v`, least significant byte first.
pub open spec fn u64_le_bytes(v: int) -> Seq<u8>
    recommends
        0 <= v <= u64::MAX,
{
    seq![
        (v % 0x100) as u8,
        (v / 0x100 % 0x100) as u8,
        (v / 0x1_0000 % 0x100) as u8,
        (v / 0x100_0000 % 0x100) as u8,
        (v / 0x1_0000_0000 % 0x100) as u8,
        (v / 0x100_0000_0000 % 0x100) as u8,
        (v / 0x1_0000_0000_0000 % 0x100) as u8,
        (v / 0x100_0000_0000_0000 % 0x100) as u8,
    ]
}

/// The eight bytes that spell `v` in two's complement, least significant
/// byte first.
pub open spec fn i64_le_bytes(v: int) -> Seq<u8>
    recommends
        i64::MIN <= v <= i64::MAX,
{
    if v >= 0 {
        u64_le_bytes(v)
    } else {
        u64_le_bytes(v + 0x1_0000_0000_0000_0000)
    }
}

/// `base` with `patch` written over it from position `at` on.
pub open spec fn overlay(base: Seq<u8>, at: int, patch: Seq<u8>) -> Seq<u8>
    recommends
        0 <= at,
        at + patch.len() <= base.len(),
{
    Seq::new(
        base.len(),
        |i: int|
            if at <= i < at + patch.len() {
                patch[i - at]
            } else {
                base[i]
            },
    )
}

/// A number below 256 times a bound splits in one way into a low byte and
/// the rest.
proof fn lemma_low_byte(x: int, low: int, rest: int)
    requires
        0 <= low < 0x100,
        x == low + 0x100 * rest,
    ensures
        x % 0x100 == low,
        x / 0x100 == rest,
{
}

/// Reading back what was spelled gives the number again.
pub proof fn lemma_u64_round_trip(v: int)
    requires
        0 <= v <= u64::MAX,
    ensures
        u64_le_bytes(v).len() == 8,
        le_u64(u64_le_bytes(v)) == v,
{
    let q1 = v / 0x100;
    let q2 = q1 / 0x100;
    let q3 = q2 / 0x100;
    let q4 = q3 / 0x100;
    let q5 = q4 / 0x100;
    let q6 = q5 / 0x100;
    let q7 = q6 / 0x100;
    assert(q2 == v / 0x1_0000) by {
        vstd::arithmetic::div_mod::lemma_div_denominator(v, 0x100, 0x100);
    }
    assert(q3 == v / 0x100_0000) by {
        vstd::arithmetic::div_mod::lemma_div_denominator(v, 0x1_0000, 0x100);
    }
    assert(q4 == v / 0x1_0000_0000) by {
        vstd::arithmetic::div_mod::lemma_div_denominator(v, 0x100_0000, 0x100);
    }
    assert(q5 == v / 0x100_0000_0000) by {
        vstd::arithmetic::div_mod::lemma_div_denominator(v, 0x1_0000_0000, 0x100);
    }
    assert(q6 == v / 0x1_0000_0000_0000) by {
        vstd::arithmetic::div_mod::lemma_div_denominator(v, 0x100_0000_0000, 0x100);
    }
    assert(q7 == v / 0x100_0000_0000_0000) by {
        vstd::arithmetic::div_mod::lemma_div_denominator(v, 0x1_0000_0000_0000, 0x100);
    }
    assert(q7 < 0x100);
    assert(v == v % 0x100 + 0x100 * q1);
    assert(q1 == q1 % 0x100 + 0x100 * q2);
    assert(q2 == q2 % 0x100 + 0x100 * q3);
    assert(q3 == q3 % 0x100 + 0x100 * q4);
    assert(q4 == q4 % 0x100 + 0x100 * q5);
    assert(q5 == q5 % 0x100 + 0x100 * q6);
    assert(q6 == q6 % 0x100 + 0x100 * q7);
    assert(q7 == q7 % 0x100);
}

/// Spelling what was read gives the bytes again.
pub proof fn lemma_u64_bytes_round_trip(s: Seq<u8>)
    requires
        s.len() == 8,
    ensures
        0 <= le_u64(s) <= u64::MAX,
        u64_le_bytes(le_u64(s)) == s,
{
    let v = le_u64(s);
    let r7 = s[7] as int;
    let r6 = s[6] + 0x100 * r7;
    let r5 = s[5] + 0x100 * r6;
    let r4 = s[4] + 0x100 * r5;
    let r3 = s[3] + 0x100 * r4;
    let r2 = s[2] + 0x100 * r3;
    let r1 = s[1] + 0x100 * r2;
    assert(v == s[0] + 0x100 * r1);
    lemma_low_byte(v, s[0] as int, r1);
    lemma_low_byte(r1, s[1] as int, r2);
    lemma_low_byte(r2, s[2] as int, r3);
    lemma_low_byte(r3, s[3] as int, r4);
    lemma_low_byte(r4, s[4] as int, r5);
    lemma_low_byte(r5, s[5] as int, r6);
    lemma_low_byte(r6, s[6] as int, r7);
    assert(r2 == v / 0x1_0000) by {
        vstd::arithmetic::div_mod::lemma_div_denominator(v, 0x100, 0x100);
    }
    assert(r3 == v / 0x100_0000) by {
        vstd::arithmetic::div_mod::lemma_div_denominator(v, 0x1_0000, 0x100);
    }
    assert(r4 == v / 0x1_0000_0000) by {
        vstd::arithmetic::div_mod::lemma_div_denominator(v, 0x100_0000, 0x100);
    }
    assert(r5 == v / 0x100_0000_0000) by {
        vstd::arithmetic::div_mod::lemma_div_denominator(v, 0x1_0000_0000, 0x100);
    }
    assert(r6 == v / 0x1_0000_0000_0000) by {
        vstd::arithmetic::div_mod::lemma_div_denominator(v, 0x100_0000_0000, 0x100);
    }
    assert(r7 == v / 0x100_0000_0000_0000) by {
        vstd::arithmetic::div_mod::lemma_div_denominator(v, 0x1_0000_0000_0000, 0x100);
    }
    assert(u64_le_bytes(v) =~= s);
}

/// The signed reading and spelling are inverse to each other, too.
pub proof fn lemma_i64_round_trip(v: int)
    requires
        i64::MIN <= v <= i64::MAX,
    ensures
        i64_le_bytes(v).len() == 8,
        le_i64(i64_le_bytes(v)) == v,
{
    if v >= 0 {
        lemma_u64_round_trip(v);
    } else {
        lemma_u64_round_trip(v + 0x1_0000_0000_0000_0000);
    }
}

/// Spelling what was read as a signed integer gives the bytes again.
pub proof fn lemma_i64_bytes_round_trip(s: Seq<u8>)
    requires
        s.len() == 8,
    ensures
        i64::MIN <= le_i64(s) <= i64::MAX,
        i64_le_bytes(le_i64(s)) == s,
{
    lemma_u64_bytes_round_trip(s);
}

/// Reads the unsigned integer stored at `data[at..at + 8]`.
pub fn read_u64_le(data: &[u8], at: usize) -> (v: u64)
    requires
        at + 8 <= data@.len(),
    ensures
        v == le_u64(data@.subrange(at as int, at + 8)),
{
    let b0: u64 = data[at] as u64;
    let b1: u64 = data[at + 1] as u64;
    let b2: u64 = data[at + 2] as u64;
    let b3: u64 = data[at + 3] as u64;
    let b4: u64 = data[at + 4] as u64;
    let b5: u64 = data[at + 5] as u64;
    let b6: u64 = data[at + 6] as u64;
    let b7: u64 = data[at + 7] as u64;
    b0 + b1 * 0x100 + b2 * 0x1_0000 + b3 * 0x100_0000 + b4 * 0x1_0000_0000 + b5 * 0x100_0000_0000
        + b6 * 0x1_0000_0000_0000 + b7 * 0x100_0000_0000_0000
}

/// Reads the signed integer stored at `data[at..at + 8]`.
pub fn read_i64_le(data: &[u8], at: usize) -> (v: i64)
    requires
        at + 8 <= data@.len(),
    ensures
        v == le_i64(data@.subrange(at as int, at + 8)),
{
    let raw: u64 = read_u64_le(data, at);
    if raw < 0x8000_0000_0000_0000 {
        raw as i64
    } else {
        ((raw - 0x8000_0000_0000_0000) as i64) + i64::MIN
    }
}

/// Writes `v` over `data[at..at + 8]`.
pub fn write_u64_le(data: &mut Vec<u8>, at: usize, v: u64)
    requires
        at + 8 <= old(data)@.len(),
    ensures
        final(data)@ == overlay(old(data)@, at as int, u64_le_bytes(v as int)),
{
    assert(at + 8 <= data.len());
    data.set(at, (v % 0x100) as u8);
    data.set(at + 1, (v / 0x100 % 0x100) as u8);
    data.set(at + 2, (v / 0x1_0000 % 0x100) as u8);
    data.set(at + 3, (v / 0x100_0000 % 0x100) as u8);
    data.set(at + 4, (v / 0x1_0000_0000 % 0x100) as u8);
    data.set(at + 5, (v / 0x100_0000_0000 % 0x100) as u8);
    data.set(at + 6, (v / 0x1_0000_0000_0000 % 0x100) as u8);
    data.set(at + 7, (v / 0x100_0000_0000_0000 % 0x100) as u8);
    assert(data@ =~= overlay(old(data)@, at as int, u64_le_bytes(v as int)));
}

/// Writes `v` over `data[at..at + 8]`.
pub fn write_i64_le(data: &mut Vec<u8>, at: usize, v: i64)
    requires
        at + 8 <= old(data)@.len(),
    ensures
        final(data)@ == overlay(old(data)@, at as int, i64_le_bytes(v as int)),
{
    let raw: u64 = if v >= 0 {
        v as u64
    } else {
        ((v - i64::MIN) as u64) + 0x8000_0000_0000_0000
    };
    write_u64_le(data, at, raw);
}

} // verus!
