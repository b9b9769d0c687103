use vstd::prelude::*;

verus! {

/// A 32-byte address.
pub type Address = [u8; 32];

/// The number that two bytes spell, least significant byte first.
pub open spec fn le_u16(s: Seq<u8>) -> int
    recommends
        s.len() == 2,
{
    s[0] + 0x100 * s[1]
}

/// The number that eight bytes spell, least significant byte first.
pub open spec fn le_u64(s: Seq<u8>) -> int
    recommends
        s.len() == 8,
{
    s[0] + 0x100 * s[1] + 0x1_0000 * s[2] + 0x100_0000 * s[3] + 0x1_0000_0000 * s[4]
        + 0x100_0000_0000 * s[5] + 0x1_0000_0000_0000 * s[6] + 0x100_0000_0000_0000 * s[7]
}

/// The signed number that eight bytes spell in two's complement, least
/// significant byte first.
pub open spec fn le_i64(s: Seq<u8>) -> int
    recommends
        s.len() == 8,
{
    if le_u64(s) < 0x8000_0000_0000_0000 {
        le_u64(s)
    } else {
        le_u64(s) - 0x1_0000_0000_0000_0000
    }
}

/// The two bytes that spell `v`, least significant byte first.
pub open spec fn u16_le_bytes(v: u16) -> Seq<u8> {
    seq![(v % 0x100) as u8, (v / 0x100) as u8]
}

/// The eight bytes that spell `v`, least significant byte first.
pub open spec fn u64_le_bytes(v: u64) -> Seq<u8> {
    seq![
        (v % 0x100) as u8,
        (v / 0x100 % 0x100) as u8,
        (v / 0x1_0000 % 0x100) as u8,
        (v / 0x100_0000 % 0x100) as u8,
        (v / 0x1_0000_0000 % 0x100) as u8,
        (v / 0x100_0000_0000 % 0x100) as u8,
        (v / 0x1_0000_0000_0000 % 0x100) as u8,
        (v / 0x100_0000_0000_0000) as u8,
    ]
}

/// Writing a number out and reading it back gives the number.
pub proof fn u16_round_trip(v: u16)
    ensures
        u16_le_bytes(v).len() == 2,
        le_u16(u16_le_bytes(v)) == v,
{
}

/// Reading two bytes and writing the number out gives the bytes.
pub proof fn u16_bytes_round_trip(s: Seq<u8>)
    requires
        s.len() == 2,
    ensures
        0 <= le_u16(s) <= u16::MAX,
        u16_le_bytes(le_u16(s) as u16) =~= s,
{
}

/// A number that is a byte `low` plus 256 times `high` has `high` as its
/// quotient by 256 and `low` as its remainder.
proof fn lemma_byte_split(x: int, low: int, high: int)
    requires
        0 <= low < 0x100,
        x == low + 0x100 * high,
    ensures
        x / 0x100 == high,
        x % 0x100 == low,
{
}

/// Writing a number out and reading it back gives the number.
pub proof fn u64_round_trip(v: u64)
    ensures
        u64_le_bytes(v).len() == 8,
        le_u64(u64_le_bytes(v)) == v,
{
    let q0: int = v as int;
    let q1: int = q0 / 0x100;
    let q2: int = q1 / 0x100;
    let q3: int = q2 / 0x100;
    let q4: int = q3 / 0x100;
    let q5: int = q4 / 0x100;
    let q6: int = q5 / 0x100;
    let q7: int = q6 / 0x100;
    assert(q0 == q0 % 0x100 + 0x100 * q1);
    assert(q1 == q1 % 0x100 + 0x100 * q2);
    assert(q2 == q2 % 0x100 + 0x100 * q3);
    assert(q3 == q3 % 0x100 + 0x100 * q4);
    assert(q4 == q4 % 0x100 + 0x100 * q5);
    assert(q5 == q5 % 0x100 + 0x100 * q6);
    assert(q6 == q6 % 0x100 + 0x100 * q7);
    assert(0 <= q7 < 0x100);
}

/// Reading eight bytes and writing the number out gives the bytes.
pub proof fn u64_bytes_round_trip(s: Seq<u8>)
    requires
        s.len() == 8,
    ensures
        0 <= le_u64(s) <= u64::MAX,
        u64_le_bytes(le_u64(s) as u64) =~= s,
{
    let r7: int = s[7] as int;
    let r6: int = s[6] + 0x100 * r7;
    let r5: int = s[5] + 0x100 * r6;
    let r4: int = s[4] + 0x100 * r5;
    let r3: int = s[3] + 0x100 * r4;
    let r2: int = s[2] + 0x100 * r3;
    let r1: int = s[1] + 0x100 * r2;
    let r0: int = s[0] + 0x100 * r1;
    assert(r0 == le_u64(s));
    lemma_byte_split(r0, s[0] as int, r1);
    lemma_byte_split(r1, s[1] as int, r2);
    lemma_byte_split(r2, s[2] as int, r3);
    lemma_byte_split(r3, s[3] as int, r4);
    lemma_byte_split(r4, s[4] as int, r5);
    lemma_byte_split(r5, s[5] as int, r6);
    lemma_byte_split(r6, s[6] as int, r7);
}

/// Reads the two bytes at `at` as a number.
pub(crate) fn read_u16(bytes: &[u8], at: usize) -> (r: u16)
    requires
        at + 2 <= bytes@.len(),
    ensures
        r == le_u16(bytes@.subrange(at as int, at + 2)),
{
    let b0: u16 = bytes[at] as u16;
    let b1: u16 = bytes[at + 1] as u16;
    b0 + 0x100 * b1
}

/// Reads the eight bytes at `at` as a number.
pub(crate) fn read_u64(bytes: &[u8], at: usize) -> (r: u64)
    requires
        at + 8 <= bytes@.len(),
    ensures
        r == le_u64(bytes@.subrange(at as int, at + 8)),
{
    let b0: u64 = bytes[at] as u64;
    let b1: u64 = bytes[at + 1] as u64;
    let b2: u64 = bytes[at + 2] as u64;
    let b3: u64 = bytes[at + 3] as u64;
    let b4: u64 = bytes[at + 4] as u64;
    let b5: u64 = bytes[at + 5] as u64;
    let b6: u64 = bytes[at + 6] as u64;
    let b7: u64 = bytes[at + 7] as u64;
    b0 + 0x100 * b1 + 0x1_0000 * b2 + 0x100_0000 * b3 + 0x1_0000_0000 * b4 + 0x100_0000_0000 * b5
        + 0x1_0000_0000_0000 * b6 + 0x100_0000_0000_0000 * b7
}

/// Reads the eight bytes at `at` as a signed number.
pub(crate) fn read_i64(bytes: &[u8], at: usize) -> (r: i64)
    requires
        at + 8 <= bytes@.len(),
    ensures
        r == le_i64(bytes@.subrange(at as int, at + 8)),
{
    let raw: u64 = read_u64(bytes, at);
    if raw < 0x8000_0000_0000_0000 {
        raw as i64
    } else {
        let low: u64 = raw - 0x8000_0000_0000_0000;
        (low as i64) + i64::MIN
    }
}

/// Reads the 32 bytes at `at` as an address.
pub(crate) fn read_address(bytes: &[u8], at: usize) -> (r: Address)
    requires
        at + 32 <= bytes@.len(),
    ensures
        r@ == bytes@.subrange(at as int, at + 32),
{
    let len: usize = bytes.len();
    let mut out: Address = [0u8; 32];
    let mut i: usize = 0;
    while i < 32
        invariant
            i <= 32,
            at + 32 <= len,
            len == bytes@.len(),
            forall|j: int| 0 <= j < i ==> out@[j] == bytes@[at + j],
        decreases 32 - i,
    {
        out[i] = bytes[at + i];
        i = i + 1;
    }
    assert(out@ =~= bytes@.subrange(at as int, at + 32));
    out
}

/// Appends the two bytes that spell `v`.
pub(crate) fn push_u16(out: &mut Vec<u8>, v: u16)
    ensures
        final(out)@ == old(out)@ + u16_le_bytes(v),
{
    out.push((v % 0x100) as u8);
    out.push((v / 0x100) as u8);
}

/// Appends the eight bytes that spell `v`.
pub(crate) fn push_u64(out: &mut Vec<u8>, v: u64)
    ensures
        final(out)@ == old(out)@ + u64_le_bytes(v),
{
    out.push((v % 0x100) as u8);
    out.push((v / 0x100 % 0x100) as u8);
    out.push((v / 0x1_0000 % 0x100) as u8);
    out.push((v / 0x100_0000 % 0x100) as u8);
    out.push((v / 0x1_0000_0000 % 0x100) as u8);
    out.push((v / 0x100_0000_0000 % 0x100) as u8);
    out.push((v / 0x1_0000_0000_0000 % 0x100) as u8);
    out.push((v / 0x100_0000_0000_0000) as u8);
}

/// Appends the 32 bytes of an address.
pub(crate) fn push_address(out: &mut Vec<u8>, a: &Address)
    ensures
        final(out)@ == old(out)@ + a@,
{
    let mut i: usize = 0;
    while i < 32
        invariant
            i <= 32,
            out@ == old(out)@ + a@.subrange(0, i as int),
        decreases 32 - i,
    {
        out.push(a[i]);
        assert(out@ =~= old(out)@ + a@.subrange(0, i + 1));
        i = i + 1;
    }
    assert(a@.subrange(0, 32) =~= a@);
}

/// Whether two addresses are the same, byte for byte.
pub fn same_address(a: &Address, b: &Address) -> (r: bool)
    ensures
        r == (*a == *b),
{
    let mut i: usize = 0;
    while i < 32
        invariant
            i <= 32,
            forall|j: int| 0 <= j < i ==> a@[j] == b@[j],
        decreases 32 - i,
    {
        if a[i] != b[i] {
            return false;
        }
        i = i + 1;
    }
    assert(*a =~= *b);
    true
}

} // verus!
