//! Byte-lane helpers shared by the register files of the peripherals.
use vstd::prelude::*;

verus! {

/// Bit offset of the byte lane that a byte address selects in a 32-bit register.
pub open spec fn lane(addr: u32) -> u32 {
    ((addr & 3) * 8) as u32
}

/// The byte of `w` that starts at bit `sh` (a multiple of 8 below 32).
pub open spec fn byte_at(w: u32, sh: u32) -> u8 {
    ((w >> sh) & 0xFF) as u8
}

/// `w` with the byte lane that starts at bit `sh` replaced by `v`.
pub open spec fn with_byte(w: u32, sh: u32, v: u8) -> u32 {
    (w & !(0xFFu32 << sh)) | ((v as u32) << sh)
}

/// Reading back a byte lane gives what was written into it.
pub proof fn lemma_with_byte_same(w: u32, sh: u32, v: u8)
    requires
        sh == 0 || sh == 8 || sh == 16 || sh == 24,
    ensures
        byte_at(with_byte(w, sh, v), sh) == v,
{
    assert(((((w & !(0xFFu32 << sh)) | ((v as u32) << sh)) >> sh) & 0xFF) as u8 == v) by (bit_vector)
        requires
            sh == 0 || sh == 8 || sh == 16 || sh == 24,
    ;
}

/// Writing one byte lane leaves every other lane unchanged.
pub proof fn lemma_with_byte_other(w: u32, sh: u32, v: u8, sh2: u32)
    requires
        sh == 0 || sh == 8 || sh == 16 || sh == 24,
        sh2 == 0 || sh2 == 8 || sh2 == 16 || sh2 == 24,
        sh != sh2,
    ensures
        byte_at(with_byte(w, sh, v), sh2) == byte_at(w, sh2),
{
    assert(((((w & !(0xFFu32 << sh)) | ((v as u32) << sh)) >> sh2) & 0xFF) as u8 == ((w >> sh2)
        & 0xFF) as u8) by (bit_vector)
        requires
            sh == 0 || sh == 8 || sh == 16 || sh == 24,
            sh2 == 0 || sh2 == 8 || sh2 == 16 || sh2 == 24,
            sh != sh2,
    ;
}

/// Bit offset of the byte lane that `addr` selects, computed.
pub fn lane_of(addr: u32) -> (r: u32)
    ensures
        r == lane(addr),
        r == 0 || r == 8 || r == 16 || r == 24,
{
    proof {
        lemma_mask_facts();
    }
    (addr & 3) * 8
}

/// The byte of a 32-bit word at a given lane, computed.
pub fn get_byte(w: u32, sh: u32) -> (r: u8)
    requires
        sh < 32,
    ensures
        r == byte_at(w, sh),
{
    ((w >> sh) & 0xFF) as u8
}

/// A 32-bit word with one byte lane replaced, computed.
pub fn put_byte(w: u32, sh: u32, v: u8) -> (r: u32)
    requires
        sh < 32,
    ensures
        r == with_byte(w, sh, v),
{
    (w & !(0xFFu32 << sh)) | ((v as u32) << sh)
}

/// A single bit `(x >> k) & 1` is 0 or 1.
pub proof fn lemma_bit_small(x: u32, k: u32)
    ensures
        (x >> k) & 1 <= 1,
{
    lemma_mask_facts();
}

/// Masking gives at most the mask and at most the value; or-ing in zero and
/// shifting by zero change nothing; a register offset below 16 selects one
/// of four words; an offset below 256 is its own low byte.
pub proof fn lemma_mask_facts()
    by (bit_vector)
    ensures
        forall|x: u8, m: u8| #[trigger] (x & m) <= m && (x & m) <= x,
        forall|x: u16, m: u16| #[trigger] (x & m) <= m && (x & m) <= x,
        forall|x: u32, m: u32| #[trigger] (x & m) <= m && (x & m) <= x,
        forall|x: u64, m: u64| #[trigger] (x & m) <= m && (x & m) <= x,
        forall|x: u8| #[trigger] (x | 0u8) == x,
        forall|x: u16| #[trigger] (x | 0u16) == x,
        forall|x: u32| #[trigger] (x >> 0u32) == x,
        forall|x: u32| x <= 15 ==> #[trigger] (x >> 2u32) <= 3,
        forall|x: u32| x <= 0xFF ==> #[trigger] (x & 0xFFu32) == x,
{
}

/// Little-endian bytes of a 32-bit word.
pub open spec fn le_u32(x: u32) -> Seq<u8> {
    seq![x as u8, (x >> 8u32) as u8, (x >> 16u32) as u8, (x >> 24u32) as u8]
}

/// Little-endian bytes of a 64-bit word.
pub open spec fn le_u64(x: u64) -> Seq<u8> {
    seq![
        x as u8,
        (x >> 8u64) as u8,
        (x >> 16u64) as u8,
        (x >> 24u64) as u8,
        (x >> 32u64) as u8,
        (x >> 40u64) as u8,
        (x >> 48u64) as u8,
        (x >> 56u64) as u8,
    ]
}

/// The 32-bit word stored little-endian at `at` in `s`.
pub open spec fn read_le_u32(s: Seq<u8>, at: int) -> u32 {
    (s[at] as u32) | ((s[at + 1] as u32) << 8u32) | ((s[at + 2] as u32) << 16u32) | ((s[at + 3]
        as u32) << 24u32)
}

/// The 64-bit word stored little-endian at `at` in `s`.
pub open spec fn read_le_u64(s: Seq<u8>, at: int) -> u64 {
    (s[at] as u64) | ((s[at + 1] as u64) << 8u64) | ((s[at + 2] as u64) << 16u64) | ((s[at + 3]
        as u64) << 24u64) | ((s[at + 4] as u64) << 32u64) | ((s[at + 5] as u64) << 40u64) | ((s[at
        + 6] as u64) << 48u64) | ((s[at + 7] as u64) << 56u64)
}

/// A 32-bit word stored little-endian reads back unchanged.
pub proof fn lemma_le_u32_read(x: u32, s: Seq<u8>, at: int)
    requires
        0 <= at,
        at + 4 <= s.len(),
        s.subrange(at, at + 4) == le_u32(x),
    ensures
        read_le_u32(s, at) == x,
{
    assert(s[at] == le_u32(x)[0] && s[at + 1] == le_u32(x)[1] && s[at + 2] == le_u32(x)[2] && s[at
        + 3] == le_u32(x)[3]) by {
        assert(s.subrange(at, at + 4)[0] == s[at]);
        assert(s.subrange(at, at + 4)[1] == s[at + 1]);
        assert(s.subrange(at, at + 4)[2] == s[at + 2]);
        assert(s.subrange(at, at + 4)[3] == s[at + 3]);
    }
    assert(((x as u8) as u32) | ((((x >> 8u32) as u8) as u32) << 8u32) | ((((x >> 16u32) as u8)
        as u32) << 16u32) | ((((x >> 24u32) as u8) as u32) << 24u32) == x) by (bit_vector);
}

/// A 64-bit word stored little-endian reads back unchanged.
pub proof fn lemma_le_u64_read(x: u64, s: Seq<u8>, at: int)
    requires
        0 <= at,
        at + 8 <= s.len(),
        s.subrange(at, at + 8) == le_u64(x),
    ensures
        read_le_u64(s, at) == x,
{
    assert forall|i: int| 0 <= i < 8 implies s[at + i] == le_u64(x)[i] by {
        assert(s.subrange(at, at + 8)[i] == s[at + i]);
    }
    assert(s[at] == le_u64(x)[0] && s[at + 1] == le_u64(x)[1] && s[at + 2] == le_u64(x)[2] && s[at
        + 3] == le_u64(x)[3] && s[at + 4] == le_u64(x)[4] && s[at + 5] == le_u64(x)[5] && s[at + 6]
        == le_u64(x)[6] && s[at + 7] == le_u64(x)[7]);
    assert(((x as u8) as u64) | ((((x >> 8u64) as u8) as u64) << 8u64) | ((((x >> 16u64) as u8)
        as u64) << 16u64) | ((((x >> 24u64) as u8) as u64) << 24u64) | ((((x >> 32u64) as u8)
        as u64) << 32u64) | ((((x >> 40u64) as u8) as u64) << 40u64) | ((((x >> 48u64) as u8)
        as u64) << 48u64) | ((((x >> 56u64) as u8) as u64) << 56u64) == x) by (bit_vector);
}

/// Two byte sequences that hold the same 32-bit word at `at` agree on its
/// four bytes.
pub proof fn lemma_le_u32_bytes(a: Seq<u8>, b: Seq<u8>, at: int)
    requires
        0 <= at,
        at + 4 <= a.len(),
        at + 4 <= b.len(),
        read_le_u32(a, at) == read_le_u32(b, at),
    ensures
        forall|j: int| at <= j < at + 4 ==> #[trigger] a[j] == b[j],
{
    let (a0, a1, a2, a3) = (a[at], a[at + 1], a[at + 2], a[at + 3]);
    let (b0, b1, b2, b3) = (b[at], b[at + 1], b[at + 2], b[at + 3]);
    assert(a0 == b0 && a1 == b1 && a2 == b2 && a3 == b3) by (bit_vector)
        requires
            (a0 as u32) | ((a1 as u32) << 8u32) | ((a2 as u32) << 16u32) | ((a3 as u32) << 24u32)
                == (b0 as u32) | ((b1 as u32) << 8u32) | ((b2 as u32) << 16u32) | ((b3 as u32)
                << 24u32),
    ;
}

/// Two byte sequences that hold the same 64-bit word at `at` agree on its
/// eight bytes.
pub proof fn lemma_le_u64_bytes(a: Seq<u8>, b: Seq<u8>, at: int)
    requires
        0 <= at,
        at + 8 <= a.len(),
        at + 8 <= b.len(),
        read_le_u64(a, at) == read_le_u64(b, at),
    ensures
        forall|j: int| at <= j < at + 8 ==> #[trigger] a[j] == b[j],
{
    let (a0, a1, a2, a3) = (a[at], a[at + 1], a[at + 2], a[at + 3]);
    let (a4, a5, a6, a7) = (a[at + 4], a[at + 5], a[at + 6], a[at + 7]);
    let (b0, b1, b2, b3) = (b[at], b[at + 1], b[at + 2], b[at + 3]);
    let (b4, b5, b6, b7) = (b[at + 4], b[at + 5], b[at + 6], b[at + 7]);
    assert(a0 == b0 && a1 == b1 && a2 == b2 && a3 == b3 && a4 == b4 && a5 == b5 && a6 == b6 && a7
        == b7) by (bit_vector)
        requires
            (a0 as u64) | ((a1 as u64) << 8u64) | ((a2 as u64) << 16u64) | ((a3 as u64) << 24u64)
                | ((a4 as u64) << 32u64) | ((a5 as u64) << 40u64) | ((a6 as u64) << 48u64) | ((a7
                as u64) << 56u64) == (b0 as u64) | ((b1 as u64) << 8u64) | ((b2 as u64) << 16u64)
                | ((b3 as u64) << 24u64) | ((b4 as u64) << 32u64) | ((b5 as u64) << 40u64) | ((b6
                as u64) << 48u64) | ((b7 as u64) << 56u64),
    ;
}

/// Store a 32-bit word little-endian at `pos`.
pub fn put_le_u32<const N: usize>(buf: &mut [u8; N], pos: usize, x: u32)
    requires
        pos + 4 <= N,
    ensures
        final(buf)@ == old(buf)@.subrange(0, pos as int) + le_u32(x) + old(buf)@.subrange(
            pos + 4,
            N as int,
        ),
        read_le_u32(final(buf)@, pos as int) == x,
        forall|i: int|
            0 <= i < N && !(pos <= i < pos + 4) ==> #[trigger] final(buf)@[i] == old(buf)@[i],
{
    buf[pos] = x as u8;
    buf[pos + 1] = (x >> 8) as u8;
    buf[pos + 2] = (x >> 16) as u8;
    buf[pos + 3] = (x >> 24) as u8;
    assert(buf@ =~= old(buf)@.subrange(0, pos as int) + le_u32(x) + old(buf)@.subrange(
        pos + 4,
        N as int,
    ));
    proof {
        assert(buf@.subrange(pos as int, pos + 4) =~= le_u32(x));
        lemma_le_u32_read(x, buf@, pos as int);
    }
}

/// Store a 64-bit word little-endian at `pos`.
pub fn put_le_u64<const N: usize>(buf: &mut [u8; N], pos: usize, x: u64)
    requires
        pos + 8 <= N,
    ensures
        final(buf)@ == old(buf)@.subrange(0, pos as int) + le_u64(x) + old(buf)@.subrange(
            pos + 8,
            N as int,
        ),
        read_le_u64(final(buf)@, pos as int) == x,
        forall|i: int|
            0 <= i < N && !(pos <= i < pos + 8) ==> #[trigger] final(buf)@[i] == old(buf)@[i],
{
    buf[pos] = x as u8;
    buf[pos + 1] = (x >> 8) as u8;
    buf[pos + 2] = (x >> 16) as u8;
    buf[pos + 3] = (x >> 24) as u8;
    buf[pos + 4] = (x >> 32) as u8;
    buf[pos + 5] = (x >> 40) as u8;
    buf[pos + 6] = (x >> 48) as u8;
    buf[pos + 7] = (x >> 56) as u8;
    assert(buf@ =~= old(buf)@.subrange(0, pos as int) + le_u64(x) + old(buf)@.subrange(
        pos + 8,
        N as int,
    ));
    proof {
        assert(buf@.subrange(pos as int, pos + 8) =~= le_u64(x));
        lemma_le_u64_read(x, buf@, pos as int);
    }
}

/// The 32-bit word stored little-endian at `pos`, computed.
pub fn get_le_u32(buf: &[u8], pos: usize) -> (r: u32)
    requires
        pos + 4 <= buf@.len(),
    ensures
        r == read_le_u32(buf@, pos as int),
{
    (buf[pos] as u32) | ((buf[pos + 1] as u32) << 8) | ((buf[pos + 2] as u32) << 16) | ((buf[pos
        + 3] as u32) << 24)
}

/// The 64-bit word stored little-endian at `pos`, computed.
pub fn get_le_u64(buf: &[u8], pos: usize) -> (r: u64)
    requires
        pos + 8 <= buf@.len(),
    ensures
        r == read_le_u64(buf@, pos as int),
{
    (buf[pos] as u64) | ((buf[pos + 1] as u64) << 8) | ((buf[pos + 2] as u64) << 16) | ((buf[pos
        + 3] as u64) << 24) | ((buf[pos + 4] as u64) << 32) | ((buf[pos + 5] as u64) << 40) | ((
    buf[pos + 6] as u64) << 48) | ((buf[pos + 7] as u64) << 56)
}

} // verus!
