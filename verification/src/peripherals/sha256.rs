//! SHA-256 accelerator.
//!
//! Register layout in the 0x2xxx port range:
//! - 0x00: control (writing starts operations)
//! - 0x0C: state word 7, for quick reads
//! - 0x10-0x4F: the 16-word input block
//! - 0x60-0x7F: the 8-word hash state (read-only)
use vstd::prelude::*;
use vstd::wrapping::u32_specs::wrapping_add;
use crate::bits::{byte_at, lane, lane_of, get_byte, put_byte, with_byte};

verus! {

/// SHA-256 round constants.
pub const K: [u32; 64] = [
    0x428a2f98, 0x71374491, 0xb5c0fbcf, 0xe9b5dba5, 0x3956c25b, 0x59f111f1, 0x923f82a4, 0xab1c5ed5,
    0xd807aa98, 0x12835b01, 0x243185be, 0x550c7dc3, 0x72be5d74, 0x80deb1fe, 0x9bdc06a7, 0xc19bf174,
    0xe49b69c1, 0xefbe4786, 0x0fc19dc6, 0x240ca1cc, 0x2de92c6f, 0x4a7484aa, 0x5cb0a9dc, 0x76f988da,
    0x983e5152, 0xa831c66d, 0xb00327c8, 0xbf597fc7, 0xc6e00bf3, 0xd5a79147, 0x06ca6351, 0x14292967,
    0x27b70a85, 0x2e1b2138, 0x4d2c6dfc, 0x53380d13, 0x650a7354, 0x766a0abb, 0x81c2c92e, 0x92722c85,
    0xa2bfe8a1, 0xa81a664b, 0xc24b8b70, 0xc76c51a3, 0xd192e819, 0xd6990624, 0xf40e3585, 0x106aa070,
    0x19a4c116, 0x1e376c08, 0x2748774c, 0x34b0bcb5, 0x391c0cb3, 0x4ed8aa4a, 0x5b9cca4f, 0x682e6ff3,
    0x748f82ee, 0x78a5636f, 0x84c87814, 0x8cc70208, 0x90befffa, 0xa4506ceb, 0xbef9a3f7, 0xc67178f2,
];

/// Rotate a word right by `n` bits (0 < n < 32).
pub open spec fn rotr(x: u32, n: u32) -> u32 {
    (x >> n) | (x << ((32 - n) as u32))
}

pub open spec fn big_sigma0(x: u32) -> u32 {
    rotr(x, 2) ^ rotr(x, 13) ^ rotr(x, 22)
}

pub open spec fn big_sigma1(x: u32) -> u32 {
    rotr(x, 6) ^ rotr(x, 11) ^ rotr(x, 25)
}

pub open spec fn small_sigma0(x: u32) -> u32 {
    rotr(x, 7) ^ rotr(x, 18) ^ (x >> 3u32)
}

pub open spec fn small_sigma1(x: u32) -> u32 {
    rotr(x, 17) ^ rotr(x, 19) ^ (x >> 10u32)
}

pub open spec fn choose_bits(e: u32, f: u32, g: u32) -> u32 {
    (e & f) ^ (!e & g)
}

pub open spec fn majority(a: u32, b: u32, c: u32) -> u32 {
    (a & b) ^ (a & c) ^ (b & c)
}

/// Word `i` of the message schedule of a 16-word block.
pub open spec fn schedule_word(block: Seq<u32>, i: nat) -> u32
    decreases i,
{
    if i < 16 {
        block[i as int]
    } else {
        wrapping_add(
            wrapping_add(
                wrapping_add(
                    schedule_word(block, (i - 16) as nat),
                    small_sigma0(schedule_word(block, (i - 15) as nat)),
                ),
                schedule_word(block, (i - 7) as nat),
            ),
            small_sigma1(schedule_word(block, (i - 2) as nat)),
        )
    }
}

/// The eight working variables of the compression rounds.
pub struct RoundVars {
    pub a: u32,
    pub b: u32,
    pub c: u32,
    pub d: u32,
    pub e: u32,
    pub f: u32,
    pub g: u32,
    pub h: u32,
}

/// One compression round with round constant `k` and schedule word `w`.
pub open spec fn round(v: RoundVars, k: u32, w: u32) -> RoundVars {
    let t1 = wrapping_add(
        wrapping_add(wrapping_add(wrapping_add(v.h, big_sigma1(v.e)), choose_bits(v.e, v.f, v.g)), k),
        w,
    );
    let t2 = wrapping_add(big_sigma0(v.a), majority(v.a, v.b, v.c));
    RoundVars {
        a: wrapping_add(t1, t2),
        b: v.a,
        c: v.b,
        d: v.c,
        e: wrapping_add(v.d, t1),
        f: v.e,
        g: v.f,
        h: v.g,
    }
}

/// The working variables after the first `n` rounds on `block`.
pub open spec fn rounds(start: RoundVars, block: Seq<u32>, n: nat) -> RoundVars
    decreases n,
{
    if n == 0 {
        start
    } else {
        round(
            rounds(start, block, (n - 1) as nat),
            K@[n - 1],
            schedule_word(block, (n - 1) as nat),
        )
    }
}

/// The SHA-256 compression of `block` into the 8-word hash `state`.
pub open spec fn compress(state: Seq<u32>, block: Seq<u32>) -> Seq<u32> {
    let v = rounds(
        RoundVars {
            a: state[0],
            b: state[1],
            c: state[2],
            d: state[3],
            e: state[4],
            f: state[5],
            g: state[6],
            h: state[7],
        },
        block,
        64,
    );
    seq![
        wrapping_add(state[0], v.a),
        wrapping_add(state[1], v.b),
        wrapping_add(state[2], v.c),
        wrapping_add(state[3], v.d),
        wrapping_add(state[4], v.e),
        wrapping_add(state[5], v.f),
        wrapping_add(state[6], v.g),
        wrapping_add(state[7], v.h),
    ]
}

/// The byte a register read returns for a given block and hash state: word 7
/// of the state at 0x0C, the block at 0x10-0x4F, the state at 0x60-0x7F,
/// else 0.
pub open spec fn register_view(block: Seq<u32>, state: Seq<u32>, addr: u32) -> u8 {
    let index = addr >> 2u32;
    if index == 3 {
        byte_at(state[7], lane(addr))
    } else if 4 <= index < 20 {
        byte_at(block[index - 4], lane(addr))
    } else if 24 <= index < 32 {
        byte_at(state[index - 24], lane(addr))
    } else {
        0
    }
}

/// The standard initial hash value.
pub open spec fn sha256_iv() -> Seq<u32> {
    seq![
        0x6a09e667u32,
        0xbb67ae85,
        0x3c6ef372,
        0xa54ff53a,
        0x510e527f,
        0x9b05688c,
        0x1f83d9ab,
        0x5be0cd19,
    ]
}

/// The hash state after a control write: bit 4 clears it; otherwise
/// `(value & 0x0E) == 0x0A` loads the initial value, and then
/// `(value & 0x0A) == 0x0A` compresses the block into it.
pub open spec fn controlled_state(state: Seq<u32>, block: Seq<u32>, value: u8) -> Seq<u32> {
    if value & 0x10 != 0 {
        Seq::new(8, |i: int| 0u32)
    } else {
        let s = if value & 0x0E == 0x0A {
            sha256_iv()
        } else {
            state
        };
        if value & 0x0A == 0x0A {
            compress(s, block)
        } else {
            s
        }
    }
}

/// The input block after a byte write (only 0x10-0x4F are writable).
pub open spec fn block_written(block: Seq<u32>, addr: u32, value: u8) -> Seq<u32> {
    let index = addr >> 2u32;
    if addr != 0 && 4 <= index < 20 {
        block.update(index - 4, with_byte(block[index - 4], lane(addr), value))
    } else {
        block
    }
}

/// The hash state after a byte write (only the control register acts on it).
pub open spec fn state_written(state: Seq<u32>, block: Seq<u32>, addr: u32, value: u8) -> Seq<u32> {
    if addr == 0 {
        controlled_state(state, block, value)
    } else {
        state
    }
}

/// Rotate right, computed.
fn rotate_right(x: u32, n: u32) -> (r: u32)
    requires
        0 < n < 32,
    ensures
        r == rotr(x, n),
{
    (x >> n) | (x << (32 - n))
}

/// SHA-256 accelerator.
#[derive(Debug, Clone)]
pub struct Sha256Controller {
    /// Input block (16 words).
    pub block: [u32; 16],
    /// Hash state (8 words).
    pub state: [u32; 8],
    /// Last accessed index.
    pub last: u16,
}

impl Sha256Controller {
    pub open spec fn iv() -> Seq<u32> {
        sha256_iv()
    }

    /// The byte a register read returns.
    pub open spec fn register_byte(self, addr: u32) -> u8 {
        register_view(self.block@, self.state@, addr)
    }


    /// The input block after a byte write.
    pub open spec fn written_block(self, addr: u32, value: u8) -> Seq<u32> {
        block_written(self.block@, addr, value)
    }

    /// The hash state after a byte write.
    pub open spec fn written_state(self, addr: u32, value: u8) -> Seq<u32> {
        state_written(self.state@, self.block@, addr, value)
    }

    /// The standard initial hash value.
    pub const INITIAL_STATE: [u32; 8] = [
        0x6a09e667, 0xbb67ae85, 0x3c6ef372, 0xa54ff53a, 0x510e527f, 0x9b05688c, 0x1f83d9ab,
        0x5be0cd19,
    ];

    /// A cleared accelerator (block and state zero, not the initial value).
    pub fn new() -> (r: Self)
        ensures
            r.block@ == Seq::new(16, |i: int| 0u32),
            r.state@ == Seq::new(8, |i: int| 0u32),
            r.last == 0,
    {
        let r = Sha256Controller { block: [0; 16], state: [0; 8], last: 0 };
        assert(r.block@ =~= Seq::new(16, |i: int| 0u32));
        assert(r.state@ =~= Seq::new(8, |i: int| 0u32));
        r
    }

    /// Clear block, state and last index.
    pub fn reset(&mut self)
        ensures
            final(self).block@ == Seq::new(16, |i: int| 0u32),
            final(self).state@ == Seq::new(8, |i: int| 0u32),
            final(self).last == 0,
    {
        self.block = [0; 16];
        self.state = [0; 8];
        self.last = 0;
        assert(self.block@ =~= Seq::new(16, |i: int| 0u32));
        assert(self.state@ =~= Seq::new(8, |i: int| 0u32));
    }

    /// Read a register byte.
    pub fn read(&self, addr: u32) -> (r: u8)
        ensures
            r == self.register_byte(addr),
    {
        let index = (addr >> 2) as usize;
        let bit_offset = lane_of(addr);
        if index == 3 {
            get_byte(self.state[7], bit_offset)
        } else if index >= 4 && index < 20 {
            let block_idx = index - 4;
            get_byte(self.block[block_idx], bit_offset)
        } else if index >= 24 && index < 32 {
            let state_idx = index - 24;
            get_byte(self.state[state_idx], bit_offset)
        } else {
            0
        }
    }

    /// Write a register byte: a control write clears, initializes and/or
    /// compresses; a block write replaces one byte of a block word; the state
    /// registers are read-only.
    pub fn write(&mut self, addr: u32, value: u8)
        ensures
            final(self).block@ == old(self).written_block(addr, value),
            final(self).state@ == old(self).written_state(addr, value),
            final(self).last == old(self).last,
    {
        let index = (addr >> 2) as usize;
        let bit_offset = lane_of(addr);
        if addr == 0 {
            if value & 0x10 != 0 {
                self.state = [0; 8];
                assert(self.state@ =~= Seq::new(8, |i: int| 0u32));
            } else {
                if (value & 0x0E) == 0x0A {
                    self.state = Self::INITIAL_STATE;
                    assert(self.state@ =~= Self::iv());
                }
                if (value & 0x0A) == 0x0A {
                    self.process_block();
                }
            }
        } else if index >= 4 && index < 20 {
            let block_idx = index - 4;
            self.block[block_idx] = put_byte(self.block[block_idx], bit_offset, value);
        }
    }

    /// Compress the input block into the hash state.
    pub fn process_block(&mut self)
        ensures
            final(self).state@ == compress(old(self).state@, old(self).block@),
            final(self).block == old(self).block,
            final(self).last == old(self).last,
    {
        let mut w = [0u32; 64];
        let mut i: usize = 0;
        while i < 16
            invariant
                i <= 16,
                forall|j: int| 0 <= j < i ==> w@[j] == schedule_word(self.block@, j as nat),
            decreases 16 - i,
        {
            w[i] = self.block[i];
            i = i + 1;
        }
        while i < 64
            invariant
                16 <= i <= 64,
                forall|j: int| 0 <= j < i ==> w@[j] == schedule_word(self.block@, j as nat),
            decreases 64 - i,
        {
            let x15 = w[i - 15];
            let x2 = w[i - 2];
            let s0 = rotate_right(x15, 7) ^ rotate_right(x15, 18) ^ (x15 >> 3);
            let s1 = rotate_right(x2, 17) ^ rotate_right(x2, 19) ^ (x2 >> 10);
            w[i] = w[i - 16].wrapping_add(s0).wrapping_add(w[i - 7]).wrapping_add(s1);
            i = i + 1;
        }
        let ghost start = RoundVars {
            a: self.state[0],
            b: self.state[1],
            c: self.state[2],
            d: self.state[3],
            e: self.state[4],
            f: self.state[5],
            g: self.state[6],
            h: self.state[7],
        };
        let mut a = self.state[0];
        let mut b = self.state[1];
        let mut c = self.state[2];
        let mut d = self.state[3];
        let mut e = self.state[4];
        let mut f = self.state[5];
        let mut g = self.state[6];
        let mut h = self.state[7];
        let mut r: usize = 0;
        while r < 64
            invariant
                r <= 64,
                forall|j: int| 0 <= j < 64 ==> w@[j] == schedule_word(self.block@, j as nat),
                (RoundVars { a, b, c, d, e, f, g, h }) == rounds(start, self.block@, r as nat),
            decreases 64 - r,
        {
            let s0 = rotate_right(a, 2) ^ rotate_right(a, 13) ^ rotate_right(a, 22);
            let maj = (a & b) ^ (a & c) ^ (b & c);
            let t2 = s0.wrapping_add(maj);
            let s1 = rotate_right(e, 6) ^ rotate_right(e, 11) ^ rotate_right(e, 25);
            let ch = (e & f) ^ (!e & g);
            let t1 = h.wrapping_add(s1).wrapping_add(ch).wrapping_add(K[r]).wrapping_add(w[r]);
            h = g;
            g = f;
            f = e;
            e = d.wrapping_add(t1);
            d = c;
            c = b;
            b = a;
            a = t1.wrapping_add(t2);
            r = r + 1;
        }
        let ghost old_state = self.state@;
        self.state[0] = self.state[0].wrapping_add(a);
        self.state[1] = self.state[1].wrapping_add(b);
        self.state[2] = self.state[2].wrapping_add(c);
        self.state[3] = self.state[3].wrapping_add(d);
        self.state[4] = self.state[4].wrapping_add(e);
        self.state[5] = self.state[5].wrapping_add(f);
        self.state[6] = self.state[6].wrapping_add(g);
        self.state[7] = self.state[7].wrapping_add(h);
        assert(self.state@ =~= compress(old_state, self.block@));
    }
}

impl Default for Sha256Controller {
    fn default() -> (r: Self)
        ensures
            r.block@ == Seq::new(16, |i: int| 0u32),
            r.state@ == Seq::new(8, |i: int| 0u32),
            r.last == 0,
    {
        Self::new()
    }
}

/// The 64 compression rounds of `block` started from the working
/// variables loaded with `state`.
pub open spec fn rounds_from(state: Seq<u32>, block: Seq<u32>) -> RoundVars {
    rounds(
        RoundVars {
            a: state[0],
            b: state[1],
            c: state[2],
            d: state[3],
            e: state[4],
            f: state[5],
            g: state[6],
            h: state[7],
        },
        block,
        64,
    )
}

/// A block compression feeds forward the incoming hash: each word of the
/// result is the incoming state word plus the matching working variable
/// after the 64 rounds (mod 2^32), whatever the state is; so subtracting
/// the incoming state from the result leaves exactly the rounds' output.
/// Chained compressions (a start command, then continue commands) therefore
/// give the SHA-256 hash of a multi-block message.
pub proof fn lemma_compress_feeds_forward(state: Seq<u32>, block: Seq<u32>)
    ensures
        ({
            let v = rounds_from(state, block);
            let out = compress(state, block);
            &&& out.len() == 8
            &&& out[0] as int == (state[0] + v.a) % 0x1_0000_0000
            &&& out[1] as int == (state[1] + v.b) % 0x1_0000_0000
            &&& out[2] as int == (state[2] + v.c) % 0x1_0000_0000
            &&& out[3] as int == (state[3] + v.d) % 0x1_0000_0000
            &&& out[4] as int == (state[4] + v.e) % 0x1_0000_0000
            &&& out[5] as int == (state[5] + v.f) % 0x1_0000_0000
            &&& out[6] as int == (state[6] + v.g) % 0x1_0000_0000
            &&& out[7] as int == (state[7] + v.h) % 0x1_0000_0000
        }),
{
}

/// Processing a block adds the rounds' output to the controller's own hash
/// state: the state after `process_block` minus the state before is the
/// 64-round output of the block from that state, word by word (mod 2^32).
pub proof fn lemma_process_adds_to_state(s: Sha256Controller, t: Sha256Controller)
    requires
        t.state@ == compress(s.state@, s.block@),
    ensures
        ({
            let v = rounds_from(s.state@, s.block@);
            &&& t.state[0] as int == (s.state[0] + v.a) % 0x1_0000_0000
            &&& t.state[1] as int == (s.state[1] + v.b) % 0x1_0000_0000
            &&& t.state[2] as int == (s.state[2] + v.c) % 0x1_0000_0000
            &&& t.state[3] as int == (s.state[3] + v.d) % 0x1_0000_0000
            &&& t.state[4] as int == (s.state[4] + v.e) % 0x1_0000_0000
            &&& t.state[5] as int == (s.state[5] + v.f) % 0x1_0000_0000
            &&& t.state[6] as int == (s.state[6] + v.g) % 0x1_0000_0000
            &&& t.state[7] as int == (s.state[7] + v.h) % 0x1_0000_0000
        }),
{
    lemma_compress_feeds_forward(s.state@, s.block@);
}

/// The effect of a register write: a write to the control register (0x00)
/// leaves the input block alone and, by the written command, zeroes the hash
/// state (bit 4), starts a message (the initial hash compressed with the
/// block, for 0x0A or 0x0B in bits 3:0 and bit 2 clear), continues one (the
/// state compressed with the block, for bits 3 and 1 both set otherwise), or
/// changes nothing; a write to the input block (0x10-0x4F) replaces one byte
/// of one block word and leaves the state alone; any other write changes
/// nothing.
pub proof fn lemma_write_commands(s: Sha256Controller, a: u32, v: u8)
    ensures
        a == 0 ==> s.written_block(a, v) == s.block@,
        a == 0 && v & 0x10 != 0 ==> s.written_state(a, v) == Seq::new(8, |i: int| 0u32),
        a == 0 && v & 0x10 == 0 && v & 0x0E == 0x0A ==> s.written_state(a, v) == compress(
            sha256_iv(),
            s.block@,
        ),
        a == 0 && v & 0x10 == 0 && v & 0x0E != 0x0A && v & 0x0A == 0x0A ==> s.written_state(a, v)
            == compress(s.state@, s.block@),
        a == 0 && v & 0x10 == 0 && v & 0x0A != 0x0A ==> s.written_state(a, v) == s.state@,
        0x10 <= a < 0x50 ==> s.written_block(a, v) == s.block@.update(
            (a - 0x10) / 4,
            with_byte(s.block@[(a - 0x10) / 4], lane(a), v),
        ) && s.written_state(a, v) == s.state@,
        a != 0 && !(0x10 <= a < 0x50) ==> s.written_block(a, v) == s.block@ && s.written_state(a, v)
            == s.state@,
{
    assert(v & 0x0E == 0x0A ==> v & 0x0A == 0x0A) by (bit_vector);
    vstd::bits::lemma_u32_shr_is_div(a, 2);
    vstd::arithmetic::power2::lemma2_to64();
}

/// A byte written into the input block reads back from the same address, and
/// block writes leave the hash state alone.
pub proof fn lemma_block_write_read(s: Sha256Controller, addr: u32, value: u8)
    requires
        0x10 <= addr < 0x50,
    ensures
        register_view(s.written_block(addr, value), s.written_state(addr, value), addr) == value,
        s.written_state(addr, value) == s.state@,
{
    crate::bits::lemma_mask_facts();
    let sh = lane(addr);
    assert(sh == 0 || sh == 8 || sh == 16 || sh == 24);
    vstd::bits::lemma_u32_shr_is_div(addr, 2);
    vstd::arithmetic::power2::lemma2_to64();
    crate::bits::lemma_with_byte_same(s.block[(addr >> 2u32) - 4], sh, value);
}

/// The clear command zeroes every hash state register.
pub proof fn lemma_clear_zeroes_state(s: Sha256Controller, value: u8, addr: u32)
    requires
        value & 0x10 != 0,
        0x60 <= addr < 0x80,
    ensures
        register_view(s.written_block(0, value), s.written_state(0, value), addr) == 0,
{
    vstd::bits::lemma_u32_shr_is_div(addr, 2);
    vstd::arithmetic::power2::lemma2_to64();
    crate::bits::lemma_mask_facts();
    let sh = lane(addr);
    vstd::bits::lemma_u32_shr_is_div(0, sh);
    assert((0u32 >> sh) & 0xFF <= 0u32 >> sh);
}

} // verus!
