//! Bit-field access to a raw instruction word.
use vstd::arithmetic::power2::{lemma2_to64, lemma_pow2_unfold, pow2};
use vstd::bits::{
    lemma_u32_pow2_no_overflow, lemma_u32_shl_is_mul, lemma_u64_pow2_no_overflow,
    lemma_u64_shl_is_mul,
};
use vstd::prelude::*;

verus! {

/// The `len` bits of `w` that start at bit `lo`, as an unsigned value.
pub open spec fn bits(w: u32, lo: u32, len: u32) -> u32 {
    (w >> lo) & (((1u64 << len) - 1) as u32)
}

/// Reads `v` as a two's-complement number that is `width` bits wide.
pub open spec fn sign_extend(v: int, width: nat) -> int {
    if v >= pow2((width - 1) as nat) {
        v - pow2(width)
    } else {
        v
    }
}

pub open spec fn opcode_of(w: u32) -> u32 {
    bits(w, 0, 7)
}

pub open spec fn rd_of(w: u32) -> u32 {
    bits(w, 7, 5)
}

pub open spec fn funct3_of(w: u32) -> u32 {
    bits(w, 12, 3)
}

pub open spec fn rs1_of(w: u32) -> u32 {
    bits(w, 15, 5)
}

pub open spec fn rs2_of(w: u32) -> u32 {
    bits(w, 20, 5)
}

pub open spec fn funct7_of(w: u32) -> u32 {
    bits(w, 25, 7)
}

/// The raw 12-bit I-format immediate, `imm[11:0]` from bits 31..20.
pub open spec fn imm_i_raw(w: u32) -> u32 {
    bits(w, 20, 12)
}

pub open spec fn imm_i_of(w: u32) -> int {
    sign_extend(imm_i_raw(w) as int, 12)
}

/// S-format: `imm[11:5]` from bits 31..25, `imm[4:0]` from bits 11..7.
pub open spec fn imm_s_raw(w: u32) -> u32 {
    (bits(w, 25, 7) << 5) | bits(w, 7, 5)
}

pub open spec fn imm_s_of(w: u32) -> int {
    sign_extend(imm_s_raw(w) as int, 12)
}

/// U-format: bits 31..12 kept in place, the low 12 bits cleared.
pub open spec fn imm_u_raw(w: u32) -> u32 {
    bits(w, 12, 20) << 12
}

pub open spec fn imm_u_of(w: u32) -> int {
    sign_extend(imm_u_raw(w) as int, 32)
}

/// B-format: `imm[12]` from bit 31, `imm[10:5]` from bits 30..25,
/// `imm[4:1]` from bits 11..8, `imm[11]` from bit 7; `imm[0]` is zero.
pub open spec fn imm_b_raw(w: u32) -> u32 {
    (bits(w, 31, 1) << 12) | (bits(w, 7, 1) << 11) | (bits(w, 25, 6) << 5) | (bits(w, 8, 4) << 1)
}

pub open spec fn imm_b_of(w: u32) -> int {
    sign_extend(imm_b_raw(w) as int, 13)
}

/// J-format: `imm[20]` from bit 31, `imm[10:1]` from bits 30..21,
/// `imm[11]` from bit 20, `imm[19:12]` from bits 19..12; `imm[0]` is zero.
pub open spec fn imm_j_raw(w: u32) -> u32 {
    (bits(w, 31, 1) << 20) | (bits(w, 12, 8) << 12) | (bits(w, 20, 1) << 11) | (bits(w, 21, 10) << 1)
}

pub open spec fn imm_j_of(w: u32) -> int {
    sign_extend(imm_j_raw(w) as int, 21)
}

/// A raw instruction word, with accessors for each of its fields.
pub struct Repr(pub u32);

impl Repr {
    pub fn opcode(&self) -> (r: u8)
        ensures
            r == opcode_of(self.0),
    {
        let w = self.0;
        assert((w & 0b1111111) == bits(w, 0, 7) && bits(w, 0, 7) < 128) by (bit_vector);
        (w & 0b1111111) as u8
    }

    pub fn rs1(&self) -> (r: u8)
        ensures
            r == rs1_of(self.0),
            r < 32,
    {
        let w = self.0;
        assert((w >> 15 & 0b11111) == bits(w, 15, 5) && bits(w, 15, 5) < 32) by (bit_vector);
        (w >> 15 & 0b11111) as u8
    }

    pub fn rs2(&self) -> (r: u8)
        ensures
            r == rs2_of(self.0),
            r < 32,
    {
        let w = self.0;
        assert((w >> 20 & 0b11111) == bits(w, 20, 5) && bits(w, 20, 5) < 32) by (bit_vector);
        (w >> 20 & 0b11111) as u8
    }

    pub fn rd(&self) -> (r: u8)
        ensures
            r == rd_of(self.0),
            r < 32,
    {
        let w = self.0;
        assert((w >> 7 & 0b11111) == bits(w, 7, 5) && bits(w, 7, 5) < 32) by (bit_vector);
        (w >> 7 & 0b11111) as u8
    }

    pub fn funct3(&self) -> (r: u8)
        ensures
            r == funct3_of(self.0),
            r < 8,
    {
        let w = self.0;
        assert((w >> 12 & 0b111) == bits(w, 12, 3) && bits(w, 12, 3) < 8) by (bit_vector);
        (w >> 12 & 0b111) as u8
    }

    pub fn funct7(&self) -> (r: u8)
        ensures
            r == funct7_of(self.0),
            r < 128,
    {
        let w = self.0;
        assert((w >> 25 & 0b1111111) == bits(w, 25, 7) && bits(w, 25, 7) < 128) by (bit_vector);
        (w >> 25 & 0b1111111) as u8
    }

    /// The I-format immediate zero-extended (used by `sltiu` only).
    pub fn imm_iu(&self) -> (r: i16)
        ensures
            r == imm_i_raw(self.0),
            0 <= r < 4096,
    {
        let w = self.0;
        assert((w >> 20 & 0b111111111111) == bits(w, 20, 12) && bits(w, 20, 12) < 4096)
            by (bit_vector);
        (w >> 20 & 0b111111111111) as i16
    }

    pub fn imm_i(&self) -> (r: i16)
        ensures
            r == imm_i_of(self.0),
            -2048 <= r < 2048,
    {
        let raw = self.imm_iu();
        proof {
            lemma2_to64();
        }
        make_imm_signed(raw as u32, 12) as i16
    }

    pub fn imm_s(&self) -> (r: i16)
        ensures
            r == imm_s_of(self.0),
            -2048 <= r < 2048,
    {
        let w = self.0;
        let imm = (w >> 20 & 0b111111100000) | (w >> 7 & 0b11111);
        assert(imm == imm_s_raw(w) && imm < 4096) by (bit_vector)
            requires
                imm == (w >> 20 & 0b111111100000) | (w >> 7 & 0b11111),
        ;
        proof {
            lemma2_to64();
        }
        make_imm_signed(imm, 12) as i16
    }

    pub fn imm_u(&self) -> (r: i32)
        ensures
            r == imm_u_of(self.0),
            r % 4096 == 0,
    {
        let w = self.0;
        let v = w & 0xfffff000;
        assert(v == imm_u_raw(w) && v % 4096 == 0) by (bit_vector)
            requires
                v == w & 0xfffff000,
        ;
        proof {
            lemma2_to64();
        }
        let r = make_imm_signed(v, 32);
        r
    }

    pub fn imm_b(&self) -> (r: i16)
        ensures
            r == imm_b_of(self.0),
            -4096 <= r < 4096,
            r % 2 == 0,
    {
        let w = self.0;
        let imm = (w >> 31) << 12 | (w >> 7 & 0b1) << 11 | (w >> 20 & 0b11111100000) | (w >> 7 & 0b11110);
        assert(imm == imm_b_raw(w) && imm < 8192 && imm % 2 == 0) by (bit_vector)
            requires
                imm == (w >> 31) << 12 | (w >> 7 & 0b1) << 11 | (w >> 20 & 0b11111100000) | (w >> 7
                    & 0b11110),
        ;
        proof {
            lemma2_to64();
        }
        make_imm_signed(imm, 13) as i16
    }

    pub fn imm_j(&self) -> (r: i32)
        ensures
            r == imm_j_of(self.0),
            -1048576 <= r < 1048576,
            r % 2 == 0,
    {
        let w = self.0;
        let imm = (w >> 31) << 20 | (w & (0b11111111u32 << 12)) | (w >> 20 & 1) << 11 | (w >> 20
            & 0b11111111110);
        assert(imm == imm_j_raw(w) && imm < 0x200000 && imm % 2 == 0) by (bit_vector)
            requires
                imm == (w >> 31) << 20 | (w & (0b11111111u32 << 12)) | (w >> 20 & 1) << 11 | (w >> 20
                    & 0b11111111110),
        ;
        proof {
            lemma2_to64();
        }
        make_imm_signed(imm, 21)
    }
}

/// Reads the low `bits` bits of `imm` as a two's-complement number.
pub fn make_imm_signed(imm: u32, bits: u8) -> (r: i32)
    requires
        1 <= bits <= 32,
        imm < pow2(bits as nat),
    ensures
        r == sign_extend(imm as int, bits as nat),
{
    let k: u32 = (bits - 1) as u32;
    let half: u32 = 1u32 << k;
    proof {
        lemma_u32_pow2_no_overflow(k as nat);
        lemma_u64_pow2_no_overflow(bits as nat);
        lemma_u32_shl_is_mul(1, k);
        lemma_u64_shl_is_mul(1, bits as u64);
        lemma_pow2_unfold(bits as nat);
        assert(((imm as u64) < (1u64 << (k + 1) as u64) ==> ((imm & (1u32 << k) != 0) == (imm >= (
        1u32 << k)))) && (1u32 << k) <= 0x80000000) by (bit_vector)
            requires
                k < 32,
        ;
    }
    if imm & half != 0 {
        (imm as i64 - 2 * (half as i64)) as i32
    } else {
        imm as i32
    }
}

} // verus!
