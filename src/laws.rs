//! Encoding of well-formed records, and the laws that tie it to decoding.
use crate::instr::{
    b_decode, b_op_of, decode, i_decode, i_op_of, r_decode, r_op_of, s_decode, s_op_of, u_decode,
    BOp, DecodeError, IInstr, IOp, Instr, ROp, SOp, UOp,
};
use crate::repr::{
    funct3_of, funct7_of, imm_b_raw, imm_i_raw, imm_j_raw, imm_s_raw, imm_u_raw, opcode_of, rd_of,
    rs1_of, rs2_of,
};
use vstd::arithmetic::power2::lemma2_to64;
use vstd::prelude::*;

verus! {

// ---- well-formed records ----

impl IInstr {
    /// The immediates that an encoding can carry for this operation.
    pub open spec fn imm_fits(self) -> bool {
        let v = self.imm12 as int;
        match self.name {
            IOp::Sltiu => 0 <= v < 4096,
            IOp::Slli => 0 <= v < 32,
            IOp::Srli => 0 <= v < 64,
            IOp::Srai => 1024 <= v < 1088,
            _ => -2048 <= v < 2048,
        }
    }
}

impl Instr {
    /// Registers are below 32 and each immediate fits its format.
    pub open spec fn wf(self) -> bool {
        match self {
            Instr::R(r) => r.rd < 32 && r.rs1 < 32 && r.rs2 < 32,
            Instr::I(i) => i.rd < 32 && i.rs1 < 32 && i.imm_fits(),
            Instr::S(s) => s.rs1 < 32 && s.rs2 < 32 && -2048 <= s.imm12 < 2048,
            Instr::U(u) => u.rd < 32 && u.imm32 % 4096 == 0,
            Instr::B(b) => b.rs1 < 32 && b.rs2 < 32 && -4096 <= b.imm13 < 4096 && b.imm13 % 2 == 0,
            Instr::J(j) => j.rd < 32 && -0x100000 <= j.imm21 < 0x100000 && j.imm21 % 2 == 0,
        }
    }
}

// ---- function codes of each operation ----

/// (funct3, funct7) of an R-format operation.
pub open spec fn r_codes(op: ROp) -> (u32, u32) {
    match op {
        ROp::Add => (0, 0),
        ROp::Sub => (0, 0x20),
        ROp::Xor => (4, 0),
        ROp::Or => (6, 0),
        ROp::And => (7, 0),
        ROp::Sll => (1, 0),
        ROp::Srl => (5, 0),
        ROp::Sra => (5, 0x20),
        ROp::Slt => (2, 0),
        ROp::Sltu => (3, 0),
    }
}

/// (opcode, funct3) of an I-format operation.
pub open spec fn i_codes(op: IOp) -> (u32, u32) {
    match op {
        IOp::Addi => (0b0010011, 0),
        IOp::Xori => (0b0010011, 4),
        IOp::Ori => (0b0010011, 6),
        IOp::Andi => (0b0010011, 7),
        IOp::Slli => (0b0010011, 1),
        IOp::Srli => (0b0010011, 5),
        IOp::Srai => (0b0010011, 5),
        IOp::Slti => (0b0010011, 2),
        IOp::Sltiu => (0b0010011, 3),
        IOp::Lb => (0b0000011, 0),
        IOp::Lh => (0b0000011, 1),
        IOp::Lw => (0b0000011, 2),
        IOp::Ld => (0b0000011, 3),
        IOp::Lbu => (0b0000011, 4),
        IOp::Lhu => (0b0000011, 5),
        IOp::Lwu => (0b0000011, 6),
        IOp::Jalr => (0b1100111, 0),
    }
}

pub open spec fn s_funct3(op: SOp) -> u32 {
    match op {
        SOp::Sb => 0,
        SOp::Sh => 1,
        SOp::Sw => 2,
        SOp::Sd => 3,
    }
}

pub open spec fn u_opcode(op: UOp) -> u32 {
    match op {
        UOp::Lui => 0b0110111,
        UOp::Auipc => 0b0010111,
    }
}

pub open spec fn b_funct3(op: BOp) -> u32 {
    match op {
        BOp::Beq => 0,
        BOp::Bne => 1,
        BOp::Blt => 4,
        BOp::Bge => 5,
        BOp::Bltu => 6,
        BOp::Bgeu => 7,
    }
}

// ---- encoding ----

/// The low `2^width` residue of `v`, as the raw immediate bits hold it.
pub open spec fn raw_imm(v: int, width: nat) -> u32 {
    if v < 0 {
        (v + vstd::arithmetic::power2::pow2(width)) as u32
    } else {
        v as u32
    }
}

/// The R-type field layout, which I, S and B share.
pub open spec fn word(f7: u32, rs2: u32, rs1: u32, f3: u32, rd: u32, op: u32) -> u32 {
    (f7 << 25) | (rs2 << 20) | (rs1 << 15) | (f3 << 12) | (rd << 7) | op
}

pub open spec fn enc_i(raw: u32, rs1: u32, f3: u32, rd: u32, op: u32) -> u32 {
    word(raw >> 5, raw & 0x1f, rs1, f3, rd, op)
}

pub open spec fn enc_s(raw: u32, rs2: u32, rs1: u32, f3: u32) -> u32 {
    word(raw >> 5, rs2, rs1, f3, raw & 0x1f, 0b0100011)
}

pub open spec fn enc_b(raw: u32, rs2: u32, rs1: u32, f3: u32) -> u32 {
    word(
        ((raw >> 12) & 1) << 6 | ((raw >> 5) & 0x3f),
        rs2,
        rs1,
        f3,
        ((raw >> 1) & 0xf) << 1 | ((raw >> 11) & 1),
        0b1100011,
    )
}

pub open spec fn enc_u(raw: u32, rd: u32, op: u32) -> u32 {
    (raw & 0xfffff000) | (rd << 7) | op
}

pub open spec fn enc_j(raw: u32, rd: u32) -> u32 {
    (((raw >> 20) & 1) << 31) | (((raw >> 1) & 0x3ff) << 21) | (((raw >> 11) & 1) << 20) | (((raw
        >> 12) & 0xff) << 12) | (rd << 7) | 0b1101111
}

/// The raw word that encodes a record.
pub open spec fn encode(x: Instr) -> u32 {
    match x {
        Instr::R(r) => word(
            r_codes(r.name).1,
            r.rs2 as u32,
            r.rs1 as u32,
            r_codes(r.name).0,
            r.rd as u32,
            0b0110011,
        ),
        Instr::I(i) => enc_i(
            raw_imm(i.imm12 as int, 12),
            i.rs1 as u32,
            i_codes(i.name).1,
            i.rd as u32,
            i_codes(i.name).0,
        ),
        Instr::S(s) => enc_s(
            raw_imm(s.imm12 as int, 12),
            s.rs2 as u32,
            s.rs1 as u32,
            s_funct3(s.name),
        ),
        Instr::U(u) => enc_u(raw_imm(u.imm32 as int, 32), u.rd as u32, u_opcode(u.name)),
        Instr::B(b) => enc_b(
            raw_imm(b.imm13 as int, 13),
            b.rs2 as u32,
            b.rs1 as u32,
            b_funct3(b.name),
        ),
        Instr::J(j) => enc_j(raw_imm(j.imm21 as int, 21), j.rd as u32),
    }
}

// ---- bit-level facts about the layouts ----

proof fn lemma_word_fields(f7: u32, rs2: u32, rs1: u32, f3: u32, rd: u32, op: u32)
    by (bit_vector)
    requires
        f7 < 128,
        rs2 < 32,
        rs1 < 32,
        f3 < 8,
        rd < 32,
        op < 128,
    ensures
        opcode_of(word(f7, rs2, rs1, f3, rd, op)) == op,
        rd_of(word(f7, rs2, rs1, f3, rd, op)) == rd,
        funct3_of(word(f7, rs2, rs1, f3, rd, op)) == f3,
        rs1_of(word(f7, rs2, rs1, f3, rd, op)) == rs1,
        rs2_of(word(f7, rs2, rs1, f3, rd, op)) == rs2,
        funct7_of(word(f7, rs2, rs1, f3, rd, op)) == f7,
        imm_i_raw(word(f7, rs2, rs1, f3, rd, op)) == (f7 << 5) | rs2,
        imm_s_raw(word(f7, rs2, rs1, f3, rd, op)) == (f7 << 5) | rd,
        imm_b_raw(word(f7, rs2, rs1, f3, rd, op)) == ((f7 >> 6) << 12) | ((rd & 1) << 11) | ((f7
            & 0x3f) << 5) | ((rd >> 1) << 1),
{
}

proof fn lemma_raw_parts(raw: u32)
    by (bit_vector)
    requires
        raw < 8192,
    ensures
        raw < 4096 ==> raw >> 5 < 128 && raw & 0x1f < 32 && ((raw >> 5) << 5) | (raw & 0x1f) == raw,
        raw < 32 ==> raw >> 5 == 0,
        raw < 64 ==> (raw >> 5 == 0 || raw >> 5 == 1),
        1024 <= raw < 1088 ==> (raw >> 5 == 0x20 || raw >> 5 == 0x21),
        ((raw >> 12) & 1) << 6 | ((raw >> 5) & 0x3f) < 128,
        ((raw >> 1) & 0xf) << 1 | ((raw >> 11) & 1) < 32,
        raw & 1 == 0 ==> ((((raw >> 12) & 1) << 6 | ((raw >> 5) & 0x3f)) >> 6) << 12 | (((((raw
            >> 1) & 0xf) << 1 | ((raw >> 11) & 1)) & 1) << 11) | (((((raw >> 12) & 1) << 6 | ((
        raw >> 5) & 0x3f)) & 0x3f) << 5) | ((((((raw >> 1) & 0xf) << 1 | ((raw >> 11) & 1)) >> 1)
            << 1)) == raw,
{
}

proof fn lemma_u_fields(raw: u32, rd: u32, op: u32)
    by (bit_vector)
    requires
        rd < 32,
        op < 128,
    ensures
        opcode_of(enc_u(raw, rd, op)) == op,
        rd_of(enc_u(raw, rd, op)) == rd,
        imm_u_raw(enc_u(raw, rd, op)) == raw & 0xfffff000,
{
}

proof fn lemma_j_fields(raw: u32, rd: u32)
    by (bit_vector)
    requires
        rd < 32,
        raw < 0x200000,
        raw & 1 == 0,
    ensures
        opcode_of(enc_j(raw, rd)) == 0b1101111,
        rd_of(enc_j(raw, rd)) == rd,
        imm_j_raw(enc_j(raw, rd)) == raw,
{
}

proof fn lemma_even_low_bit(raw: u32)
    by (bit_vector)
    requires
        raw % 2 == 0,
    ensures
        raw & 1 == 0,
{
}

proof fn lemma_u_low_bits(raw: u32)
    by (bit_vector)
    requires
        raw % 4096 == 0,
    ensures
        raw & 0xfffff000 == raw,
{
}

proof fn lemma_field_ranges(w: u32)
    by (bit_vector)
    ensures
        rd_of(w) < 32,
        rs1_of(w) < 32,
        rs2_of(w) < 32,
        imm_i_raw(w) < 4096,
        imm_s_raw(w) < 4096,
        imm_b_raw(w) < 8192,
        imm_b_raw(w) % 2 == 0,
        imm_u_raw(w) % 4096 == 0,
        imm_j_raw(w) < 0x200000,
        imm_j_raw(w) % 2 == 0,
        funct7_of(w) == 0 ==> imm_i_raw(w) < 32,
        (funct7_of(w) == 0 || funct7_of(w) == 1) ==> imm_i_raw(w) < 64,
        (funct7_of(w) == 0x20 || funct7_of(w) == 0x21) ==> 1024 <= imm_i_raw(w) < 1088,
{
}

// ---- laws ----

/// Every record that decoding produces is well-formed.
pub proof fn lemma_decode_wf(w: u32)
    ensures
        decode(w) matches Ok(x) ==> x.wf(),
{
    lemma2_to64();
    lemma_field_ranges(w);
}


/// Decoding is total on the table: a word whose opcode names a format, and
/// whose function codes name an operation of that format, always decodes.
pub proof fn lemma_decode_total(w: u32)
    requires
        (opcode_of(w) == 0b0110011 && r_op_of(funct3_of(w), funct7_of(w)) is Some) || ((opcode_of(w)
            == 0b0010011 || opcode_of(w) == 0b0000011 || opcode_of(w) == 0b1100111) && i_op_of(
            opcode_of(w),
            funct3_of(w),
            funct7_of(w),
        ) is Some) || (opcode_of(w) == 0b0100011 && s_op_of(funct3_of(w)) is Some) || opcode_of(w)
            == 0b0110111 || opcode_of(w) == 0b0010111 || (opcode_of(w) == 0b1100011 && b_op_of(
            funct3_of(w),
        ) is Some) || opcode_of(w) == 0b1101111,
    ensures
        decode(w) is Ok,
{
}

/// Round trip: encoding a well-formed record and decoding the word gives
/// the record back, for every operation.
#[verifier::rlimit(50)]
pub proof fn lemma_round_trip(x: Instr)
    requires
        x.wf(),
    ensures
        decode(encode(x)) == Ok::<Instr, DecodeError>(x),
{
    lemma2_to64();
    match x {
        Instr::R(r) => {
            lemma_word_fields(
                r_codes(r.name).1,
                r.rs2 as u32,
                r.rs1 as u32,
                r_codes(r.name).0,
                r.rd as u32,
                0b0110011,
            );
            assert(r_decode(encode(x)) == Some(r));
        },
        Instr::I(i) => {
            let raw = raw_imm(i.imm12 as int, 12);
            lemma_raw_parts(raw);
            lemma_word_fields(
                raw >> 5,
                raw & 0x1f,
                i.rs1 as u32,
                i_codes(i.name).1,
                i.rd as u32,
                i_codes(i.name).0,
            );
            assert(i_decode(encode(x)) == Some(i));
        },
        Instr::S(s) => {
            let raw = raw_imm(s.imm12 as int, 12);
            lemma_raw_parts(raw);
            lemma_word_fields(raw >> 5, s.rs2 as u32, s.rs1 as u32, s_funct3(s.name), raw & 0x1f, 0b0100011);
            assert(s_decode(encode(x)) == Some(s));
        },
        Instr::U(u) => {
            let raw = raw_imm(u.imm32 as int, 32);
            lemma_u_low_bits(raw);
            lemma_u_fields(raw, u.rd as u32, u_opcode(u.name));
            assert(u_decode(encode(x)) == Some(u));
        },
        Instr::B(b) => {
            let raw = raw_imm(b.imm13 as int, 13);
            lemma_raw_parts(raw);
            lemma_even_low_bit(raw);
            lemma_word_fields(
                ((raw >> 12) & 1) << 6 | ((raw >> 5) & 0x3f),
                b.rs2 as u32,
                b.rs1 as u32,
                b_funct3(b.name),
                ((raw >> 1) & 0xf) << 1 | ((raw >> 11) & 1),
                0b1100011,
            );
            assert(b_decode(encode(x)) == Some(b));
        },
        Instr::J(j) => {
            let raw = raw_imm(j.imm21 as int, 21);
            lemma_even_low_bit(raw);
            lemma_j_fields(raw, j.rd as u32);
        },
    }
}

} // verus!
