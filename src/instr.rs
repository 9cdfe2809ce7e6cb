//! Instruction records: decoding from raw words and rendering as text.
use crate::repr::{
    funct3_of, funct7_of, imm_b_of, imm_i_of, imm_i_raw, imm_j_of, imm_s_of, imm_u_of, opcode_of,
    rd_of, rs1_of, rs2_of, Repr,
};
use crate::text::{dec, hex_digits, push_dec, push_hex_digits};
use vstd::prelude::*;
use vstd::string::*;

verus! {

/// An R-format (register-register) operation.
#[derive(Clone, Copy, Debug, PartialEq, Eq, Structural)]
pub enum ROp {
    Add,
    Sub,
    Xor,
    Or,
    And,
    Sll,
    Srl,
    Sra,
    Slt,
    Sltu,
}

impl ROp {
    pub open spec fn spec_name(self) -> Seq<char> {
        match self {
            ROp::Add => "add"@,
            ROp::Sub => "sub"@,
            ROp::Xor => "xor"@,
            ROp::Or => "or"@,
            ROp::And => "and"@,
            ROp::Sll => "sll"@,
            ROp::Srl => "srl"@,
            ROp::Sra => "sra"@,
            ROp::Slt => "slt"@,
            ROp::Sltu => "sltu"@,
        }
    }

    /// The assembly mnemonic.
    pub fn name(&self) -> (r: &'static str)
        ensures
            r@ == self.spec_name(),
    {
        match self {
            ROp::Add => "add",
            ROp::Sub => "sub",
            ROp::Xor => "xor",
            ROp::Or => "or",
            ROp::And => "and",
            ROp::Sll => "sll",
            ROp::Srl => "srl",
            ROp::Sra => "sra",
            ROp::Slt => "slt",
            ROp::Sltu => "sltu",
        }
    }
}

/// An I-format operation: immediate arithmetic, a load, or `jalr`.
#[derive(Clone, Copy, Debug, PartialEq, Eq, Structural)]
pub enum IOp {
    Addi,
    Xori,
    Ori,
    Andi,
    Slli,
    Srli,
    Srai,
    Slti,
    Sltiu,
    Lb,
    Lh,
    Lw,
    Ld,
    Lbu,
    Lhu,
    Lwu,
    Jalr,
}

impl IOp {
    pub open spec fn spec_name(self) -> Seq<char> {
        match self {
            IOp::Addi => "addi"@,
            IOp::Xori => "xori"@,
            IOp::Ori => "ori"@,
            IOp::Andi => "andi"@,
            IOp::Slli => "slli"@,
            IOp::Srli => "srli"@,
            IOp::Srai => "srai"@,
            IOp::Slti => "slti"@,
            IOp::Sltiu => "sltiu"@,
            IOp::Lb => "lb"@,
            IOp::Lh => "lh"@,
            IOp::Lw => "lw"@,
            IOp::Ld => "ld"@,
            IOp::Lbu => "lbu"@,
            IOp::Lhu => "lhu"@,
            IOp::Lwu => "lwu"@,
            IOp::Jalr => "jalr"@,
        }
    }

    /// The assembly mnemonic.
    pub fn name(&self) -> (r: &'static str)
        ensures
            r@ == self.spec_name(),
    {
        match self {
            IOp::Addi => "addi",
            IOp::Xori => "xori",
            IOp::Ori => "ori",
            IOp::Andi => "andi",
            IOp::Slli => "slli",
            IOp::Srli => "srli",
            IOp::Srai => "srai",
            IOp::Slti => "slti",
            IOp::Sltiu => "sltiu",
            IOp::Lb => "lb",
            IOp::Lh => "lh",
            IOp::Lw => "lw",
            IOp::Ld => "ld",
            IOp::Lbu => "lbu",
            IOp::Lhu => "lhu",
            IOp::Lwu => "lwu",
            IOp::Jalr => "jalr",
        }
    }
}

/// An S-format store, by width.
#[derive(Clone, Copy, Debug, PartialEq, Eq, Structural)]
pub enum SOp {
    Sb,
    Sh,
    Sw,
    Sd,
}

impl SOp {
    pub open spec fn spec_name(self) -> Seq<char> {
        match self {
            SOp::Sb => "sb"@,
            SOp::Sh => "sh"@,
            SOp::Sw => "sw"@,
            SOp::Sd => "sd"@,
        }
    }

    /// The assembly mnemonic.
    pub fn name(&self) -> (r: &'static str)
        ensures
            r@ == self.spec_name(),
    {
        match self {
            SOp::Sb => "sb",
            SOp::Sh => "sh",
            SOp::Sw => "sw",
            SOp::Sd => "sd",
        }
    }
}

/// A U-format upper-immediate operation.
#[derive(Clone, Copy, Debug, PartialEq, Eq, Structural)]
pub enum UOp {
    Lui,
    Auipc,
}

impl UOp {
    pub open spec fn spec_name(self) -> Seq<char> {
        match self {
            UOp::Lui => "lui"@,
            UOp::Auipc => "auipc"@,
        }
    }

    /// The assembly mnemonic.
    pub fn name(&self) -> (r: &'static str)
        ensures
            r@ == self.spec_name(),
    {
        match self {
            UOp::Lui => "lui",
            UOp::Auipc => "auipc",
        }
    }
}

/// A B-format branch condition.
#[derive(Clone, Copy, Debug, PartialEq, Eq, Structural)]
pub enum BOp {
    Beq,
    Bne,
    Blt,
    Bge,
    Bltu,
    Bgeu,
}

impl BOp {
    pub open spec fn spec_name(self) -> Seq<char> {
        match self {
            BOp::Beq => "beq"@,
            BOp::Bne => "bne"@,
            BOp::Blt => "blt"@,
            BOp::Bge => "bge"@,
            BOp::Bltu => "bltu"@,
            BOp::Bgeu => "bgeu"@,
        }
    }

    /// The assembly mnemonic.
    pub fn name(&self) -> (r: &'static str)
        ensures
            r@ == self.spec_name(),
    {
        match self {
            BOp::Beq => "beq",
            BOp::Bne => "bne",
            BOp::Blt => "blt",
            BOp::Bge => "bge",
            BOp::Bltu => "bltu",
            BOp::Bgeu => "bgeu",
        }
    }
}

impl IOp {
    /// The loads, rendered with `offset(base)` addressing.
    pub open spec fn spec_is_load(self) -> bool {
        matches!(self, IOp::Lb | IOp::Lh | IOp::Lw | IOp::Ld | IOp::Lbu | IOp::Lhu | IOp::Lwu)
    }

    /// The shift-by-immediate operations, whose operand is a shift amount.
    pub open spec fn spec_is_shift(self) -> bool {
        matches!(self, IOp::Slli | IOp::Srli | IOp::Srai)
    }

    pub fn is_load(&self) -> (r: bool)
        ensures
            r == self.spec_is_load(),
    {
        matches!(self, IOp::Lb | IOp::Lh | IOp::Lw | IOp::Ld | IOp::Lbu | IOp::Lhu | IOp::Lwu)
    }

    pub fn is_shift(&self) -> (r: bool)
        ensures
            r == self.spec_is_shift(),
    {
        matches!(self, IOp::Slli | IOp::Srli | IOp::Srai)
    }
}

/// Why a raw word could not be decoded; each carries the word.
#[derive(Clone, Copy, Debug, PartialEq, Eq, Structural)]
pub enum DecodeError {
    /// The 7-bit opcode names no instruction format.
    UnrecognizedOpcode(u32),
    /// The opcode is known, but its funct3/funct7 fields name no operation.
    UnrecognizedFunct(u32),
}

#[derive(Clone, Copy, Debug, PartialEq, Eq, Structural)]
pub struct RInstr {
    pub name: ROp,
    pub rs1: u8,
    pub rs2: u8,
    pub rd: u8,
}

#[derive(Clone, Copy, Debug, PartialEq, Eq, Structural)]
pub struct IInstr {
    pub name: IOp,
    pub rs1: u8,
    pub rd: u8,
    pub imm12: i16,
}

#[derive(Clone, Copy, Debug, PartialEq, Eq, Structural)]
pub struct SInstr {
    pub name: SOp,
    pub rs1: u8,
    pub rs2: u8,
    pub imm12: i16,
}

#[derive(Clone, Copy, Debug, PartialEq, Eq, Structural)]
pub struct UInstr {
    pub name: UOp,
    pub rd: u8,
    pub imm32: i32,
}

#[derive(Clone, Copy, Debug, PartialEq, Eq, Structural)]
pub struct BInstr {
    pub name: BOp,
    pub rs1: u8,
    pub rs2: u8,
    pub imm13: i16,
}

/// A `jal` instruction.
#[derive(Clone, Copy, Debug, PartialEq, Eq, Structural)]
pub struct JInstr {
    pub rd: u8,
    pub imm21: i32,
}

/// A decoded instruction, one variant per encoding format.
#[derive(Clone, Copy, Debug, PartialEq, Eq, Structural)]
pub enum Instr {
    R(RInstr),
    I(IInstr),
    S(SInstr),
    U(UInstr),
    B(BInstr),
    J(JInstr),
}

// ---- mnemonic tables ----

pub open spec fn r_op_of(f3: u32, f7: u32) -> Option<ROp> {
    if f3 == 0 && f7 == 0 {
        Some(ROp::Add)
    } else if f3 == 0 && f7 == 0x20 {
        Some(ROp::Sub)
    } else if f3 == 4 && f7 == 0 {
        Some(ROp::Xor)
    } else if f3 == 6 && f7 == 0 {
        Some(ROp::Or)
    } else if f3 == 7 && f7 == 0 {
        Some(ROp::And)
    } else if f3 == 1 && f7 == 0 {
        Some(ROp::Sll)
    } else if f3 == 5 && f7 == 0 {
        Some(ROp::Srl)
    } else if f3 == 5 && f7 == 0x20 {
        Some(ROp::Sra)
    } else if f3 == 2 && f7 == 0 {
        Some(ROp::Slt)
    } else if f3 == 3 && f7 == 0 {
        Some(ROp::Sltu)
    } else {
        None
    }
}

/// I-format operations; bit 0 of funct7 (shift amount bit 5) is ignored
/// for the right shifts.
pub open spec fn i_op_of(op: u32, f3: u32, f7: u32) -> Option<IOp> {
    if op == 0b0010011 {
        if f3 == 0 {
            Some(IOp::Addi)
        } else if f3 == 4 {
            Some(IOp::Xori)
        } else if f3 == 6 {
            Some(IOp::Ori)
        } else if f3 == 7 {
            Some(IOp::Andi)
        } else if f3 == 1 {
            if f7 == 0 { Some(IOp::Slli) } else { None }
        } else if f3 == 5 {
            if f7 == 0 || f7 == 1 {
                Some(IOp::Srli)
            } else if f7 == 0x20 || f7 == 0x21 {
                Some(IOp::Srai)
            } else {
                None
            }
        } else if f3 == 2 {
            Some(IOp::Slti)
        } else if f3 == 3 {
            Some(IOp::Sltiu)
        } else {
            None
        }
    } else if op == 0b0000011 {
        if f3 == 0 {
            Some(IOp::Lb)
        } else if f3 == 1 {
            Some(IOp::Lh)
        } else if f3 == 2 {
            Some(IOp::Lw)
        } else if f3 == 3 {
            Some(IOp::Ld)
        } else if f3 == 4 {
            Some(IOp::Lbu)
        } else if f3 == 5 {
            Some(IOp::Lhu)
        } else if f3 == 6 {
            Some(IOp::Lwu)
        } else {
            None
        }
    } else if op == 0b1100111 && f3 == 0 {
        Some(IOp::Jalr)
    } else {
        None
    }
}

pub open spec fn s_op_of(f3: u32) -> Option<SOp> {
    if f3 == 0 {
        Some(SOp::Sb)
    } else if f3 == 1 {
        Some(SOp::Sh)
    } else if f3 == 2 {
        Some(SOp::Sw)
    } else if f3 == 3 {
        Some(SOp::Sd)
    } else {
        None
    }
}

pub open spec fn u_op_of(op: u32) -> Option<UOp> {
    if op == 0b0110111 {
        Some(UOp::Lui)
    } else if op == 0b0010111 {
        Some(UOp::Auipc)
    } else {
        None
    }
}

pub open spec fn b_op_of(f3: u32) -> Option<BOp> {
    if f3 == 0 {
        Some(BOp::Beq)
    } else if f3 == 1 {
        Some(BOp::Bne)
    } else if f3 == 4 {
        Some(BOp::Blt)
    } else if f3 == 5 {
        Some(BOp::Bge)
    } else if f3 == 6 {
        Some(BOp::Bltu)
    } else if f3 == 7 {
        Some(BOp::Bgeu)
    } else {
        None
    }
}

// ---- decoding ----

pub open spec fn r_decode(w: u32) -> Option<RInstr> {
    match r_op_of(funct3_of(w), funct7_of(w)) {
        Some(name) => Some(
            RInstr { name, rs1: rs1_of(w) as u8, rs2: rs2_of(w) as u8, rd: rd_of(w) as u8 },
        ),
        None => None,
    }
}

pub open spec fn i_decode(w: u32) -> Option<IInstr> {
    match i_op_of(opcode_of(w), funct3_of(w), funct7_of(w)) {
        Some(name) => Some(
            IInstr {
                name,
                rs1: rs1_of(w) as u8,
                rd: rd_of(w) as u8,
                imm12: if name == IOp::Sltiu {
                    imm_i_raw(w) as i16
                } else {
                    imm_i_of(w) as i16
                },
            },
        ),
        None => None,
    }
}

pub open spec fn s_decode(w: u32) -> Option<SInstr> {
    match s_op_of(funct3_of(w)) {
        Some(name) => Some(
            SInstr { name, rs1: rs1_of(w) as u8, rs2: rs2_of(w) as u8, imm12: imm_s_of(w) as i16 },
        ),
        None => None,
    }
}

pub open spec fn u_decode(w: u32) -> Option<UInstr> {
    match u_op_of(opcode_of(w)) {
        Some(name) => Some(UInstr { name, rd: rd_of(w) as u8, imm32: imm_u_of(w) as i32 }),
        None => None,
    }
}

pub open spec fn b_decode(w: u32) -> Option<BInstr> {
    match b_op_of(funct3_of(w)) {
        Some(name) => Some(
            BInstr { name, rs1: rs1_of(w) as u8, rs2: rs2_of(w) as u8, imm13: imm_b_of(w) as i16 },
        ),
        None => None,
    }
}

pub open spec fn j_decode(w: u32) -> JInstr {
    JInstr { rd: rd_of(w) as u8, imm21: imm_j_of(w) as i32 }
}

/// Wraps a format decoder's outcome: a missing operation is a bad function code.
pub open spec fn funct_result<T>(w: u32, r: Option<T>, f: spec_fn(T) -> Instr) -> Result<
    Instr,
    DecodeError,
> {
    match r {
        Some(x) => Ok(f(x)),
        None => Err(DecodeError::UnrecognizedFunct(w)),
    }
}

/// What a raw word decodes to: the format is chosen by the opcode.
pub open spec fn decode(w: u32) -> Result<Instr, DecodeError> {
    let op = opcode_of(w);
    if op == 0b0110011 {
        funct_result(w, r_decode(w), |x| Instr::R(x))
    } else if op == 0b0010011 || op == 0b0000011 || op == 0b1100111 {
        funct_result(w, i_decode(w), |x| Instr::I(x))
    } else if op == 0b0100011 {
        funct_result(w, s_decode(w), |x| Instr::S(x))
    } else if op == 0b0110111 || op == 0b0010111 {
        funct_result(w, u_decode(w), |x| Instr::U(x))
    } else if op == 0b1100011 {
        funct_result(w, b_decode(w), |x| Instr::B(x))
    } else if op == 0b1101111 {
        Ok(Instr::J(j_decode(w)))
    } else {
        Err(DecodeError::UnrecognizedOpcode(w))
    }
}

// ---- text ----

/// The signed word-index distance of a byte offset, rounded toward zero.
pub open spec fn word_offset(off: int) -> int {
    if off >= 0 {
        off / 4
    } else {
        -((-off) / 4)
    }
}

/// The program index that an offset taken at index `line` reaches.
pub open spec fn target_index(line: int, off: int) -> int {
    line + word_offset(off)
}

pub open spec fn reg(r: u8) -> Seq<char> {
    "x"@ + dec(r as int)
}

/// `off(xN)` addressing.
pub open spec fn addr(off: int, base: u8) -> Seq<char> {
    dec(off) + "("@ + reg(base) + ")"@
}

pub open spec fn label(i: int) -> Seq<char> {
    "L"@ + dec(i)
}

impl RInstr {
    pub open spec fn text(self) -> Seq<char> {
        self.name.spec_name() + " "@ + reg(self.rd) + ", "@ + reg(self.rs1) + ", "@ + reg(self.rs2)
    }
}

impl IInstr {
    /// The immediate as shown: shifts show only the low six bits.
    pub open spec fn shown_imm(self) -> int {
        if self.name.spec_is_shift() {
            (self.imm12 as int) % 64
        } else {
            self.imm12 as int
        }
    }

    pub open spec fn text(self) -> Seq<char> {
        if self.name.spec_is_load() || self.name == IOp::Jalr {
            self.name.spec_name() + " "@ + reg(self.rd) + ", "@ + addr(self.imm12 as int, self.rs1)
        } else {
            self.name.spec_name() + " "@ + reg(self.rd) + ", "@ + reg(self.rs1) + ", "@ + dec(
                self.shown_imm(),
            )
        }
    }
}

impl SInstr {
    pub open spec fn text(self) -> Seq<char> {
        self.name.spec_name() + " "@ + reg(self.rs2) + ", "@ + addr(self.imm12 as int, self.rs1)
    }
}

impl UInstr {
    /// The upper 20 bits of the immediate, as the raw field holds them.
    pub open spec fn upper(self) -> nat {
        ((self.imm32 as u32) / 4096) as nat
    }

    pub open spec fn text(self) -> Seq<char> {
        self.name.spec_name() + " "@ + reg(self.rd) + ", 0x"@ + hex_digits(self.upper())
    }
}

impl BInstr {
    pub open spec fn head(self) -> Seq<char> {
        self.name.spec_name() + " "@ + reg(self.rs1) + ", "@ + reg(self.rs2) + ", "@
    }

    pub open spec fn text(self) -> Seq<char> {
        self.head() + dec(self.imm13 as int)
    }

    pub open spec fn text_labelled(self, line: int) -> Seq<char> {
        self.head() + label(target_index(line, self.imm13 as int))
    }
}

impl JInstr {
    pub open spec fn head(self) -> Seq<char> {
        "jal "@ + reg(self.rd) + ", "@
    }

    pub open spec fn text(self) -> Seq<char> {
        self.head() + dec(self.imm21 as int)
    }

    pub open spec fn text_labelled(self, line: int) -> Seq<char> {
        self.head() + label(target_index(line, self.imm21 as int))
    }
}

impl Instr {
    pub open spec fn text(self) -> Seq<char> {
        match self {
            Instr::R(r) => r.text(),
            Instr::I(i) => i.text(),
            Instr::S(s) => s.text(),
            Instr::U(u) => u.text(),
            Instr::B(b) => b.text(),
            Instr::J(j) => j.text(),
        }
    }

    pub open spec fn text_labelled(self, line: int) -> Seq<char> {
        match self {
            Instr::B(b) => b.text_labelled(line),
            Instr::J(j) => j.text_labelled(line),
            _ => self.text(),
        }
    }

    /// The byte offset of a branch or jump.
    pub open spec fn spec_offset(self) -> Option<int> {
        match self {
            Instr::B(b) => Some(b.imm13 as int),
            Instr::J(j) => Some(j.imm21 as int),
            _ => None,
        }
    }
}

// ---- executable decoding and rendering ----

fn push_reg(s: &mut String, r: u8)
    ensures
        final(s)@ == old(s)@ + reg(r),
{
    s.append("x");
    push_dec(s, r as i64);
    assert(final(s)@ =~= old(s)@ + reg(r));
}

fn push_addr(s: &mut String, off: i64, base: u8)
    requires
        off > i64::MIN,
    ensures
        final(s)@ == old(s)@ + addr(off as int, base),
{
    push_dec(s, off);
    s.append("(");
    push_reg(s, base);
    s.append(")");
    assert(final(s)@ =~= old(s)@ + addr(off as int, base));
}

fn push_label(s: &mut String, line: i32, off: i32)
    ensures
        final(s)@ == old(s)@ + label(target_index(line as int, off as int)),
{
    let q: i64 = if off >= 0 {
        off as i64 / 4
    } else {
        -((-(off as i64)) / 4)
    };
    s.append("L");
    push_dec(s, line as i64 + q);
    assert(final(s)@ =~= old(s)@ + label(target_index(line as int, off as int)));
}

impl RInstr {
    pub fn from_u32(instr: u32) -> (r: Option<Self>)
        ensures
            r == r_decode(instr),
    {
        let instr = Repr(instr);
        let name = match (instr.funct3(), instr.funct7()) {
            (0x0, 0x00) => ROp::Add,
            (0x0, 0x20) => ROp::Sub,
            (0x4, 0x00) => ROp::Xor,
            (0x6, 0x00) => ROp::Or,
            (0x7, 0x00) => ROp::And,
            (0x1, 0x00) => ROp::Sll,
            (0x5, 0x00) => ROp::Srl,
            (0x5, 0x20) => ROp::Sra,
            (0x2, 0x00) => ROp::Slt,
            (0x3, 0x00) => ROp::Sltu,
            _ => return None,
        };
        Some(Self { name, rs1: instr.rs1(), rs2: instr.rs2(), rd: instr.rd() })
    }

    pub fn to_string(&self) -> (r: String)
        ensures
            r@ == self.text(),
    {
        let mut s = String::new();
        s.append(self.name.name());
        s.append(" ");
        push_reg(&mut s, self.rd);
        s.append(", ");
        push_reg(&mut s, self.rs1);
        s.append(", ");
        push_reg(&mut s, self.rs2);
        assert(s@ =~= self.text());
        s
    }
}

/// funct7 of a right shift with its lowest bit (shift amount bit 5) cleared.
fn shift_kind(f7: u8) -> (r: u8)
    requires
        f7 < 128,
    ensures
        r == 0 <==> (f7 == 0 || f7 == 1),
        r == 0x20 <==> (f7 == 0x20 || f7 == 0x21),
{
    assert((f7 & !1u8) == 0 <==> (f7 == 0 || f7 == 1)) by (bit_vector);
    assert((f7 & !1u8) == 0x20 <==> (f7 == 0x20 || f7 == 0x21)) by (bit_vector);
    f7 & !1
}

impl IInstr {
    fn operand(&self) -> (r: i64)
        ensures
            r == self.shown_imm(),
            r > i64::MIN,
    {
        if self.name.is_shift() {
            (self.imm12 as i64 + 65536) % 64
        } else {
            self.imm12 as i64
        }
    }

    pub fn from_u32(instr: u32) -> (r: Option<Self>)
        ensures
            r == i_decode(instr),
    {
        let instr = Repr(instr);
        let opcode = instr.opcode();
        let name = if opcode == 0b0010011 {
            match instr.funct3() {
                0x0 => IOp::Addi,
                0x4 => IOp::Xori,
                0x6 => IOp::Ori,
                0x7 => IOp::Andi,
                0x1 => {
                    if instr.funct7() == 0x00 {
                        IOp::Slli
                    } else {
                        return None;
                    }
                },
                0x5 => match shift_kind(instr.funct7()) {
                    0x00 => IOp::Srli,
                    0x20 => IOp::Srai,
                    _ => return None,
                },
                0x2 => IOp::Slti,
                0x3 => IOp::Sltiu,
                _ => return None,
            }
        } else if opcode == 0b0000011 {
            match instr.funct3() {
                0x0 => IOp::Lb,
                0x1 => IOp::Lh,
                0x2 => IOp::Lw,
                0x3 => IOp::Ld,
                0x4 => IOp::Lbu,
                0x5 => IOp::Lhu,
                0x6 => IOp::Lwu,
                _ => return None,
            }
        } else if opcode == 0b1100111 && instr.funct3() == 0 {
            IOp::Jalr
        } else {
            return None;
        };
        let imm12 = if name == IOp::Sltiu {
            instr.imm_iu()
        } else {
            instr.imm_i()
        };
        Some(Self { name, rs1: instr.rs1(), rd: instr.rd(), imm12 })
    }

    pub fn to_string(&self) -> (r: String)
        ensures
            r@ == self.text(),
    {
        let mut s = String::new();
        s.append(self.name.name());
        s.append(" ");
        push_reg(&mut s, self.rd);
        s.append(", ");
        if self.name.is_load() || self.name == IOp::Jalr {
            push_addr(&mut s, self.imm12 as i64, self.rs1);
        } else {
            push_reg(&mut s, self.rs1);
            s.append(", ");
            push_dec(&mut s, self.operand());
        }
        assert(s@ =~= self.text());
        s
    }
}

impl SInstr {
    pub fn from_u32(instr: u32) -> (r: Option<Self>)
        ensures
            r == s_decode(instr),
    {
        let instr = Repr(instr);
        let name = match instr.funct3() {
            0x0 => SOp::Sb,
            0x1 => SOp::Sh,
            0x2 => SOp::Sw,
            0x3 => SOp::Sd,
            _ => return None,
        };
        Some(Self { name, rs1: instr.rs1(), rs2: instr.rs2(), imm12: instr.imm_s() })
    }

    pub fn to_string(&self) -> (r: String)
        ensures
            r@ == self.text(),
    {
        let mut s = String::new();
        s.append(self.name.name());
        s.append(" ");
        push_reg(&mut s, self.rs2);
        s.append(", ");
        push_addr(&mut s, self.imm12 as i64, self.rs1);
        assert(s@ =~= self.text());
        s
    }
}

impl UInstr {
    pub fn from_u32(instr: u32) -> (r: Option<Self>)
        ensures
            r == u_decode(instr),
    {
        let instr = Repr(instr);
        let name = match instr.opcode() {
            0b0110111 => UOp::Lui,
            0b0010111 => UOp::Auipc,
            _ => return None,
        };
        Some(Self { name, rd: instr.rd(), imm32: instr.imm_u() })
    }

    pub fn to_string(&self) -> (r: String)
        ensures
            r@ == self.text(),
    {
        let mut s = String::new();
        s.append(self.name.name());
        s.append(" ");
        push_reg(&mut s, self.rd);
        s.append(", 0x");
        push_hex_digits(&mut s, ((self.imm32 as u32) / 4096) as u64);
        assert(s@ =~= self.text());
        s
    }
}

impl BInstr {
    pub fn from_u32(instr: u32) -> (r: Option<Self>)
        ensures
            r == b_decode(instr),
    {
        let instr = Repr(instr);
        let name = match instr.funct3() {
            0x0 => BOp::Beq,
            0x1 => BOp::Bne,
            0x4 => BOp::Blt,
            0x5 => BOp::Bge,
            0x6 => BOp::Bltu,
            0x7 => BOp::Bgeu,
            _ => return None,
        };
        Some(Self { name, rs1: instr.rs1(), rs2: instr.rs2(), imm13: instr.imm_b() })
    }

    fn push_head(&self, s: &mut String)
        ensures
            final(s)@ == old(s)@ + self.head(),
    {
        s.append(self.name.name());
        s.append(" ");
        push_reg(s, self.rs1);
        s.append(", ");
        push_reg(s, self.rs2);
        s.append(", ");
        assert(final(s)@ =~= old(s)@ + self.head());
    }

    pub fn to_string(&self) -> (r: String)
        ensures
            r@ == self.text(),
    {
        let mut s = String::new();
        self.push_head(&mut s);
        push_dec(&mut s, self.imm13 as i64);
        assert(s@ =~= self.text());
        s
    }

    pub fn to_string_labelled(&self, curr_line: i32) -> (r: String)
        ensures
            r@ == self.text_labelled(curr_line as int),
    {
        let mut s = String::new();
        self.push_head(&mut s);
        push_label(&mut s, curr_line, self.imm13 as i32);
        assert(s@ =~= self.text_labelled(curr_line as int));
        s
    }
}

impl JInstr {
    pub fn from_u32(instr: u32) -> (r: Self)
        ensures
            r == j_decode(instr),
    {
        let instr = Repr(instr);
        Self { rd: instr.rd(), imm21: instr.imm_j() }
    }

    fn push_head(&self, s: &mut String)
        ensures
            final(s)@ == old(s)@ + self.head(),
    {
        s.append("jal ");
        push_reg(s, self.rd);
        s.append(", ");
        assert(final(s)@ =~= old(s)@ + self.head());
    }

    pub fn to_string(&self) -> (r: String)
        ensures
            r@ == self.text(),
    {
        let mut s = String::new();
        self.push_head(&mut s);
        push_dec(&mut s, self.imm21 as i64);
        assert(s@ =~= self.text());
        s
    }

    pub fn to_string_labelled(&self, curr_line: i32) -> (r: String)
        ensures
            r@ == self.text_labelled(curr_line as int),
    {
        let mut s = String::new();
        self.push_head(&mut s);
        push_label(&mut s, curr_line, self.imm21);
        assert(s@ =~= self.text_labelled(curr_line as int));
        s
    }
}

impl Instr {
    /// Decodes a raw word, or says why it cannot be decoded.
    pub fn from_u32(instr: u32) -> (r: Result<Self, DecodeError>)
        ensures
            r == decode(instr),
    {
        match Repr(instr).opcode() {
            0b0110011 => match RInstr::from_u32(instr) {
                Some(x) => Ok(Instr::R(x)),
                None => Err(DecodeError::UnrecognizedFunct(instr)),
            },
            0b0010011 | 0b0000011 | 0b1100111 => match IInstr::from_u32(instr) {
                Some(x) => Ok(Instr::I(x)),
                None => Err(DecodeError::UnrecognizedFunct(instr)),
            },
            0b0100011 => match SInstr::from_u32(instr) {
                Some(x) => Ok(Instr::S(x)),
                None => Err(DecodeError::UnrecognizedFunct(instr)),
            },
            0b0110111 | 0b0010111 => match UInstr::from_u32(instr) {
                Some(x) => Ok(Instr::U(x)),
                None => Err(DecodeError::UnrecognizedFunct(instr)),
            },
            0b1100011 => match BInstr::from_u32(instr) {
                Some(x) => Ok(Instr::B(x)),
                None => Err(DecodeError::UnrecognizedFunct(instr)),
            },
            0b1101111 => Ok(Instr::J(JInstr::from_u32(instr))),
            _ => Err(DecodeError::UnrecognizedOpcode(instr)),
        }
    }

    pub fn to_string(&self) -> (r: String)
        ensures
            r@ == self.text(),
    {
        match self {
            Instr::R(r) => r.to_string(),
            Instr::I(i) => i.to_string(),
            Instr::S(s) => s.to_string(),
            Instr::U(u) => u.to_string(),
            Instr::B(b) => b.to_string(),
            Instr::J(j) => j.to_string(),
        }
    }

    /// Renders with branch and jump offsets as labels of the reached index.
    pub fn to_string_labelled(&self, curr_line: i32) -> (r: String)
        ensures
            r@ == self.text_labelled(curr_line as int),
    {
        match self {
            Instr::B(b) => b.to_string_labelled(curr_line),
            Instr::J(j) => j.to_string_labelled(curr_line),
            _ => self.to_string(),
        }
    }

    /// For a branch or jump, its byte offset.
    pub fn offset(&self) -> (r: Option<i32>)
        ensures
            r matches Some(o) ==> self.spec_offset() == Some(o as int),
            r is None ==> self.spec_offset() is None,
    {
        match self {
            Instr::B(b) => Some(b.imm13 as i32),
            Instr::J(j) => Some(j.imm21),
            _ => None,
        }
    }
}

} // verus!
