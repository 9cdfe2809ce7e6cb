use rv_disasm::instr::{BOp, DecodeError, IInstr, IOp, Instr, ROp};
use rv_disasm::listing::{label_targets, render, render_labelled, render_unlabelled, Mode};
use rv_disasm::repr::{make_imm_signed, Repr};

fn text(w: u32) -> String {
    Instr::from_u32(w).unwrap().to_string()
}

#[test]
fn add_all_zero_registers() {
    match Instr::from_u32(0x0000_0033) {
        Ok(Instr::R(r)) => {
            assert_eq!(r.name, ROp::Add);
            assert_eq!(r.name.name(), "add");
            assert_eq!((r.rd, r.rs1, r.rs2), (0, 0, 0));
        }
        _ => panic!("expected an R record"),
    }
    assert_eq!(text(0x0000_0033), "add x0, x0, x0");
}

#[test]
fn addi_one() {
    match Instr::from_u32(0x0010_0093) {
        Ok(Instr::I(i)) => {
            assert_eq!(i.name.name(), "addi");
            assert_eq!((i.rd, i.rs1, i.imm12), (1, 0, 1));
        }
        _ => panic!("expected an I record"),
    }
    assert_eq!(text(0x0010_0093), "addi x1, x0, 1");
}

#[test]
fn i_immediate_all_ones_is_minus_one() {
    assert_eq!(Repr(0xFFF0_0013).imm_i(), -1);
    assert_eq!(text(0xFFF0_0013), "addi x0, x0, -1");
}

#[test]
fn sltiu_zero_extends() {
    assert_eq!(text(0xFFF0_3013), "sltiu x0, x0, 4095");
}

#[test]
fn branch_minus_four() {
    assert_eq!(Repr(0xFE00_0EE3).imm_b(), -4);
    match Instr::from_u32(0xFE00_0EE3) {
        Ok(Instr::B(b)) => {
            assert_eq!(b.name, BOp::Beq);
            assert_eq!(b.imm13, -4);
        }
        _ => panic!("expected a B record"),
    }
    assert_eq!(text(0xFE00_0EE3), "beq x0, x0, -4");
}

#[test]
fn slli_shows_low_six_bits() {
    let i = IInstr { name: IOp::Slli, rs1: 2, rd: 1, imm12: 65 };
    assert_eq!(i.to_string(), "slli x1, x2, 1");
}

#[test]
fn srai_shows_shift_amount() {
    assert_eq!(text(0x4030_D093), "srai x1, x1, 3");
}

#[test]
fn other_formats_render() {
    assert_eq!(text(0x1234_50B7), "lui x1, 0x12345");
    assert_eq!(text(0xFFFF_F0B7), "lui x1, 0xfffff");
    assert_eq!(text(0x0080_00EF), "jal x1, 8");
    assert_eq!(text(0x0020_A423), "sw x2, 8(x1)");
    assert_eq!(text(0x0041_2083), "lw x1, 4(x2)");
    assert_eq!(text(0x0000_8067), "jalr x0, 0(x1)");
}

#[test]
fn unrecognized_opcode() {
    assert_eq!(Instr::from_u32(0x0000_007F), Err(DecodeError::UnrecognizedOpcode(0x7F)));
}

#[test]
fn unrecognized_funct() {
    assert_eq!(
        Instr::from_u32(0x0200_0033),
        Err(DecodeError::UnrecognizedFunct(0x0200_0033))
    );
    assert_eq!(
        Instr::from_u32(0x0000_4023),
        Err(DecodeError::UnrecognizedFunct(0x0000_4023))
    );
}

#[test]
fn sign_extension_helper() {
    assert_eq!(make_imm_signed(0xFFF, 12), -1);
    assert_eq!(make_imm_signed(0x7FF, 12), 2047);
    assert_eq!(make_imm_signed(0x1000, 13), -4096);
}

#[test]
fn decode_is_repeatable() {
    for w in [0x0000_0033u32, 0x0010_0093, 0xFE00_0EE3, 0x0000_007F] {
        assert_eq!(Instr::from_u32(w), Instr::from_u32(w));
    }
}

fn program(words: &[u32]) -> Vec<Instr> {
    words.iter().map(|w| Instr::from_u32(*w).unwrap()).collect()
}

#[test]
fn backward_branch_out_of_program_has_no_label() {
    let p = program(&[0xFE00_0EE3]);
    assert_eq!(render_labelled(&p), vec!["  beq x0, x0, -4".to_string()]);
}

#[test]
fn forward_branch_gets_label() {
    let p = program(&[0x0000_0263, 0x0010_0093]);
    assert_eq!(
        render_labelled(&p),
        vec!["  beq x0, x0, L1".to_string(), "L1:".to_string(), "  addi x1, x0, 1".to_string()]
    );
    assert_eq!(
        render(&p, Mode::Unlabelled),
        vec!["beq x0, x0, 4".to_string(), "addi x1, x0, 1".to_string()]
    );
}

#[test]
fn shared_target_declared_once() {
    let p = program(&[0x0000_0463, 0x0000_0263, 0x0010_0093]);
    assert_eq!(label_targets(&p), vec![false, false, true]);
    let lines = render(&p, Mode::Labelled);
    assert_eq!(lines.iter().filter(|l| l.as_str() == "L2:").count(), 1);
    assert_eq!(
        lines,
        vec![
            "  beq x0, x0, L2".to_string(),
            "  beq x0, x0, L2".to_string(),
            "L2:".to_string(),
            "  addi x1, x0, 1".to_string()
        ]
    );
}

#[test]
fn jump_to_self_labels_itself() {
    let p = program(&[0x0000_006F]);
    assert_eq!(render_labelled(&p), vec!["L0:".to_string(), "  jal x0, L0".to_string()]);
    assert_eq!(render_unlabelled(&p), vec!["jal x0, 0".to_string()]);
}

#[test]
fn every_mnemonic_decodes_and_renders() {
    let cases: [(u32, &str); 40] = [
        (0x003100B3, "add x1, x2, x3"),
        (0x403100B3, "sub x1, x2, x3"),
        (0x003140B3, "xor x1, x2, x3"),
        (0x003160B3, "or x1, x2, x3"),
        (0x003170B3, "and x1, x2, x3"),
        (0x003110B3, "sll x1, x2, x3"),
        (0x003150B3, "srl x1, x2, x3"),
        (0x403150B3, "sra x1, x2, x3"),
        (0x003120B3, "slt x1, x2, x3"),
        (0x003130B3, "sltu x1, x2, x3"),
        (0xFFB10093, "addi x1, x2, -5"),
        (0x00714093, "xori x1, x2, 7"),
        (0x00716093, "ori x1, x2, 7"),
        (0x00717093, "andi x1, x2, 7"),
        (0xFFF12093, "slti x1, x2, -1"),
        (0x00913093, "sltiu x1, x2, 9"),
        (0x00511093, "slli x1, x2, 5"),
        (0x02515093, "srli x1, x2, 37"),
        (0x40715093, "srai x1, x2, 7"),
        (0xFF810083, "lb x1, -8(x2)"),
        (0xFF811083, "lh x1, -8(x2)"),
        (0xFF812083, "lw x1, -8(x2)"),
        (0xFF813083, "ld x1, -8(x2)"),
        (0xFF814083, "lbu x1, -8(x2)"),
        (0xFF815083, "lhu x1, -8(x2)"),
        (0xFF816083, "lwu x1, -8(x2)"),
        (0x00C100E7, "jalr x1, 12(x2)"),
        (0xFE310623, "sb x3, -20(x2)"),
        (0xFE311623, "sh x3, -20(x2)"),
        (0xFE312623, "sw x3, -20(x2)"),
        (0xFE313623, "sd x3, -20(x2)"),
        (0xABCDE0B7, "lui x1, 0xabcde"),
        (0x00010097, "auipc x1, 0x10"),
        (0xFE310AE3, "beq x2, x3, -12"),
        (0xFE311AE3, "bne x2, x3, -12"),
        (0xFE314AE3, "blt x2, x3, -12"),
        (0xFE315AE3, "bge x2, x3, -12"),
        (0xFE316AE3, "bltu x2, x3, -12"),
        (0xFE317AE3, "bgeu x2, x3, -12"),
        (0x801FF0EF, "jal x1, -2048"),
    ];
    for (w, expected) in cases {
        assert_eq!(text(w), expected, "word {:08x}", w);
    }
}
