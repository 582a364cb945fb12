use vr4300::cpu::GPR;
use vr4300::ir::{
    guest_to_ir, lift, AluOpSrc, AluOps, ControlConditionalType, ControlDestType, GPRorCoPGPR,
    LiftError, Op,
};

fn r_type(funct: u32, rs: u32, rt: u32, rd: u32, sa: u32) -> u32 {
    (rs << 21) | (rt << 16) | (rd << 11) | (sa << 6) | funct
}

fn i_type(op: u32, rs: u32, rt: u32, imm: u32) -> u32 {
    (op << 26) | (rs << 21) | (rt << 16) | (imm & 0xFFFF)
}

#[test]
fn decode_all_zero_word_is_sll_zero() {
    let r = guest_to_ir(0).unwrap();
    assert_eq!(
        r,
        Op::AluOp {
            op_type: AluOps::SLL,
            dst: GPR::zero,
            src_1: Some(GPR::zero),
            src_2: AluOpSrc::Imm(0),
        }
    );
}

#[test]
fn decode_sll_fields() {
    // SLL t1, t0, 7
    let w = r_type(0x00, 0, 8, 9, 7);
    let r = guest_to_ir(w).unwrap();
    assert_eq!(
        r,
        Op::AluOp {
            op_type: AluOps::SLL,
            dst: GPR::t1,
            src_1: Some(GPR::t0),
            src_2: AluOpSrc::Imm(7),
        }
    );
}

#[test]
fn decode_srl_and_sra() {
    let w = r_type(0x02, 0, 8, 9, 3);
    assert_eq!(
        guest_to_ir(w).unwrap(),
        Op::AluOp {
            op_type: AluOps::SRL,
            dst: GPR::t1,
            src_1: Some(GPR::t0),
            src_2: AluOpSrc::Imm(3),
        }
    );
    let w = r_type(0x03, 0, 8, 9, 3);
    assert_eq!(
        guest_to_ir(w).unwrap(),
        Op::AluOp {
            op_type: AluOps::SRA,
            dst: GPR::t1,
            src_1: Some(GPR::t0),
            src_2: AluOpSrc::Imm(3),
        }
    );
}

#[test]
fn decode_variable_shifts() {
    // SLLV rd=t2, rt=t1, rs=t0
    let w = r_type(0x04, 8, 9, 10, 0);
    assert_eq!(
        guest_to_ir(w).unwrap(),
        Op::AluOp {
            op_type: AluOps::SLLV,
            dst: GPR::t2,
            src_1: Some(GPR::t1),
            src_2: AluOpSrc::Reg(GPR::t0),
        }
    );
    let w = r_type(0x06, 8, 9, 10, 0);
    assert_eq!(
        guest_to_ir(w).unwrap(),
        Op::AluOp {
            op_type: AluOps::SRLV,
            dst: GPR::t2,
            src_1: Some(GPR::t1),
            src_2: AluOpSrc::Reg(GPR::t0),
        }
    );
    let w = r_type(0x07, 8, 9, 10, 0);
    assert_eq!(
        guest_to_ir(w).unwrap(),
        Op::AluOp {
            op_type: AluOps::SRAV,
            dst: GPR::t2,
            src_1: Some(GPR::t1),
            src_2: AluOpSrc::Reg(GPR::t0),
        }
    );
}

#[test]
fn decode_reserved_function_fields_are_malformed() {
    assert_eq!(guest_to_ir(r_type(0x01, 0, 0, 0, 0)).unwrap(), Op::MalformedOp);
    assert_eq!(guest_to_ir(r_type(0x05, 0, 0, 0, 0)).unwrap(), Op::MalformedOp);
}

#[test]
fn decode_unimplemented_opcode_is_an_error() {
    // ADDI is a recognized opcode class the table does not cover yet.
    let w = i_type(0x08, 1, 2, 5);
    assert_eq!(guest_to_ir(w), Err(LiftError::UnimplementedOpcode { instr: w }));
    // An unimplemented "special" function field.
    let w = r_type(0x20, 1, 2, 3, 0);
    assert_eq!(guest_to_ir(w), Err(LiftError::UnimplementedOpcode { instr: w }));
}

#[test]
fn decode_logical_immediates() {
    // ANDI t1, t0, 0xBEEF
    let w = i_type(0x0C, 8, 9, 0xBEEF);
    assert_eq!(
        guest_to_ir(w).unwrap(),
        Op::AluOp {
            op_type: AluOps::ANDI,
            dst: GPR::t1,
            src_1: Some(GPR::t0),
            src_2: AluOpSrc::Imm(0xBEEF),
        }
    );
    // ORI t1, t0, 0x1234
    let w = i_type(0x0D, 8, 9, 0x1234);
    assert_eq!(
        guest_to_ir(w).unwrap(),
        Op::AluOp {
            op_type: AluOps::ORI,
            dst: GPR::t1,
            src_1: Some(GPR::t0),
            src_2: AluOpSrc::Imm(0x1234),
        }
    );
}

#[test]
fn decode_lui_places_immediate_high() {
    // LUI t0, 0x8000
    let w = i_type(0x0F, 0, 8, 0x8000);
    assert_eq!(
        guest_to_ir(w).unwrap(),
        Op::Load {
            width: 16,
            dest: GPRorCoPGPR::gpr(GPR::t0),
            base: None,
            offset: None,
            conditional: false,
            aligned: true,
            imm_src: Some(0x8000 << 16),
        }
    );
}

#[test]
fn decode_lw_fields() {
    // LW a0, 0x20(sp)
    let w = i_type(0x23, 29, 4, 0x20);
    assert_eq!(
        guest_to_ir(w).unwrap(),
        Op::Load {
            width: 32,
            dest: GPRorCoPGPR::gpr(GPR::a0),
            base: Some(GPR::sp),
            offset: Some(0x20),
            conditional: false,
            aligned: true,
            imm_src: None,
        }
    );
}

#[test]
fn decode_store_word_fields() {
    // SW a0, 0x10(sp)
    let w = i_type(0x2B, 29, 4, 0x10);
    assert_eq!(
        guest_to_ir(w).unwrap(),
        Op::Store {
            width: 32,
            src: GPRorCoPGPR::gpr(GPR::a0),
            base: Some(GPR::sp),
            offset: Some(0x10),
            conditional: false,
            aligned: true,
            imm_src: None,
        }
    );
}

#[test]
fn decode_bne_scales_and_sign_extends_displacement() {
    // BNE at, v0, -1 (imm 0xFFFF): one word back, scaled to bytes.
    let w = i_type(0x05, 1, 2, 0xFFFF);
    assert_eq!(
        guest_to_ir(w).unwrap(),
        Op::ControlFlow {
            conditional: ControlConditionalType::Ne { reg2: GPR::v0 },
            destination: ControlDestType::Relative { offset: -4 },
            register: Some(GPRorCoPGPR::gpr(GPR::at)),
            likely: false,
            link: false,
        }
    );
    // A positive displacement of 0x10 words.
    let w = i_type(0x05, 1, 2, 0x10);
    match guest_to_ir(w).unwrap() {
        Op::ControlFlow { destination: ControlDestType::Relative { offset }, .. } => {
            assert_eq!(offset, 0x40);
        }
        other => panic!("expected a control-flow op, got {:?}", other),
    }
}

#[test]
fn lift_decodes_every_word_in_order() {
    let block = vec![(0x100u64, 0u32), (0x104u64, i_type(0x0D, 8, 9, 1))];
    let ops = lift(block).unwrap();
    assert_eq!(ops.len(), 2);
    assert_eq!(ops[0].1, 0x100);
    assert_eq!(ops[1].1, 0x104);
    assert!(matches!(ops[0].0, Op::AluOp { op_type: AluOps::SLL, .. }));
    assert!(matches!(ops[1].0, Op::AluOp { op_type: AluOps::ORI, .. }));
}

#[test]
fn lift_reports_first_undecodable_word() {
    let bad = i_type(0x08, 1, 2, 5);
    let block = vec![(0x100u64, 0u32), (0x104u64, bad), (0x108u64, 0u32)];
    assert_eq!(lift(block), Err(LiftError::UnimplementedOpcode { instr: bad }));
}
