use vr4300::cpu::GPR;
use vr4300::ir::{
    AluOpSrc, AluOps, ControlConditionalType, ControlDestType, GPRorCoPGPR, Op, SystemOp,
};
use vr4300::system::{ExecutionError, System};

fn i_type(op: u32, rs: u32, rt: u32, imm: u32) -> u32 {
    (op << 26) | (rs << 21) | (rt << 16) | (imm & 0xFFFF)
}

/// Places one instruction word at a virtual address, big-endian.
fn poke_word(sys: &mut System, vaddr: u32, w: u32) {
    sys.write(vaddr, w.to_be_bytes().to_vec()).unwrap();
}

#[test]
fn alu_ori_and_andi() {
    let mut sys = System::new(Vec::new());
    sys.cpu.rf.write_gpr(GPR::t0, 0xF0);
    let r = sys.execute_IR(
        Op::AluOp {
            op_type: AluOps::ORI,
            dst: GPR::t1,
            src_1: Some(GPR::t0),
            src_2: AluOpSrc::Imm(0x0F),
        },
        0,
    );
    assert_eq!(r, Ok(0));
    assert_eq!(sys.cpu.rf.read_gpr(GPR::t1), 0xFF);
    assert_eq!(sys.cpu.rf.PC, 4);
    let r = sys.execute_IR(
        Op::AluOp {
            op_type: AluOps::ANDI,
            dst: GPR::t2,
            src_1: Some(GPR::t1),
            src_2: AluOpSrc::Imm(0x3C),
        },
        4,
    );
    assert_eq!(r, Ok(0));
    assert_eq!(sys.cpu.rf.read_gpr(GPR::t2), 0x3C);
    assert_eq!(sys.cpu.rf.PC, 8);
}

#[test]
fn alu_shifts() {
    let mut sys = System::new(Vec::new());
    sys.cpu.rf.write_gpr(GPR::t0, 0x8000_0000_0000_0001);
    let sll = |dst, src, amt| Op::AluOp {
        op_type: AluOps::SLL,
        dst,
        src_1: Some(src),
        src_2: AluOpSrc::Imm(amt),
    };
    sys.execute_IR(sll(GPR::t1, GPR::t0, 4), 0).unwrap();
    assert_eq!(sys.cpu.rf.read_gpr(GPR::t1), 0x10);
    let srl = Op::AluOp {
        op_type: AluOps::SRL,
        dst: GPR::t2,
        src_1: Some(GPR::t0),
        src_2: AluOpSrc::Imm(1),
    };
    sys.execute_IR(srl, 0).unwrap();
    assert_eq!(sys.cpu.rf.read_gpr(GPR::t2), 0x4000_0000_0000_0000);
    // Arithmetic right shift keeps the sign bit.
    let sra = Op::AluOp {
        op_type: AluOps::SRA,
        dst: GPR::t3,
        src_1: Some(GPR::t0),
        src_2: AluOpSrc::Imm(1),
    };
    sys.execute_IR(sra, 0).unwrap();
    assert_eq!(sys.cpu.rf.read_gpr(GPR::t3), 0xC000_0000_0000_0000);
    // A variable shift takes its amount from the register's low six bits.
    sys.cpu.rf.write_gpr(GPR::t4, 0x44);
    let sllv = Op::AluOp {
        op_type: AluOps::SLLV,
        dst: GPR::t5,
        src_1: Some(GPR::t0),
        src_2: AluOpSrc::Reg(GPR::t4),
    };
    sys.execute_IR(sllv, 0).unwrap();
    assert_eq!(sys.cpu.rf.read_gpr(GPR::t5), 0x10);
}

#[test]
fn alu_without_first_operand_or_unimplemented_op_fails() {
    let mut sys = System::new(Vec::new());
    let r = sys.execute_IR(
        Op::AluOp { op_type: AluOps::ORI, dst: GPR::t1, src_1: None, src_2: AluOpSrc::Imm(1) },
        0,
    );
    assert_eq!(r, Err(ExecutionError::UnsupportedFeature));
    let r = sys.execute_IR(
        Op::AluOp {
            op_type: AluOps::MULT,
            dst: GPR::t1,
            src_1: Some(GPR::t0),
            src_2: AluOpSrc::Reg(GPR::t2),
        },
        0,
    );
    assert_eq!(r, Err(ExecutionError::UnsupportedFeature));
    assert_eq!(sys.cpu.rf.PC, 0);
}

#[test]
fn load_immediate_form_writes_destination() {
    let mut sys = System::new(Vec::new());
    let lui = Op::Load {
        width: 16,
        dest: GPRorCoPGPR::gpr(GPR::t0),
        base: None,
        offset: None,
        conditional: false,
        aligned: true,
        imm_src: Some(0x8000 << 16),
    };
    sys.execute_IR(lui, 0).unwrap();
    assert_eq!(sys.cpu.rf.read_gpr(GPR::t0), 0x8000_0000);
    assert_eq!(sys.cpu.rf.PC, 4);
}

#[test]
fn load_word_reads_little_endian_and_zero_extends() {
    let mut sys = System::new(Vec::new());
    sys.write(0xA000_0200, vec![0x78, 0x56, 0x34, 0xF2]).unwrap();
    sys.cpu.rf.write_gpr(GPR::t0, 0xA000_0100);
    let lw = Op::Load {
        width: 32,
        dest: GPRorCoPGPR::gpr(GPR::t1),
        base: Some(GPR::t0),
        offset: Some(0x100),
        conditional: false,
        aligned: true,
        imm_src: None,
    };
    sys.execute_IR(lw, 0).unwrap();
    assert_eq!(sys.cpu.rf.read_gpr(GPR::t1), 0xF234_5678);
}

#[test]
fn load_and_store_sign_extend_their_offsets() {
    let mut sys = System::new(Vec::new());
    sys.write(0xA000_0100, vec![4, 3, 2, 1]).unwrap();
    sys.cpu.rf.write_gpr(GPR::t0, 0xA000_0108);
    // An offset of 0xFFF8 is -8: the load reads eight bytes below the base.
    let lw = Op::Load {
        width: 32,
        dest: GPRorCoPGPR::gpr(GPR::t1),
        base: Some(GPR::t0),
        offset: Some(0xFFF8),
        conditional: false,
        aligned: true,
        imm_src: None,
    };
    sys.execute_IR(lw, 0).unwrap();
    assert_eq!(sys.cpu.rf.read_gpr(GPR::t1), 0x0102_0304);
    // An offset of 0xFF00 is -0x100: the store lands 0x100 below the base.
    sys.cpu.rf.write_gpr(GPR::t2, 0xAABB_CCDD);
    let sw = Op::Store {
        width: 32,
        src: GPRorCoPGPR::gpr(GPR::t2),
        base: Some(GPR::t0),
        offset: Some(0xFF00),
        conditional: false,
        aligned: true,
        imm_src: None,
    };
    sys.execute_IR(sw, 0).unwrap();
    assert_eq!(sys.read(0xA000_0008, 4).unwrap(), vec![0xDD, 0xCC, 0xBB, 0xAA]);
}

#[test]
fn load_from_unmapped_address_faults_and_leaves_state() {
    let mut sys = System::new(Vec::new());
    sys.cpu.rf.write_gpr(GPR::t0, 0xA410_0000);
    let lw = Op::Load {
        width: 32,
        dest: GPRorCoPGPR::gpr(GPR::t1),
        base: Some(GPR::t0),
        offset: Some(0),
        conditional: false,
        aligned: true,
        imm_src: None,
    };
    assert_eq!(sys.execute_IR(lw, 0), Err(ExecutionError::MemoryFault));
    assert_eq!(sys.cpu.rf.read_gpr(GPR::t1), 0);
    assert_eq!(sys.cpu.rf.PC, 0);
}

#[test]
fn unaligned_and_conditional_and_narrow_forms_are_unsupported() {
    let mut sys = System::new(Vec::new());
    let unaligned = Op::Load {
        width: 32,
        dest: GPRorCoPGPR::gpr(GPR::t1),
        base: Some(GPR::t0),
        offset: Some(0),
        conditional: false,
        aligned: false,
        imm_src: None,
    };
    assert_eq!(sys.execute_IR(unaligned, 0), Err(ExecutionError::UnsupportedFeature));
    let conditional = Op::Load {
        width: 32,
        dest: GPRorCoPGPR::gpr(GPR::t1),
        base: Some(GPR::t0),
        offset: Some(0),
        conditional: true,
        aligned: true,
        imm_src: None,
    };
    assert_eq!(sys.execute_IR(conditional, 0), Err(ExecutionError::UnsupportedFeature));
    let narrow = Op::Load {
        width: 16,
        dest: GPRorCoPGPR::gpr(GPR::t1),
        base: Some(GPR::t0),
        offset: Some(0),
        conditional: false,
        aligned: true,
        imm_src: None,
    };
    assert_eq!(sys.execute_IR(narrow, 0), Err(ExecutionError::UnsupportedFeature));
    let cop_store = Op::Store {
        width: 32,
        src: GPRorCoPGPR::cop,
        base: Some(GPR::t0),
        offset: Some(0),
        conditional: false,
        aligned: true,
        imm_src: None,
    };
    assert_eq!(sys.execute_IR(cop_store, 0), Err(ExecutionError::UnsupportedFeature));
}

#[test]
fn store_word_writes_least_significant_byte_first() {
    let mut sys = System::new(Vec::new());
    sys.cpu.rf.write_gpr(GPR::t0, 0xA000_0300);
    sys.cpu.rf.write_gpr(GPR::t1, 0x1122_3344);
    let sw = Op::Store {
        width: 32,
        src: GPRorCoPGPR::gpr(GPR::t1),
        base: Some(GPR::t0),
        offset: Some(0x10),
        conditional: false,
        aligned: true,
        imm_src: None,
    };
    sys.execute_IR(sw, 0).unwrap();
    assert_eq!(sys.read(0xA000_0310, 4).unwrap(), vec![0x44, 0x33, 0x22, 0x11]);
    assert_eq!(sys.cpu.rf.PC, 4);
}

#[test]
fn not_taken_branch_keeps_delay_slot_effects() {
    let mut sys = System::new(Vec::new());
    // Both registers equal: BNE does not take.
    sys.cpu.rf.write_gpr(GPR::t0, 7);
    sys.cpu.rf.write_gpr(GPR::t1, 7);
    let branch_addr: u64 = 0xA000_0040;
    sys.cpu.rf.PC = branch_addr;
    let bne = Op::ControlFlow {
        conditional: ControlConditionalType::Ne { reg2: GPR::t1 },
        destination: ControlDestType::Relative { offset: 0x40 },
        register: Some(GPRorCoPGPR::gpr(GPR::t0)),
        likely: false,
        link: false,
    };
    assert_eq!(sys.execute_IR(bne, branch_addr), Ok(0));
    assert_eq!(sys.cpu.rf.PC, branch_addr + 4);
    // The delay-slot instruction executes with full effect.
    let delay = Op::AluOp {
        op_type: AluOps::ORI,
        dst: GPR::t2,
        src_1: Some(GPR::t0),
        src_2: AluOpSrc::Imm(0x100),
    };
    assert_eq!(sys.execute_IR(delay, branch_addr + 4), Ok(0));
    assert_eq!(sys.cpu.rf.read_gpr(GPR::t2), 0x107);
    // The program counter ends two instruction widths past the branch.
    assert_eq!(sys.cpu.rf.PC, branch_addr + 8);
}

#[test]
fn taken_branch_redirects_relative_to_after_the_delay_slot() {
    let mut sys = System::new(Vec::new());
    sys.cpu.rf.write_gpr(GPR::t0, 1);
    sys.cpu.rf.write_gpr(GPR::t1, 2);
    let branch_addr: u64 = 0xA000_0040;
    sys.cpu.rf.PC = branch_addr;
    let bne = Op::ControlFlow {
        conditional: ControlConditionalType::Ne { reg2: GPR::t1 },
        destination: ControlDestType::Relative { offset: -0x20 },
        register: Some(GPRorCoPGPR::gpr(GPR::t0)),
        likely: false,
        link: false,
    };
    assert_eq!(sys.execute_IR(bne, branch_addr), Ok(0));
    assert_eq!(sys.cpu.rf.PC, branch_addr + 8 - 0x20);
}

#[test]
fn absolute_branch_and_link_and_likely_forms() {
    let mut sys = System::new(Vec::new());
    let addr: u64 = 0xA000_0100;
    // An unconditional absolute jump with link writes the address after
    // the delay slot to the link register.
    let jal = Op::ControlFlow {
        conditional: ControlConditionalType::Unconditional,
        destination: ControlDestType::Absolute { dest: 0xA000_2000 },
        register: None,
        likely: false,
        link: true,
    };
    assert_eq!(sys.execute_IR(jal, addr), Ok(0));
    assert_eq!(sys.cpu.rf.PC, 0xA000_2000);
    assert_eq!(sys.cpu.rf.read_gpr(GPR::ra), addr + 8);
    // A not-taken likely branch asks for one nullified delay slot.
    sys.cpu.rf.write_gpr(GPR::t0, 5);
    sys.cpu.rf.write_gpr(GPR::t1, 5);
    let bnel = Op::ControlFlow {
        conditional: ControlConditionalType::Ne { reg2: GPR::t1 },
        destination: ControlDestType::Relative { offset: 0x10 },
        register: Some(GPRorCoPGPR::gpr(GPR::t0)),
        likely: true,
        link: false,
    };
    assert_eq!(sys.execute_IR(bnel, 0xA000_2000), Ok(1));
}

#[test]
fn zero_comparisons_use_the_sign() {
    let mut sys = System::new(Vec::new());
    sys.cpu.rf.write_gpr(GPR::t0, 0xFFFF_FFFF_FFFF_FFFF);  // -1
    let bltz = Op::ControlFlow {
        conditional: ControlConditionalType::LTZ,
        destination: ControlDestType::Absolute { dest: 0x500 },
        register: Some(GPRorCoPGPR::gpr(GPR::t0)),
        likely: false,
        link: false,
    };
    sys.cpu.rf.PC = 0;
    assert_eq!(sys.execute_IR(bltz, 0), Ok(0));
    assert_eq!(sys.cpu.rf.PC, 0x500);
    let bgtz = Op::ControlFlow {
        conditional: ControlConditionalType::GTZ,
        destination: ControlDestType::Absolute { dest: 0x900 },
        register: Some(GPRorCoPGPR::gpr(GPR::t0)),
        likely: false,
        link: false,
    };
    assert_eq!(sys.execute_IR(bgtz, 0x500), Ok(0));
    assert_eq!(sys.cpu.rf.PC, 0x504);
}

#[test]
fn coprocessor_conditions_and_moves_and_system_ops_are_gaps() {
    let mut sys = System::new(Vec::new());
    let bc = Op::ControlFlow {
        conditional: ControlConditionalType::CopZTrue { cop: 1 },
        destination: ControlDestType::Relative { offset: 0 },
        register: None,
        likely: false,
        link: false,
    };
    assert_eq!(sys.execute_IR(bc, 0), Err(ExecutionError::UnsupportedFeature));
    let mv = Op::Move { src: GPRorCoPGPR::gpr(GPR::t0), dest: GPRorCoPGPR::cop };
    assert_eq!(sys.execute_IR(mv, 0), Err(ExecutionError::UnsupportedFeature));
    let sc = Op::System { opcode: SystemOp::Syscall };
    assert_eq!(sys.execute_IR(sc, 0), Err(ExecutionError::UnsupportedFeature));
}

#[test]
fn malformed_op_raises_the_reserved_instruction_error() {
    let mut sys = System::new(Vec::new());
    assert_eq!(sys.execute_IR(Op::MalformedOp, 0), Err(ExecutionError::DecodeReserved));
}

#[test]
fn block_finder_returns_run_plus_branch_plus_delay_slot() {
    let mut sys = System::new(Vec::new());
    let base: u32 = 0xA000_0000;
    // Three straight-line words, one branch, one delay-slot word.
    let ori = i_type(0x0D, 8, 9, 1);
    let bne = i_type(0x05, 8, 9, 4);
    let delay = i_type(0x0D, 8, 10, 2);
    for (k, w) in [ori, ori, ori, bne, delay].iter().enumerate() {
        poke_word(&mut sys, base + 4 * k as u32, *w);
    }
    sys.cpu.rf.PC = base as u64;
    let block = sys.find_next_basic_block().unwrap();
    assert_eq!(block.len(), 5);
    for (k, entry) in block.iter().enumerate() {
        assert_eq!(entry.0, base as u64 + 4 * k as u64);
    }
    assert_eq!(block[3].1, bne);
    // The last entry is the word immediately following the branch.
    assert_eq!(block[4], (base as u64 + 16, delay));
}

#[test]
fn block_finder_reports_an_unbounded_scan() {
    let mut sys = System::new(Vec::new());
    // RAM is all zero; the all-zero word is a straight-line shift, so no
    // control transfer ever appears.
    sys.cpu.rf.PC = 0xA000_0000;
    assert_eq!(sys.find_next_basic_block(), Err(ExecutionError::UnboundedBlock));
}

#[test]
fn block_finder_stops_at_register_jumps() {
    let mut sys = System::new(Vec::new());
    let base: u32 = 0xA000_0000;
    let jr = 8u32 | (31 << 21);  // special, funct 8, rs = ra
    poke_word(&mut sys, base, jr);
    poke_word(&mut sys, base + 4, 0);
    sys.cpu.rf.PC = base as u64;
    let block = sys.find_next_basic_block().unwrap();
    assert_eq!(block.len(), 2);
    assert_eq!(block[0], (base as u64, jr));
}

#[test]
fn step_block_executes_a_whole_block() {
    let mut sys = System::new(Vec::new());
    let base: u32 = 0xA000_0000;
    // ORI t1, t0, 0x11 ; BNE t0, t0 (never taken) ; delay ORI t2, t0, 0x22
    poke_word(&mut sys, base, i_type(0x0D, 8, 9, 0x11));
    poke_word(&mut sys, base + 4, i_type(0x05, 8, 8, 0x40));
    poke_word(&mut sys, base + 8, i_type(0x0D, 8, 10, 0x22));
    sys.cpu.rf.PC = base as u64;
    sys.step_block().unwrap();
    assert_eq!(sys.cpu.rf.read_gpr(GPR::t1), 0x11);
    assert_eq!(sys.cpu.rf.read_gpr(GPR::t2), 0x22);
    assert_eq!(sys.cpu.rf.PC, base as u64 + 12);
}

#[test]
fn step_block_follows_a_taken_branch() {
    let mut sys = System::new(Vec::new());
    let base: u32 = 0xA000_0000;
    sys.cpu.rf.write_gpr(GPR::t0, 1);
    // BNE t0, zero, +2 words ; delay ORI t1, t0, 1
    poke_word(&mut sys, base, i_type(0x05, 8, 0, 2));
    poke_word(&mut sys, base + 4, i_type(0x0D, 8, 9, 1));
    sys.cpu.rf.PC = base as u64;
    sys.step_block().unwrap();
    // Delay slot ran, then control went to (branch + 8) + 8.
    assert_eq!(sys.cpu.rf.read_gpr(GPR::t1), 1);
    assert_eq!(sys.cpu.rf.PC, base as u64 + 8 + 8);
}

#[test]
fn step_block_halts_on_an_undecodable_word() {
    let mut sys = System::new(Vec::new());
    let base: u32 = 0xA000_0000;
    // ADDI is recognized but not in the decode table yet.
    poke_word(&mut sys, base, i_type(0x08, 1, 2, 5));
    poke_word(&mut sys, base + 4, i_type(0x05, 8, 8, 1));
    poke_word(&mut sys, base + 8, 0);
    sys.cpu.rf.PC = base as u64;
    assert_eq!(sys.step_block(), Err(ExecutionError::UnsupportedFeature));
}
