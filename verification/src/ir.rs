//! The intermediate representation: a closed set of architecture-neutral
//! operation variants, and the decoder that maps a raw 32-bit instruction
//! word to one of them.
//!
//! Decoding is opcode-major: the top six bits select the primary class;
//! class 0 ("special") uses the low six bits to select a secondary
//! operation. Architecturally reserved bit patterns decode to the
//! `MalformedOp` variant so the engine can raise the guest's own
//! reserved-instruction exception; recognized opcodes that the decode
//! table does not cover yet are reported as a distinct, inspectable
//! error instead of aborting.

use crate::cpu::GPR;
use vstd::prelude::*;

verus! {

/// A decoded, architecture-neutral guest operation.
#[derive(Clone, Copy, Debug, PartialEq)]
pub enum Op {
    Load {
        width: usize,
        dest: GPRorCoPGPR,
        base: Option<GPR>,
        offset: Option<u16>,
        conditional: bool,
        aligned: bool,
        imm_src: Option<usize>,
    },
    Store {
        width: usize,
        src: GPRorCoPGPR,
        base: Option<GPR>,
        offset: Option<u16>,
        conditional: bool,
        aligned: bool,
        imm_src: Option<usize>,
    },
    AluOp { op_type: AluOps, dst: GPR, src_1: Option<GPR>, src_2: AluOpSrc },
    ControlFlow {
        conditional: ControlConditionalType,
        destination: ControlDestType,
        register: Option<GPRorCoPGPR>,
        likely: bool,
        link: bool,
    },
    Move { src: GPRorCoPGPR, dest: GPRorCoPGPR },
    System { opcode: SystemOp },
    /// An architecturally reserved bit pattern; executing it raises the
    /// guest's reserved-instruction exception path.
    MalformedOp,
}

/// The closed set of system-control operations.
#[derive(Clone, Copy, Debug, PartialEq)]
pub enum SystemOp {
    Cache,
    Syscall,
    Break,
    Sync,
    Trap { condition: ControlConditionalType },
    Tlb,
    Eret,
}

/// The closed set of ALU operations.
#[derive(Clone, Copy, Debug, PartialEq, Eq, Structural)]
pub enum AluOps {
    ADDI,
    ADDIU,
    SLTI,
    SLTIU,
    ANDI,
    ORI,
    XORI,
    LUI,
    DADDI,
    DADDIU,
    ADD,
    ADDU,
    SUB,
    SUBU,
    SLT,
    SLTU,
    AND,
    OR,
    XOR,
    NOR,
    DADD,
    DADDU,
    DSUB,
    DSUBU,
    SLL,
    SRL,
    SRA,
    SLLV,
    SRLV,
    SRAV,
    DSLL,
    DSRL,
    DSRA,
    DSLLV,
    DSRLV,
    DSRAV,
    DSLL32,
    DSRL32,
    DSRA32,
    MULT,
    MULTU,
    DIV,
    DIVU,
    DMULT,
    DMULTU,
    DDIV,
    DDIVU,
    MFHI,
    MFLO,
    MTHI,
    MTLO,
}

/// The second ALU operand: an immediate or a register.
#[derive(Clone, Copy, Debug, PartialEq)]
pub enum AluOpSrc {
    Imm(u16),
    Reg(GPR),
}

/// A shift amount: a five-bit immediate or a register's low bits.
#[allow(non_camel_case_types)]
#[derive(Clone, Copy, Debug, PartialEq)]
pub enum shamt {
    Imm(u8),
    Variable(GPR),
}

/// A general register or a coprocessor register; load, store and move
/// destinations route through this indirection.
#[allow(non_camel_case_types)]
#[derive(Clone, Copy, Debug, PartialEq)]
pub enum GPRorCoPGPR {
    gpr(GPR),
    cop,
}

/// The closed set of control-flow conditions.
#[derive(Clone, Copy, Debug, PartialEq)]
pub enum ControlConditionalType {
    Unconditional,
    CopZFalse { cop: usize },
    CopZTrue { cop: usize },
    Eq { reg2: GPR },
    Ne { reg2: GPR },
    GEZ,
    GTZ,
    LEZ,
    LTZ,
}

/// A control-flow destination: an absolute address, or a signed,
/// already-scaled offset relative to the address following the delay slot.
#[derive(Clone, Copy, Debug, PartialEq)]
pub enum ControlDestType {
    Absolute { dest: usize },
    Relative { offset: i64 },
}

/// A recognized opcode class that the decode table does not cover yet;
/// distinct from an architecturally reserved pattern, which decodes to
/// `Op::MalformedOp`.
#[derive(Clone, Copy, Debug, PartialEq)]
pub enum LiftError {
    UnimplementedOpcode { instr: u32 },
}

/// Primary opcode, bits 26 through 31.
pub open spec fn op_field(w: u32) -> u32 {
    (w >> 26) & 0x3F
}

/// Source register rs, bits 21 through 25.
pub open spec fn rs_field(w: u32) -> u32 {
    (w >> 21) & 0x1F
}

/// Target register rt, bits 16 through 20.
pub open spec fn rt_field(w: u32) -> u32 {
    (w >> 16) & 0x1F
}

/// Destination register rd, bits 11 through 15.
pub open spec fn rd_field(w: u32) -> u32 {
    (w >> 11) & 0x1F
}

/// Shift amount, bits 6 through 10.
pub open spec fn sa_field(w: u32) -> u32 {
    (w >> 6) & 0x1F
}

/// Secondary operation of the "special" class, bits 0 through 5.
pub open spec fn funct_field(w: u32) -> u32 {
    w & 0x3F
}

/// Sixteen-bit immediate, bits 0 through 15.
pub open spec fn imm_field(w: u32) -> u32 {
    w & 0xFFFF
}

/// The instruction fields are bounded by their widths.
pub proof fn lemma_fields_bounded(w: u32)
    ensures
        op_field(w) < 64,
        rs_field(w) < 32,
        rt_field(w) < 32,
        rd_field(w) < 32,
        sa_field(w) < 32,
        funct_field(w) < 64,
        imm_field(w) < 0x10000,
{
    assert((w >> 26) & 0x3F < 64 && (w >> 21) & 0x1F < 32 && (w >> 16) & 0x1F < 32 && (w >> 11)
        & 0x1F < 32 && (w >> 6) & 0x1F < 32 && w & 0x3F < 64 && w & 0xFFFF < 0x10000)
        by (bit_vector);
}

/// The branch displacement of an immediate-form word: the 16-bit
/// immediate, sign-extended and scaled to byte granularity.
pub open spec fn branch_offset(w: u32) -> i64 {
    ((imm_field(w) as u16 as i16 as i64) * 4) as i64
}

/// The decode table, the mathematical definition of the decoder.
///
/// Reserved patterns yield `Ok(Op::MalformedOp)`; recognized opcode
/// classes outside the table yield the unimplemented-opcode error.
pub open spec fn decode(w: u32) -> Result<Op, LiftError> {
    let rs = GPR::from_index_spec(rs_field(w) as int);
    let rt = GPR::from_index_spec(rt_field(w) as int);
    let rd = GPR::from_index_spec(rd_field(w) as int);
    let imm = imm_field(w) as u16;
    if op_field(w) == 0x00 {
        // The "special" class: shifts and register forms, selected by the
        // function field.
        if funct_field(w) == 0x00 {
            Ok(Op::AluOp { op_type: AluOps::SLL, dst: rd, src_1: Some(rt), src_2: AluOpSrc::Imm(sa_field(w) as u16) })
        } else if funct_field(w) == 0x01 {
            Ok(Op::MalformedOp)
        } else if funct_field(w) == 0x02 {
            Ok(Op::AluOp { op_type: AluOps::SRL, dst: rd, src_1: Some(rt), src_2: AluOpSrc::Imm(sa_field(w) as u16) })
        } else if funct_field(w) == 0x03 {
            Ok(Op::AluOp { op_type: AluOps::SRA, dst: rd, src_1: Some(rt), src_2: AluOpSrc::Imm(sa_field(w) as u16) })
        } else if funct_field(w) == 0x04 {
            Ok(Op::AluOp { op_type: AluOps::SLLV, dst: rd, src_1: Some(rt), src_2: AluOpSrc::Reg(rs) })
        } else if funct_field(w) == 0x05 {
            Ok(Op::MalformedOp)
        } else if funct_field(w) == 0x06 {
            Ok(Op::AluOp { op_type: AluOps::SRLV, dst: rd, src_1: Some(rt), src_2: AluOpSrc::Reg(rs) })
        } else if funct_field(w) == 0x07 {
            Ok(Op::AluOp { op_type: AluOps::SRAV, dst: rd, src_1: Some(rt), src_2: AluOpSrc::Reg(rs) })
        } else {
            Err(LiftError::UnimplementedOpcode { instr: w })
        }
    } else if op_field(w) == 0x05 {
        // BNE: branch when the two registers differ.
        Ok(Op::ControlFlow {
            conditional: ControlConditionalType::Ne { reg2: rt },
            destination: ControlDestType::Relative { offset: branch_offset(w) },
            register: Some(GPRorCoPGPR::gpr(rs)),
            likely: false,
            link: false,
        })
    } else if op_field(w) == 0x0C {
        // ANDI: zero-extended logical immediate.
        Ok(Op::AluOp { op_type: AluOps::ANDI, dst: rt, src_1: Some(rs), src_2: AluOpSrc::Imm(imm) })
    } else if op_field(w) == 0x0D {
        // ORI: zero-extended logical immediate.
        Ok(Op::AluOp { op_type: AluOps::ORI, dst: rt, src_1: Some(rs), src_2: AluOpSrc::Imm(imm) })
    } else if op_field(w) == 0x0F {
        // LUI: the immediate goes to the upper half-word, lower half zero.
        Ok(Op::Load {
            width: 16,
            dest: GPRorCoPGPR::gpr(rt),
            base: None,
            offset: None,
            conditional: false,
            aligned: true,
            imm_src: Some((imm_field(w) as usize) << 16),
        })
    } else if op_field(w) == 0x23 {
        // LW: load word.
        Ok(Op::Load {
            width: 32,
            dest: GPRorCoPGPR::gpr(rt),
            base: Some(rs),
            offset: Some(imm),
            conditional: false,
            aligned: true,
            imm_src: None,
        })
    } else if op_field(w) == 0x2B {
        // SW: store word.
        Ok(Op::Store {
            width: 32,
            src: GPRorCoPGPR::gpr(rt),
            base: Some(rs),
            offset: Some(imm),
            conditional: false,
            aligned: true,
            imm_src: None,
        })
    } else {
        Err(LiftError::UnimplementedOpcode { instr: w })
    }
}

/// Decodes one raw instruction word into its IR operation.
///
/// Never panics: architecturally reserved patterns come back as
/// `Ok(Op::MalformedOp)`, and opcode classes the table does not cover
/// come back as an inspectable error.
pub fn guest_to_ir(instr: u32) -> (r: Result<Op, LiftError>)
    ensures
        r == decode(instr),
{
    proof {
        lemma_fields_bounded(instr);
    }
    let opcode = (instr >> 26) & 0x3F;
    let rs_n = ((instr >> 21) & 0x1F) as u8;
    let rt_n = ((instr >> 16) & 0x1F) as u8;
    let rd_n = ((instr >> 11) & 0x1F) as u8;
    let sa = ((instr >> 6) & 0x1F) as u16;
    let funct = instr & 0x3F;
    let imm = (instr & 0xFFFF) as u16;
    let rs = GPR::from_index(rs_n);
    let rt = GPR::from_index(rt_n);
    let rd = GPR::from_index(rd_n);
    match opcode {
        0x00 => {
            match funct {
                0x00 => Ok(
                    Op::AluOp { op_type: AluOps::SLL, dst: rd, src_1: Some(rt), src_2: AluOpSrc::Imm(sa) },
                ),
                0x01 => Ok(Op::MalformedOp),
                0x02 => Ok(
                    Op::AluOp { op_type: AluOps::SRL, dst: rd, src_1: Some(rt), src_2: AluOpSrc::Imm(sa) },
                ),
                0x03 => Ok(
                    Op::AluOp { op_type: AluOps::SRA, dst: rd, src_1: Some(rt), src_2: AluOpSrc::Imm(sa) },
                ),
                0x04 => Ok(
                    Op::AluOp { op_type: AluOps::SLLV, dst: rd, src_1: Some(rt), src_2: AluOpSrc::Reg(rs) },
                ),
                0x05 => Ok(Op::MalformedOp),
                0x06 => Ok(
                    Op::AluOp { op_type: AluOps::SRLV, dst: rd, src_1: Some(rt), src_2: AluOpSrc::Reg(rs) },
                ),
                0x07 => Ok(
                    Op::AluOp { op_type: AluOps::SRAV, dst: rd, src_1: Some(rt), src_2: AluOpSrc::Reg(rs) },
                ),
                _ => Err(LiftError::UnimplementedOpcode { instr }),
            }
        },
        0x05 => {
            let disp: i64 = (#[verifier::truncate] (imm as i16)) as i64 * 4;
            Ok(Op::ControlFlow {
                conditional: ControlConditionalType::Ne { reg2: rt },
                destination: ControlDestType::Relative { offset: disp },
                register: Some(GPRorCoPGPR::gpr(rs)),
                likely: false,
                link: false,
            })
        },
        0x0C => Ok(Op::AluOp { op_type: AluOps::ANDI, dst: rt, src_1: Some(rs), src_2: AluOpSrc::Imm(imm) }),
        0x0D => Ok(Op::AluOp { op_type: AluOps::ORI, dst: rt, src_1: Some(rs), src_2: AluOpSrc::Imm(imm) }),
        0x0F => Ok(
            Op::Load {
                width: 16,
                dest: GPRorCoPGPR::gpr(rt),
                base: None,
                offset: None,
                conditional: false,
                aligned: true,
                imm_src: Some((imm as usize) << 16),
            },
        ),
        0x23 => Ok(
            Op::Load {
                width: 32,
                dest: GPRorCoPGPR::gpr(rt),
                base: Some(rs),
                offset: Some(imm),
                conditional: false,
                aligned: true,
                imm_src: None,
            },
        ),
        0x2B => Ok(
            Op::Store {
                width: 32,
                src: GPRorCoPGPR::gpr(rt),
                base: Some(rs),
                offset: Some(imm),
                conditional: false,
                aligned: true,
                imm_src: None,
            },
        ),
        _ => Err(LiftError::UnimplementedOpcode { instr }),
    }
}

/// The lift of a guest basic block: every word decoded in order, paired
/// with its address; the first word that cannot be decoded decides the
/// error.
pub open spec fn lift_spec(block: Seq<(u64, u32)>) -> Result<Seq<(Op, u64)>, LiftError>
    decreases block.len(),
{
    if block.len() == 0 {
        Ok(Seq::empty())
    } else {
        match lift_spec(block.drop_last()) {
            Err(e) => Err(e),
            Ok(front) => match decode(block.last().1) {
                Err(e) => Err(e),
                Ok(op) => Ok(front.push((op, block.last().0))),
            },
        }
    }
}

/// Lifts a guest basic block into an IR basic block, decoding every word
/// and pairing it with its address.
pub fn lift(block: Vec<(u64, u32)>) -> (r: Result<Vec<(Op, u64)>, LiftError>)
    ensures
        match lift_spec(block@) {
            Ok(ops) => r is Ok && r->Ok_0@ == ops,
            Err(e) => r == Err::<Vec<(Op, u64)>, LiftError>(e),
        },
{
    let mut out: Vec<(Op, u64)> = Vec::new();
    let n = block.len();
    let mut i: usize = 0;
    while i < n
        invariant
            i <= n,
            n == block@.len(),
            lift_spec(block@.subrange(0, i as int)) == Ok::<Seq<(Op, u64)>, LiftError>(out@),
        decreases n - i,
    {
        proof {
            assert(block@.subrange(0, (i + 1) as int).drop_last() =~= block@.subrange(0, i as int));
            assert(block@.subrange(0, (i + 1) as int).last() == block@[i as int]);
        }
        let (addr, word) = block[i];
        match guest_to_ir(word) {
            Ok(op) => {
                out.push((op, addr));
            },
            Err(e) => {
                proof {
                    lemma_lift_prefix_err(block@, (i + 1) as int);
                }
                return Err(e);
            },
        }
        i = i + 1;
    }
    proof {
        assert(block@.subrange(0, n as int) =~= block@);
    }
    Ok(out)
}

/// If some prefix of a block fails to lift, the whole block fails with
/// the same error.
proof fn lemma_lift_prefix_err(block: Seq<(u64, u32)>, j: int)
    requires
        0 <= j <= block.len(),
        lift_spec(block.subrange(0, j)) is Err,
    ensures
        lift_spec(block) == lift_spec(block.subrange(0, j)),
    decreases block.len(),
{
    if j == block.len() {
        assert(block.subrange(0, j) =~= block);
    } else {
        assert(block.drop_last().subrange(0, j) =~= block.subrange(0, j));
        lemma_lift_prefix_err(block.drop_last(), j);
    }
}

} // verus!
