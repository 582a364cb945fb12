//! The CPU proper: the general register file with its hardwired zero
//! register, and the system-control (cop0) register block with its
//! bit-field-structured registers.

use vstd::prelude::*;

verus! {

/// The 32 general-purpose registers, by their conventional assembler names.
/// Register `zero` is hardwired: reads yield 0 and writes are discarded.
#[allow(non_camel_case_types)]
#[derive(Clone, Copy, Debug, PartialEq, Eq, Structural)]
pub enum GPR {
    zero,
    at,
    v0,
    v1,
    a0,
    a1,
    a2,
    a3,
    t0,
    t1,
    t2,
    t3,
    t4,
    t5,
    t6,
    t7,
    s0,
    s1,
    s2,
    s3,
    s4,
    s5,
    s6,
    s7,
    t8,
    t9,
    k0,
    k1,
    gp,
    sp,
    fp,
    ra,
}

impl GPR {
    /// The architectural index of this register, 0 through 31.
    pub open spec fn index_spec(self) -> int {
        match self {
            GPR::zero => 0,
            GPR::at => 1,
            GPR::v0 => 2,
            GPR::v1 => 3,
            GPR::a0 => 4,
            GPR::a1 => 5,
            GPR::a2 => 6,
            GPR::a3 => 7,
            GPR::t0 => 8,
            GPR::t1 => 9,
            GPR::t2 => 10,
            GPR::t3 => 11,
            GPR::t4 => 12,
            GPR::t5 => 13,
            GPR::t6 => 14,
            GPR::t7 => 15,
            GPR::s0 => 16,
            GPR::s1 => 17,
            GPR::s2 => 18,
            GPR::s3 => 19,
            GPR::s4 => 20,
            GPR::s5 => 21,
            GPR::s6 => 22,
            GPR::s7 => 23,
            GPR::t8 => 24,
            GPR::t9 => 25,
            GPR::k0 => 26,
            GPR::k1 => 27,
            GPR::gp => 28,
            GPR::sp => 29,
            GPR::fp => 30,
            GPR::ra => 31,
        }
    }

    /// The register named by an architectural index.
    pub open spec fn from_index_spec(n: int) -> GPR {
        if n == 0 {
            GPR::zero
        } else if n == 1 {
            GPR::at
        } else if n == 2 {
            GPR::v0
        } else if n == 3 {
            GPR::v1
        } else if n == 4 {
            GPR::a0
        } else if n == 5 {
            GPR::a1
        } else if n == 6 {
            GPR::a2
        } else if n == 7 {
            GPR::a3
        } else if n == 8 {
            GPR::t0
        } else if n == 9 {
            GPR::t1
        } else if n == 10 {
            GPR::t2
        } else if n == 11 {
            GPR::t3
        } else if n == 12 {
            GPR::t4
        } else if n == 13 {
            GPR::t5
        } else if n == 14 {
            GPR::t6
        } else if n == 15 {
            GPR::t7
        } else if n == 16 {
            GPR::s0
        } else if n == 17 {
            GPR::s1
        } else if n == 18 {
            GPR::s2
        } else if n == 19 {
            GPR::s3
        } else if n == 20 {
            GPR::s4
        } else if n == 21 {
            GPR::s5
        } else if n == 22 {
            GPR::s6
        } else if n == 23 {
            GPR::s7
        } else if n == 24 {
            GPR::t8
        } else if n == 25 {
            GPR::t9
        } else if n == 26 {
            GPR::k0
        } else if n == 27 {
            GPR::k1
        } else if n == 28 {
            GPR::gp
        } else if n == 29 {
            GPR::sp
        } else if n == 30 {
            GPR::fp
        } else {
            GPR::ra
        }
    }

    /// Returns the architectural index of this register.
    pub fn as_index(self) -> (r: u8)
        ensures
            r as int == self.index_spec(),
            r < 32,
    {
        match self {
            GPR::zero => 0,
            GPR::at => 1,
            GPR::v0 => 2,
            GPR::v1 => 3,
            GPR::a0 => 4,
            GPR::a1 => 5,
            GPR::a2 => 6,
            GPR::a3 => 7,
            GPR::t0 => 8,
            GPR::t1 => 9,
            GPR::t2 => 10,
            GPR::t3 => 11,
            GPR::t4 => 12,
            GPR::t5 => 13,
            GPR::t6 => 14,
            GPR::t7 => 15,
            GPR::s0 => 16,
            GPR::s1 => 17,
            GPR::s2 => 18,
            GPR::s3 => 19,
            GPR::s4 => 20,
            GPR::s5 => 21,
            GPR::s6 => 22,
            GPR::s7 => 23,
            GPR::t8 => 24,
            GPR::t9 => 25,
            GPR::k0 => 26,
            GPR::k1 => 27,
            GPR::gp => 28,
            GPR::sp => 29,
            GPR::fp => 30,
            GPR::ra => 31,
        }
    }

    /// Returns the register named by an architectural index below 32.
    pub fn from_index(n: u8) -> (r: GPR)
        requires
            n < 32,
        ensures
            r == GPR::from_index_spec(n as int),
            r.index_spec() == n as int,
    {
        match n {
            0 => GPR::zero,
            1 => GPR::at,
            2 => GPR::v0,
            3 => GPR::v1,
            4 => GPR::a0,
            5 => GPR::a1,
            6 => GPR::a2,
            7 => GPR::a3,
            8 => GPR::t0,
            9 => GPR::t1,
            10 => GPR::t2,
            11 => GPR::t3,
            12 => GPR::t4,
            13 => GPR::t5,
            14 => GPR::t6,
            15 => GPR::t7,
            16 => GPR::s0,
            17 => GPR::s1,
            18 => GPR::s2,
            19 => GPR::s3,
            20 => GPR::s4,
            21 => GPR::s5,
            22 => GPR::s6,
            23 => GPR::s7,
            24 => GPR::t8,
            25 => GPR::t9,
            26 => GPR::k0,
            27 => GPR::k1,
            28 => GPR::gp,
            29 => GPR::sp,
            30 => GPR::fp,
            _ => GPR::ra,
        }
    }
}

/// The register file: 32 general registers, 32 floating-point registers
/// (held as raw 64-bit words), the program counter, the HI/LO
/// multiply-divide results, the load-linked flag, and the two
/// floating-point control registers.
#[allow(non_snake_case)]
pub struct Rf {
    pub gprs: Vec<u64>,
    pub fprs: Vec<u64>,
    pub PC: u64,
    pub HI: u64,
    pub LO: u64,
    pub LLBit: bool,
    pub FCR0: u32,
    pub FCR31: FP_control_reg,
}

/// The mathematical model of a register file.
#[allow(non_snake_case)]
pub struct RfView {
    pub gprs: Seq<u64>,
    pub fprs: Seq<u64>,
    pub PC: u64,
    pub HI: u64,
    pub LO: u64,
    pub LLBit: bool,
    pub FCR0: u32,
    pub FCR31: FP_control_reg,
}

impl View for Rf {
    type V = RfView;

    open spec fn view(&self) -> RfView {
        RfView {
            gprs: self.gprs@,
            fprs: self.fprs@,
            PC: self.PC,
            HI: self.HI,
            LO: self.LO,
            LLBit: self.LLBit,
            FCR0: self.FCR0,
            FCR31: self.FCR31,
        }
    }
}

impl RfView {
    /// A register file is well formed when both register banks have their
    /// 32 slots.
    pub open spec fn wf(self) -> bool {
        &&& self.gprs.len() == 32
        &&& self.fprs.len() == 32
    }

    /// The value a read of `r` yields: the hardwired zero register always
    /// reads as 0, every other register reads its slot.
    pub open spec fn gpr(self, r: GPR) -> u64 {
        if r == GPR::zero {
            0
        } else {
            self.gprs[r.index_spec()]
        }
    }

    /// The register file after a write of `v` to `r`: a write to the
    /// hardwired zero register is discarded.
    pub open spec fn with_gpr(self, r: GPR, v: u64) -> RfView {
        if r == GPR::zero {
            self
        } else {
            RfView { gprs: self.gprs.update(r.index_spec(), v), ..self }
        }
    }

    /// The register file with the program counter replaced.
    pub open spec fn with_pc(self, pc: u64) -> RfView {
        RfView { PC: pc, ..self }
    }
}

impl Rf {
    /// A fresh register file: all registers and flags zero.
    pub fn new() -> (r: Rf)
        ensures
            r@.wf(),
            forall|g: GPR| r@.gpr(g) == 0,
            r@.PC == 0,
            r@.HI == 0,
            r@.LO == 0,
            !r@.LLBit,
            r@.FCR0 == 0,
            r@.FCR31.bits == 0,
    {
        Rf {
            gprs: zeroed_words(32),
            fprs: zeroed_words(32),
            PC: 0,
            HI: 0,
            LO: 0,
            LLBit: false,
            FCR0: 0,
            FCR31: FP_control_reg { bits: 0 },
        }
    }

    /// Reads a general register; the zero register always yields 0.
    pub fn read_gpr(&self, r: GPR) -> (v: u64)
        requires
            self@.wf(),
        ensures
            v == self@.gpr(r),
    {
        if matches!(r, GPR::zero) {
            0
        } else {
            let i = r.as_index();
            self.gprs[i as usize]
        }
    }

    /// Writes a general register; a write to the zero register is a no-op.
    /// This is the single place where the hardwired-zero rule is enforced.
    pub fn write_gpr(&mut self, r: GPR, v: u64)
        requires
            old(self)@.wf(),
        ensures
            final(self)@ == old(self)@.with_gpr(r, v),
            final(self)@.wf(),
    {
        if !matches!(r, GPR::zero) {
            let i = r.as_index();
            self.gprs[i as usize] = v;
        }
    }
}

/// Writes to the hardwired zero register are discarded: after any attempted
/// write, a read of register zero still returns 0.
pub proof fn lemma_zero_register_hardwired(rf: RfView, v: u64)
    ensures
        rf.with_gpr(GPR::zero, v).gpr(GPR::zero) == 0,
        rf.with_gpr(GPR::zero, v) == rf,
{
}

/// A vector of `n` zero words.
fn zeroed_words(n: usize) -> (r: Vec<u64>)
    ensures
        r@.len() == n,
        forall|i: int| 0 <= i < n ==> r@[i] == 0,
{
    let mut v: Vec<u64> = Vec::new();
    let mut k: usize = 0;
    while k < n
        invariant
            k <= n,
            v@.len() == k,
            forall|i: int| 0 <= i < k ==> v@[i] == 0,
        decreases n - k,
    {
        v.push(0);
        k = k + 1;
    }
    v
}

/// The floating-point control/status register, a 64-bit value with named
/// bit fields; bits 18 through 22, 25 through 31 and the upper word are
/// architecturally reserved and read as zero.
#[allow(non_camel_case_types)]
#[derive(Clone, Copy, Debug, PartialEq, Eq, Structural)]
pub struct FP_control_reg {
    pub bits: u64,
}

pub const FCR31_RESERVED_MASK: u64 = 0xFFFF_FFFF_FE7C_0000;

impl FP_control_reg {
    /// Reserved bits hold no storage.
    pub open spec fn wf(self) -> bool {
        self.bits & FCR31_RESERVED_MASK == 0
    }

    /// Builds the register from a raw word, discarding reserved bits.
    pub fn from_raw(raw: u64) -> (r: Self)
        ensures
            r.bits == raw & !FCR31_RESERVED_MASK,
            r.wf(),
    {
        let bits = raw & !FCR31_RESERVED_MASK;
        proof {
            assert((raw & !0xFFFF_FFFF_FE7C_0000u64) & 0xFFFF_FFFF_FE7C_0000u64 == 0)
                by (bit_vector);
        }
        FP_control_reg { bits }
    }

    /// The raw register word.
    pub fn raw(&self) -> (r: u64)
        ensures
            r == self.bits,
    {
        self.bits
    }

    /// Flush-to-zero enable, bit 24.
    #[allow(non_snake_case)]
    pub fn FS(&self) -> (r: bool)
        ensures
            r == ((self.bits >> 24) & 1 == 1),
    {
        (self.bits >> 24) & 1 == 1
    }

    /// Condition bit, bit 23.
    #[allow(non_snake_case)]
    pub fn C(&self) -> (r: bool)
        ensures
            r == ((self.bits >> 23) & 1 == 1),
    {
        (self.bits >> 23) & 1 == 1
    }

    /// Cause field, bits 12 through 17.
    #[allow(non_snake_case)]
    pub fn Cause(&self) -> (r: u64)
        ensures
            r == (self.bits >> 12) & 0x3F,
    {
        (self.bits >> 12) & 0x3F
    }

    /// Enables field, bits 7 through 11.
    #[allow(non_snake_case)]
    pub fn Enables(&self) -> (r: u64)
        ensures
            r == (self.bits >> 7) & 0x1F,
    {
        (self.bits >> 7) & 0x1F
    }

    /// Flags field, bits 2 through 6.
    #[allow(non_snake_case)]
    pub fn Flags(&self) -> (r: u64)
        ensures
            r == (self.bits >> 2) & 0x1F,
    {
        (self.bits >> 2) & 0x1F
    }

    /// Rounding mode, bits 0 and 1.
    #[allow(non_snake_case)]
    pub fn RM(&self) -> (r: u64)
        ensures
            r == self.bits & 0x3,
    {
        self.bits & 0x3
    }
}

/// The Status register, a 32-bit value with named bit fields governing
/// operating mode and interrupt masking; bits 19 and 23 are hardwired zero.
#[allow(non_camel_case_types)]
#[derive(Clone, Copy, Debug, PartialEq, Eq, Structural)]
pub struct status_reg {
    pub bits: u32,
}

pub const STATUS_RESERVED_MASK: u32 = 0x0088_0000;

impl status_reg {
    /// Reserved bits hold no storage.
    pub open spec fn wf(self) -> bool {
        self.bits & STATUS_RESERVED_MASK == 0
    }

    /// Builds the register from a raw word, discarding reserved bits.
    pub fn from_raw(raw: u32) -> (r: Self)
        ensures
            r.bits == raw & !STATUS_RESERVED_MASK,
            r.wf(),
    {
        let bits = raw & !STATUS_RESERVED_MASK;
        proof {
            assert((raw & !0x0088_0000u32) & 0x0088_0000u32 == 0) by (bit_vector);
        }
        status_reg { bits }
    }

    /// The raw register word.
    pub fn raw(&self) -> (r: u32)
        ensures
            r == self.bits,
    {
        self.bits
    }

    /// Coprocessor usability, bits 28 through 31.
    #[allow(non_snake_case)]
    pub fn CU(&self) -> (r: u32)
        ensures
            r == (self.bits >> 28) & 0xF,
    {
        (self.bits >> 28) & 0xF
    }

    /// Reduced-power mode, bit 27.
    #[allow(non_snake_case)]
    pub fn RP(&self) -> (r: bool)
        ensures
            r == ((self.bits >> 27) & 1 == 1),
    {
        (self.bits >> 27) & 1 == 1
    }

    /// Additional floating-point registers enable, bit 26.
    #[allow(non_snake_case)]
    pub fn FR(&self) -> (r: bool)
        ensures
            r == ((self.bits >> 26) & 1 == 1),
    {
        (self.bits >> 26) & 1 == 1
    }

    /// Reverse-endian enable, bit 25.
    #[allow(non_snake_case)]
    pub fn RE(&self) -> (r: bool)
        ensures
            r == ((self.bits >> 25) & 1 == 1),
    {
        (self.bits >> 25) & 1 == 1
    }

    /// Instruction trace support, bit 24.
    #[allow(non_snake_case)]
    pub fn ITS(&self) -> (r: bool)
        ensures
            r == ((self.bits >> 24) & 1 == 1),
    {
        (self.bits >> 24) & 1 == 1
    }

    /// Bootstrap exception vectors, bit 22.
    #[allow(non_snake_case)]
    pub fn BEV(&self) -> (r: bool)
        ensures
            r == ((self.bits >> 22) & 1 == 1),
    {
        (self.bits >> 22) & 1 == 1
    }

    /// TLB shutdown, bit 21.
    #[allow(non_snake_case)]
    pub fn TS(&self) -> (r: bool)
        ensures
            r == ((self.bits >> 21) & 1 == 1),
    {
        (self.bits >> 21) & 1 == 1
    }

    /// Soft-reset indicator, bit 20.
    #[allow(non_snake_case)]
    pub fn SR(&self) -> (r: bool)
        ensures
            r == ((self.bits >> 20) & 1 == 1),
    {
        (self.bits >> 20) & 1 == 1
    }

    /// Cache-hit indicator, bit 18.
    #[allow(non_snake_case)]
    pub fn CH(&self) -> (r: bool)
        ensures
            r == ((self.bits >> 18) & 1 == 1),
    {
        (self.bits >> 18) & 1 == 1
    }

    /// Cache-error enable, bit 17.
    #[allow(non_snake_case)]
    pub fn CE(&self) -> (r: bool)
        ensures
            r == ((self.bits >> 17) & 1 == 1),
    {
        (self.bits >> 17) & 1 == 1
    }

    /// Parity/ECC disable, bit 16.
    #[allow(non_snake_case)]
    pub fn DE(&self) -> (r: bool)
        ensures
            r == ((self.bits >> 16) & 1 == 1),
    {
        (self.bits >> 16) & 1 == 1
    }

    /// Interrupt mask, bits 8 through 15.
    #[allow(non_snake_case)]
    pub fn IM(&self) -> (r: u32)
        ensures
            r == (self.bits >> 8) & 0xFF,
    {
        (self.bits >> 8) & 0xFF
    }

    /// 64-bit kernel addressing enable, bit 7.
    #[allow(non_snake_case)]
    pub fn KX(&self) -> (r: bool)
        ensures
            r == ((self.bits >> 7) & 1 == 1),
    {
        (self.bits >> 7) & 1 == 1
    }

    /// 64-bit supervisor addressing enable, bit 6.
    #[allow(non_snake_case)]
    pub fn SX(&self) -> (r: bool)
        ensures
            r == ((self.bits >> 6) & 1 == 1),
    {
        (self.bits >> 6) & 1 == 1
    }

    /// 64-bit user addressing enable, bit 5.
    #[allow(non_snake_case)]
    pub fn UX(&self) -> (r: bool)
        ensures
            r == ((self.bits >> 5) & 1 == 1),
    {
        (self.bits >> 5) & 1 == 1
    }

    /// Kernel/supervisor/user mode, bits 3 and 4.
    #[allow(non_snake_case)]
    pub fn KSU(&self) -> (r: u32)
        ensures
            r == (self.bits >> 3) & 0x3,
    {
        (self.bits >> 3) & 0x3
    }

    /// Error level, bit 2.
    #[allow(non_snake_case)]
    pub fn ERL(&self) -> (r: bool)
        ensures
            r == ((self.bits >> 2) & 1 == 1),
    {
        (self.bits >> 2) & 1 == 1
    }

    /// Exception level, bit 1.
    #[allow(non_snake_case)]
    pub fn EXL(&self) -> (r: bool)
        ensures
            r == ((self.bits >> 1) & 1 == 1),
    {
        (self.bits >> 1) & 1 == 1
    }

    /// Interrupt enable, bit 0.
    #[allow(non_snake_case)]
    pub fn IE(&self) -> (r: bool)
        ensures
            r == (self.bits & 1 == 1),
    {
        self.bits & 1 == 1
    }
}

/// The Cause register: which exception was taken last; bits 0, 1, 7,
/// 26, 27 and 30 are hardwired zero.
#[allow(non_camel_case_types)]
#[derive(Clone, Copy, Debug, PartialEq, Eq, Structural)]
pub struct cause_reg {
    pub bits: u32,
}

pub const CAUSE_RESERVED_MASK: u32 = 0x4C00_0083;

impl cause_reg {
    /// Reserved bits hold no storage.
    pub open spec fn wf(self) -> bool {
        self.bits & CAUSE_RESERVED_MASK == 0
    }

    /// Builds the register from a raw word, discarding reserved bits.
    pub fn from_raw(raw: u32) -> (r: Self)
        ensures
            r.bits == raw & !CAUSE_RESERVED_MASK,
            r.wf(),
    {
        let bits = raw & !CAUSE_RESERVED_MASK;
        proof {
            assert((raw & !0x4C00_0083u32) & 0x4C00_0083u32 == 0) by (bit_vector);
        }
        cause_reg { bits }
    }

    /// The raw register word.
    pub fn raw(&self) -> (r: u32)
        ensures
            r == self.bits,
    {
        self.bits
    }

    /// Branch-delay indicator, bit 31.
    #[allow(non_snake_case)]
    pub fn BD(&self) -> (r: bool)
        ensures
            r == ((self.bits >> 31) & 1 == 1),
    {
        (self.bits >> 31) & 1 == 1
    }

    /// Coprocessor-unit number of a coprocessor-unusable exception,
    /// bits 28 and 29.
    #[allow(non_snake_case)]
    pub fn CE(&self) -> (r: u32)
        ensures
            r == (self.bits >> 28) & 0x3,
    {
        (self.bits >> 28) & 0x3
    }

    /// Interrupts pending, bits 8 through 15.
    #[allow(non_snake_case)]
    pub fn IP(&self) -> (r: u32)
        ensures
            r == (self.bits >> 8) & 0xFF,
    {
        (self.bits >> 8) & 0xFF
    }

    /// Exception code, bits 2 through 6.
    #[allow(non_snake_case)]
    pub fn ExcCode(&self) -> (r: u32)
        ensures
            r == (self.bits >> 2) & 0x1F,
    {
        (self.bits >> 2) & 0x1F
    }
}

/// The processor-revision register; the upper 16 bits are hardwired zero.
#[allow(non_camel_case_types)]
#[derive(Clone, Copy, Debug, PartialEq, Eq, Structural)]
pub struct PRId_reg {
    pub bits: u32,
}

pub const PRID_RESERVED_MASK: u32 = 0xFFFF_0000;

impl PRId_reg {
    /// Reserved bits hold no storage.
    pub open spec fn wf(self) -> bool {
        self.bits & PRID_RESERVED_MASK == 0
    }

    /// Builds the register from a raw word, discarding reserved bits.
    pub fn from_raw(raw: u32) -> (r: Self)
        ensures
            r.bits == raw & !PRID_RESERVED_MASK,
            r.wf(),
    {
        let bits = raw & !PRID_RESERVED_MASK;
        proof {
            assert((raw & !0xFFFF_0000u32) & 0xFFFF_0000u32 == 0) by (bit_vector);
        }
        PRId_reg { bits }
    }

    /// The raw register word.
    pub fn raw(&self) -> (r: u32)
        ensures
            r == self.bits,
    {
        self.bits
    }

    /// Implementation number, bits 8 through 15.
    #[allow(non_snake_case)]
    pub fn Imp(&self) -> (r: u32)
        ensures
            r == (self.bits >> 8) & 0xFF,
    {
        (self.bits >> 8) & 0xFF
    }

    /// Revision number, bits 0 through 7.
    #[allow(non_snake_case)]
    pub fn Rev(&self) -> (r: u32)
        ensures
            r == self.bits & 0xFF,
    {
        self.bits & 0xFF
    }
}

/// The Config register: memory-system mode. Bit 31 is zero and two field
/// groups are fixed by the architecture: bits 16 through 23 always read
/// the pattern 0x06, bits 4 through 14 the pattern 0x646.
#[allow(non_camel_case_types)]
#[derive(Clone, Copy, Debug, PartialEq, Eq, Structural)]
pub struct config_reg {
    pub bits: u32,
}

pub const CONFIG_FIXED_MASK: u32 = 0x80FF_7FF0;

pub const CONFIG_FIXED_PATTERN: u32 = 0x0006_6460;

impl config_reg {
    /// Fixed bits always hold their architectural pattern.
    pub open spec fn wf(self) -> bool {
        self.bits & CONFIG_FIXED_MASK == CONFIG_FIXED_PATTERN
    }

    /// Builds the register from a raw word, forcing the fixed bits to
    /// their architectural pattern.
    pub fn from_raw(raw: u32) -> (r: Self)
        ensures
            r.bits == (raw & !CONFIG_FIXED_MASK) | CONFIG_FIXED_PATTERN,
            r.wf(),
    {
        let bits = (raw & !CONFIG_FIXED_MASK) | CONFIG_FIXED_PATTERN;
        proof {
            assert(((raw & !0x80FF_7FF0u32) | 0x0006_6460u32) & 0x80FF_7FF0u32 == 0x0006_6460u32)
                by (bit_vector);
        }
        config_reg { bits }
    }

    /// The raw register word.
    pub fn raw(&self) -> (r: u32)
        ensures
            r == self.bits,
    {
        self.bits
    }

    /// System-clock ratio, bits 28 through 30.
    #[allow(non_snake_case)]
    pub fn EC(&self) -> (r: u32)
        ensures
            r == (self.bits >> 28) & 0x7,
    {
        (self.bits >> 28) & 0x7
    }

    /// Transmit-data pattern, bits 24 through 27.
    #[allow(non_snake_case)]
    pub fn EP(&self) -> (r: u32)
        ensures
            r == (self.bits >> 24) & 0xF,
    {
        (self.bits >> 24) & 0xF
    }

    /// Big-endian enable, bit 15.
    #[allow(non_snake_case)]
    pub fn BE(&self) -> (r: bool)
        ensures
            r == ((self.bits >> 15) & 1 == 1),
    {
        (self.bits >> 15) & 1 == 1
    }

    /// Update-on-store-conditional mode, bit 3.
    #[allow(non_snake_case)]
    pub fn CU(&self) -> (r: bool)
        ensures
            r == ((self.bits >> 3) & 1 == 1),
    {
        (self.bits >> 3) & 1 == 1
    }

    /// Kseg0 cache coherency, bits 0 through 2.
    #[allow(non_snake_case)]
    pub fn K0(&self) -> (r: u32)
        ensures
            r == self.bits & 0x7,
    {
        self.bits & 0x7
    }
}

/// The XContext register: the kernel virtual page-table pointer in 64-bit
/// mode; bits 0 through 3 are hardwired zero.
#[allow(non_camel_case_types)]
#[derive(Clone, Copy, Debug, PartialEq, Eq, Structural)]
pub struct XContext_reg {
    pub bits: u64,
}

pub const XCONTEXT_RESERVED_MASK: u64 = 0xF;

impl XContext_reg {
    /// Reserved bits hold no storage.
    pub open spec fn wf(self) -> bool {
        self.bits & XCONTEXT_RESERVED_MASK == 0
    }

    /// Builds the register from a raw word, discarding reserved bits.
    pub fn from_raw(raw: u64) -> (r: Self)
        ensures
            r.bits == raw & !XCONTEXT_RESERVED_MASK,
            r.wf(),
    {
        let bits = raw & !0xFu64;
        proof {
            assert((raw & !0xFu64) & 0xFu64 == 0) by (bit_vector);
        }
        XContext_reg { bits }
    }

    /// The raw register word.
    pub fn raw(&self) -> (r: u64)
        ensures
            r == self.bits,
    {
        self.bits
    }

    /// Page-table-entry base, bits 33 through 63.
    #[allow(non_snake_case)]
    pub fn PTEBase(&self) -> (r: u64)
        ensures
            r == (self.bits >> 33) & 0x7FFF_FFFF,
    {
        (self.bits >> 33) & 0x7FFF_FFFF
    }

    /// Address-space region, bits 31 and 32.
    #[allow(non_snake_case)]
    pub fn R(&self) -> (r: u64)
        ensures
            r == (self.bits >> 31) & 0x3,
    {
        (self.bits >> 31) & 0x3
    }

    /// Faulting virtual page number, bits 4 through 30.
    #[allow(non_snake_case)]
    pub fn BadVPN2(&self) -> (r: u64)
        ensures
            r == (self.bits >> 4) & 0x7FF_FFFF,
    {
        (self.bits >> 4) & 0x7FF_FFFF
    }
}

/// The cache TagLo register; bits 0 through 5 and 28 upward are
/// hardwired zero.
#[allow(non_camel_case_types)]
#[derive(Clone, Copy, Debug, PartialEq, Eq, Structural)]
pub struct TagLo_reg {
    pub bits: u64,
}

pub const TAGLO_RESERVED_MASK: u64 = 0xFFFF_FFFF_F000_003F;

impl TagLo_reg {
    /// Reserved bits hold no storage.
    pub open spec fn wf(self) -> bool {
        self.bits & TAGLO_RESERVED_MASK == 0
    }

    /// Builds the register from a raw word, discarding reserved bits.
    pub fn from_raw(raw: u64) -> (r: Self)
        ensures
            r.bits == raw & !TAGLO_RESERVED_MASK,
            r.wf(),
    {
        let bits = raw & !TAGLO_RESERVED_MASK;
        proof {
            assert((raw & !0xFFFF_FFFF_F000_003Fu64) & 0xFFFF_FFFF_F000_003Fu64 == 0)
                by (bit_vector);
        }
        TagLo_reg { bits }
    }

    /// The raw register word.
    pub fn raw(&self) -> (r: u64)
        ensures
            r == self.bits,
    {
        self.bits
    }

    /// Physical address tag, bits 8 through 27.
    #[allow(non_snake_case)]
    pub fn PTagLo(&self) -> (r: u64)
        ensures
            r == (self.bits >> 8) & 0xF_FFFF,
    {
        (self.bits >> 8) & 0xF_FFFF
    }

    /// Primary-cache state, bits 6 and 7.
    #[allow(non_snake_case)]
    pub fn PState(&self) -> (r: u64)
        ensures
            r == (self.bits >> 6) & 0x3,
    {
        (self.bits >> 6) & 0x3
    }
}

/// The system-control coprocessor register block: one slot per
/// architectural control register, several of them bit-field structured.
#[allow(non_camel_case_types)]
#[allow(non_snake_case)]
#[derive(Clone, Copy, Debug, PartialEq, Eq, Structural)]
pub struct cop0 {
    pub Index: u32,
    pub Random: u32,
    pub EntryLo0: u64,
    pub EntryLo1: u64,
    pub Context: u64,
    pub PageMask: u64,
    pub Wired: u32,
    pub BadVAddr: u64,
    pub Count: u32,
    pub EntryHi: u64,
    pub Compare: u32,
    pub Status: status_reg,
    pub Cause: cause_reg,
    pub EPC: u64,
    pub PRId: PRId_reg,
    pub Config: config_reg,
    pub LLAddr: u32,
    pub WatchLo: u32,
    pub WatchHi: u32,
    pub XContext: XContext_reg,
    pub Parity: u32,
    pub Cache: u32,
    pub TagLo: TagLo_reg,
    pub TagHi: u32,
    pub ErrorEPC: u64,
}

impl cop0 {
    /// Every bit-field register respects its reserved-bit pattern.
    pub open spec fn wf(self) -> bool {
        &&& self.Status.wf()
        &&& self.Cause.wf()
        &&& self.PRId.wf()
        &&& self.Config.wf()
        &&& self.XContext.wf()
        &&& self.TagLo.wf()
    }

    /// The reset value of the block: every register zero, the fixed
    /// Config bits at their architectural pattern.
    pub open spec fn reset_spec() -> cop0 {
        cop0 {
            Index: 0,
            Random: 0,
            EntryLo0: 0,
            EntryLo1: 0,
            Context: 0,
            PageMask: 0,
            Wired: 0,
            BadVAddr: 0,
            Count: 0,
            EntryHi: 0,
            Compare: 0,
            Status: status_reg { bits: 0 },
            Cause: cause_reg { bits: 0 },
            EPC: 0,
            PRId: PRId_reg { bits: 0 },
            Config: config_reg { bits: CONFIG_FIXED_PATTERN },
            LLAddr: 0,
            WatchLo: 0,
            WatchHi: 0,
            XContext: XContext_reg { bits: 0 },
            Parity: 0,
            Cache: 0,
            TagLo: TagLo_reg { bits: 0 },
            TagHi: 0,
            ErrorEPC: 0,
        }
    }

    /// A fresh control-register block at its reset value.
    pub fn new() -> (r: cop0)
        ensures
            r == cop0::reset_spec(),
            r.wf(),
    {
        proof {
            assert(0u32 & 0x0088_0000u32 == 0 && 0u32 & 0x4C00_0083u32 == 0 && 0u32
                & 0xFFFF_0000u32 == 0 && 0x0006_6460u32 & 0x80FF_7FF0u32 == 0x0006_6460u32 && 0u64
                & 0xFu64 == 0 && 0u64 & 0xFFFF_FFFF_F000_003Fu64 == 0) by (bit_vector);
        }
        cop0 {
            Index: 0,
            Random: 0,
            EntryLo0: 0,
            EntryLo1: 0,
            Context: 0,
            PageMask: 0,
            Wired: 0,
            BadVAddr: 0,
            Count: 0,
            EntryHi: 0,
            Compare: 0,
            Status: status_reg { bits: 0 },
            Cause: cause_reg { bits: 0 },
            EPC: 0,
            PRId: PRId_reg { bits: 0 },
            Config: config_reg { bits: CONFIG_FIXED_PATTERN },
            LLAddr: 0,
            WatchLo: 0,
            WatchHi: 0,
            XContext: XContext_reg { bits: 0 },
            Parity: 0,
            Cache: 0,
            TagLo: TagLo_reg { bits: 0 },
            TagHi: 0,
            ErrorEPC: 0,
        }
    }
}

/// The CPU: its register file and its system-control coprocessor, which
/// share the processor die.
pub struct Cpu {
    pub rf: Rf,
    pub cop0: cop0,
}

/// The mathematical model of a CPU.
pub struct CpuView {
    pub rf: RfView,
    pub cop0: cop0,
}

impl View for Cpu {
    type V = CpuView;

    open spec fn view(&self) -> CpuView {
        CpuView { rf: self.rf@, cop0: self.cop0 }
    }
}

impl CpuView {
    pub open spec fn wf(self) -> bool {
        &&& self.rf.wf()
        &&& self.cop0.wf()
    }
}

impl Cpu {
    /// A freshly reset CPU: zeroed register file and control registers.
    pub fn new() -> (r: Cpu)
        ensures
            r@.wf(),
            forall|g: GPR| r@.rf.gpr(g) == 0,
            r@.rf.PC == 0,
            r@.rf.HI == 0 && r@.rf.LO == 0 && !r@.rf.LLBit,
            r@.rf.FCR0 == 0 && r@.rf.FCR31.bits == 0,
            r@.cop0 == cop0::reset_spec(),
    {
        Cpu { rf: Rf::new(), cop0: cop0::new() }
    }
}

} // verus!
