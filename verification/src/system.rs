//! The system: the CPU wired to its memory fabric. The memory router
//! owns main RAM, the coprocessor local memories, the peripheral
//! interface and the cartridge image; it translates virtual addresses,
//! dispatches reads and writes by physical range, and performs
//! cross-device DMA. The execution engine steps decoded IR operations
//! against the register file and the router, and the boot sequencer
//! stands in for boot-ROM execution.

use crate::cpu::{config_reg, status_reg, Cpu, CpuView, GPR};
use crate::ir::{
    lift_spec, AluOps, AluOpSrc, ControlConditionalType, ControlDestType, GPRorCoPGPR, Op,
};
use crate::pi::{u32_from_le, DmaDescriptor, Pi};
use crate::rcp::{Rcp, RcpView};
use crate::rsp::RSP_MEM_BYTES;
use vstd::prelude::*;

verus! {

/// Bytes of main RAM; the router maps physical addresses below this
/// bound to RAM.
pub const RAM_BYTES: usize = 0x0400_0000;

/// First physical address of the coprocessor memory window.
pub const RSP_WINDOW_BASE: u32 = 0x0400_0000;

/// Last physical address of the coprocessor memory window.
pub const RSP_WINDOW_END: u32 = 0x0403_FFFF;

/// The 8 KiB period at which the two 4 KiB local memories repeat
/// through the coprocessor memory window.
pub const RSP_MIRROR_BYTES: u32 = 8192;

/// First physical address of the peripheral-interface window.
pub const PI_WINDOW_BASE: u32 = 0x0460_0000;

/// Last physical address of the peripheral-interface window.
pub const PI_WINDOW_END: u32 = 0x046F_FFFF;

/// First virtual address of the directly-mapped, uncached kernel
/// segment, the only segment this core translates.
pub const KSEG1_BASE: u32 = 0xA000_0000;

/// Last virtual address of the uncached kernel segment.
pub const KSEG1_END: u32 = 0xBFFF_FFFF;

/// First physical address of the cartridge-ROM space.
pub const CART_ROM_BASE: u32 = 0x1000_0000;

/// How the run loop ended.
#[derive(Clone, Copy, Debug, PartialEq, Eq, Structural)]
pub enum SystemResult {
    Graceful,
    Errored,
}

/// The error taxonomy of the core.
#[derive(Clone, Copy, Debug, PartialEq, Eq, Structural)]
pub enum ExecutionError {
    /// Decode reached an architecturally reserved bit pattern; this
    /// becomes the guest's reserved-instruction exception once exception
    /// delivery exists.
    DecodeReserved,
    /// An implementation gap, reported distinctly from guest faults: an
    /// unmapped address segment, an unaligned access, or an instruction
    /// form the engine does not handle yet.
    UnsupportedFeature,
    /// An access to an address with no backing device; fatal, since it
    /// signals a routing defect rather than a guest error.
    MemoryFault,
    /// The basic-block scan exceeded its bound; fatal, signalling
    /// malformed guest code or a routing defect.
    UnboundedBlock,
}

/// The whole machine: the CPU plus every routed device, owned by the
/// router in one place.
pub struct System {
    pub cpu: Cpu,
    pub cart: Vec<u8>,
    pub rcp: Rcp,
    pub pi: Pi,
    pub rdram: Vec<u8>,
}

/// The mathematical model of the machine.
#[verifier::ext_equal]
pub struct SystemView {
    pub cpu: CpuView,
    pub cart: Seq<u8>,
    pub rcp: RcpView,
    pub pi: Pi,
    pub ram: Seq<u8>,
}

impl View for System {
    type V = SystemView;

    open spec fn view(&self) -> SystemView {
        SystemView { cpu: self.cpu@, cart: self.cart@, rcp: self.rcp@, pi: self.pi, ram: self.rdram@ }
    }
}

impl SystemView {
    /// The machine is well formed when the CPU is and every fixed-size
    /// memory holds exactly its bytes.
    pub open spec fn wf(self) -> bool {
        &&& self.cpu.wf()
        &&& self.rcp.wf()
        &&& self.ram.len() == RAM_BYTES
    }

    /// The current program counter.
    pub open spec fn pc(self) -> u64 {
        self.cpu.rf.PC
    }

    /// The value a read of general register `r` yields.
    pub open spec fn gpr(self, r: GPR) -> u64 {
        self.cpu.rf.gpr(r)
    }

    /// The machine after a write to general register `r`.
    pub open spec fn with_gpr(self, r: GPR, v: u64) -> SystemView {
        SystemView { cpu: CpuView { rf: self.cpu.rf.with_gpr(r, v), ..self.cpu }, ..self }
    }

    /// The machine with the program counter replaced.
    pub open spec fn with_pc(self, pc: u64) -> SystemView {
        SystemView { cpu: CpuView { rf: self.cpu.rf.with_pc(pc), ..self.cpu }, ..self }
    }
}

/// Virtual-to-physical translation. Only the uncached kernel segment is
/// directly mapped; every other segment would need TLB support and fails
/// explicitly instead of aliasing.
pub open spec fn translate(virt: u32) -> Result<u32, ExecutionError> {
    if KSEG1_BASE <= virt <= KSEG1_END {
        Ok((virt - KSEG1_BASE) as u32)
    } else {
        Err(ExecutionError::UnsupportedFeature)
    }
}

/// The byte backing physical address `p`, or the fault when no device
/// backs it. The coprocessor window mirrors its two local memories every
/// 8 KiB: the low 4 KiB of each period is data memory, the high 4 KiB
/// instruction memory.
pub open spec fn phys_byte(s: SystemView, p: int) -> Result<u8, ExecutionError> {
    if 0 <= p < RAM_BYTES {
        Ok(s.ram[p])
    } else if RSP_WINDOW_BASE <= p <= RSP_WINDOW_END {
        let off = (p - RSP_WINDOW_BASE) % (RSP_MIRROR_BYTES as int);
        if off < RSP_MEM_BYTES {
            Ok(s.rcp.rsp.DMEM[off])
        } else {
            Ok(s.rcp.rsp.IMEM[off - RSP_MEM_BYTES])
        }
    } else if PI_WINDOW_BASE <= p <= PI_WINDOW_END {
        Ok(s.pi.byte_at(p - PI_WINDOW_BASE))
    } else {
        Err(ExecutionError::MemoryFault)
    }
}

/// What a read of `len` bytes at virtual address `vaddr` yields:
/// translation of the start address, then the backing byte of each
/// physical address in turn; a byte with no backing device fails the
/// whole read.
pub open spec fn read_spec(s: SystemView, vaddr: u32, len: nat) -> Result<Seq<u8>, ExecutionError> {
    match translate(vaddr) {
        Err(e) => Err(e),
        Ok(p) => if forall|i: int| 0 <= i < len ==> (#[trigger] phys_byte(s, p + i)) is Ok {
            Ok(Seq::new(len, |i: int| phys_byte(s, p + i)->Ok_0))
        } else {
            Err(ExecutionError::MemoryFault)
        },
    }
}

impl System {
    /// A fresh machine around a cartridge image: zeroed RAM, local
    /// memories, registers and peripheral interface.
    pub fn new(cart: Vec<u8>) -> (r: System)
        ensures
            r@.wf(),
            r@.cart == cart@,
            forall|i: int| 0 <= i < RAM_BYTES ==> r@.ram[i] == 0,
            forall|i: int| 0 <= i < RSP_MEM_BYTES ==> r@.rcp.rsp.DMEM[i] == 0,
            forall|i: int| 0 <= i < RSP_MEM_BYTES ==> r@.rcp.rsp.IMEM[i] == 0,
            forall|g: GPR| r@.gpr(g) == 0,
            r@.pc() == 0,
            r@.cpu.rf.HI == 0 && r@.cpu.rf.LO == 0 && !r@.cpu.rf.LLBit,
            r@.cpu.rf.FCR0 == 0 && r@.cpu.rf.FCR31.bits == 0,
            r@.cpu.cop0 == crate::cpu::cop0::reset_spec(),
            r@.pi.dram_addr == 0 && r@.pi.cart_addr == 0,
    {
        System {
            cpu: Cpu::new(),
            cart,
            rcp: Rcp::new(),
            pi: Pi::new(),
            rdram: crate::rsp::zeroed_bytes(RAM_BYTES),
        }
    }

    /// Translates a virtual address; fails explicitly outside the
    /// uncached kernel segment.
    pub fn virt_to_phys(&self, virt: u32) -> (r: Result<u32, ExecutionError>)
        ensures
            r == translate(virt),
    {
        if KSEG1_BASE <= virt && virt <= KSEG1_END {
            Ok(virt - KSEG1_BASE)
        } else {
            Err(ExecutionError::UnsupportedFeature)
        }
    }

    /// Reads `len` bytes at virtual address `addr` through translation
    /// and physical dispatch.
    pub fn read(&self, addr: u32, len: usize) -> (r: Result<Vec<u8>, ExecutionError>)
        requires
            self@.wf(),
        ensures
            match read_spec(self@, addr, len as nat) {
                Ok(bs) => r is Ok && r->Ok_0@ == bs,
                Err(e) => r == Err::<Vec<u8>, ExecutionError>(e),
            },
    {
        let phys = match self.virt_to_phys(addr) {
            Ok(p) => p,
            Err(e) => {
                return Err(e);
            },
        };
        let mut out: Vec<u8> = Vec::new();
        let mut i: usize = 0;
        while i < len
            invariant
                self@.wf(),
                i <= len,
                out@.len() == i,
                translate(addr) == Ok::<u32, ExecutionError>(phys),
                forall|j: int| 0 <= j < i ==> (#[trigger] phys_byte(self@, phys + j)) is Ok,
                forall|j: int|
                    0 <= j < i ==> out@[j] == (#[trigger] phys_byte(self@, phys + j))->Ok_0,
            decreases len - i,
        {
            if i as u64 > PI_WINDOW_END as u64 {
                proof {
                    assert(phys_byte(self@, phys + i) is Err);
                }
                return Err(ExecutionError::MemoryFault);
            }
            let pa64: u64 = phys as u64 + i as u64;
            if pa64 > PI_WINDOW_END as u64 {
                proof {
                    assert(phys_byte(self@, phys + i) is Err);
                }
                return Err(ExecutionError::MemoryFault);
            }
            let pa: u32 = pa64 as u32;
            let b: u8;
            if pa < RAM_BYTES as u32 {
                b = self.rdram[pa as usize];
            } else if RSP_WINDOW_BASE <= pa && pa <= RSP_WINDOW_END {
                let off = (pa - RSP_WINDOW_BASE) % RSP_MIRROR_BYTES;
                if off < RSP_MEM_BYTES as u32 {
                    b = self.rcp.rsp.DMEM[off as usize];
                } else {
                    b = self.rcp.rsp.IMEM[(off - RSP_MEM_BYTES as u32) as usize];
                }
            } else if PI_WINDOW_BASE <= pa && pa <= PI_WINDOW_END {
                b = self.pi.read_byte(pa - PI_WINDOW_BASE);
            } else {
                proof {
                    assert(phys_byte(self@, phys + i) is Err);
                }
                return Err(ExecutionError::MemoryFault);
            }
            proof {
                assert(pa == phys + i);
                assert(phys_byte(self@, phys + i) == Ok::<u8, ExecutionError>(b));
            }
            out.push(b);
            proof {
                assert forall|j: int| 0 <= j < i + 1 implies (#[trigger] phys_byte(self@, phys + j))
                    is Ok && out@[j] == phys_byte(self@, phys + j)->Ok_0 by {
                    if j == i {
                        assert(out@[j] == b);
                        assert(phys_byte(self@, phys + j) == Ok::<u8, ExecutionError>(b));
                    } else {
                        assert(phys_byte(self@, phys + j) is Ok);
                        assert(out@[j] == phys_byte(self@, phys + j)->Ok_0);
                    }
                }
            }
            i = i + 1;
        }
        proof {
            assert(out@ =~= Seq::new(len as nat, |j: int| phys_byte(self@, phys + j)->Ok_0));
        }
        Ok(out)
    }
}

/// `dst` with `src` written over it starting at `at`.
pub open spec fn splice(dst: Seq<u8>, at: int, src: Seq<u8>) -> Seq<u8> {
    Seq::new(dst.len(), |i: int| if at <= i < at + src.len() { src[i - at] } else { dst[i] })
}

/// The local memories after one byte is written at coprocessor-window
/// offset `off`, mirrored every 8 KiB as reads are.
pub open spec fn rsp_write_byte(m: crate::rsp::RspView, off: int, b: u8) -> crate::rsp::RspView {
    let o = off % (RSP_MIRROR_BYTES as int);
    if o < RSP_MEM_BYTES {
        crate::rsp::RspView { DMEM: m.DMEM.update(o, b), ..m }
    } else {
        crate::rsp::RspView { IMEM: m.IMEM.update(o - RSP_MEM_BYTES, b), ..m }
    }
}

/// The local memories after `data` is written byte by byte starting at
/// coprocessor-window offset `off`.
pub open spec fn rsp_write_bytes(m: crate::rsp::RspView, off: int, data: Seq<u8>) -> crate::rsp::RspView
    decreases data.len(),
{
    if data.len() == 0 {
        m
    } else {
        rsp_write_byte(rsp_write_bytes(m, off, data.drop_last()), off + data.len() - 1, data.last())
    }
}

/// The machine after the DMA transfer `d`: a byte-exact copy between
/// cartridge-ROM space and main-RAM space, in the direction implied by
/// which side is cartridge space; a transfer that leaves either backing
/// range is a memory fault.
pub open spec fn dma_spec(s: SystemView, d: DmaDescriptor) -> Result<SystemView, ExecutionError> {
    if d.from >= CART_ROM_BASE {
        let src = d.from - CART_ROM_BASE;
        if src + d.len <= s.cart.len() && d.to + d.len <= s.ram.len() {
            Ok(
                SystemView {
                    ram: splice(s.ram, d.to as int, s.cart.subrange(src as int, src + d.len)),
                    ..s
                },
            )
        } else {
            Err(ExecutionError::MemoryFault)
        }
    } else if d.to >= CART_ROM_BASE {
        let dst = d.to - CART_ROM_BASE;
        if d.from + d.len <= s.ram.len() && dst + d.len <= s.cart.len() {
            Ok(
                SystemView {
                    cart: splice(s.cart, dst as int, s.ram.subrange(d.from as int, d.from + d.len)),
                    ..s
                },
            )
        } else {
            Err(ExecutionError::MemoryFault)
        }
    } else {
        Err(ExecutionError::MemoryFault)
    }
}

/// What a write of `data` at virtual address `vaddr` does: translation,
/// then dispatch of the whole access by physical range. A write into the
/// peripheral-interface window updates its registers and, when it
/// completes a DMA descriptor, performs the transfer.
pub open spec fn write_spec(s: SystemView, vaddr: u32, data: Seq<u8>) -> Result<
    SystemView,
    ExecutionError,
> {
    match translate(vaddr) {
        Err(e) => Err(e),
        Ok(p) => if p + data.len() <= RAM_BYTES {
            Ok(SystemView { ram: splice(s.ram, p as int, data), ..s })
        } else if RSP_WINDOW_BASE <= p && p + data.len() <= RSP_WINDOW_END + 1 {
            Ok(
                SystemView {
                    rcp: RcpView { rsp: rsp_write_bytes(s.rcp.rsp, p - RSP_WINDOW_BASE, data) },
                    ..s
                },
            )
        } else if PI_WINDOW_BASE <= p && p + data.len() <= PI_WINDOW_END + 1 {
            let off = p - PI_WINDOW_BASE;
            let s2 = SystemView { pi: s.pi.write_state(off, data), ..s };
            match s.pi.write_dma(off, data) {
                None => Ok(s2),
                Some(d) => dma_spec(s2, d),
            }
        } else {
            Err(ExecutionError::MemoryFault)
        },
    }
}

impl System {
    /// Performs the byte-exact transfer a completed DMA descriptor asks
    /// for, between cartridge-ROM space and main-RAM space.
    pub fn execute_dma(&mut self, d: DmaDescriptor) -> (r: Result<(), ExecutionError>)
        requires
            old(self)@.wf(),
        ensures
            final(self)@.wf(),
            match dma_spec(old(self)@, d) {
                Ok(v2) => r is Ok && final(self)@ == v2,
                Err(e) => r == Err::<(), ExecutionError>(e) && final(self)@ == old(self)@,
            },
    {
        if d.from >= CART_ROM_BASE {
            let src = d.from - CART_ROM_BASE;
            if (src as u128) + (d.len as u128) <= self.cart.len() as u128 && (d.to as u128) + (
            d.len as u128) <= self.rdram.len() as u128 {
                let ghost sub = self.cart@.subrange(src as int, src + d.len);
                let mut j: usize = 0;
                while j < d.len
                    invariant
                        j <= d.len,
                        src + d.len <= self.cart@.len(),
                        d.to + d.len <= self.rdram@.len(),
                        self.cart@.len() <= usize::MAX,
                        self.rdram@.len() <= usize::MAX,
                        sub == self.cart@.subrange(src as int, src + d.len),
                        self.rdram@.len() == old(self).rdram@.len(),
                        self.cart@ == old(self).cart@,
                        self.cpu == old(self).cpu,
                        self.rcp@ == old(self).rcp@,
                        self.pi == old(self).pi,
                        self.rdram@ == splice(old(self).rdram@, d.to as int, sub.take(j as int)),
                    decreases d.len - j,
                {
                    let b = self.cart[src as usize + j];
                    let ghost prev = self.rdram@;
                    self.rdram[d.to as usize + j] = b;
                    proof {
                        assert(prev.update(d.to + j, b) =~= splice(
                            old(self).rdram@,
                            d.to as int,
                            sub.take(j + 1),
                        ));
                    }
                    j = j + 1;
                }
                proof {
                    assert(sub.take(d.len as int) =~= sub);
                    assert(self@ =~= dma_spec(old(self)@, d)->Ok_0);
                }
                Ok(())
            } else {
                Err(ExecutionError::MemoryFault)
            }
        } else if d.to >= CART_ROM_BASE {
            let dst = d.to - CART_ROM_BASE;
            if (d.from as u128) + (d.len as u128) <= self.rdram.len() as u128 && (dst as u128) + (
            d.len as u128) <= self.cart.len() as u128 {
                let ghost sub = self.rdram@.subrange(d.from as int, d.from + d.len);
                let mut j: usize = 0;
                while j < d.len
                    invariant
                        j <= d.len,
                        dst + d.len <= self.cart@.len(),
                        d.from + d.len <= self.rdram@.len(),
                        self.cart@.len() <= usize::MAX,
                        self.rdram@.len() <= usize::MAX,
                        sub == self.rdram@.subrange(d.from as int, d.from + d.len),
                        self.cart@.len() == old(self).cart@.len(),
                        self.rdram@ == old(self).rdram@,
                        self.cpu == old(self).cpu,
                        self.rcp@ == old(self).rcp@,
                        self.pi == old(self).pi,
                        self.cart@ == splice(old(self).cart@, dst as int, sub.take(j as int)),
                    decreases d.len - j,
                {
                    let b = self.rdram[d.from as usize + j];
                    let ghost prev = self.cart@;
                    self.cart[dst as usize + j] = b;
                    proof {
                        assert(prev.update(dst + j, b) =~= splice(
                            old(self).cart@,
                            dst as int,
                            sub.take(j + 1),
                        ));
                    }
                    j = j + 1;
                }
                proof {
                    assert(sub.take(d.len as int) =~= sub);
                    assert(self@ =~= dma_spec(old(self)@, d)->Ok_0);
                }
                Ok(())
            } else {
                Err(ExecutionError::MemoryFault)
            }
        } else {
            Err(ExecutionError::MemoryFault)
        }
    }

    /// Writes `val` at virtual address `addr` through translation and
    /// physical dispatch; on any failure the machine is unchanged.
    pub fn write(&mut self, addr: u32, val: Vec<u8>) -> (r: Result<(), ExecutionError>)
        requires
            old(self)@.wf(),
        ensures
            final(self)@.wf(),
            match write_spec(old(self)@, addr, val@) {
                Ok(v2) => r is Ok && final(self)@ == v2,
                Err(e) => r == Err::<(), ExecutionError>(e) && final(self)@ == old(self)@,
            },
    {
        let phys = match self.virt_to_phys(addr) {
            Ok(p) => p,
            Err(e) => {
                return Err(e);
            },
        };
        let n = val.len();
        if (phys as u128) + (n as u128) <= RAM_BYTES as u128 {
            let mut j: usize = 0;
            while j < n
                invariant
                    j <= n,
                    n == val@.len(),
                    phys + n <= RAM_BYTES,
                    self.rdram@.len() == RAM_BYTES,
                    self.cart@ == old(self).cart@,
                    self.cpu == old(self).cpu,
                    self.rcp@ == old(self).rcp@,
                    self.pi == old(self).pi,
                    self.rdram@ == splice(old(self).rdram@, phys as int, val@.take(j as int)),
                decreases n - j,
            {
                let b = val[j];
                let ghost prev = self.rdram@;
                self.rdram[phys as usize + j] = b;
                proof {
                    assert(prev.update(phys + j, b) =~= splice(
                        old(self).rdram@,
                        phys as int,
                        val@.take(j + 1),
                    ));
                }
                j = j + 1;
            }
            proof {
                assert(val@.take(n as int) =~= val@);
                assert(self@ =~= write_spec(old(self)@, addr, val@)->Ok_0);
            }
            Ok(())
        } else if RSP_WINDOW_BASE <= phys && (phys as u128) + (n as u128) <= RSP_WINDOW_END as u128
            + 1 {
            let off = phys - RSP_WINDOW_BASE;
            let mut j: usize = 0;
            while j < n
                invariant
                    j <= n,
                    n == val@.len(),
                    off == phys - RSP_WINDOW_BASE,
                    off + n <= RSP_WINDOW_END - RSP_WINDOW_BASE + 1,
                    self.rcp@.wf(),
                    self.cart@ == old(self).cart@,
                    self.cpu == old(self).cpu,
                    self.rdram@ == old(self).rdram@,
                    self.pi == old(self).pi,
                    self.rcp@.rsp == rsp_write_bytes(old(self).rcp@.rsp, off as int, val@.take(j as int)),
                decreases n - j,
            {
                let b = val[j];
                let o = (off + j as u32) % RSP_MIRROR_BYTES;
                let ghost prev = self.rcp@.rsp;
                if o < RSP_MEM_BYTES as u32 {
                    self.rcp.rsp.DMEM[o as usize] = b;
                } else {
                    self.rcp.rsp.IMEM[(o - RSP_MEM_BYTES as u32) as usize] = b;
                }
                proof {
                    assert(val@.take(j + 1).drop_last() =~= val@.take(j as int));
                    assert(val@.take(j + 1).last() == val@[j as int]);
                    assert(self.rcp@.rsp == rsp_write_byte(prev, off + j, b));
                }
                j = j + 1;
            }
            proof {
                assert(val@.take(n as int) =~= val@);
                assert(self@ =~= write_spec(old(self)@, addr, val@)->Ok_0);
            }
            Ok(())
        } else if PI_WINDOW_BASE <= phys && (phys as u128) + (n as u128) <= PI_WINDOW_END as u128
            + 1 {
            let off = phys - PI_WINDOW_BASE;
            match self.pi.peek_dma(off, &val) {
                None => {
                    self.pi.write(off, &val);
                    proof {
                        assert(self@ =~= write_spec(old(self)@, addr, val@)->Ok_0);
                    }
                    Ok(())
                },
                Some(d) => {
                    match self.execute_dma(d) {
                        Err(e) => Err(e),
                        Ok(()) => {
                            self.pi.write(off, &val);
                            proof {
                                assert(self@ =~= write_spec(old(self)@, addr, val@)->Ok_0);
                            }
                            Ok(())
                        },
                    }
                },
            }
        } else {
            Err(ExecutionError::MemoryFault)
        }
    }
}

/// The program counter advanced by one instruction width, wrapping.
pub open spec fn pc_after(pc: u64) -> u64 {
    vstd::wrapping::u64_specs::wrapping_add(pc, 4)
}

/// The result of one ALU operation on its two operands, or nothing for
/// an operation the engine does not handle yet. Shifts are 64-bit and
/// take their amount from the low six bits of the second operand;
/// arithmetic right shifts keep the sign.
pub open spec fn alu_result(op_type: AluOps, a: u64, b: u64) -> Option<u64> {
    match op_type {
        AluOps::ORI => Some(a | b),
        AluOps::ANDI => Some(a & b),
        AluOps::SLL => Some(a << (b & 63)),
        AluOps::SLLV => Some(a << (b & 63)),
        AluOps::SRL => Some(a >> (b & 63)),
        AluOps::SRLV => Some(a >> (b & 63)),
        AluOps::SRA => Some(((a as i64) >> ((b & 63) as i64)) as u64),
        AluOps::SRAV => Some(((a as i64) >> ((b & 63) as i64)) as u64),
        _ => None,
    }
}

/// Whether a control-flow condition holds of the current register
/// values, or nothing for a condition the engine does not handle yet
/// (the coprocessor-condition forms, and a register-pair condition
/// without its general register).
pub open spec fn branch_eval(
    s: SystemView,
    cond: ControlConditionalType,
    register: Option<GPRorCoPGPR>,
) -> Option<bool> {
    match cond {
        ControlConditionalType::Unconditional => Some(true),
        ControlConditionalType::CopZFalse { .. } => None,
        ControlConditionalType::CopZTrue { .. } => None,
        ControlConditionalType::Eq { reg2 } => match register {
            Some(GPRorCoPGPR::gpr(r1)) => Some(s.gpr(r1) == s.gpr(reg2)),
            _ => None,
        },
        ControlConditionalType::Ne { reg2 } => match register {
            Some(GPRorCoPGPR::gpr(r1)) => Some(s.gpr(r1) != s.gpr(reg2)),
            _ => None,
        },
        ControlConditionalType::GEZ => match register {
            Some(GPRorCoPGPR::gpr(r1)) => Some((s.gpr(r1) as i64) >= 0),
            _ => None,
        },
        ControlConditionalType::GTZ => match register {
            Some(GPRorCoPGPR::gpr(r1)) => Some((s.gpr(r1) as i64) > 0),
            _ => None,
        },
        ControlConditionalType::LEZ => match register {
            Some(GPRorCoPGPR::gpr(r1)) => Some((s.gpr(r1) as i64) <= 0),
            _ => None,
        },
        ControlConditionalType::LTZ => match register {
            Some(GPRorCoPGPR::gpr(r1)) => Some((s.gpr(r1) as i64) < 0),
            _ => None,
        },
    }
}

/// How many of the immediately following block entries the engine must
/// nullify after this operation: one for the delay slot of a not-taken
/// "likely" branch, none otherwise.
pub open spec fn skip_after(s: SystemView, op: Op) -> nat {
    match op {
        Op::ControlFlow { conditional, register, likely, .. } => if likely && branch_eval(
            s,
            conditional,
            register,
        ) == Some(false) {
            1nat
        } else {
            0nat
        },
        _ => 0nat,
    }
}

/// The machine after one IR operation executes at address `addr`: the
/// engine's per-variant contract. A non-redirecting operation advances
/// the program counter by one instruction width; a taken control
/// transfer redirects it, with relative targets scaled at decode and
/// based at the address following the delay slot; a "link" form writes
/// that address to the link register. Unsupported forms fail with the
/// distinct implementation-gap error and reserved patterns with the
/// reserved-instruction error, leaving the machine unchanged.
pub open spec fn step_spec(pre: SystemView, op: Op, addr: u64) -> Result<SystemView, ExecutionError> {
    match op {
        Op::Load { width, dest, base, offset, conditional, aligned, imm_src } => {
            if !aligned || conditional {
                Err(ExecutionError::UnsupportedFeature)
            } else {
                match dest {
                    GPRorCoPGPR::cop => Err(ExecutionError::UnsupportedFeature),
                    GPRorCoPGPR::gpr(rd) => match base {
                        None => match imm_src {
                            None => Err(ExecutionError::UnsupportedFeature),
                            Some(v) => Ok(
                                pre.with_gpr(rd, (v as u32) as u64).with_pc(pc_after(pre.pc())),
                            ),
                        },
                        Some(rb) => if width != 32 {
                            Err(ExecutionError::UnsupportedFeature)
                        } else {
                            let off: i64 = match offset {
                                Some(o) => o as i16 as i64,
                                None => 0,
                            };
                            let ea = vstd::wrapping::u64_specs::wrapping_add_signed(
                                pre.gpr(rb),
                                off,
                            ) as u32;
                            match read_spec(pre, ea, 4) {
                                Err(e) => Err(e),
                                Ok(bs) => Ok(
                                    pre.with_gpr(rd, u32_from_le(bs) as u64).with_pc(
                                        pc_after(pre.pc()),
                                    ),
                                ),
                            }
                        },
                    },
                }
            }
        },
        Op::Store { width, src, base, offset, conditional, aligned, imm_src } => {
            if !aligned || conditional || width != 32 {
                Err(ExecutionError::UnsupportedFeature)
            } else {
                let vv: Option<u32> = match imm_src {
                    Some(v) => Some(v as u32),
                    None => match src {
                        GPRorCoPGPR::gpr(r) => Some(pre.gpr(r) as u32),
                        GPRorCoPGPR::cop => None,
                    },
                };
                match vv {
                    None => Err(ExecutionError::UnsupportedFeature),
                    Some(v) => match base {
                        None => Err(ExecutionError::UnsupportedFeature),
                        Some(rb) => {
                            let off: i32 = match offset {
                                Some(o) => o as i16 as i32,
                                None => 0,
                            };
                            let ea = vstd::wrapping::u32_specs::wrapping_add_signed(
                                pre.gpr(rb) as u32,
                                off,
                            );
                            match write_spec(pre, ea, crate::pi::u32_le_seq(v)) {
                                Err(e) => Err(e),
                                Ok(s2) => Ok(s2.with_pc(pc_after(pre.pc()))),
                            }
                        },
                    },
                }
            }
        },
        Op::AluOp { op_type, dst, src_1, src_2 } => {
            match src_1 {
                None => Err(ExecutionError::UnsupportedFeature),
                Some(r1) => {
                    let a = pre.gpr(r1);
                    let b = match src_2 {
                        AluOpSrc::Imm(v) => v as u64,
                        AluOpSrc::Reg(r) => pre.gpr(r),
                    };
                    match alu_result(op_type, a, b) {
                        None => Err(ExecutionError::UnsupportedFeature),
                        Some(res) => Ok(pre.with_gpr(dst, res).with_pc(pc_after(pre.pc()))),
                    }
                },
            }
        },
        Op::ControlFlow { conditional, destination, register, likely, link } => {
            match branch_eval(pre, conditional, register) {
                None => Err(ExecutionError::UnsupportedFeature),
                Some(take) => {
                    let ret = vstd::wrapping::u64_specs::wrapping_add(addr, 8);
                    let s1 = if link {
                        pre.with_gpr(GPR::ra, ret)
                    } else {
                        pre
                    };
                    let pc2 = if take {
                        match destination {
                            ControlDestType::Absolute { dest } => dest as u64,
                            ControlDestType::Relative { offset } => vstd::wrapping::u64_specs::wrapping_add_signed(
                                ret,
                                offset,
                            ),
                        }
                    } else {
                        pc_after(pre.pc())
                    };
                    Ok(s1.with_pc(pc2))
                },
            }
        },
        Op::Move { .. } => Err(ExecutionError::UnsupportedFeature),
        Op::System { .. } => Err(ExecutionError::UnsupportedFeature),
        Op::MalformedOp => Err(ExecutionError::DecodeReserved),
    }
}

/// The result of one ALU operation, executably.
fn alu_exec(op_type: AluOps, a: u64, b: u64) -> (r: Option<u64>)
    ensures
        r == alu_result(op_type, a, b),
{
    let sh = b & 63;
    proof {
        assert(b & 63 < 64) by (bit_vector);
    }
    match op_type {
        AluOps::ORI => Some(a | b),
        AluOps::ANDI => Some(a & b),
        AluOps::SLL => Some(a << sh),
        AluOps::SLLV => Some(a << sh),
        AluOps::SRL => Some(a >> sh),
        AluOps::SRLV => Some(a >> sh),
        AluOps::SRA => Some(
            #[verifier::truncate] (((#[verifier::truncate] (a as i64)) >> (sh as i64)) as u64),
        ),
        AluOps::SRAV => Some(
            #[verifier::truncate] (((#[verifier::truncate] (a as i64)) >> (sh as i64)) as u64),
        ),
        _ => None,
    }
}

impl System {
    /// Whether a control-flow condition holds of the current register
    /// values; nothing for the forms the engine does not handle yet.
    fn eval_condition(&self, cond: ControlConditionalType, register: Option<GPRorCoPGPR>) -> (r:
        Option<bool>)
        requires
            self@.wf(),
        ensures
            r == branch_eval(self@, cond, register),
    {
        match cond {
            ControlConditionalType::Unconditional => Some(true),
            ControlConditionalType::CopZFalse { .. } => None,
            ControlConditionalType::CopZTrue { .. } => None,
            ControlConditionalType::Eq { reg2 } => match register {
                Some(GPRorCoPGPR::gpr(r1)) => Some(
                    self.cpu.rf.read_gpr(r1) == self.cpu.rf.read_gpr(reg2),
                ),
                _ => None,
            },
            ControlConditionalType::Ne { reg2 } => match register {
                Some(GPRorCoPGPR::gpr(r1)) => Some(
                    self.cpu.rf.read_gpr(r1) != self.cpu.rf.read_gpr(reg2),
                ),
                _ => None,
            },
            ControlConditionalType::GEZ => match register {
                Some(GPRorCoPGPR::gpr(r1)) => Some(
                    (#[verifier::truncate] (self.cpu.rf.read_gpr(r1) as i64)) >= 0,
                ),
                _ => None,
            },
            ControlConditionalType::GTZ => match register {
                Some(GPRorCoPGPR::gpr(r1)) => Some(
                    (#[verifier::truncate] (self.cpu.rf.read_gpr(r1) as i64)) > 0,
                ),
                _ => None,
            },
            ControlConditionalType::LEZ => match register {
                Some(GPRorCoPGPR::gpr(r1)) => Some(
                    (#[verifier::truncate] (self.cpu.rf.read_gpr(r1) as i64)) <= 0,
                ),
                _ => None,
            },
            ControlConditionalType::LTZ => match register {
                Some(GPRorCoPGPR::gpr(r1)) => Some(
                    (#[verifier::truncate] (self.cpu.rf.read_gpr(r1) as i64)) < 0,
                ),
                _ => None,
            },
        }
    }

    /// Executes one IR operation at address `addr` against the register
    /// file and the memory router. Returns how many of the immediately
    /// following block entries to nullify: one after a not-taken
    /// "likely" branch, none otherwise. On any failure the machine is
    /// unchanged and the error says whether the engine hit a reserved
    /// pattern, an implementation gap, or a routing fault.
    #[allow(non_snake_case)]
    pub fn execute_IR(&mut self, op: Op, addr: u64) -> (r: Result<usize, ExecutionError>)
        requires
            old(self)@.wf(),
        ensures
            final(self)@.wf(),
            match step_spec(old(self)@, op, addr) {
                Ok(v2) => r is Ok && final(self)@ == v2 && r->Ok_0 == skip_after(old(self)@, op),
                Err(e) => r == Err::<usize, ExecutionError>(e) && final(self)@ == old(self)@,
            },
    {
        match op {
            Op::Load { width, dest, base, offset, conditional, aligned, imm_src } => {
                if !aligned || conditional {
                    return Err(ExecutionError::UnsupportedFeature);
                }
                let rd = match dest {
                    GPRorCoPGPR::gpr(r) => r,
                    GPRorCoPGPR::cop => {
                        return Err(ExecutionError::UnsupportedFeature);
                    },
                };
                match base {
                    None => {
                        match imm_src {
                            None => Err(ExecutionError::UnsupportedFeature),
                            Some(v) => {
                                let value = #[verifier::truncate] (v as u32);
                                self.cpu.rf.write_gpr(rd, value as u64);
                                let pc = self.cpu.rf.PC;
                                self.cpu.rf.PC = pc.wrapping_add(4);
                                Ok(0)
                            },
                        }
                    },
                    Some(rb) => {
                        if width != 32 {
                            return Err(ExecutionError::UnsupportedFeature);
                        }
                        let baseval = self.cpu.rf.read_gpr(rb);
                        let off: i64 = match offset {
                            Some(o) => (#[verifier::truncate] (o as i16)) as i64,
                            None => 0,
                        };
                        let ea = #[verifier::truncate] (baseval.wrapping_add_signed(off) as u32);
                        match self.read(ea, 4) {
                            Err(e) => Err(e),
                            Ok(bytes) => {
                                let value = crate::pi::word_from_le(&bytes);
                                self.cpu.rf.write_gpr(rd, value as u64);
                                let pc = self.cpu.rf.PC;
                                self.cpu.rf.PC = pc.wrapping_add(4);
                                Ok(0)
                            },
                        }
                    },
                }
            },
            Op::Store { width, src, base, offset, conditional, aligned, imm_src } => {
                if !aligned || conditional || width != 32 {
                    return Err(ExecutionError::UnsupportedFeature);
                }
                let value: u32 = match imm_src {
                    Some(v) => #[verifier::truncate] (v as u32),
                    None => match src {
                        GPRorCoPGPR::gpr(r) => #[verifier::truncate] (self.cpu.rf.read_gpr(
                            r,
                        ) as u32),
                        GPRorCoPGPR::cop => {
                            return Err(ExecutionError::UnsupportedFeature);
                        },
                    },
                };
                let rb = match base {
                    Some(r) => r,
                    None => {
                        return Err(ExecutionError::UnsupportedFeature);
                    },
                };
                let baseval = self.cpu.rf.read_gpr(rb);
                let off32: i32 = match offset {
                    Some(o) => (#[verifier::truncate] (o as i16)) as i32,
                    None => 0,
                };
                let ea = (#[verifier::truncate] (baseval as u32)).wrapping_add_signed(off32);
                let bytes = crate::pi::le_bytes_vec(value);
                match self.write(ea, bytes) {
                    Err(e) => Err(e),
                    Ok(()) => {
                        let pc = self.cpu.rf.PC;
                        self.cpu.rf.PC = pc.wrapping_add(4);
                        Ok(0)
                    },
                }
            },
            Op::AluOp { op_type, dst, src_1, src_2 } => {
                let r1 = match src_1 {
                    Some(r) => r,
                    None => {
                        return Err(ExecutionError::UnsupportedFeature);
                    },
                };
                let a = self.cpu.rf.read_gpr(r1);
                let b = match src_2 {
                    AluOpSrc::Imm(v) => v as u64,
                    AluOpSrc::Reg(r) => self.cpu.rf.read_gpr(r),
                };
                match alu_exec(op_type, a, b) {
                    None => Err(ExecutionError::UnsupportedFeature),
                    Some(res) => {
                        self.cpu.rf.write_gpr(dst, res);
                        let pc = self.cpu.rf.PC;
                        self.cpu.rf.PC = pc.wrapping_add(4);
                        Ok(0)
                    },
                }
            },
            Op::ControlFlow { conditional, destination, register, likely, link } => {
                let take = match self.eval_condition(conditional, register) {
                    Some(t) => t,
                    None => {
                        return Err(ExecutionError::UnsupportedFeature);
                    },
                };
                let ret = addr.wrapping_add(8);
                if link {
                    self.cpu.rf.write_gpr(GPR::ra, ret);
                }
                if take {
                    let target: u64 = match destination {
                        ControlDestType::Absolute { dest } => dest as u64,
                        ControlDestType::Relative { offset } => ret.wrapping_add_signed(offset),
                    };
                    self.cpu.rf.PC = target;
                } else {
                    let pc = self.cpu.rf.PC;
                    self.cpu.rf.PC = pc.wrapping_add(4);
                }
                if likely && !take {
                    Ok(1)
                } else {
                    Ok(0)
                }
            },
            Op::Move { .. } => Err(ExecutionError::UnsupportedFeature),
            Op::System { .. } => Err(ExecutionError::UnsupportedFeature),
            Op::MalformedOp => Err(ExecutionError::DecodeReserved),
        }
    }
}

/// The 32-bit value held by four bytes, most-significant byte first:
/// instruction words are fetched big-endian.
pub open spec fn u32_from_be(b: Seq<u8>) -> u32 {
    (((b[0] as u32) << 24) | ((b[1] as u32) << 16) | ((b[2] as u32) << 8) | (b[3] as u32)) as u32
}

/// Assembles four bytes, most-significant first, into a 32-bit value.
pub fn word_from_be(b: &Vec<u8>) -> (r: u32)
    requires
        b@.len() == 4,
    ensures
        r == u32_from_be(b@),
{
    ((b[0] as u32) << 24) | ((b[1] as u32) << 16) | ((b[2] as u32) << 8) | (b[3] as u32)
}

/// One instruction fetch: four bytes read big-endian at the program
/// counter, which must be a 32-bit virtual address.
pub open spec fn fetch_word_spec(s: SystemView, pc: u64) -> Result<u32, ExecutionError> {
    if pc > u32::MAX {
        Err(ExecutionError::UnsupportedFeature)
    } else {
        match read_spec(s, pc as u32, 4) {
            Err(e) => Err(e),
            Ok(bs) => Ok(u32_from_be(bs)),
        }
    }
}

/// Whether an instruction word transfers control: the conditional
/// branches with their "likely" forms, the coprocessor-condition
/// branches, the unconditional jumps and jump-and-links, and the
/// register jump forms of the "special" class.
pub open spec fn is_control_transfer(w: u32) -> bool {
    let op = crate::ir::op_field(w);
    let f = crate::ir::funct_field(w);
    (1 <= op <= 7) || (16 <= op <= 23) || (op == 0 && (f == 8 || f == 9))
}

/// Whether an instruction word transfers control, executably.
pub fn is_control_transfer_exec(w: u32) -> (r: bool)
    ensures
        r == is_control_transfer(w),
{
    let op = (w >> 26) & 0x3F;
    let f = w & 0x3F;
    (1 <= op && op <= 7) || (16 <= op && op <= 23) || (op == 0 && (f == 8 || f == 9))
}

/// How many instruction words the basic-block scan will look at before
/// giving up on finding a control transfer.
pub const BLOCK_SCAN_LIMIT: usize = 1024;

/// The basic block starting at `pc`: every straight-line word in
/// address order, then the first control-transfer word, then exactly its
/// delay-slot word. A scan that exhausts its fuel without meeting a
/// control transfer fails with the unbounded-block error.
pub open spec fn find_block_spec(s: SystemView, pc: u64, fuel: nat) -> Result<
    Seq<(u64, u32)>,
    ExecutionError,
>
    decreases fuel,
{
    if fuel == 0 {
        Err(ExecutionError::UnboundedBlock)
    } else {
        match fetch_word_spec(s, pc) {
            Err(e) => Err(e),
            Ok(w) => if is_control_transfer(w) {
                match fetch_word_spec(s, pc_after(pc)) {
                    Err(e) => Err(e),
                    Ok(w2) => Ok(seq![(pc, w), (pc_after(pc), w2)]),
                }
            } else {
                match find_block_spec(s, pc_after(pc), (fuel - 1) as nat) {
                    Err(e) => Err(e),
                    Ok(rest) => Ok(seq![(pc, w)] + rest),
                }
            },
        }
    }
}

/// Where this operation redirects control, evaluated against the
/// machine before it executes: the target of a taken control transfer,
/// nothing otherwise.
pub open spec fn redirect_target(s: SystemView, op: Op, addr: u64) -> Option<u64> {
    match op {
        Op::ControlFlow { conditional, destination, register, .. } => match branch_eval(
            s,
            conditional,
            register,
        ) {
            Some(true) => Some(
                match destination {
                    ControlDestType::Absolute { dest } => dest as u64,
                    ControlDestType::Relative { offset } => vstd::wrapping::u64_specs::wrapping_add_signed(
                        vstd::wrapping::u64_specs::wrapping_add(addr, 8),
                        offset,
                    ),
                },
            ),
            _ => None,
        },
        _ => None,
    }
}

/// `s` with a pending redirect applied, if one is pending.
pub open spec fn apply_redirect(s: SystemView, pending: Option<u64>) -> SystemView {
    match pending {
        None => s,
        Some(t) => s.with_pc(t),
    }
}

/// The machine after the ops of one lifted block execute in order,
/// with delay-slot semantics. A positive `skip` count nullifies that
/// many entries: the program counter passes over each without its
/// effects. A taken control transfer leaves its target `pending` for
/// one operation, so the delay slot executes with its full effects and
/// control then goes to the target.
pub open spec fn exec_ops_spec(
    s: SystemView,
    ops: Seq<(Op, u64)>,
    skip: nat,
    pending: Option<u64>,
) -> Result<SystemView, ExecutionError>
    decreases ops.len(),
{
    if ops.len() == 0 {
        Ok(apply_redirect(s, pending))
    } else if skip > 0 {
        exec_ops_spec(s.with_pc(pc_after(s.pc())), ops.drop_first(), (skip - 1) as nat, pending)
    } else {
        match step_spec(s, ops[0].0, ops[0].1) {
            Err(e) => Err(e),
            Ok(s2) => {
                let s3 = apply_redirect(s2, pending);
                let np = if pending is Some {
                    None
                } else {
                    redirect_target(s, ops[0].0, ops[0].1)
                };
                exec_ops_spec(s3, ops.drop_first(), skip_after(s, ops[0].0), np)
            },
        }
    }
}

/// One iteration of the run loop: find the next basic block at the
/// program counter, lift it, and execute its ops in order.
pub open spec fn block_step_spec(s: SystemView) -> Result<SystemView, ExecutionError> {
    match find_block_spec(s, s.pc(), BLOCK_SCAN_LIMIT as nat) {
        Err(e) => Err(e),
        Ok(block) => match lift_spec(block) {
            Err(_) => Err(ExecutionError::UnsupportedFeature),
            Ok(ops) => exec_ops_spec(s, ops, 0, None),
        },
    }
}

impl System {
    /// Fetches the instruction word at virtual address `pc`.
    fn fetch_word(&self, pc: u64) -> (r: Result<u32, ExecutionError>)
        requires
            self@.wf(),
        ensures
            r == fetch_word_spec(self@, pc),
    {
        if pc > u32::MAX as u64 {
            return Err(ExecutionError::UnsupportedFeature);
        }
        match self.read(pc as u32, 4) {
            Err(e) => Err(e),
            Ok(bytes) => Ok(word_from_be(&bytes)),
        }
    }

    /// The recursive scan behind the basic-block finder.
    fn scan_block(&self, pc: u64, fuel: usize) -> (r: Result<Vec<(u64, u32)>, ExecutionError>)
        requires
            self@.wf(),
        ensures
            match find_block_spec(self@, pc, fuel as nat) {
                Ok(b) => r is Ok && r->Ok_0@ == b,
                Err(e) => r == Err::<Vec<(u64, u32)>, ExecutionError>(e),
            },
        decreases fuel,
    {
        if fuel == 0 {
            return Err(ExecutionError::UnboundedBlock);
        }
        let w = match self.fetch_word(pc) {
            Ok(w) => w,
            Err(e) => {
                return Err(e);
            },
        };
        if is_control_transfer_exec(w) {
            let w2 = match self.fetch_word(pc.wrapping_add(4)) {
                Ok(x) => x,
                Err(e) => {
                    return Err(e);
                },
            };
            let mut v: Vec<(u64, u32)> = Vec::new();
            v.push((pc, w));
            v.push((pc.wrapping_add(4), w2));
            proof {
                assert(v@ =~= seq![(pc, w), (pc_after(pc), w2)]);
            }
            Ok(v)
        } else {
            match self.scan_block(pc.wrapping_add(4), fuel - 1) {
                Err(e) => Err(e),
                Ok(mut rest) => {
                    let ghost tail = rest@;
                    rest.insert(0, (pc, w));
                    proof {
                        assert(rest@ =~= seq![(pc, w)] + tail);
                    }
                    Ok(rest)
                },
            }
        }
    }

    /// Scans forward from the program counter, appending straight-line
    /// words until the first control transfer, then appends it and its
    /// delay slot and stops. The scan is bounded: a run of straight-line
    /// words longer than the limit is an explicit error, never an
    /// unbounded search.
    pub fn find_next_basic_block(&self) -> (r: Result<Vec<(u64, u32)>, ExecutionError>)
        requires
            self@.wf(),
        ensures
            match find_block_spec(self@, self@.pc(), BLOCK_SCAN_LIMIT as nat) {
                Ok(b) => r is Ok && r->Ok_0@ == b,
                Err(e) => r == Err::<Vec<(u64, u32)>, ExecutionError>(e),
            },
    {
        let pc = self.cpu.rf.PC;
        self.scan_block(pc, BLOCK_SCAN_LIMIT)
    }

    /// Where this operation would redirect control, evaluated against
    /// the current machine.
    fn redirect_target_exec(&self, op: Op, addr: u64) -> (r: Option<u64>)
        requires
            self@.wf(),
        ensures
            r == redirect_target(self@, op, addr),
    {
        match op {
            Op::ControlFlow { conditional, destination, register, .. } => {
                match self.eval_condition(conditional, register) {
                    Some(true) => Some(
                        match destination {
                            ControlDestType::Absolute { dest } => dest as u64,
                            ControlDestType::Relative { offset } => addr.wrapping_add(
                                8,
                            ).wrapping_add_signed(offset),
                        },
                    ),
                    _ => None,
                }
            },
            _ => None,
        }
    }

    /// Runs one iteration of the run loop: finds the basic block at the
    /// program counter, lifts it, and executes its ops in order,
    /// honouring delay-slot semantics: a nullified slot is passed over,
    /// and a taken control transfer hands control to its target after
    /// its delay slot has run. Halts on the first error; the machine
    /// then stays well formed but may have executed part of the block.
    pub fn step_block(&mut self) -> (r: Result<(), ExecutionError>)
        requires
            old(self)@.wf(),
        ensures
            final(self)@.wf(),
            match block_step_spec(old(self)@) {
                Ok(v2) => r is Ok && final(self)@ == v2,
                Err(e) => r == Err::<(), ExecutionError>(e),
            },
    {
        let block = match self.find_next_basic_block() {
            Ok(b) => b,
            Err(e) => {
                return Err(e);
            },
        };
        let ops = match crate::ir::lift(block) {
            Ok(o) => o,
            Err(_) => {
                return Err(ExecutionError::UnsupportedFeature);
            },
        };
        let n = ops.len();
        proof {
            assert(ops@.skip(0) =~= ops@);
        }
        let mut i: usize = 0;
        let mut skip: usize = 0;
        let mut pending: Option<u64> = None;
        while i < n
            invariant
                self@.wf(),
                i <= n,
                n == ops@.len(),
                block_step_spec(old(self)@) == exec_ops_spec(old(self)@, ops@, 0, None),
                exec_ops_spec(self@, ops@.skip(i as int), skip as nat, pending) == exec_ops_spec(
                    old(self)@,
                    ops@,
                    0,
                    None,
                ),
            decreases n - i,
        {
            proof {
                assert(ops@.skip(i as int).drop_first() =~= ops@.skip(i + 1));
                assert(ops@.skip(i as int)[0] == ops@[i as int]);
            }
            if skip > 0 {
                let pc = self.cpu.rf.PC;
                self.cpu.rf.PC = pc.wrapping_add(4);
                skip = skip - 1;
            } else {
                let (op, a) = ops[i];
                let np = match pending {
                    None => self.redirect_target_exec(op, a),
                    Some(_) => None,
                };
                let ghost pre = self@;
                match self.execute_IR(op, a) {
                    Ok(k) => {
                        skip = k;
                        match pending {
                            Some(t) => {
                                self.cpu.rf.PC = t;
                                pending = None;
                            },
                            None => {
                                pending = np;
                            },
                        }
                    },
                    Err(e) => {
                        proof {
                            assert(exec_ops_spec(pre, ops@.skip(i as int), 0, pending) == Err::<
                                SystemView,
                                ExecutionError,
                            >(e));
                        }
                        return Err(e);
                    },
                }
            }
            i = i + 1;
        }
        proof {
            assert(ops@.skip(n as int) =~= Seq::<(Op, u64)>::empty());
        }
        match pending {
            Some(t) => {
                self.cpu.rf.PC = t;
            },
            None => {},
        }
        Ok(())
    }

    /// Boot stage one: seeds the fixed reset values of the status and
    /// configuration control registers and sets the stack pointer to its
    /// boot value. A one-shot state transition standing in for boot-ROM
    /// execution.
    pub fn ipl1(&mut self)
        requires
            old(self)@.wf(),
        ensures
            final(self)@.wf(),
            final(self)@ == ipl1_spec(old(self)@),
    {
        self.cpu.cop0.Status = status_reg::from_raw(0x3400_0000);
        self.cpu.cop0.Config = config_reg::from_raw(0x0006_E463);
        self.cpu.rf.write_gpr(GPR::sp, 0xA400_1FF0);
        proof {
            assert(0x3400_0000u32 & !0x0088_0000u32 == 0x3400_0000u32 && (0x0006_E463u32
                & !0x80FF_7FF0u32) | 0x0006_6460u32 == 0x0006_E463u32) by (bit_vector);
            assert(self@ =~= ipl1_spec(old(self)@));
        }
    }

    /// Boot stage two: copies the first 4,096 bytes of the cartridge
    /// image into the coprocessor's data memory and points the program
    /// counter at the fixed entry address inside that window. A
    /// cartridge image shorter than the window is fatal.
    pub fn ipl2(&mut self) -> (r: Result<(), ExecutionError>)
        requires
            old(self)@.wf(),
        ensures
            final(self)@.wf(),
            old(self)@.cart.len() >= RSP_MEM_BYTES ==> r is Ok && final(self)@ == ipl2_spec(
                old(self)@,
            ),
            old(self)@.cart.len() < RSP_MEM_BYTES ==> r == Err::<(), ExecutionError>(
                ExecutionError::MemoryFault,
            ) && final(self)@ == old(self)@,
    {
        if self.cart.len() < RSP_MEM_BYTES {
            return Err(ExecutionError::MemoryFault);
        }
        let mut j: usize = 0;
        while j < RSP_MEM_BYTES
            invariant
                j <= RSP_MEM_BYTES,
                self@.cart.len() >= RSP_MEM_BYTES,
                self.rcp@.rsp.DMEM.len() == RSP_MEM_BYTES,
                self.rcp@.rsp.IMEM == old(self).rcp@.rsp.IMEM,
                self.cart@ == old(self).cart@,
                self.cpu == old(self).cpu,
                self.rdram@ == old(self).rdram@,
                self.pi == old(self).pi,
                forall|k: int| 0 <= k < j ==> self.rcp@.rsp.DMEM[k] == self.cart@[k],
                forall|k: int|
                    j <= k < RSP_MEM_BYTES ==> self.rcp@.rsp.DMEM[k] == old(self).rcp@.rsp.DMEM[k],
            decreases RSP_MEM_BYTES - j,
        {
            let b = self.cart[j];
            self.rcp.rsp.DMEM[j] = b;
            j = j + 1;
        }
        self.cpu.rf.PC = 0xA400_0040;
        proof {
            assert(self.rcp@.rsp.DMEM =~= old(self).cart@.subrange(0, RSP_MEM_BYTES as int));
            assert(self@ =~= ipl2_spec(old(self)@));
        }
        Ok(())
    }
}

/// The machine after boot stage one.
pub open spec fn ipl1_spec(s: SystemView) -> SystemView {
    let c1 = crate::cpu::cop0 {
        Status: status_reg { bits: 0x3400_0000 },
        Config: config_reg { bits: 0x0006_E463 },
        ..s.cpu.cop0
    };
    SystemView {
        cpu: CpuView { rf: s.cpu.rf.with_gpr(GPR::sp, 0xA400_1FF0), cop0: c1 },
        ..s
    }
}

/// The machine after boot stage two: the first 4 KiB of the cartridge
/// image in data memory, the program counter at the entry address.
pub open spec fn ipl2_spec(s: SystemView) -> SystemView {
    SystemView {
        cpu: CpuView { rf: s.cpu.rf.with_pc(0xA400_0040), ..s.cpu },
        rcp: RcpView {
            rsp: crate::rsp::RspView {
                DMEM: s.cart.subrange(0, RSP_MEM_BYTES as int),
                IMEM: s.rcp.rsp.IMEM,
            },
        },
        ..s
    }
}

/// Within the supported uncached kernel window, translation subtracts
/// the window's base; outside it, translation fails.
pub proof fn lemma_uncached_kernel_translation(virt: u32)
    ensures
        KSEG1_BASE <= virt <= KSEG1_END ==> translate(virt) == Ok::<u32, ExecutionError>(
            (virt - KSEG1_BASE) as u32,
        ),
        !(KSEG1_BASE <= virt <= KSEG1_END) ==> translate(virt) == Err::<u32, ExecutionError>(
            ExecutionError::UnsupportedFeature,
        ),
{
}

/// Given a run of straight-line words followed by one control-transfer
/// word, the basic-block finder returns the run, the control transfer,
/// and exactly one more entry — the word immediately following the
/// control transfer — so a block of `n` straight-line words has
/// `n + 2` entries.
pub proof fn lemma_block_shape(s: SystemView, pc: u64, n: nat, fuel: nat)
    requires
        n < fuel,
        pc + 4 * n + 4 <= u32::MAX,
        forall|i: int|
            0 <= i < n ==> (#[trigger] fetch_word_spec(s, (pc + 4 * i) as u64)) is Ok
                && !is_control_transfer(fetch_word_spec(s, (pc + 4 * i) as u64)->Ok_0),
        fetch_word_spec(s, (pc + 4 * n) as u64) is Ok,
        is_control_transfer(fetch_word_spec(s, (pc + 4 * n) as u64)->Ok_0),
        fetch_word_spec(s, (pc + 4 * n + 4) as u64) is Ok,
    ensures
        find_block_spec(s, pc, fuel) is Ok,
        find_block_spec(s, pc, fuel)->Ok_0.len() == n + 2,
        forall|i: int|
            0 <= i <= n + 1 ==> (#[trigger] find_block_spec(s, pc, fuel)->Ok_0[i]) == (
                (pc + 4 * i) as u64,
                fetch_word_spec(s, (pc + 4 * i) as u64)->Ok_0,
            ),
    decreases n,
{
    if n == 0 {
        let w = fetch_word_spec(s, pc)->Ok_0;
        let w2 = fetch_word_spec(s, (pc + 4) as u64)->Ok_0;
        assert(fetch_word_spec(s, (pc + 4 * 0) as u64) == fetch_word_spec(s, pc));
        assert(pc_after(pc) == (pc + 4) as u64);
        assert(find_block_spec(s, pc, fuel) == Ok::<Seq<(u64, u32)>, ExecutionError>(
            seq![(pc, w), ((pc + 4) as u64, w2)],
        ));
    } else {
        let pc1 = (pc + 4) as u64;
        assert forall|i: int|
            0 <= i < n - 1 implies (#[trigger] fetch_word_spec(s, (pc1 + 4 * i) as u64)) is Ok
            && !is_control_transfer(fetch_word_spec(s, (pc1 + 4 * i) as u64)->Ok_0) by {
            assert(fetch_word_spec(s, (pc + 4 * (i + 1)) as u64) is Ok && !is_control_transfer(
                fetch_word_spec(s, (pc + 4 * (i + 1)) as u64)->Ok_0,
            ));
            assert((pc1 + 4 * i) as u64 == (pc + 4 * (i + 1)) as u64);
        }
        assert((pc1 + 4 * (n - 1)) as u64 == (pc + 4 * n) as u64);
        assert((pc1 + 4 * (n - 1) + 4) as u64 == (pc + 4 * n + 4) as u64);
        lemma_block_shape(s, pc1, (n - 1) as nat, (fuel - 1) as nat);
        let w = fetch_word_spec(s, pc)->Ok_0;
        assert(fetch_word_spec(s, (pc + 4 * 0) as u64) == fetch_word_spec(s, pc));
        assert(!is_control_transfer(w));
        assert(pc_after(pc) == pc1);
        let rest = find_block_spec(s, pc1, (fuel - 1) as nat)->Ok_0;
        assert(find_block_spec(s, pc, fuel) == Ok::<Seq<(u64, u32)>, ExecutionError>(
            seq![(pc, w)] + rest,
        ));
        let whole = seq![(pc, w)] + rest;
        assert(whole.len() == n + 2);
        assert forall|i: int| 0 <= i <= n + 1 implies (#[trigger] find_block_spec(
            s,
            pc,
            fuel,
        )->Ok_0[i]) == ((pc + 4 * i) as u64, fetch_word_spec(s, (pc + 4 * i) as u64)->Ok_0) by {
            if i == 0 {
                assert(whole[0] == (pc, w));
            } else {
                assert(whole[i] == rest[i - 1]);
                assert(rest[i - 1] == (
                    (pc1 + 4 * (i - 1)) as u64,
                    fetch_word_spec(s, (pc1 + 4 * (i - 1)) as u64)->Ok_0,
                ));
                assert((pc1 + 4 * (i - 1)) as u64 == (pc + 4 * i) as u64);
            }
        }
    }
}

/// A not-taken, non-"likely" conditional branch merely advances the
/// program counter; its delay-slot instruction then executes with its
/// full effect, and when that instruction is a straight-line one its
/// result leaves the program counter at the branch address plus two
/// instruction widths.
pub proof fn lemma_delay_slot_runs_after_untaken_branch(
    s: SystemView,
    conditional: ControlConditionalType,
    destination: ControlDestType,
    register: Option<GPRorCoPGPR>,
    d: Op,
    addr: u64,
)
    requires
        s.pc() == addr,
        branch_eval(s, conditional, register) == Some(false),
        d is Load || d is Store || d is AluOp,
    ensures
        ({
            let b = Op::ControlFlow {
                conditional,
                destination,
                register,
                likely: false,
                link: false,
            };
            let after_branch = s.with_pc(pc_after(addr));
            let delay_addr = pc_after(addr);
            &&& step_spec(s, b, addr) == Ok::<SystemView, ExecutionError>(after_branch)
            &&& exec_ops_spec(s, seq![(b, addr), (d, delay_addr)], 0, None) == step_spec(
                after_branch,
                d,
                delay_addr,
            )
            &&& (step_spec(after_branch, d, delay_addr) is Ok ==> step_spec(
                after_branch,
                d,
                delay_addr,
            )->Ok_0.pc() == pc_after(pc_after(addr)))
        }),
{
    let b = Op::ControlFlow { conditional, destination, register, likely: false, link: false };
    let after_branch = s.with_pc(pc_after(addr));
    let delay_addr = pc_after(addr);
    let block = seq![(b, addr), (d, delay_addr)];
    assert(step_spec(s, b, addr) == Ok::<SystemView, ExecutionError>(after_branch));
    assert(skip_after(s, b) == 0);
    assert(redirect_target(s, b, addr) is None);
    assert(block.drop_first() =~= seq![(d, delay_addr)]);
    assert(block[0] == (b, addr));
    assert(exec_ops_spec(s, block, 0, None) == exec_ops_spec(
        after_branch,
        seq![(d, delay_addr)],
        0,
        None,
    ));
    match step_spec(after_branch, d, delay_addr) {
        Err(_) => {
            assert(exec_ops_spec(after_branch, seq![(d, delay_addr)], 0, None) == step_spec(
                after_branch,
                d,
                delay_addr,
            ));
        },
        Ok(v2) => {
            assert(seq![(d, delay_addr)].drop_first() =~= Seq::<(Op, u64)>::empty());
            assert(skip_after(after_branch, d) == 0);
            assert(redirect_target(after_branch, d, delay_addr) is None);
            assert(exec_ops_spec(v2, Seq::<(Op, u64)>::empty(), 0, None) == Ok::<
                SystemView,
                ExecutionError,
            >(v2));
            assert(exec_ops_spec(after_branch, seq![(d, delay_addr)], 0, None) == step_spec(
                after_branch,
                d,
                delay_addr,
            ));
            assert(v2.pc() == pc_after(pc_after(addr)));
        },
    }
}

/// Every address of the coprocessor memory window reads the same byte
/// as its image in the window's first 8 KiB period.
pub proof fn lemma_rsp_window_mirroring(s: SystemView, a: int)
    requires
        s.wf(),
        RSP_WINDOW_BASE <= a <= RSP_WINDOW_END,
    ensures
        phys_byte(s, a) == phys_byte(
            s,
            RSP_WINDOW_BASE + (a - RSP_WINDOW_BASE) % (RSP_MIRROR_BYTES as int),
        ),
{
    let off = (a - RSP_WINDOW_BASE) % (RSP_MIRROR_BYTES as int);
    vstd::arithmetic::div_mod::lemma_mod_bound(a - RSP_WINDOW_BASE, RSP_MIRROR_BYTES as int);
    vstd::arithmetic::div_mod::lemma_small_mod(off as nat, RSP_MIRROR_BYTES as nat);
}

/// The same, through the router's virtual entry point: a one-byte read
/// anywhere in the coprocessor memory window yields the read at the
/// window base plus the address's offset within its 8 KiB period.
pub proof fn lemma_rsp_window_mirrored_reads(s: SystemView, a: u32)
    requires
        s.wf(),
        0xA400_0000 <= a <= 0xA403_FFFF,
    ensures
        read_spec(s, a, 1) == read_spec(
            s,
            (0xA400_0000 + (a - 0xA400_0000) % (RSP_MIRROR_BYTES as int)) as u32,
            1,
        ),
{
    let a2 = (0xA400_0000 + (a - 0xA400_0000) % (RSP_MIRROR_BYTES as int)) as u32;
    let p1 = (a - KSEG1_BASE) as int;
    let p2 = (a2 - KSEG1_BASE) as int;
    vstd::arithmetic::div_mod::lemma_mod_bound((a - 0xA400_0000) as int, RSP_MIRROR_BYTES as int);
    lemma_rsp_window_mirroring(s, p1);
    assert(p2 == RSP_WINDOW_BASE + (p1 - RSP_WINDOW_BASE) % (RSP_MIRROR_BYTES as int));
    assert(phys_byte(s, p1) == phys_byte(s, p2));
    assert(phys_byte(s, p1) is Ok && phys_byte(s, p2) is Ok);
    assert forall|i: int| 0 <= i < 1 implies (#[trigger] phys_byte(s, p1 + i)) is Ok by {}
    assert forall|i: int| 0 <= i < 1 implies (#[trigger] phys_byte(s, p2 + i)) is Ok by {}
    assert(Seq::new(1, |i: int| phys_byte(s, p1 + i)->Ok_0) =~= Seq::new(
        1,
        |i: int| phys_byte(s, p2 + i)->Ok_0,
    ));
}

} // verus!
