//! Emulator core for a VR4300-class MIPS CPU and the minimal hardware fabric
//! around it: the register file and system-control registers, an instruction
//! decoder producing a small intermediate representation, a basic-block
//! finder honouring delay-slot semantics, an execution engine, and a
//! segmented memory router with cross-device DMA.

pub mod cpu;
pub mod ir;
pub mod pi;
pub mod rcp;
pub mod rsp;
pub mod system;
