//! The auxiliary coprocessor's local memories: two fixed 4 KiB byte
//! arrays, data memory and instruction memory, directly addressable by
//! the memory router.

use vstd::prelude::*;

verus! {

/// Size in bytes of each local memory.
pub const RSP_MEM_BYTES: usize = 4096;

/// The coprocessor's local memories.
#[allow(non_snake_case)]
pub struct Rsp {
    pub IMEM: Vec<u8>,
    pub DMEM: Vec<u8>,
}

/// The mathematical model of the local memories.
#[allow(non_snake_case)]
pub struct RspView {
    pub IMEM: Seq<u8>,
    pub DMEM: Seq<u8>,
}

impl View for Rsp {
    type V = RspView;

    open spec fn view(&self) -> RspView {
        RspView { IMEM: self.IMEM@, DMEM: self.DMEM@ }
    }
}

impl RspView {
    /// Both memories hold exactly their 4 KiB.
    pub open spec fn wf(self) -> bool {
        &&& self.IMEM.len() == RSP_MEM_BYTES
        &&& self.DMEM.len() == RSP_MEM_BYTES
    }
}

impl Rsp {
    /// Fresh local memories, zero-filled.
    pub fn new() -> (r: Rsp)
        ensures
            r@.wf(),
            forall|i: int| 0 <= i < RSP_MEM_BYTES ==> r@.IMEM[i] == 0,
            forall|i: int| 0 <= i < RSP_MEM_BYTES ==> r@.DMEM[i] == 0,
    {
        Rsp { IMEM: zeroed_bytes(RSP_MEM_BYTES), DMEM: zeroed_bytes(RSP_MEM_BYTES) }
    }
}

/// A vector of `n` zero bytes.
pub fn zeroed_bytes(n: usize) -> (r: Vec<u8>)
    ensures
        r@.len() == n,
        forall|i: int| 0 <= i < n ==> r@[i] == 0,
{
    let mut v: Vec<u8> = Vec::new();
    let mut k: usize = 0;
    while k < n
        invariant
            k <= n,
            v@.len() == k,
            forall|i: int| 0 <= i < k ==> v@[i] == 0,
        decreases n - k,
    {
        v.push(0);
        k = k + 1;
    }
    v
}

} // verus!
