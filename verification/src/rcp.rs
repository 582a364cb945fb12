//! The reality coprocessor: the block of auxiliary hardware the CPU
//! reaches through the memory router. Only its local memories matter to
//! this core.

use crate::rsp::{Rsp, RspView};
use vstd::prelude::*;

verus! {

/// The reality coprocessor.
pub struct Rcp {
    pub rsp: Rsp,
}

/// The mathematical model of the reality coprocessor.
pub struct RcpView {
    pub rsp: RspView,
}

impl View for Rcp {
    type V = RcpView;

    open spec fn view(&self) -> RcpView {
        RcpView { rsp: self.rsp@ }
    }
}

impl RcpView {
    pub open spec fn wf(self) -> bool {
        self.rsp.wf()
    }
}

impl Rcp {
    /// A fresh coprocessor with zero-filled local memories.
    pub fn new() -> (r: Rcp)
        ensures
            r@.wf(),
            forall|i: int| 0 <= i < crate::rsp::RSP_MEM_BYTES ==> r@.rsp.IMEM[i] == 0,
            forall|i: int| 0 <= i < crate::rsp::RSP_MEM_BYTES ==> r@.rsp.DMEM[i] == 0,
    {
        Rcp { rsp: Rsp::new() }
    }
}

} // verus!
