//! DMA ports of the MT6768 SoC.
use vstd::prelude::*;

verus! {

/// The encoder's DMA ports on the MT6768.
#[derive(Debug, Clone, Copy, PartialEq, Eq, Structural)]
pub enum Port {
    JpgencRdma,
    JpgencBsdma,
}

impl crate::m4u::Port for Port {
    open spec fn spec_raw(&self) -> u32 {
        match self {
            Port::JpgencRdma => 55,
            Port::JpgencBsdma => 56,
        }
    }

    fn raw(&self) -> (r: u32) {
        match self {
            Port::JpgencRdma => 55,
            Port::JpgencBsdma => 56,
        }
    }
}

} // verus!
