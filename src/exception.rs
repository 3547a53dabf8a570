//! The exceptions that execution can raise, with their CAUSE codes.
use vstd::prelude::*;

verus! {

#[derive(Debug, Clone, Copy, PartialEq, Eq, Structural)]
pub enum Exception {
    Interrupt,
    PageFault,
    LoadIllegalAddress,
    StoreIllegalAddress,
    InstructionBusError,
    DataBusError,
    Syscall,
    Break,
    Reserved,
    Overflow,
}

impl Exception {
    /// The exception code written into bits 2..6 of CAUSE.
    pub open spec fn spec_code(self) -> u32 {
        match self {
            Exception::Interrupt => 0,
            Exception::PageFault => 1,
            Exception::LoadIllegalAddress => 4,
            Exception::StoreIllegalAddress => 5,
            Exception::InstructionBusError => 6,
            Exception::DataBusError => 7,
            Exception::Syscall => 8,
            Exception::Break => 9,
            Exception::Reserved => 10,
            Exception::Overflow => 12,
        }
    }

    pub fn code(&self) -> (r: u32)
        ensures
            r == self.spec_code(),
            r < 32,
    {
        match self {
            Exception::Interrupt => 0,
            Exception::PageFault => 1,
            Exception::LoadIllegalAddress => 4,
            Exception::StoreIllegalAddress => 5,
            Exception::InstructionBusError => 6,
            Exception::DataBusError => 7,
            Exception::Syscall => 8,
            Exception::Break => 9,
            Exception::Reserved => 10,
            Exception::Overflow => 12,
        }
    }
}

} // verus!
