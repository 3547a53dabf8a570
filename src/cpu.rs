//! The processor: register file, PC, HI/LO, and the bus it drives.
use vstd::prelude::*;
pub use crate::instruction::Instruction;
use crate::bus::{Bus, BusState, COPROCESSOR_BASE, DRAM_SIZE, bus_read, bus_write};
use crate::coprocessor::{CP0_REGISTERS, with_interrupt};
use crate::kernel::{kernel_load, load_kernel};
use crate::memory::{create_meta_page_table, meta_page_table};
use crate::device::Device;
use crate::exception::Exception;
pub use crate::size::Size;

verus! {

pub const REGISTERS_COUNT: usize = 32;
pub const REBOOT_VECTOR: u32 = 0x0;
pub const PGSIZE: u32 = 0x1000;

pub const ZERO: u8 = 0;
pub const AT: u8 = 1;
pub const V0: u8 = 2;
pub const V1: u8 = 3;
pub const A0: u8 = 4;
pub const A1: u8 = 5;
pub const A2: u8 = 6;
pub const A3: u8 = 7;
pub const T0: u8 = 8;
pub const T1: u8 = 9;
pub const T2: u8 = 10;
pub const T3: u8 = 11;
pub const T4: u8 = 12;
pub const T5: u8 = 13;
pub const T6: u8 = 14;
pub const T7: u8 = 15;
pub const S0: u8 = 16;
pub const S1: u8 = 17;
pub const S2: u8 = 18;
pub const S3: u8 = 19;
pub const S4: u8 = 20;
pub const S5: u8 = 21;
pub const S6: u8 = 22;
pub const S7: u8 = 23;
pub const T8: u8 = 24;
pub const T9: u8 = 25;
pub const K0: u8 = 26;
pub const K1: u8 = 27;
pub const GP: u8 = 28;
pub const SP: u8 = 29;
pub const FP: u8 = 30;
pub const RA: u8 = 31;

pub struct Cpu {
    pub registers: Vec<u32>,
    pub pc: u32,
    pub hi: u32,
    pub lo: u32,
    pub bus: Bus,
}

/// The processor's model.
pub struct CpuState {
    pub registers: Seq<u32>,
    pub pc: u32,
    pub hi: u32,
    pub lo: u32,
    pub bus: BusState,
}

impl View for Cpu {
    type V = CpuState;

    open spec fn view(&self) -> CpuState {
        CpuState {
            registers: self.registers@,
            pc: self.pc,
            hi: self.hi,
            lo: self.lo,
            bus: self.bus@,
        }
    }
}

impl CpuState {
    pub open spec fn wf(self) -> bool {
        self.registers.len() == REGISTERS_COUNT && self.bus.wf()
    }

    pub open spec fn with_bus(self, b: BusState) -> CpuState {
        CpuState { bus: b, ..self }
    }

    pub open spec fn set_reg(self, i: int, v: u32) -> CpuState {
        CpuState { registers: self.registers.update(i, v), ..self }
    }

    /// Coprocessor register `i`.
    pub open spec fn cp0(self, i: u8) -> u32 {
        self.bus.cp0[i as int]
    }
}

/// The bus address of coprocessor register `reg`.
pub open spec fn cp0_addr(reg: u8) -> u32 {
    (COPROCESSOR_BASE + (reg as u32) * 4) as u32
}

/// The machine right after construction with kernel `image`: registers,
/// PC, HI and LO zero, the devices at power-on, and DRAM holding the
/// bootstrap page table and whatever of the kernel could be loaded.
pub open spec fn initial_state(image: Seq<u8>) -> CpuState {
    CpuState {
        registers: Seq::new(REGISTERS_COUNT as nat, |i: int| 0u32),
        pc: REBOOT_VECTOR,
        hi: 0,
        lo: 0,
        bus: BusState {
            dram: kernel_load(
                meta_page_table(Seq::new(DRAM_SIZE as nat, |i: int| 0u8)),
                image,
            ).0,
            ..BusState::initial()
        },
    }
}

impl Cpu {
    /// Builds the machine, with the bootstrap page table and the kernel
    /// `image` (an ELF file) in DRAM.
    pub fn new(kernel_image: &[u8]) -> (r: Self)
        ensures
            r@ == initial_state(kernel_image@),
            r@.wf(),
    {
        let mut bus = Bus::new();
        create_meta_page_table(&mut bus.dram);
        let _ = load_kernel(&mut bus.dram, kernel_image);
        let registers: Vec<u32> = vec![0u32; REGISTERS_COUNT];
        assert(registers@ =~= Seq::new(REGISTERS_COUNT as nat, |i: int| 0u32));
        Cpu { registers, pc: REBOOT_VECTOR, bus, hi: 0, lo: 0 }
    }

    /// Makes interrupt `level` pending in `cause` and clears its exception code.
    pub fn interrupt(cause: &mut u32, level: u8)
        requires
            level < 24,
        ensures
            *final(cause) == with_interrupt(*old(cause), level),
    {
        *cause = (*cause | (1u32 << (level + 8))) & 0xffff_ff83;
    }

    /// Reads coprocessor register `reg_code` through the bus.
    pub fn load_coprocessor0(&mut self, reg_code: u8) -> (r: Result<u32, Exception>)
        requires
            old(self)@.wf(),
        ensures
            final(self)@ == old(self)@,
            r == bus_read(old(self)@.bus, cp0_addr(reg_code), Size::Word).1,
            reg_code < CP0_REGISTERS ==> r == Ok::<u32, Exception>(old(self)@.cp0(reg_code)),
            reg_code >= CP0_REGISTERS ==> r == Err::<u32, Exception>(Exception::LoadIllegalAddress),
    {
        assert((reg_code as u32) << 2 == (reg_code as u32) * 4) by (bit_vector)
            requires
                reg_code < 256,
        ;
        let addr = COPROCESSOR_BASE + ((reg_code as u32) << 2);
        self.bus.read(addr, Size::Word)
    }

    /// Writes coprocessor register `reg_code` through the bus.
    pub fn write_coprocessor0(&mut self, reg_code: u8, data: u32) -> (r: Result<(), Exception>)
        requires
            old(self)@.wf(),
        ensures
            final(self)@.wf(),
            final(self)@ == old(self)@.with_bus(
                bus_write(old(self)@.bus, cp0_addr(reg_code), data, Size::Word).0,
            ),
            r == bus_write(old(self)@.bus, cp0_addr(reg_code), data, Size::Word).1,
            reg_code < CP0_REGISTERS ==> r is Ok && final(self)@.bus.cp0 == old(self)@.bus.cp0.update(
                reg_code as int,
                data,
            ),
    {
        assert((reg_code as u32) << 2 == (reg_code as u32) * 4) by (bit_vector)
            requires
                reg_code < 256,
        ;
        let addr = COPROCESSOR_BASE + ((reg_code as u32) << 2);
        self.bus.write(addr, data, Size::Word)
    }
}

} // verus!
