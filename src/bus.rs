//! The physical address map, and the bus that routes each access to the
//! device whose window holds it. The bus also keeps the load-linked
//! reservations: every write drops the reservation on its exact address.
use std::collections::HashSet;
use vstd::prelude::*;
use crate::coprocessor::{CAUSE, CP0_REGISTERS, Coprocessor0, cp0_read, cp0_write, initial_cp0};
use crate::device::Device;
use crate::dram::Dram;
use crate::exception::Exception;
use crate::ram::{lemma_load_after_store, load_spec, store_result, store_spec};
use crate::rom::{Rom, boot_rom};
use crate::size::{Size, mask_to};
use crate::uart::{Uart, UartState, uart_read, uart_write};
use crate::virtio::Virtio;

verus! {

pub const DRAM_BASE: u32 = 0x0000_0000;
pub const DRAM_SIZE: u32 = 0x8000_0000;
pub const DRAM_END: u32 = 0x7fff_ffff;
pub const COPROCESSOR_BASE: u32 = 0xffff_c000;
pub const COPROCESSOR_SIZE: u32 = 0x80;
pub const COPROCESSOR_END: u32 = 0xffff_c07f;
pub const UART_BASE: u32 = 0xffff_d000;
pub const UART_SIZE: u32 = 0x100;
pub const UART_END: u32 = 0xffff_d0ff;
pub const VIRTIO_BASE: u32 = 0xffff_e000;
pub const VIRTIO_SIZE: u32 = 0x1000;
pub const VIRTIO_END: u32 = 0xffff_efff;
pub const ROM_BASE: u32 = 0xffff_f000;
pub const ROM_SIZE: u32 = 0x1000;
pub const ROM_END: u32 = 0xffff_ffff;

pub struct Bus {
    pub dram: Dram,
    pub coprocessor: Coprocessor0,
    pub uart: Uart,
    pub virtio: Virtio,
    pub rom: Rom,
    pub atomic: HashSet<u32>,
}

/// The bus's model: each device's model and the reserved addresses.
pub struct BusState {
    pub dram: Seq<u8>,
    pub cp0: Seq<u32>,
    pub uart: UartState,
    pub virtio: Seq<u8>,
    pub rom: Seq<u8>,
    pub reserved: Set<u32>,
}

impl View for Bus {
    type V = BusState;

    open spec fn view(&self) -> BusState {
        BusState {
            dram: self.dram@,
            cp0: self.coprocessor@,
            uart: self.uart@,
            virtio: self.virtio@,
            rom: self.rom@,
            reserved: self.atomic@,
        }
    }
}

impl BusState {
    pub open spec fn wf(self) -> bool {
        &&& self.dram.len() == DRAM_SIZE
        &&& self.cp0.len() == CP0_REGISTERS
        &&& self.uart.registers.len() == UART_SIZE
        &&& self.virtio.len() == VIRTIO_SIZE
        &&& self.rom.len() == ROM_SIZE
    }

    /// The bus at power-on.
    pub open spec fn initial() -> BusState {
        BusState {
            dram: Seq::new(DRAM_SIZE as nat, |i: int| 0u8),
            cp0: initial_cp0(),
            uart: UartState {
                registers: Seq::new(UART_SIZE as nat, |i: int| 0u8).update(5, 0x20u8),
                interrupting: false,
                output: Seq::empty(),
            },
            virtio: Seq::new(VIRTIO_SIZE as nat, |i: int| 0u8),
            rom: boot_rom(),
            reserved: Set::empty(),
        }
    }
}

/// The state after a read of `size` at physical `addr`, and what it returns.
pub open spec fn bus_read(s: BusState, addr: u32, size: Size) -> (BusState, Result<u32, Exception>) {
    if addr <= DRAM_END {
        (s, load_spec(s.dram, addr, size))
    } else if COPROCESSOR_BASE <= addr <= COPROCESSOR_END {
        (s, cp0_read(s.cp0, (addr - COPROCESSOR_BASE) as u32, size))
    } else if UART_BASE <= addr <= UART_END {
        let (u, r) = uart_read(s.uart, (addr - UART_BASE) as u32, size);
        (BusState { uart: u, ..s }, r)
    } else if VIRTIO_BASE <= addr <= VIRTIO_END {
        (s, load_spec(s.virtio, (addr - VIRTIO_BASE) as u32, size))
    } else if ROM_BASE <= addr {
        (s, load_spec(s.rom, (addr - ROM_BASE) as u32, size))
    } else {
        (s, Err(Exception::LoadIllegalAddress))
    }
}

/// The state after a write of `size` at physical `addr`, and what it returns.
pub open spec fn bus_write(s: BusState, addr: u32, data: u32, size: Size) -> (
    BusState,
    Result<(), Exception>,
) {
    let t = BusState { reserved: s.reserved.remove(addr), ..s };
    if addr <= DRAM_END {
        (
            BusState { dram: store_spec(t.dram, addr, data, size), ..t },
            store_result(t.dram, addr, size),
        )
    } else if COPROCESSOR_BASE <= addr <= COPROCESSOR_END {
        let (c, r) = cp0_write(t.cp0, (addr - COPROCESSOR_BASE) as u32, data, size);
        (BusState { cp0: c, ..t }, r)
    } else if UART_BASE <= addr <= UART_END {
        let (u, r) = uart_write(t.uart, (addr - UART_BASE) as u32, data, size);
        (BusState { uart: u, ..t }, r)
    } else if VIRTIO_BASE <= addr <= VIRTIO_END {
        let a = (addr - VIRTIO_BASE) as u32;
        (
            BusState { virtio: store_spec(t.virtio, a, data, size), ..t },
            store_result(t.virtio, a, size),
        )
    } else if ROM_BASE <= addr {
        let a = (addr - ROM_BASE) as u32;
        (BusState { rom: store_spec(t.rom, a, data, size), ..t }, store_result(t.rom, a, size))
    } else {
        (t, Err(Exception::LoadIllegalAddress))
    }
}

/// Load-linked: a word read that, when it succeeds, reserves `addr`.
pub open spec fn ll_spec(s: BusState, addr: u32) -> (BusState, Result<u32, Exception>) {
    let (t, r) = bus_read(s, addr, Size::Word);
    match r {
        Ok(v) => (BusState { reserved: t.reserved.insert(addr), ..t }, Ok(v)),
        Err(e) => (t, Err(e)),
    }
}

/// Store-conditional: while `addr` is reserved, a word write that reports
/// `true`; otherwise nothing happens and it reports `false`.
pub open spec fn sc_spec(s: BusState, addr: u32, data: u32) -> (BusState, Result<bool, Exception>) {
    if s.reserved.contains(addr) {
        let (t, r) = bus_write(s, addr, data, Size::Word);
        match r {
            Ok(_) => (t, Ok(true)),
            Err(e) => (t, Err(e)),
        }
    } else {
        (s, Ok(false))
    }
}

/// Whether `addr` lies in DRAM or ROM and is aligned for `size`.
pub open spec fn in_ram_aligned(addr: u32, size: Size) -> bool {
    &&& (addr <= DRAM_END || ROM_BASE <= addr)
    &&& match size {
        Size::Byte => true,
        Size::Halfword => addr % 2 == 0,
        Size::Word => addr % 4 == 0,
    }
}

/// A load after a store of the same size at the same aligned DRAM or ROM
/// address returns the stored value cut down to that size.
pub proof fn lemma_bus_load_after_store(s: BusState, addr: u32, data: u32, size: Size)
    requires
        s.wf(),
        in_ram_aligned(addr, size),
    ensures
        bus_read(bus_write(s, addr, data, size).0, addr, size).1 == Ok::<u32, Exception>(
            mask_to(data, size),
        ),
{
    if addr <= DRAM_END {
        lemma_load_after_store(s.dram, addr, data, size);
    } else {
        let a = (addr - ROM_BASE) as u32;
        assert(a % 4 == addr % 4 && a % 2 == addr % 2);
        lemma_load_after_store(s.rom, a, data, size);
    }
}

/// A write to one address leaves the reservation on any other address.
pub proof fn lemma_write_keeps_other_reservation(
    s: BusState,
    q: u32,
    data: u32,
    size: Size,
    p: u32,
)
    requires
        s.reserved.contains(p),
        p != q,
    ensures
        bus_write(s, q, data, size).0.reserved.contains(p),
{
}

/// A load-linked at `p` followed by a store-conditional at `p` stores the
/// value and reports success; a later load at `p` returns it.
pub proof fn lemma_ll_then_sc_succeeds(s: BusState, p: u32, v: u32)
    requires
        s.wf(),
        in_ram_aligned(p, Size::Word),
    ensures
        ll_spec(s, p).1 is Ok,
        sc_spec(ll_spec(s, p).0, p, v).1 == Ok::<bool, Exception>(true),
        bus_read(sc_spec(ll_spec(s, p).0, p, v).0, p, Size::Word).1 == Ok::<u32, Exception>(v),
{
    let s1 = ll_spec(s, p).0;
    if p > DRAM_END {
        let a = (p - ROM_BASE) as u32;
        assert(a % 4 == p % 4);
    }
    lemma_bus_load_after_store(s1, p, v, Size::Word);
}

/// Any store to `p` drops its reservation: a following store-conditional
/// at `p` changes nothing and reports failure.
pub proof fn lemma_store_then_sc_fails(s: BusState, p: u32, u: u32, size: Size, v: u32)
    ensures
        sc_spec(bus_write(s, p, u, size).0, p, v) == (bus_write(s, p, u, size).0, Ok::<
            bool,
            Exception,
        >(false)),
{
}

impl Bus {
    pub fn new() -> (r: Self)
        ensures
            r@ == BusState::initial(),
    {
        let b = Bus {
            rom: Rom::new(),
            coprocessor: Coprocessor0::new(),
            uart: Uart::new(),
            virtio: Virtio::new(),
            dram: Dram::new(),
            atomic: HashSet::new(),
        };
        assert(b@.uart.registers =~= BusState::initial().uart.registers);
        b
    }

    /// The raw value of CAUSE.
    pub fn get_raw_cause(&self) -> (r: u32)
        requires
            self@.wf(),
        ensures
            r == self@.cp0[CAUSE as int],
    {
        self.coprocessor.registers[CAUSE as usize]
    }

    /// Replaces the start of the ROM with `image`.
    pub fn load_rom(&mut self, image: &Vec<u8>)
        requires
            old(self)@.wf(),
            image@.len() <= ROM_SIZE,
        ensures
            final(self)@ == (BusState {
                rom: image@ + old(self)@.rom.subrange(image@.len() as int, ROM_SIZE as int),
                ..old(self)@
            }),
    {
        self.rom.load_binary(image);
    }

    /// Load-linked word read at physical `addr`.
    pub fn load_linked(&mut self, addr: u32) -> (r: Result<u32, Exception>)
        requires
            old(self)@.wf(),
        ensures
            final(self)@.wf(),
            (final(self)@, r) == ll_spec(old(self)@, addr),
    {
        let r = self.read(addr, Size::Word);
        if r.is_ok() {
            self.atomic.insert(addr);
        }
        r
    }

    /// Store-conditional word write at physical `addr`; reports whether it stored.
    pub fn store_conditional(&mut self, addr: u32, data: u32) -> (r: Result<bool, Exception>)
        requires
            old(self)@.wf(),
        ensures
            final(self)@.wf(),
            (final(self)@, r) == sc_spec(old(self)@, addr, data),
    {
        if self.atomic.contains(&addr) {
            match self.write(addr, data, Size::Word) {
                Ok(()) => Ok(true),
                Err(e) => Err(e),
            }
        } else {
            Ok(false)
        }
    }
}

impl Device for Bus {
    open spec fn inv(s: BusState) -> bool {
        s.wf()
    }

    open spec fn read_spec(s: BusState, addr: u32, size: Size) -> (BusState, Result<u32, Exception>) {
        bus_read(s, addr, size)
    }

    open spec fn write_spec(s: BusState, addr: u32, data: u32, size: Size) -> (
        BusState,
        Result<(), Exception>,
    ) {
        bus_write(s, addr, data, size)
    }

    fn read(&mut self, addr: u32, size: Size) -> (r: Result<u32, Exception>) {
        if addr <= DRAM_END {
            self.dram.read(addr - DRAM_BASE, size)
        } else if COPROCESSOR_BASE <= addr && addr <= COPROCESSOR_END {
            self.coprocessor.read(addr - COPROCESSOR_BASE, size)
        } else if UART_BASE <= addr && addr <= UART_END {
            self.uart.read(addr - UART_BASE, size)
        } else if VIRTIO_BASE <= addr && addr <= VIRTIO_END {
            self.virtio.read(addr - VIRTIO_BASE, size)
        } else if ROM_BASE <= addr {
            self.rom.read(addr - ROM_BASE, size)
        } else {
            Err(Exception::LoadIllegalAddress)
        }
    }

    fn write(&mut self, addr: u32, data: u32, size: Size) -> (r: Result<(), Exception>) {
        self.atomic.remove(&addr);
        if addr <= DRAM_END {
            self.dram.write(addr - DRAM_BASE, data, size)
        } else if COPROCESSOR_BASE <= addr && addr <= COPROCESSOR_END {
            self.coprocessor.write(addr - COPROCESSOR_BASE, data, size)
        } else if UART_BASE <= addr && addr <= UART_END {
            self.uart.write(addr - UART_BASE, data, size)
        } else if VIRTIO_BASE <= addr && addr <= VIRTIO_END {
            self.virtio.write(addr - VIRTIO_BASE, data, size)
        } else if ROM_BASE <= addr {
            self.rom.write(addr - ROM_BASE, data, size)
        } else {
            Err(Exception::LoadIllegalAddress)
        }
    }
}

} // verus!
