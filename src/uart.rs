//! A 16550-style UART: a 256-byte register file, a received byte waiting in
//! RHR, and the bytes written to THR waiting to be sent out.
use vstd::prelude::*;
use crate::bus::UART_SIZE;
use crate::device::Device;
use crate::exception::Exception;
use crate::size::Size;

verus! {

/// Receive holding register.
pub const UART_RHR: u32 = 0;
/// Transmit holding register.
pub const UART_THR: u32 = 0;
/// Line status register.
pub const UART_LSR: u32 = 5;
/// LSR bit: a received byte is waiting in RHR.
pub const UART_LSR_RX: u8 = 1;
/// LSR bit: the transmitter can take a byte.
pub const UART_LSR_TX: u8 = 0x20;
/// The interrupt request line of the UART.
pub const UART_IRQ: u32 = 10;

pub struct Uart {
    pub registers: Vec<u8>,
    pub interrupting: bool,
    pub output: Vec<u8>,
}

/// The UART's model: its registers, whether an interrupt is pending, and the
/// transmitted bytes not yet sent out.
pub struct UartState {
    pub registers: Seq<u8>,
    pub interrupting: bool,
    pub output: Seq<u8>,
}

impl View for Uart {
    type V = UartState;

    open spec fn view(&self) -> UartState {
        UartState {
            registers: self.registers@,
            interrupting: self.interrupting,
            output: self.output@,
        }
    }
}

pub open spec fn lsr_rx_set(s: UartState) -> bool {
    s.registers[UART_LSR as int] & UART_LSR_RX != 0
}

impl Uart {
    /// An idle UART whose transmitter is empty.
    pub fn new() -> (r: Self)
        ensures
            r@.registers == Seq::new(UART_SIZE as nat, |i: int| 0u8).update(
                UART_LSR as int,
                UART_LSR_TX,
            ),
            !r@.interrupting,
            r@.output == Seq::<u8>::empty(),
    {
        let mut registers: Vec<u8> = vec![0u8; UART_SIZE as usize];
        registers.set(UART_LSR as usize, UART_LSR_TX);
        assert(registers@ =~= Seq::new(UART_SIZE as nat, |i: int| 0u8).update(
            UART_LSR as int,
            UART_LSR_TX,
        ));
        Uart { registers, interrupting: false, output: Vec::new() }
    }

    /// Whether an interrupt is pending; the pending flag is cleared.
    pub fn is_interrupting(&mut self) -> (r: bool)
        ensures
            r == old(self)@.interrupting,
            final(self)@ == (UartState { interrupting: false, ..old(self)@ }),
    {
        let r = self.interrupting;
        self.interrupting = false;
        r
    }

    /// Hands a byte from the console to the receiver. Returns false, and
    /// changes nothing, while the previous byte has not been read.
    pub fn receive(&mut self, byte: u8) -> (r: bool)
        requires
            Self::inv(old(self)@),
        ensures
            Self::inv(final(self)@),
            r == !lsr_rx_set(old(self)@),
            r ==> final(self)@ == (UartState {
                registers: old(self)@.registers.update(UART_RHR as int, byte).update(
                    UART_LSR as int,
                    old(self)@.registers[UART_LSR as int] | UART_LSR_RX,
                ),
                interrupting: true,
                output: old(self)@.output,
            }),
            !r ==> final(self)@ == old(self)@,
    {
        let lsr = self.registers[UART_LSR as usize];
        if lsr & UART_LSR_RX != 0 {
            return false;
        }
        self.registers.set(UART_RHR as usize, byte);
        self.interrupting = true;
        self.registers.set(UART_LSR as usize, lsr | UART_LSR_RX);
        true
    }

    /// Removes and returns the transmitted bytes, oldest first.
    pub fn take_output(&mut self) -> (r: Vec<u8>)
        ensures
            r@ == old(self)@.output,
            final(self)@ == (UartState { output: Seq::empty(), ..old(self)@ }),
    {
        let mut out: Vec<u8> = Vec::new();
        std::mem::swap(&mut out, &mut self.output);
        out
    }
}

/// What a read of `size` at register `index` returns, and the state after it.
pub open spec fn uart_read(s: UartState, index: u32, size: Size) -> (UartState, Result<u32, Exception>) {
    if size != Size::Byte || index >= UART_SIZE {
        (s, Err(Exception::LoadIllegalAddress))
    } else if index == UART_RHR {
        (
            UartState {
                registers: s.registers.update(
                    UART_LSR as int,
                    s.registers[UART_LSR as int] & !UART_LSR_RX,
                ),
                ..s
            },
            Ok(s.registers[UART_RHR as int] as u32),
        )
    } else {
        (s, Ok(s.registers[index as int] as u32))
    }
}

/// The state after a write of `size` at register `index`, and its result.
pub open spec fn uart_write(s: UartState, index: u32, value: u32, size: Size) -> (
    UartState,
    Result<(), Exception>,
) {
    if size != Size::Byte || index >= UART_SIZE {
        (s, Err(Exception::StoreIllegalAddress))
    } else if index == UART_THR {
        (UartState { output: s.output.push(value as u8), ..s }, Ok(()))
    } else {
        (UartState { registers: s.registers.update(index as int, value as u8), ..s }, Ok(()))
    }
}

impl Device for Uart {
    open spec fn inv(s: UartState) -> bool {
        s.registers.len() == UART_SIZE
    }

    open spec fn read_spec(s: UartState, addr: u32, size: Size) -> (
        UartState,
        Result<u32, Exception>,
    ) {
        uart_read(s, addr, size)
    }

    open spec fn write_spec(s: UartState, addr: u32, data: u32, size: Size) -> (
        UartState,
        Result<(), Exception>,
    ) {
        uart_write(s, addr, data, size)
    }

    fn read(&mut self, index: u32, size: Size) -> (r: Result<u32, Exception>) {
        if size != Size::Byte || index >= UART_SIZE {
            return Err(Exception::LoadIllegalAddress);
        }
        if index == UART_RHR {
            let lsr = self.registers[UART_LSR as usize];
            self.registers.set(UART_LSR as usize, lsr & !UART_LSR_RX);
            Ok(self.registers[UART_RHR as usize] as u32)
        } else {
            Ok(self.registers[index as usize] as u32)
        }
    }

    fn write(&mut self, index: u32, value: u32, size: Size) -> (r: Result<(), Exception>) {
        if size != Size::Byte || index >= UART_SIZE {
            return Err(Exception::StoreIllegalAddress);
        }
        if index == UART_THR {
            self.output.push(value as u8);
        } else {
            self.registers.set(index as usize, value as u8);
        }
        Ok(())
    }
}

} // verus!
