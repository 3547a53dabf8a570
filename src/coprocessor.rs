//! The system coprocessor: 32 word registers, addressed bytewise through
//! the bus, and the timer that counts up to COMPARE.
use vstd::prelude::*;
use crate::device::Device;
use crate::exception::Exception;
use crate::memory::{PRESENT, READ, VALID, WRITE};
use crate::size::Size;
use crate::utils::{
    byte_of_word_le, half_of_word_le, put_byte_32, put_half_32, get_byte_from_word,
    get_halfword_from_word, set_byte_of_word, set_halfword_of_word,
};

verus! {

pub const PTBASE: u8 = 4;
pub const COUNT: u8 = 9;
pub const COMPARE: u8 = 11;
pub const SR: u8 = 12;
pub const CAUSE: u8 = 13;
pub const EPC: u8 = 14;
pub const EBASE: u8 = 15;
pub const TIMER_LEVEL: u8 = 5;
/// Milliseconds between two timer ticks.
pub const TIMER_INTERVAL_MS: u64 = 10;
pub const CP0_REGISTERS: usize = 32;

pub struct Coprocessor0 {
    pub registers: Vec<u32>,
}

impl View for Coprocessor0 {
    type V = Seq<u32>;

    open spec fn view(&self) -> Seq<u32> {
        self.registers@
    }
}

/// CAUSE with interrupt `level` pending and the exception code cleared.
pub open spec fn with_interrupt(cause: u32, level: u8) -> u32 {
    (cause | (1u32 << (level + 8) as u32)) & 0xffff_ff83
}

/// The registers at power-on.
pub open spec fn initial_cp0() -> Seq<u32> {
    Seq::new(
        CP0_REGISTERS as nat,
        |i: int|
            if i == PTBASE {
                PRESENT | VALID | READ | WRITE
            } else if i == COMPARE {
                10u32
            } else if i == SR {
                0x0000_ff01u32
            } else if i == EBASE {
                0x8000_0000u32
            } else {
                0u32
            },
    )
}

/// One timer tick: COUNT goes up by one; on reaching COMPARE it restarts at
/// zero and the timer interrupt becomes pending in CAUSE.
pub open spec fn timer_step(r: Seq<u32>) -> Seq<u32> {
    let count = if r[COUNT as int] == u32::MAX {
        0u32
    } else {
        (r[COUNT as int] + 1) as u32
    };
    if count == r[COMPARE as int] {
        r.update(COUNT as int, 0).update(
            CAUSE as int,
            with_interrupt(r[CAUSE as int], TIMER_LEVEL),
        )
    } else {
        r.update(COUNT as int, count)
    }
}

/// What a read of `size` at byte `addr` of the window returns.
pub open spec fn cp0_read(r: Seq<u32>, addr: u32, size: Size) -> Result<u32, Exception> {
    let base = (addr / 4) as int;
    let offset = (addr % 4) as u8;
    if addr >= 0x80 {
        Err(Exception::LoadIllegalAddress)
    } else {
        match size {
            Size::Byte => Ok(byte_of_word_le(r[base], offset) as u32),
            Size::Halfword => if offset == 0 || offset == 2 {
                Ok(half_of_word_le(r[base], offset) as u32)
            } else {
                Err(Exception::LoadIllegalAddress)
            },
            Size::Word => if offset == 0 {
                Ok(r[base])
            } else {
                Err(Exception::LoadIllegalAddress)
            },
        }
    }
}

/// The registers after a write of `size` at byte `addr` of the window, and its result.
pub open spec fn cp0_write(r: Seq<u32>, addr: u32, data: u32, size: Size) -> (
    Seq<u32>,
    Result<(), Exception>,
) {
    let base = (addr / 4) as int;
    let offset = (addr % 4) as u8;
    if addr >= 0x80 {
        (r, Err(Exception::LoadIllegalAddress))
    } else {
        match size {
            Size::Byte => (
                r.update(base, put_byte_32(r[base], (offset as u32 * 8) as u32, data as u8)),
                Ok(()),
            ),
            Size::Halfword => if offset == 0 || offset == 2 {
                (
                    r.update(base, put_half_32(r[base], (offset as u32 * 8) as u32, data as u16)),
                    Ok(()),
                )
            } else {
                (r, Err(Exception::LoadIllegalAddress))
            },
            Size::Word => if offset == 0 {
                (r.update(base, data), Ok(()))
            } else {
                (r, Err(Exception::LoadIllegalAddress))
            },
        }
    }
}

/// Whether the next timer tick reaches COMPARE.
pub open spec fn timer_fires(r: Seq<u32>) -> bool {
    (if r[COUNT as int] == u32::MAX {
        0u32
    } else {
        (r[COUNT as int] + 1) as u32
    }) == r[COMPARE as int]
}

/// The registers after `n` timer ticks.
pub open spec fn timer_run(r: Seq<u32>, n: nat) -> Seq<u32>
    decreases n,
{
    if n == 0 {
        r
    } else {
        timer_step(timer_run(r, (n - 1) as nat))
    }
}

/// How many of the first `n` timer ticks set the timer interrupt.
pub open spec fn timer_fire_count(r: Seq<u32>, n: nat) -> nat
    decreases n,
{
    if n == 0 {
        0
    } else {
        timer_fire_count(r, (n - 1) as nat) + if timer_fires(timer_run(r, (n - 1) as nat)) {
            1nat
        } else {
            0nat
        }
    }
}

/// A tick that reaches COMPARE leaves the timer interrupt pending in CAUSE.
pub proof fn lemma_timer_fire_sets_cause(r: Seq<u32>)
    requires
        r.len() == CP0_REGISTERS,
        timer_fires(r),
    ensures
        timer_step(r)[COUNT as int] == 0,
        (timer_step(r)[CAUSE as int] >> 13) & 1 == 1,
{
    let c = r[CAUSE as int];
    assert(((((c | (1u32 << 13u32)) & 0xffff_ff83u32) >> 13u32) & 1u32) == 1u32) by (bit_vector);
}

/// Starting below a non-zero COMPARE, after `n` ticks COUNT is still below
/// COMPARE, and the timer interrupt has been raised at least `n / COMPARE`
/// times.
pub proof fn lemma_timer_monotone(r: Seq<u32>, n: nat)
    requires
        r.len() == CP0_REGISTERS,
        0 < r[COMPARE as int],
        r[COUNT as int] < r[COMPARE as int],
    ensures
        timer_run(r, n).len() == CP0_REGISTERS,
        timer_run(r, n)[COMPARE as int] == r[COMPARE as int],
        timer_run(r, n)[COUNT as int] < r[COMPARE as int],
        timer_fire_count(r, n) * r[COMPARE as int] + timer_run(r, n)[COUNT as int]
            == r[COUNT as int] + n,
        timer_fire_count(r, n) >= n / (r[COMPARE as int] as nat),
    decreases n,
{
    let c = r[COMPARE as int] as int;
    if n > 0 {
        lemma_timer_monotone(r, (n - 1) as nat);
        let s = timer_run(r, (n - 1) as nat);
        let f0 = timer_fire_count(r, (n - 1) as nat) as int;
        assert(timer_run(r, n) == timer_step(s));
        if timer_fires(s) {
            assert(s[COUNT as int] + 1 == c);
            assert((f0 + 1) * c == f0 * c + c) by (nonlinear_arith);
            assert(timer_fire_count(r, n) == f0 + 1);
            assert(timer_run(r, n)[COUNT as int] == 0);
        } else {
            assert(timer_step(s)[COUNT as int] == s[COUNT as int] + 1);
            assert(timer_fire_count(r, n) == f0);
        }
    } else {
        assert(timer_fire_count(r, n) == 0);
        assert(0 * c == 0);
    }
    let f = timer_fire_count(r, n) as int;
    let k = timer_run(r, n)[COUNT as int] as int;
    assert(f * c + k == r[COUNT as int] + n);
    assert(f >= (n as int) / c) by (nonlinear_arith)
        requires
            f * c + k == r[COUNT as int] + n,
            0 <= k < c,
            0 <= r[COUNT as int],
            f >= 0,
    {
        if f < (n as int) / c {
            assert((f + 1) * c <= ((n as int) / c) * c);
            assert(((n as int) / c) * c <= n);
        }
    }
}

impl Coprocessor0 {
    pub fn new() -> (r: Self)
        ensures
            r@ == initial_cp0(),
    {
        let mut registers: Vec<u32> = vec![0u32; CP0_REGISTERS];
        registers.set(PTBASE as usize, PRESENT | VALID | READ | WRITE);
        registers.set(COMPARE as usize, 10);
        registers.set(SR as usize, 0x0000_ff01);
        registers.set(EBASE as usize, 0x8000_0000);
        assert(registers@ =~= initial_cp0());
        Coprocessor0 { registers }
    }

    /// Advances the timer by one tick.
    pub fn timer_tick(&mut self)
        requires
            old(self)@.len() == CP0_REGISTERS,
        ensures
            final(self)@ == timer_step(old(self)@),
    {
        let count = self.registers[COUNT as usize].wrapping_add(1);
        if count == self.registers[COMPARE as usize] {
            self.registers.set(COUNT as usize, 0);
            let cause = self.registers[CAUSE as usize];
            self.registers.set(CAUSE as usize, (cause | (1u32 << (TIMER_LEVEL + 8))) & 0xffff_ff83);
        } else {
            self.registers.set(COUNT as usize, count);
        }
    }
}

impl Device for Coprocessor0 {
    open spec fn inv(s: Seq<u32>) -> bool {
        s.len() == CP0_REGISTERS
    }

    open spec fn read_spec(s: Seq<u32>, addr: u32, size: Size) -> (Seq<u32>, Result<u32, Exception>) {
        (s, cp0_read(s, addr, size))
    }

    open spec fn write_spec(s: Seq<u32>, addr: u32, data: u32, size: Size) -> (
        Seq<u32>,
        Result<(), Exception>,
    ) {
        cp0_write(s, addr, data, size)
    }

    fn read(&mut self, addr: u32, size: Size) -> (r: Result<u32, Exception>) {
        if addr >= 0x80 {
            return Err(Exception::LoadIllegalAddress);
        }
        let base = (addr >> 2) as usize;
        let offset = (addr & 0x3) as u8;
        assert(addr >> 2 == addr / 4 && addr & 3 == addr % 4) by (bit_vector);
        match size {
            Size::Byte => Ok(get_byte_from_word(self.registers[base], offset) as u32),
            Size::Halfword => {
                if offset == 0 || offset == 2 {
                    Ok(get_halfword_from_word(self.registers[base], offset) as u32)
                } else {
                    Err(Exception::LoadIllegalAddress)
                }
            },
            Size::Word => {
                if offset == 0 {
                    Ok(self.registers[base])
                } else {
                    Err(Exception::LoadIllegalAddress)
                }
            },
        }
    }

    fn write(&mut self, addr: u32, data: u32, size: Size) -> (r: Result<(), Exception>) {
        if addr >= 0x80 {
            return Err(Exception::LoadIllegalAddress);
        }
        let base = (addr >> 2) as usize;
        let offset = (addr & 0x3) as u8;
        assert(addr >> 2 == addr / 4 && addr & 3 == addr % 4) by (bit_vector);
        match size {
            Size::Byte => {
                let v = set_byte_of_word(self.registers[base], offset, data as u8);
                self.registers.set(base, v);
                Ok(())
            },
            Size::Halfword => {
                if offset == 0 || offset == 2 {
                    let v = set_halfword_of_word(self.registers[base], offset, data as u16);
                    self.registers.set(base, v);
                    Ok(())
                } else {
                    Err(Exception::LoadIllegalAddress)
                }
            },
            Size::Word => {
                if offset == 0 {
                    self.registers.set(base, data);
                    Ok(())
                } else {
                    Err(Exception::LoadIllegalAddress)
                }
            },
        }
    }
}

} // verus!
