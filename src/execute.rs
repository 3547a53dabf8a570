//! What one instruction does, and the tick that either enters the exception
//! vector or executes one instruction.
//!
//! Arithmetic wraps around: `add`, `sub` and `addi` never raise Overflow.
//! `sra` shifts in zeros, like `srl`. A division by zero leaves HI and LO
//! as they were. A store marks dirty the page of its effective address.
use vstd::prelude::*;
use crate::bus::{BusState, bus_read, bus_write, in_ram_aligned, lemma_ll_then_sc_succeeds, ll_spec, sc_spec};
use crate::coprocessor::{CAUSE, EBASE, EPC, SR};
use crate::cpu::{Cpu, CpuState, REBOOT_VECTOR, cp0_addr};
use crate::device::Device;
use crate::exception::Exception;
use crate::instruction::{Instruction, decode};
use crate::memory::{set_dirty, set_page_dirty, walk, walkpgdir};
use crate::size::{Size, mask_to};

verus! {

/// A 16-bit immediate sign-extended to a word.
pub open spec fn sext16(imm: u16) -> u32 {
    if imm < 0x8000 {
        imm as u32
    } else {
        (imm as u32 + 0xffff_0000) as u32
    }
}

/// A word read as a two's-complement integer.
pub open spec fn signed32(a: u32) -> int {
    if a < 0x8000_0000 {
        a as int
    } else {
        a as int - 0x1_0000_0000
    }
}

/// An integer reduced to a word.
pub open spec fn to_u32(v: int) -> u32 {
    (v % 0x1_0000_0000) as u32
}

pub open spec fn abs(v: int) -> int {
    if v < 0 {
        -v
    } else {
        v
    }
}

/// Quotient rounded toward zero.
pub open spec fn tquot(x: int, y: int) -> int {
    if (x < 0) == (y < 0) {
        abs(x) / abs(y)
    } else {
        -(abs(x) / abs(y))
    }
}

/// Remainder with the sign of the dividend.
pub open spec fn trem(x: int, y: int) -> int {
    if x < 0 {
        -(abs(x) % abs(y))
    } else {
        abs(x) % abs(y)
    }
}

/// A word sign-extended to 64 bits.
pub open spec fn sext64(a: u32) -> u64 {
    if a < 0x8000_0000 {
        a as u64
    } else {
        (a as u64 + 0xffff_ffff_0000_0000u64) as u64
    }
}

/// The 64-bit two's-complement product of two signed words.
pub open spec fn signed_product(a: u32, b: u32) -> u64 {
    sext64(a).wrapping_mul(sext64(b))
}

/// The 64-bit product of two unsigned words.
pub open spec fn unsigned_product(a: u32, b: u32) -> u64 {
    (a as int * b as int) as u64
}

pub open spec fn hi_of(p: u64) -> u32 {
    (p >> 32) as u32
}

pub open spec fn lo_of(p: u64) -> u32 {
    (p & 0xffff_ffff) as u32
}

/// Whether SR says the processor runs in user mode.
pub open spec fn sr_user(s: CpuState) -> bool {
    (s.cp0(SR) >> 4) & 1 != 0
}

pub open spec fn next_pc(s: CpuState) -> u32 {
    s.pc.wrapping_add(4)
}

/// The target of a taken `beq` / `bne`.
pub open spec fn branch_target(pc: u32, imm: u16) -> u32 {
    pc.wrapping_add(4).wrapping_add(sext16(imm).wrapping_mul(4))
}

/// The target of `j` / `jal`.
pub open spec fn jump_target(pc: u32, imm: u32) -> u32 {
    (pc.wrapping_add(4) & 0xf000_0000) | (imm << 2)
}

/// The effective address `rs + sext(imm)` of a load or store.
pub open spec fn eff_addr(s: CpuState, rs: u8, imm: u16) -> u32 {
    s.registers[rs as int].wrapping_add(sext16(imm))
}

/// A register-form arithmetic or logical instruction (opcode 0).
pub open spec fn alu_spec(s: CpuState, rs: u8, rt: u8, rd: u8, shamt: u8, funct: u8) -> (
    CpuState,
    Result<u32, Exception>,
) {
    let a = s.registers[rs as int];
    let b = s.registers[rt as int];
    let d = rd as int;
    let next = Ok(next_pc(s));
    if funct == 0x00 {
        (s.set_reg(d, b << (shamt as u32)), next)
    } else if funct == 0x02 || funct == 0x03 {
        (s.set_reg(d, b >> (shamt as u32)), next)
    } else if funct == 0x0c {
        (s, Err(Exception::Syscall))
    } else if funct == 0x10 {
        (s.set_reg(d, s.hi), next)
    } else if funct == 0x11 {
        (CpuState { hi: s.registers[d], ..s }, next)
    } else if funct == 0x12 {
        (s.set_reg(d, s.lo), next)
    } else if funct == 0x13 {
        (CpuState { lo: s.registers[d], ..s }, next)
    } else if funct == 0x18 {
        let p = signed_product(a, b);
        (CpuState { hi: hi_of(p), lo: lo_of(p), ..s }, next)
    } else if funct == 0x19 {
        let p = unsigned_product(a, b);
        (CpuState { hi: hi_of(p), lo: lo_of(p), ..s }, next)
    } else if funct == 0x1a {
        if b == 0 {
            (s, next)
        } else {
            (
                CpuState {
                    lo: to_u32(tquot(signed32(a), signed32(b))),
                    hi: to_u32(trem(signed32(a), signed32(b))),
                    ..s
                },
                next,
            )
        }
    } else if funct == 0x1b {
        if b == 0 {
            (s, next)
        } else {
            (CpuState { lo: a / b, hi: a % b, ..s }, next)
        }
    } else if funct == 0x20 || funct == 0x21 {
        (s.set_reg(d, a.wrapping_add(b)), next)
    } else if funct == 0x22 || funct == 0x23 {
        (s.set_reg(d, a.wrapping_sub(b)), next)
    } else if funct == 0x24 {
        (s.set_reg(d, a & b), next)
    } else if funct == 0x25 {
        (s.set_reg(d, a | b), next)
    } else if funct == 0x26 {
        (s.set_reg(d, a ^ b), next)
    } else if funct == 0x27 {
        (s.set_reg(d, !(a | b)), next)
    } else if funct == 0x2a {
        (s.set_reg(d, if signed32(a) < signed32(b) { 1 } else { 0 }), next)
    } else if funct == 0x2b {
        (s.set_reg(d, if a < b { 1 } else { 0 }), next)
    } else {
        (s, Err(Exception::InstructionBusError))
    }
}

/// The state and result once the access to `p` has been granted or refused.
pub open spec fn load_spec(s: CpuState, rs: u8, rt: u8, imm: u16, size: Size, linked: bool) -> (
    CpuState,
    Result<u32, Exception>,
) {
    match walk(s.bus, eff_addr(s, rs, imm)) {
        Err(e) => (s, Err(e)),
        Ok(p) => if (sr_user(s) && !p.user) || !p.read {
            (s, Err(Exception::LoadIllegalAddress))
        } else {
            let (b, r) = if linked {
                ll_spec(s.bus, p.paddr)
            } else {
                bus_read(s.bus, p.paddr, size)
            };
            match r {
                Ok(v) => (s.with_bus(b).set_reg(rt as int, v), Ok(next_pc(s))),
                Err(e) => (s.with_bus(b), Err(e)),
            }
        },
    }
}

/// `sb`, `sh`, `sw`: the store, then the dirty marking of the page.
pub open spec fn store_spec(s: CpuState, rs: u8, rt: u8, imm: u16, size: Size) -> (
    CpuState,
    Result<u32, Exception>,
) {
    let va = eff_addr(s, rs, imm);
    match walk(s.bus, va) {
        Err(e) => (s, Err(e)),
        Ok(p) => if (sr_user(s) && !p.user) || !p.write {
            (s, Err(Exception::StoreIllegalAddress))
        } else {
            let (b, r) = bus_write(s.bus, p.paddr, mask_to(s.registers[rt as int], size), size);
            match r {
                Err(e) => (s.with_bus(b), Err(e)),
                Ok(_) => {
                    let (b2, r2) = set_dirty(b, va & 0xffff_f000);
                    match r2 {
                        Ok(_) => (s.with_bus(b2), Ok(next_pc(s))),
                        Err(e) => (s.with_bus(b2), Err(e)),
                    }
                },
            }
        },
    }
}

/// `sc`: stores only while the address is reserved; `rt` receives 1 or 0.
pub open spec fn sc_inst_spec(s: CpuState, rs: u8, rt: u8, imm: u16) -> (
    CpuState,
    Result<u32, Exception>,
) {
    match walk(s.bus, eff_addr(s, rs, imm)) {
        Err(e) => (s, Err(e)),
        Ok(p) => if (sr_user(s) && !p.user) || !p.write {
            (s, Err(Exception::StoreIllegalAddress))
        } else {
            let (b, r) = sc_spec(s.bus, p.paddr, s.registers[rt as int]);
            match r {
                Ok(stored) => (
                    s.with_bus(b).set_reg(rt as int, if stored { 1 } else { 0 }),
                    Ok(next_pc(s)),
                ),
                Err(e) => (s.with_bus(b), Err(e)),
            }
        },
    }
}

/// An I-form instruction.
pub open spec fn imm_spec(s: CpuState, opcode: u8, rs: u8, rt: u8, imm: u16) -> (
    CpuState,
    Result<u32, Exception>,
) {
    let a = s.registers[rs as int];
    let t = rt as int;
    let z = imm as u32;
    let next = Ok(next_pc(s));
    if opcode == 0x4 {
        (s, Ok(if a == s.registers[t] { branch_target(s.pc, imm) } else { next_pc(s) }))
    } else if opcode == 0x5 {
        (s, Ok(if a != s.registers[t] { branch_target(s.pc, imm) } else { next_pc(s) }))
    } else if opcode == 0x8 {
        (s.set_reg(t, a.wrapping_add(sext16(imm))), next)
    } else if opcode == 0x9 {
        (s.set_reg(t, a.wrapping_add(z)), next)
    } else if opcode == 0xa {
        (s.set_reg(t, if signed32(a) < signed32(sext16(imm)) { 1 } else { 0 }), next)
    } else if opcode == 0xb {
        (s.set_reg(t, if a < z { 1 } else { 0 }), next)
    } else if opcode == 0xc {
        (s.set_reg(t, a & z), next)
    } else if opcode == 0xd {
        (s.set_reg(t, a | z), next)
    } else if opcode == 0xe {
        (s.set_reg(t, a ^ z), next)
    } else if opcode == 0xf {
        (s.set_reg(t, (z * 0x10000) as u32), next)
    } else if opcode == 0x23 {
        load_spec(s, rs, rt, imm, Size::Word, false)
    } else if opcode == 0x24 {
        load_spec(s, rs, rt, imm, Size::Byte, false)
    } else if opcode == 0x25 {
        load_spec(s, rs, rt, imm, Size::Halfword, false)
    } else if opcode == 0x28 {
        store_spec(s, rs, rt, imm, Size::Byte)
    } else if opcode == 0x29 {
        store_spec(s, rs, rt, imm, Size::Halfword)
    } else if opcode == 0x2b {
        store_spec(s, rs, rt, imm, Size::Word)
    } else if opcode == 0x30 {
        load_spec(s, rs, rt, imm, Size::Word, true)
    } else if opcode == 0x38 {
        sc_inst_spec(s, rs, rt, imm)
    } else {
        (s, Err(Exception::InstructionBusError))
    }
}

/// A coprocessor instruction (opcode 0x10): `mfc0`, `mtc0`, `eret`.
pub open spec fn cop0_spec(s: CpuState, rs: u8, rt: u8, rd: u8) -> (
    CpuState,
    Result<u32, Exception>,
) {
    if rs == 0 {
        (s.set_reg(rt as int, s.cp0(rd)), Ok(next_pc(s)))
    } else if rs == 4 {
        (s.with_bus(bus_write(s.bus, cp0_addr(rd), s.registers[rt as int], Size::Word).0), Ok(
            next_pc(s),
        ))
    } else if rs == 0x10 {
        let b = bus_write(s.bus, cp0_addr(SR), s.cp0(SR) & 0xffff_fffd, Size::Word).0;
        (s.with_bus(b), Ok(b.cp0[EPC as int]))
    } else {
        (s, Err(Exception::InstructionBusError))
    }
}

/// What a decoded instruction does: the state after it, and the next PC or
/// the exception it raises.
pub open spec fn step_spec(s: CpuState, inst: Instruction) -> (CpuState, Result<u32, Exception>) {
    match inst {
        Instruction::R { opcode, rs, rt, rd, shamt, funct } => if opcode == 0 {
            alu_spec(s, rs, rt, rd, shamt, funct)
        } else if opcode == 0x10 {
            cop0_spec(s, rs, rt, rd)
        } else {
            (s, Err(Exception::InstructionBusError))
        },
        Instruction::I { opcode, rs, rt, imm } => imm_spec(s, opcode, rs, rt, imm),
        Instruction::J { opcode, imm } => if opcode == 0x2 {
            (s, Ok(jump_target(s.pc, imm)))
        } else if opcode == 0x3 {
            (s.set_reg(31, s.pc.wrapping_add(8)), Ok(jump_target(s.pc, imm)))
        } else {
            (s, Err(Exception::InstructionBusError))
        },
        Instruction::Undefined { .. } => (s, Err(Exception::InstructionBusError)),
    }
}

/// The instruction word at PC, read through the page table.
pub open spec fn fetch_spec(s: CpuState) -> Result<u32, Exception> {
    match walk(s.bus, s.pc) {
        Err(e) => Err(e),
        Ok(p) => if (!p.user && sr_user(s)) || !p.read {
            Err(Exception::LoadIllegalAddress)
        } else {
            bus_read(s.bus, p.paddr, Size::Word).1
        },
    }
}

/// Fetch, decode and execute one instruction.
pub open spec fn execute_spec(s: CpuState) -> (CpuState, Result<u32, Exception>) {
    match fetch_spec(s) {
        Err(e) => (s, Err(e)),
        Ok(w) => step_spec(s, decode(w)),
    }
}

/// The state after entering the exception vector: EPC holds `epc`, PC is EBASE.
pub open spec fn enter_vector(s: CpuState, epc: u32) -> CpuState {
    let b = bus_write(s.bus, cp0_addr(EPC), epc, Size::Word).0;
    CpuState { pc: b.cp0[EBASE as int], bus: b, ..s }
}

/// Whether an enabled, unmasked interrupt is pending with no exception code set.
pub open spec fn interrupt_taken(s: CpuState) -> bool {
    let cause = s.cp0(CAUSE);
    let status = s.cp0(SR);
    &&& status & 1 != 0
    &&& status & 2 == 0
    &&& ((cause >> 8) & 0xff) & ((status >> 8) & 0xff) != 0
    &&& (cause >> 2) & 0x1f == 0
}

/// The exception code in CAUSE.
pub open spec fn cause_code(s: CpuState) -> u32 {
    (s.cp0(CAUSE) >> 2) & 0x1f
}

/// The state after recording exception `e`: SR's exception bit is set and
/// CAUSE holds its code.
pub open spec fn record_exception(t: CpuState, e: Exception) -> CpuState {
    let b1 = bus_write(t.bus, cp0_addr(SR), t.cp0(SR) | 2, Size::Word).0;
    let b2 = bus_write(
        b1,
        cp0_addr(CAUSE),
        (b1.cp0[CAUSE as int] & 0xffff_ff83) | (e.spec_code() << 2),
        Size::Word,
    ).0;
    t.with_bus(b2)
}

/// The state after `n` ticks.
pub open spec fn run_ticks(s: CpuState, n: nat) -> CpuState
    decreases n,
{
    if n == 0 {
        s
    } else {
        tick_spec(run_ticks(s, (n - 1) as nat))
    }
}

/// One tick: an interrupt, then a pending exception, else one instruction.
pub open spec fn tick_spec(s: CpuState) -> CpuState {
    if interrupt_taken(s) {
        enter_vector(s, s.pc)
    } else if cause_code(s) != 0 {
        enter_vector(s, s.pc.wrapping_add(4))
    } else {
        let (t, r) = execute_spec(s);
        match r {
            Ok(next) => CpuState { pc: next, ..t },
            Err(e) => record_exception(t, e),
        }
    }
}

/// A signed word division: quotient and remainder as words.
fn signed_div(a: u32, b: u32) -> (r: (u32, u32))
    requires
        b != 0,
    ensures
        r.0 == to_u32(tquot(signed32(a), signed32(b))),
        r.1 == to_u32(trem(signed32(a), signed32(b))),
{
    let na = a >= 0x8000_0000;
    let nb = b >= 0x8000_0000;
    let ua: u32 = if na { 0u32.wrapping_sub(a) } else { a };
    let ub: u32 = if nb { 0u32.wrapping_sub(b) } else { b };
    assert(ua as int == abs(signed32(a)));
    assert(ub as int == abs(signed32(b)));
    let q = ua / ub;
    let m = ua % ub;
    let lo: u32 = if na != nb { 0u32.wrapping_sub(q) } else { q };
    let hi: u32 = if na { 0u32.wrapping_sub(m) } else { m };
    (lo, hi)
}

/// The signed 64-bit product of two words.
fn mult_signed(a: u32, b: u32) -> (r: u64)
    ensures
        r == signed_product(a, b),
{
    let x: u64 = if a < 0x8000_0000 { a as u64 } else { a as u64 + 0xffff_ffff_0000_0000u64 };
    let y: u64 = if b < 0x8000_0000 { b as u64 } else { b as u64 + 0xffff_ffff_0000_0000u64 };
    x.wrapping_mul(y)
}

/// The unsigned 64-bit product of two words.
fn mult_unsigned(a: u32, b: u32) -> (r: u64)
    ensures
        r == unsigned_product(a, b),
{
    assert(a as int * b as int <= 0xffff_ffff * 0xffff_ffff) by (nonlinear_arith)
        requires
            a <= 0xffff_ffff,
            b <= 0xffff_ffff,
    ;
    (a as u64) * (b as u64)
}

fn high_word(p: u64) -> (r: u32)
    ensures
        r == hi_of(p),
{
    (p >> 32) as u32
}

fn low_word(p: u64) -> (r: u32)
    ensures
        r == lo_of(p),
{
    (p & 0xffff_ffff) as u32
}

impl Cpu {
    fn exec_alu(&mut self, rs: u8, rt: u8, rd: u8, shamt: u8, funct: u8) -> (r: Result<
        u32,
        Exception,
    >)
        requires
            old(self)@.wf(),
            rs < 32,
            rt < 32,
            rd < 32,
            shamt < 32,
        ensures
            final(self)@.wf(),
            (final(self)@, r) == alu_spec(old(self)@, rs, rt, rd, shamt, funct),
    {
        let a = self.registers[rs as usize];
        let b = self.registers[rt as usize];
        let d = rd as usize;
        let next = self.pc.wrapping_add(4);
        if funct == 0x00 {
            self.registers.set(d, b << (shamt as u32));
        } else if funct == 0x02 || funct == 0x03 {
            self.registers.set(d, b >> (shamt as u32));
        } else if funct == 0x0c {
            return Err(Exception::Syscall);
        } else if funct == 0x10 {
            let v = self.hi;
            self.registers.set(d, v);
        } else if funct == 0x11 {
            self.hi = self.registers[d];
        } else if funct == 0x12 {
            let v = self.lo;
            self.registers.set(d, v);
        } else if funct == 0x13 {
            self.lo = self.registers[d];
        } else if funct == 0x18 {
            let p = mult_signed(a, b);
            self.hi = high_word(p);
            self.lo = low_word(p);
        } else if funct == 0x19 {
            let p = mult_unsigned(a, b);
            self.hi = high_word(p);
            self.lo = low_word(p);
        } else if funct == 0x1a {
            if b != 0 {
                let (q, m) = signed_div(a, b);
                self.lo = q;
                self.hi = m;
            }
        } else if funct == 0x1b {
            if b != 0 {
                self.lo = a / b;
                self.hi = a % b;
            }
        } else if funct == 0x20 || funct == 0x21 {
            self.registers.set(d, a.wrapping_add(b));
        } else if funct == 0x22 || funct == 0x23 {
            self.registers.set(d, a.wrapping_sub(b));
        } else if funct == 0x24 {
            self.registers.set(d, a & b);
        } else if funct == 0x25 {
            self.registers.set(d, a | b);
        } else if funct == 0x26 {
            self.registers.set(d, a ^ b);
        } else if funct == 0x27 {
            self.registers.set(d, !(a | b));
        } else if funct == 0x2a {
            let lt = if (a >= 0x8000_0000) != (b >= 0x8000_0000) {
                a >= 0x8000_0000
            } else {
                a < b
            };
            self.registers.set(d, if lt { 1 } else { 0 });
        } else if funct == 0x2b {
            self.registers.set(d, if a < b { 1 } else { 0 });
        } else {
            return Err(Exception::InstructionBusError);
        }
        Ok(next)
    }
}

/// Sign-extends a 16-bit immediate to a word.
fn sext(imm: u16) -> (r: u32)
    ensures
        r == sext16(imm),
{
    if imm < 0x8000 {
        imm as u32
    } else {
        imm as u32 + 0xffff_0000
    }
}

impl Cpu {
    /// Whether SR says the processor runs in user mode.
    fn user_mode(&mut self) -> (r: Result<bool, Exception>)
        requires
            old(self)@.wf(),
        ensures
            final(self)@ == old(self)@,
            r == Ok::<bool, Exception>(sr_user(old(self)@)),
    {
        match self.load_coprocessor0(SR) {
            Ok(sr) => Ok((sr >> 4) & 1 != 0),
            Err(e) => Err(e),
        }
    }

    fn exec_load(&mut self, rs: u8, rt: u8, imm: u16, size: Size, linked: bool) -> (r: Result<
        u32,
        Exception,
    >)
        requires
            old(self)@.wf(),
            rs < 32,
            rt < 32,
        ensures
            final(self)@.wf(),
            (final(self)@, r) == load_spec(old(self)@, rs, rt, imm, size, linked),
    {
        let va = self.registers[rs as usize].wrapping_add(sext(imm));
        let next = self.pc.wrapping_add(4);
        let p = match walkpgdir(self, va) {
            Ok(p) => p,
            Err(e) => return Err(e),
        };
        let user = match self.user_mode() {
            Ok(u) => u,
            Err(e) => return Err(e),
        };
        if (user && !p.user) || !p.read {
            return Err(Exception::LoadIllegalAddress);
        }
        let v = if linked {
            self.bus.load_linked(p.paddr)
        } else {
            self.bus.read(p.paddr, size)
        };
        match v {
            Ok(v) => {
                self.registers.set(rt as usize, v);
                Ok(next)
            },
            Err(e) => Err(e),
        }
    }

    fn exec_store(&mut self, rs: u8, rt: u8, imm: u16, size: Size) -> (r: Result<u32, Exception>)
        requires
            old(self)@.wf(),
            rs < 32,
            rt < 32,
        ensures
            final(self)@.wf(),
            (final(self)@, r) == store_spec(old(self)@, rs, rt, imm, size),
    {
        let va = self.registers[rs as usize].wrapping_add(sext(imm));
        let next = self.pc.wrapping_add(4);
        let p = match walkpgdir(self, va) {
            Ok(p) => p,
            Err(e) => return Err(e),
        };
        let user = match self.user_mode() {
            Ok(u) => u,
            Err(e) => return Err(e),
        };
        if (user && !p.user) || !p.write {
            return Err(Exception::StoreIllegalAddress);
        }
        let v = self.registers[rt as usize];
        let data = match size {
            Size::Byte => v & 0xff,
            Size::Halfword => v & 0xffff,
            Size::Word => v,
        };
        match self.bus.write(p.paddr, data, size) {
            Ok(()) => {},
            Err(e) => return Err(e),
        }
        match set_page_dirty(self, va & 0xffff_f000) {
            Ok(()) => Ok(next),
            Err(e) => Err(e),
        }
    }

    fn exec_sc(&mut self, rs: u8, rt: u8, imm: u16) -> (r: Result<u32, Exception>)
        requires
            old(self)@.wf(),
            rs < 32,
            rt < 32,
        ensures
            final(self)@.wf(),
            (final(self)@, r) == sc_inst_spec(old(self)@, rs, rt, imm),
    {
        let va = self.registers[rs as usize].wrapping_add(sext(imm));
        let next = self.pc.wrapping_add(4);
        let p = match walkpgdir(self, va) {
            Ok(p) => p,
            Err(e) => return Err(e),
        };
        let user = match self.user_mode() {
            Ok(u) => u,
            Err(e) => return Err(e),
        };
        if (user && !p.user) || !p.write {
            return Err(Exception::StoreIllegalAddress);
        }
        let v = self.registers[rt as usize];
        match self.bus.store_conditional(p.paddr, v) {
            Ok(stored) => {
                self.registers.set(rt as usize, if stored { 1 } else { 0 });
                Ok(next)
            },
            Err(e) => Err(e),
        }
    }

    fn exec_imm(&mut self, opcode: u8, rs: u8, rt: u8, imm: u16) -> (r: Result<u32, Exception>)
        requires
            old(self)@.wf(),
            rs < 32,
            rt < 32,
        ensures
            final(self)@.wf(),
            (final(self)@, r) == imm_spec(old(self)@, opcode, rs, rt, imm),
    {
        let a = self.registers[rs as usize];
        let t = rt as usize;
        let z = imm as u32;
        let next = self.pc.wrapping_add(4);
        if opcode == 0x4 || opcode == 0x5 {
            let taken = if opcode == 0x4 {
                a == self.registers[t]
            } else {
                a != self.registers[t]
            };
            if taken {
                return Ok(next.wrapping_add(sext(imm).wrapping_mul(4)));
            }
            return Ok(next);
        } else if opcode == 0x8 {
            self.registers.set(t, a.wrapping_add(sext(imm)));
        } else if opcode == 0x9 {
            self.registers.set(t, a.wrapping_add(z));
        } else if opcode == 0xa {
            let b = sext(imm);
            let lt = if (a >= 0x8000_0000) != (b >= 0x8000_0000) {
                a >= 0x8000_0000
            } else {
                a < b
            };
            self.registers.set(t, if lt { 1 } else { 0 });
        } else if opcode == 0xb {
            self.registers.set(t, if a < z { 1 } else { 0 });
        } else if opcode == 0xc {
            self.registers.set(t, a & z);
        } else if opcode == 0xd {
            self.registers.set(t, a | z);
        } else if opcode == 0xe {
            self.registers.set(t, a ^ z);
        } else if opcode == 0xf {
            self.registers.set(t, z * 0x10000);
        } else if opcode == 0x23 {
            return self.exec_load(rs, rt, imm, Size::Word, false);
        } else if opcode == 0x24 {
            return self.exec_load(rs, rt, imm, Size::Byte, false);
        } else if opcode == 0x25 {
            return self.exec_load(rs, rt, imm, Size::Halfword, false);
        } else if opcode == 0x28 {
            return self.exec_store(rs, rt, imm, Size::Byte);
        } else if opcode == 0x29 {
            return self.exec_store(rs, rt, imm, Size::Halfword);
        } else if opcode == 0x2b {
            return self.exec_store(rs, rt, imm, Size::Word);
        } else if opcode == 0x30 {
            return self.exec_load(rs, rt, imm, Size::Word, true);
        } else if opcode == 0x38 {
            return self.exec_sc(rs, rt, imm);
        } else {
            return Err(Exception::InstructionBusError);
        }
        Ok(next)
    }

    fn exec_cop0(&mut self, rs: u8, rt: u8, rd: u8) -> (r: Result<u32, Exception>)
        requires
            old(self)@.wf(),
            rt < 32,
            rd < 32,
        ensures
            final(self)@.wf(),
            (final(self)@, r) == cop0_spec(old(self)@, rs, rt, rd),
    {
        let next = self.pc.wrapping_add(4);
        if rs == 0 {
            let v = match self.load_coprocessor0(rd) {
                Ok(v) => v,
                Err(e) => return Err(e),
            };
            self.registers.set(rt as usize, v);
            Ok(next)
        } else if rs == 4 {
            let v = self.registers[rt as usize];
            match self.write_coprocessor0(rd, v) {
                Ok(()) => Ok(next),
                Err(e) => Err(e),
            }
        } else if rs == 0x10 {
            let sr = match self.load_coprocessor0(SR) {
                Ok(v) => v,
                Err(e) => return Err(e),
            };
            match self.write_coprocessor0(SR, sr & 0xffff_fffd) {
                Ok(()) => {},
                Err(e) => return Err(e),
            }
            self.load_coprocessor0(EPC)
        } else {
            Err(Exception::InstructionBusError)
        }
    }
}

impl Cpu {
    /// Executes a decoded instruction at the current PC; returns the next PC
    /// or the exception it raises. PC itself is left for the caller to move.
    pub fn step(&mut self, inst: Instruction) -> (r: Result<u32, Exception>)
        requires
            old(self)@.wf(),
            inst.well_formed(),
        ensures
            final(self)@.wf(),
            (final(self)@, r) == step_spec(old(self)@, inst),
    {
        match inst {
            Instruction::R { opcode, rs, rt, rd, shamt, funct } => {
                if opcode == 0 {
                    self.exec_alu(rs, rt, rd, shamt, funct)
                } else if opcode == 0x10 {
                    self.exec_cop0(rs, rt, rd)
                } else {
                    Err(Exception::InstructionBusError)
                }
            },
            Instruction::I { opcode, rs, rt, imm } => self.exec_imm(opcode, rs, rt, imm),
            Instruction::J { opcode, imm } => {
                let target = (self.pc.wrapping_add(4) & 0xf000_0000) | (imm << 2);
                if opcode == 0x2 {
                    Ok(target)
                } else if opcode == 0x3 {
                    let ra = self.pc.wrapping_add(8);
                    self.registers.set(31, ra);
                    Ok(target)
                } else {
                    Err(Exception::InstructionBusError)
                }
            },
            Instruction::Undefined { .. } => Err(Exception::InstructionBusError),
        }
    }

    /// Reads the instruction word at PC through the page table.
    pub fn fetch(&mut self) -> (r: Result<u32, Exception>)
        requires
            old(self)@.wf(),
        ensures
            final(self)@ == old(self)@,
            r == fetch_spec(old(self)@),
    {
        let pc = self.pc;
        let p = match walkpgdir(self, pc) {
            Ok(p) => p,
            Err(e) => return Err(e),
        };
        let user = match self.user_mode() {
            Ok(u) => u,
            Err(e) => return Err(e),
        };
        if (!p.user && user) || !p.read {
            return Err(Exception::LoadIllegalAddress);
        }
        self.bus.read(p.paddr, Size::Word)
    }

    /// Fetches, decodes and executes one instruction; returns the next PC or
    /// the exception raised.
    pub fn execute(&mut self) -> (r: Result<u32, Exception>)
        requires
            old(self)@.wf(),
        ensures
            final(self)@.wf(),
            (final(self)@, r) == execute_spec(old(self)@),
    {
        let word = match self.fetch() {
            Ok(w) => w,
            Err(e) => return Err(e),
        };
        let inst = Instruction::new(word);
        self.step(inst)
    }

    /// One tick. Coprocessor registers are always reachable, so it cannot fail.
    pub fn tick_except(&mut self) -> (r: Result<(), Exception>)
        requires
            old(self)@.wf(),
        ensures
            final(self)@.wf(),
            final(self)@ == tick_spec(old(self)@),
            r is Ok,
    {
        let cause = match self.load_coprocessor0(CAUSE) {
            Ok(v) => v,
            Err(e) => return Err(e),
        };
        let pending = (cause >> 8) & 0xff;
        let code = (cause >> 2) & 0x1f;
        let status = match self.load_coprocessor0(SR) {
            Ok(v) => v,
            Err(e) => return Err(e),
        };
        let enabled = (status & 1 != 0) && (status & 2 == 0);
        let mask = (status >> 8) & 0xff;
        if enabled && (pending & mask != 0) && code == 0 {
            let pc = self.pc;
            match self.write_coprocessor0(EPC, pc) {
                Ok(()) => {},
                Err(e) => return Err(e),
            }
            match self.load_coprocessor0(EBASE) {
                Ok(v) => self.pc = v,
                Err(e) => return Err(e),
            }
        } else if code != 0 {
            let epc = self.pc.wrapping_add(4);
            match self.write_coprocessor0(EPC, epc) {
                Ok(()) => {},
                Err(e) => return Err(e),
            }
            match self.load_coprocessor0(EBASE) {
                Ok(v) => self.pc = v,
                Err(e) => return Err(e),
            }
        } else {
            match self.execute() {
                Ok(next) => {
                    self.pc = next;
                },
                Err(exception) => {
                    let sr = match self.load_coprocessor0(SR) {
                        Ok(v) => v,
                        Err(e) => return Err(e),
                    };
                    match self.write_coprocessor0(SR, sr | 0x2) {
                        Ok(()) => {},
                        Err(e) => return Err(e),
                    }
                    let cause = match self.load_coprocessor0(CAUSE) {
                        Ok(v) => v,
                        Err(e) => return Err(e),
                    };
                    let c = exception.code();
                    match self.write_coprocessor0(CAUSE, (cause & 0xffff_ff83) | (c << 2)) {
                        Ok(()) => {},
                        Err(e) => return Err(e),
                    }
                },
            }
        }
        Ok(())
    }

    /// One tick; a failure inside the tick itself sends PC to the reboot vector.
    pub fn tick(&mut self)
        requires
            old(self)@.wf(),
        ensures
            final(self)@.wf(),
            final(self)@ == tick_spec(old(self)@),
    {
        if self.tick_except().is_err() {
            self.pc = REBOOT_VECTOR;
        }
    }

    /// Runs `cycles` ticks.
    pub fn debug(&mut self, cycles: usize)
        requires
            old(self)@.wf(),
        ensures
            final(self)@.wf(),
            final(self)@ == run_ticks(old(self)@, cycles as nat),
    {
        let mut i: usize = 0;
        while i < cycles
            invariant
                i <= cycles,
                self@.wf(),
                self@ == run_ticks(old(self)@, i as nat),
            decreases cycles - i,
        {
            self.tick();
            i = i + 1;
        }
    }
}

/// Load-linked then store-conditional through the same base register and
/// offset: when the page is readable and writable and the word lies in DRAM
/// or ROM, `sc` stores its register, yields 1 and moves to the next
/// instruction. (`rt` must not be the base register, which `ll` overwrites.)
pub proof fn lemma_ll_then_sc_instructions(s: CpuState, rs: u8, rt: u8, rt2: u8, imm: u16)
    requires
        s.wf(),
        rs < 32,
        rt < 32,
        rt2 < 32,
        rt != rs,
        walk(s.bus, eff_addr(s, rs, imm)) is Ok,
        ({
            let p = walk(s.bus, eff_addr(s, rs, imm))->Ok_0;
            !(sr_user(s) && !p.user) && p.read && p.write && in_ram_aligned(p.paddr, Size::Word)
        }),
    ensures
        ({
            let p = walk(s.bus, eff_addr(s, rs, imm))->Ok_0;
            let (s1, r1) = step_spec(s, Instruction::I { opcode: 0x30, rs, rt, imm });
            let (s2, r2) = step_spec(s1, Instruction::I { opcode: 0x38, rs, rt: rt2, imm });
            &&& r1 == Ok::<u32, Exception>(next_pc(s))
            &&& r2 == Ok::<u32, Exception>(next_pc(s1))
            &&& s2.registers[rt2 as int] == 1
            &&& bus_read(s2.bus, p.paddr, Size::Word).1 == Ok::<u32, Exception>(
                s1.registers[rt2 as int],
            )
        }),
{
    let va = eff_addr(s, rs, imm);
    let p = walk(s.bus, va)->Ok_0;
    let (s1, r1) = step_spec(s, Instruction::I { opcode: 0x30, rs, rt, imm });
    lemma_ll_then_sc_succeeds(s.bus, p.paddr, s1.registers[rt2 as int]);
    assert(s1.registers[rs as int] == s.registers[rs as int]);
    assert(eff_addr(s1, rs, imm) == va);
    assert(s1.bus == ll_spec(s.bus, p.paddr).0);
    assert(walk(s1.bus, va) == walk(s.bus, va));
}

/// Writes only ever drop reservations, so dirty marking adds none.
proof fn lemma_set_dirty_adds_no_reservation(b: BusState, vaddr: u32, x: u32)
    requires
        set_dirty(b, vaddr).0.reserved.contains(x),
    ensures
        b.reserved.contains(x),
{
}

/// Load-linked, then a store to the same word, then store-conditional
/// through the same base register and offset: `sc` yields 0 and changes
/// no memory, provided the page tables still send the address to the same
/// word.
pub proof fn lemma_ll_store_sc_instructions(
    s: CpuState,
    rs: u8,
    rt: u8,
    rt2: u8,
    rt3: u8,
    imm: u16,
)
    requires
        s.wf(),
        rs < 32,
        rt < 32,
        rt2 < 32,
        rt3 < 32,
        rt != rs,
        ({
            let s1 = step_spec(s, Instruction::I { opcode: 0x30, rs, rt, imm }).0;
            let (s2, r2) = step_spec(s1, Instruction::I { opcode: 0x2b, rs, rt: rt2, imm });
            &&& r2 is Ok
            &&& walk(s1.bus, eff_addr(s1, rs, imm)) is Ok
            &&& walk(s2.bus, eff_addr(s2, rs, imm)) is Ok
            &&& walk(s2.bus, eff_addr(s2, rs, imm))->Ok_0.paddr == walk(
                s1.bus,
                eff_addr(s1, rs, imm),
            )->Ok_0.paddr
            &&& walk(s2.bus, eff_addr(s2, rs, imm))->Ok_0.write
            &&& !(sr_user(s2) && !walk(s2.bus, eff_addr(s2, rs, imm))->Ok_0.user)
        }),
    ensures
        ({
            let s1 = step_spec(s, Instruction::I { opcode: 0x30, rs, rt, imm }).0;
            let s2 = step_spec(s1, Instruction::I { opcode: 0x2b, rs, rt: rt2, imm }).0;
            let (s3, r3) = step_spec(s2, Instruction::I { opcode: 0x38, rs, rt: rt3, imm });
            &&& r3 == Ok::<u32, Exception>(next_pc(s2))
            &&& s3.registers[rt3 as int] == 0
            &&& s3.bus == s2.bus
        }),
{
    let s1 = step_spec(s, Instruction::I { opcode: 0x30, rs, rt, imm }).0;
    let va = eff_addr(s1, rs, imm);
    let p = walk(s1.bus, va)->Ok_0;
    let b1 = bus_write(s1.bus, p.paddr, mask_to(s1.registers[rt2 as int], Size::Word), Size::Word).0;
    assert(!b1.reserved.contains(p.paddr));
    let s2 = step_spec(s1, Instruction::I { opcode: 0x2b, rs, rt: rt2, imm }).0;
    assert(s2.bus == set_dirty(b1, va & 0xffff_f000).0);
    if s2.bus.reserved.contains(p.paddr) {
        lemma_set_dirty_adds_no_reservation(b1, va & 0xffff_f000, p.paddr);
    }
    assert(eff_addr(s2, rs, imm) == va);
}

} // verus!
