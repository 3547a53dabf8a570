//! The three instruction forms and their 32-bit encoding.
//!
//! A word splits into `opcode[31:26] rs[25:21] rt[20:16] rd[15:11]
//! shamt[10:6] funct[5:0]` (R form), `opcode rs rt imm16` (I form) or
//! `opcode imm26` (J form).
use vstd::prelude::*;

verus! {

#[allow(inconsistent_fields)]
#[derive(Debug, Clone, Copy, PartialEq, Eq, Structural)]
pub enum Instruction {
    R { opcode: u8, rs: u8, rt: u8, rd: u8, shamt: u8, funct: u8 },
    I { opcode: u8, rs: u8, rt: u8, imm: u16 },
    J { opcode: u8, imm: u32 },
    Undefined { opcode: u8, rest: u32 },
}

/// Opcodes decoded as the R form.
pub open spec fn is_r_opcode(op: u32) -> bool {
    op == 0x0 || op == 0x10
}

/// Opcodes decoded as the J form.
pub open spec fn is_j_opcode(op: u32) -> bool {
    op == 0x2 || op == 0x3
}

/// Opcodes decoded as the I form.
pub open spec fn is_i_opcode(op: u32) -> bool {
    op == 0x4 || op == 0x5 || (0x8 <= op <= 0xf) || op == 0x23 || op == 0x24 || op == 0x25
        || op == 0x28 || op == 0x29 || op == 0x2b || op == 0x30 || op == 0x38
}

/// The instruction that a word decodes to.
pub open spec fn decode(w: u32) -> Instruction {
    let opcode = (w >> 26) as u8;
    if is_r_opcode((w >> 26) as u32) {
        Instruction::R {
            opcode,
            rs: ((w >> 21) & 0x1f) as u8,
            rt: ((w >> 16) & 0x1f) as u8,
            rd: ((w >> 11) & 0x1f) as u8,
            shamt: ((w >> 6) & 0x1f) as u8,
            funct: (w & 0x3f) as u8,
        }
    } else if is_i_opcode((w >> 26) as u32) {
        Instruction::I {
            opcode,
            rs: ((w >> 21) & 0x1f) as u8,
            rt: ((w >> 16) & 0x1f) as u8,
            imm: (w & 0xffff) as u16,
        }
    } else if is_j_opcode((w >> 26) as u32) {
        Instruction::J { opcode, imm: w & 0x03ff_ffff }
    } else {
        Instruction::Undefined { opcode, rest: w & 0x03ff_ffff }
    }
}

/// The word that an instruction encodes to.
pub open spec fn encode(i: Instruction) -> u32 {
    match i {
        Instruction::R { opcode, rs, rt, rd, shamt, funct } => ((opcode as u32) << 26) | ((
        rs as u32) << 21) | ((rt as u32) << 16) | ((rd as u32) << 11) | ((shamt as u32) << 6)
            | (funct as u32),
        Instruction::I { opcode, rs, rt, imm } => ((opcode as u32) << 26) | ((rs as u32) << 21)
            | ((rt as u32) << 16) | (imm as u32),
        Instruction::J { opcode, imm } => ((opcode as u32) << 26) | imm,
        Instruction::Undefined { opcode, rest } => ((opcode as u32) << 26) | rest,
    }
}

impl Instruction {
    /// Every field fits its bit width and the opcode belongs to the form.
    pub open spec fn well_formed(self) -> bool {
        match self {
            Instruction::R { opcode, rs, rt, rd, shamt, funct } => is_r_opcode(opcode as u32)
                && rs < 32 && rt < 32 && rd < 32 && shamt < 32 && funct < 64,
            Instruction::I { opcode, rs, rt, imm } => is_i_opcode(opcode as u32) && rs < 32 && rt
                < 32,
            Instruction::J { opcode, imm } => is_j_opcode(opcode as u32) && imm < 0x0400_0000,
            Instruction::Undefined { opcode, rest } => opcode < 64 && !is_r_opcode(opcode as u32)
                && !is_i_opcode(opcode as u32) && !is_j_opcode(opcode as u32) && rest
                < 0x0400_0000,
        }
    }

    /// Decodes a word.
    pub fn new(inst: u32) -> (r: Self)
        ensures
            r == decode(inst),
            r.well_formed(),
    {
        let opcode: u8 = (inst >> 26) as u8;
        let rs: u8 = ((inst >> 21) & 0x1f) as u8;
        let rt: u8 = ((inst >> 16) & 0x1f) as u8;
        let rd: u8 = ((inst >> 11) & 0x1f) as u8;
        let shamt: u8 = ((inst >> 6) & 0x1f) as u8;
        let funct: u8 = (inst & 0x3f) as u8;
        let imm16: u16 = (inst & 0xffff) as u16;
        let imm26: u32 = inst & 0x03ff_ffff;
        proof {
            assert((inst >> 26) < 64) by (bit_vector);
            assert(((inst >> 21) & 0x1f) < 32 && ((inst >> 16) & 0x1f) < 32 && ((inst >> 11)
                & 0x1f) < 32 && ((inst >> 6) & 0x1f) < 32 && (inst & 0x3f) < 64 && (inst
                & 0x03ff_ffff) < 0x0400_0000) by (bit_vector);
        }
        match opcode {
            0x0 | 0x10 => Instruction::R { opcode, rs, rt, rd, shamt, funct },
            0x4 | 0x5 | 0x8 | 0x9 | 0xa | 0xb | 0xc | 0xd | 0xe | 0xf | 0x23 | 0x24 | 0x25
            | 0x28 | 0x29 | 0x2b | 0x30 | 0x38 => Instruction::I { opcode, rs, rt, imm: imm16 },
            0x2 | 0x3 => Instruction::J { opcode, imm: imm26 },
            _ => Instruction::Undefined { opcode, rest: imm26 },
        }
    }

    /// Encodes the instruction as a word.
    pub fn dump(&self) -> (r: u32)
        ensures
            r == encode(*self),
    {
        match self {
            Instruction::R { opcode, rs, rt, rd, shamt, funct } => ((*opcode as u32) << 26) | ((
            *rs as u32) << 21) | ((*rt as u32) << 16) | ((*rd as u32) << 11) | ((*shamt as u32)
                << 6) | (*funct as u32),
            Instruction::I { opcode, rs, rt, imm } => ((*opcode as u32) << 26) | ((*rs as u32)
                << 21) | ((*rt as u32) << 16) | (*imm as u32),
            Instruction::J { opcode, imm } => ((*opcode as u32) << 26) | *imm,
            Instruction::Undefined { opcode, rest } => ((*opcode as u32) << 26) | *rest,
        }
    }
}

impl Instruction {
    pub fn sll(rd: u8, rt: u8, shamt: u8) -> (r: Self)
        ensures
            r == (Instruction::R { opcode: 0x0, rs: 0, rt, rd, shamt, funct: 0x00 }),
    {
        Instruction::R { opcode: 0x0, rs: 0, rt, rd, shamt, funct: 0x00 }
    }

    pub fn srl(rd: u8, rt: u8, shamt: u8) -> (r: Self)
        ensures
            r == (Instruction::R { opcode: 0x0, rs: 0, rt, rd, shamt, funct: 0x02 }),
    {
        Instruction::R { opcode: 0x0, rs: 0, rt, rd, shamt, funct: 0x02 }
    }

    pub fn sra(rd: u8, rt: u8, shamt: u8) -> (r: Self)
        ensures
            r == (Instruction::R { opcode: 0x0, rs: 0, rt, rd, shamt, funct: 0x03 }),
    {
        Instruction::R { opcode: 0x0, rs: 0, rt, rd, shamt, funct: 0x03 }
    }

    pub fn syscall() -> (r: Self)
        ensures
            r == (Instruction::R { opcode: 0x0, rs: 0, rt: 0, rd: 0, shamt: 0, funct: 0x0c }),
    {
        Instruction::R { opcode: 0x0, rs: 0, rt: 0, rd: 0, shamt: 0, funct: 0x0c }
    }

    pub fn mfhi(rd: u8) -> (r: Self)
        ensures
            r == (Instruction::R { opcode: 0x0, rs: 0, rt: 0, rd, shamt: 0, funct: 0x10 }),
    {
        Instruction::R { opcode: 0x0, rs: 0, rt: 0, rd, shamt: 0, funct: 0x10 }
    }

    pub fn mthi(rd: u8) -> (r: Self)
        ensures
            r == (Instruction::R { opcode: 0x0, rs: 0x8, rt: 0, rd, shamt: 0, funct: 0x11 }),
    {
        Instruction::R { opcode: 0x0, rs: 0x8, rt: 0, rd, shamt: 0, funct: 0x11 }
    }

    pub fn mflo(rd: u8) -> (r: Self)
        ensures
            r == (Instruction::R { opcode: 0x0, rs: 0, rt: 0, rd, shamt: 0, funct: 0x12 }),
    {
        Instruction::R { opcode: 0x0, rs: 0, rt: 0, rd, shamt: 0, funct: 0x12 }
    }

    pub fn mtlo(rd: u8) -> (r: Self)
        ensures
            r == (Instruction::R { opcode: 0x0, rs: 0x8, rt: 0, rd, shamt: 0, funct: 0x13 }),
    {
        Instruction::R { opcode: 0x0, rs: 0x8, rt: 0, rd, shamt: 0, funct: 0x13 }
    }

    pub fn mult(rs: u8, rt: u8) -> (r: Self)
        ensures
            r == (Instruction::R { opcode: 0x0, rs, rt, rd: 0, shamt: 0, funct: 0x18 }),
    {
        Instruction::R { opcode: 0x0, rs, rt, rd: 0, shamt: 0, funct: 0x18 }
    }

    pub fn multu(rs: u8, rt: u8) -> (r: Self)
        ensures
            r == (Instruction::R { opcode: 0x0, rs, rt, rd: 0, shamt: 0, funct: 0x19 }),
    {
        Instruction::R { opcode: 0x0, rs, rt, rd: 0, shamt: 0, funct: 0x19 }
    }

    pub fn div(rs: u8, rt: u8) -> (r: Self)
        ensures
            r == (Instruction::R { opcode: 0x0, rs, rt, rd: 0, shamt: 0, funct: 0x1a }),
    {
        Instruction::R { opcode: 0x0, rs, rt, rd: 0, shamt: 0, funct: 0x1a }
    }

    pub fn divu(rs: u8, rt: u8) -> (r: Self)
        ensures
            r == (Instruction::R { opcode: 0x0, rs, rt, rd: 0, shamt: 0, funct: 0x1b }),
    {
        Instruction::R { opcode: 0x0, rs, rt, rd: 0, shamt: 0, funct: 0x1b }
    }

    pub fn add(rd: u8, rs: u8, rt: u8) -> (r: Self)
        ensures
            r == (Instruction::R { opcode: 0x0, rs, rt, rd, shamt: 0, funct: 0x20 }),
    {
        Instruction::R { opcode: 0x0, rs, rt, rd, shamt: 0, funct: 0x20 }
    }

    pub fn addu(rd: u8, rs: u8, rt: u8) -> (r: Self)
        ensures
            r == (Instruction::R { opcode: 0x0, rs, rt, rd, shamt: 0, funct: 0x21 }),
    {
        Instruction::R { opcode: 0x0, rs, rt, rd, shamt: 0, funct: 0x21 }
    }

    pub fn sub(rd: u8, rs: u8, rt: u8) -> (r: Self)
        ensures
            r == (Instruction::R { opcode: 0x0, rs, rt, rd, shamt: 0, funct: 0x22 }),
    {
        Instruction::R { opcode: 0x0, rs, rt, rd, shamt: 0, funct: 0x22 }
    }

    pub fn subu(rd: u8, rs: u8, rt: u8) -> (r: Self)
        ensures
            r == (Instruction::R { opcode: 0x0, rs, rt, rd, shamt: 0, funct: 0x23 }),
    {
        Instruction::R { opcode: 0x0, rs, rt, rd, shamt: 0, funct: 0x23 }
    }

    pub fn and(rd: u8, rs: u8, rt: u8) -> (r: Self)
        ensures
            r == (Instruction::R { opcode: 0x0, rs, rt, rd, shamt: 0, funct: 0x24 }),
    {
        Instruction::R { opcode: 0x0, rs, rt, rd, shamt: 0, funct: 0x24 }
    }

    pub fn or(rd: u8, rs: u8, rt: u8) -> (r: Self)
        ensures
            r == (Instruction::R { opcode: 0x0, rs, rt, rd, shamt: 0, funct: 0x25 }),
    {
        Instruction::R { opcode: 0x0, rs, rt, rd, shamt: 0, funct: 0x25 }
    }

    pub fn xor(rd: u8, rs: u8, rt: u8) -> (r: Self)
        ensures
            r == (Instruction::R { opcode: 0x0, rs, rt, rd, shamt: 0, funct: 0x26 }),
    {
        Instruction::R { opcode: 0x0, rs, rt, rd, shamt: 0, funct: 0x26 }
    }

    pub fn nor(rd: u8, rs: u8, rt: u8) -> (r: Self)
        ensures
            r == (Instruction::R { opcode: 0x0, rs, rt, rd, shamt: 0, funct: 0x27 }),
    {
        Instruction::R { opcode: 0x0, rs, rt, rd, shamt: 0, funct: 0x27 }
    }

    pub fn slt(rd: u8, rs: u8, rt: u8) -> (r: Self)
        ensures
            r == (Instruction::R { opcode: 0x0, rs, rt, rd, shamt: 0, funct: 0x2a }),
    {
        Instruction::R { opcode: 0x0, rs, rt, rd, shamt: 0, funct: 0x2a }
    }

    pub fn sltu(rd: u8, rs: u8, rt: u8) -> (r: Self)
        ensures
            r == (Instruction::R { opcode: 0x0, rs, rt, rd, shamt: 0, funct: 0x2b }),
    {
        Instruction::R { opcode: 0x0, rs, rt, rd, shamt: 0, funct: 0x2b }
    }

    pub fn mfc0(rt: u8, rd: u8) -> (r: Self)
        ensures
            r == (Instruction::R { opcode: 0x10, rs: 0, rt, rd, shamt: 0, funct: 0 }),
    {
        Instruction::R { opcode: 0x10, rs: 0, rt, rd, shamt: 0, funct: 0 }
    }

    pub fn mtc0(rt: u8, rd: u8) -> (r: Self)
        ensures
            r == (Instruction::R { opcode: 0x10, rs: 0x4, rt, rd, shamt: 0, funct: 0 }),
    {
        Instruction::R { opcode: 0x10, rs: 0x4, rt, rd, shamt: 0, funct: 0 }
    }

    pub fn eret() -> (r: Self)
        ensures
            r == (Instruction::R { opcode: 0x10, rs: 0x10, rt: 0, rd: 0, shamt: 0, funct: 0x18 }),
    {
        Instruction::R { opcode: 0x10, rs: 0x10, rt: 0, rd: 0, shamt: 0, funct: 0x18 }
    }

    pub fn beq(rt: u8, rs: u8, imm: u16) -> (r: Self)
        ensures
            r == (Instruction::I { opcode: 0x4, rs, rt, imm }),
    {
        Instruction::I { opcode: 0x4, rs, rt, imm }
    }

    pub fn bne(rt: u8, rs: u8, imm: u16) -> (r: Self)
        ensures
            r == (Instruction::I { opcode: 0x5, rs, rt, imm }),
    {
        Instruction::I { opcode: 0x5, rs, rt, imm }
    }

    pub fn addi(rt: u8, rs: u8, imm: u16) -> (r: Self)
        ensures
            r == (Instruction::I { opcode: 0x8, rs, rt, imm }),
    {
        Instruction::I { opcode: 0x8, rs, rt, imm }
    }

    pub fn addiu(rt: u8, rs: u8, imm: u16) -> (r: Self)
        ensures
            r == (Instruction::I { opcode: 0x9, rs, rt, imm }),
    {
        Instruction::I { opcode: 0x9, rs, rt, imm }
    }

    pub fn slti(rt: u8, rs: u8, imm: u16) -> (r: Self)
        ensures
            r == (Instruction::I { opcode: 0xa, rs, rt, imm }),
    {
        Instruction::I { opcode: 0xa, rs, rt, imm }
    }

    pub fn sltiu(rt: u8, rs: u8, imm: u16) -> (r: Self)
        ensures
            r == (Instruction::I { opcode: 0xb, rs, rt, imm }),
    {
        Instruction::I { opcode: 0xb, rs, rt, imm }
    }

    pub fn andi(rt: u8, rs: u8, imm: u16) -> (r: Self)
        ensures
            r == (Instruction::I { opcode: 0xc, rs, rt, imm }),
    {
        Instruction::I { opcode: 0xc, rs, rt, imm }
    }

    pub fn ori(rt: u8, rs: u8, imm: u16) -> (r: Self)
        ensures
            r == (Instruction::I { opcode: 0xd, rs, rt, imm }),
    {
        Instruction::I { opcode: 0xd, rs, rt, imm }
    }

    pub fn xori(rt: u8, rs: u8, imm: u16) -> (r: Self)
        ensures
            r == (Instruction::I { opcode: 0xe, rs, rt, imm }),
    {
        Instruction::I { opcode: 0xe, rs, rt, imm }
    }

    pub fn lw(rt: u8, rs: u8, imm: u16) -> (r: Self)
        ensures
            r == (Instruction::I { opcode: 0x23, rs, rt, imm }),
    {
        Instruction::I { opcode: 0x23, rs, rt, imm }
    }

    pub fn lbu(rt: u8, rs: u8, imm: u16) -> (r: Self)
        ensures
            r == (Instruction::I { opcode: 0x24, rs, rt, imm }),
    {
        Instruction::I { opcode: 0x24, rs, rt, imm }
    }

    pub fn lhu(rt: u8, rs: u8, imm: u16) -> (r: Self)
        ensures
            r == (Instruction::I { opcode: 0x25, rs, rt, imm }),
    {
        Instruction::I { opcode: 0x25, rs, rt, imm }
    }

    pub fn sb(rt: u8, rs: u8, imm: u16) -> (r: Self)
        ensures
            r == (Instruction::I { opcode: 0x28, rs, rt, imm }),
    {
        Instruction::I { opcode: 0x28, rs, rt, imm }
    }

    pub fn sh(rt: u8, rs: u8, imm: u16) -> (r: Self)
        ensures
            r == (Instruction::I { opcode: 0x29, rs, rt, imm }),
    {
        Instruction::I { opcode: 0x29, rs, rt, imm }
    }

    pub fn sw(rt: u8, rs: u8, imm: u16) -> (r: Self)
        ensures
            r == (Instruction::I { opcode: 0x2b, rs, rt, imm }),
    {
        Instruction::I { opcode: 0x2b, rs, rt, imm }
    }

    pub fn ll(rt: u8, rs: u8, imm: u16) -> (r: Self)
        ensures
            r == (Instruction::I { opcode: 0x30, rs, rt, imm }),
    {
        Instruction::I { opcode: 0x30, rs, rt, imm }
    }

    pub fn sc(rt: u8, rs: u8, imm: u16) -> (r: Self)
        ensures
            r == (Instruction::I { opcode: 0x38, rs, rt, imm }),
    {
        Instruction::I { opcode: 0x38, rs, rt, imm }
    }

    pub fn lui(rt: u8, imm: u16) -> (r: Self)
        ensures
            r == (Instruction::I { opcode: 0xf, rs: 0, rt, imm }),
    {
        Instruction::I { opcode: 0xf, rs: 0, rt, imm }
    }

    pub fn j(imm: u32) -> (r: Self)
        ensures
            r == (Instruction::J { opcode: 0x2, imm }),
    {
        Instruction::J { opcode: 0x2, imm }
    }

    pub fn jal(imm: u32) -> (r: Self)
        ensures
            r == (Instruction::J { opcode: 0x3, imm }),
    {
        Instruction::J { opcode: 0x3, imm }
    }
}

/// Decoding the encoding of a well-formed instruction gives it back.
pub proof fn lemma_decode_encode(i: Instruction)
    requires
        i.well_formed(),
    ensures
        decode(encode(i)) == i,
{
    match i {
        Instruction::R { opcode, rs, rt, rd, shamt, funct } => {
            let (o, s, t, d, h, f) = (
                opcode as u32,
                rs as u32,
                rt as u32,
                rd as u32,
                shamt as u32,
                funct as u32,
            );
            let w = encode(i);
            assert(w == (o << 26) | (s << 21) | (t << 16) | (d << 11) | (h << 6) | f);
            assert((w >> 26) == o && ((w >> 21) & 0x1f) == s && ((w >> 16) & 0x1f) == t && ((w
                >> 11) & 0x1f) == d && ((w >> 6) & 0x1f) == h && (w & 0x3f) == f) by (bit_vector)
                requires
                    w == (o << 26) | (s << 21) | (t << 16) | (d << 11) | (h << 6) | f,
                    o < 64,
                    s < 32,
                    t < 32,
                    d < 32,
                    h < 32,
                    f < 64,
            ;
        },
        Instruction::I { opcode, rs, rt, imm } => {
            let (o, s, t, m) = (opcode as u32, rs as u32, rt as u32, imm as u32);
            let w = encode(i);
            assert(w == (o << 26) | (s << 21) | (t << 16) | m);
            assert((w >> 26) == o && ((w >> 21) & 0x1f) == s && ((w >> 16) & 0x1f) == t && (w
                & 0xffff) == m) by (bit_vector)
                requires
                    w == (o << 26) | (s << 21) | (t << 16) | m,
                    o < 64,
                    s < 32,
                    t < 32,
                    m < 0x10000,
            ;
        },
        Instruction::J { opcode, imm } => {
            let o = opcode as u32;
            let w = encode(i);
            assert((w >> 26) == o && (w & 0x03ff_ffff) == imm) by (bit_vector)
                requires
                    w == (o << 26) | imm,
                    o < 64,
                    imm < 0x0400_0000,
            ;
        },
        Instruction::Undefined { opcode, rest } => {
            let o = opcode as u32;
            let w = encode(i);
            assert((w >> 26) == o && (w & 0x03ff_ffff) == rest) by (bit_vector)
                requires
                    w == (o << 26) | rest,
                    o < 64,
                    rest < 0x0400_0000,
            ;
        },
    }
}

} // verus!
