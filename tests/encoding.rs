use mipsemu::instruction::Instruction;
use mipsemu::utils::{
    concat_halfword, concat_halfword_big_endian, concat_word, concat_word_big_endian,
    get_byte_from_halfword, get_byte_from_halfword_big_endian, get_byte_from_word,
    get_byte_from_word_big_endian, get_halfword_from_word, get_halfword_from_word_big_endian,
    set_byte_of_halfword, set_byte_of_halfword_big_endian, set_byte_of_word,
    set_byte_of_word_big_endian, set_halfword_of_word, set_halfword_of_word_big_endian,
    sgn_ext_imm_16,
};

#[test]
fn set_byte_twice_is_set_once_and_reads_back() {
    for x in [0u32, 0xffff_ffff, 0x1234_5678, 0x8000_0001] {
        for o in 0..4u8 {
            for a in [0u8, 0x5a, 0xff] {
                let once = set_byte_of_word(x, o, a);
                assert_eq!(set_byte_of_word(once, o, a), once);
                assert_eq!(get_byte_from_word(once, o), a);
            }
        }
    }
    assert_eq!(set_byte_of_word(0x1122_3344, 2, 0xaa), 0x11aa_3344);
}

#[test]
fn little_endian_pieces() {
    assert_eq!(get_byte_from_word(0x1122_3344, 0), 0x44);
    assert_eq!(get_byte_from_word(0x1122_3344, 3), 0x11);
    assert_eq!(get_halfword_from_word(0x1122_3344, 2), 0x1122);
    assert_eq!(get_byte_from_halfword(0xabcd, 1), 0xab);
    assert_eq!(set_byte_of_halfword(0xabcd, 0, 0x12), 0xab12);
    assert_eq!(set_halfword_of_word(0x1122_3344, 0, 0xbeef), 0x1122_beef);
    assert_eq!(concat_halfword([0x34, 0x12]), 0x1234);
    assert_eq!(concat_word([0x78, 0x56, 0x34, 0x12]), 0x1234_5678);
}

#[test]
fn big_endian_pieces() {
    assert_eq!(get_byte_from_word_big_endian(0x1122_3344, 0), 0x11);
    assert_eq!(get_byte_from_halfword_big_endian(0xabcd, 0), 0xab);
    assert_eq!(get_halfword_from_word_big_endian(0x1122_3344, 0), 0x1122);
    assert_eq!(get_halfword_from_word_big_endian(0x1122_3344, 2), 0x3344);
    assert_eq!(set_byte_of_word_big_endian(0x1122_3344, 3, 0xff), 0x1122_33ff);
    assert_eq!(set_byte_of_halfword_big_endian(0xabcd, 1, 0x00), 0xab00);
    assert_eq!(set_halfword_of_word_big_endian(0x1122_3344, 0, 0xbeef), 0xbeef_3344);
    assert_eq!(concat_halfword_big_endian([0x12, 0x34]), 0x1234);
    assert_eq!(concat_word_big_endian([0x12, 0x34, 0x56, 0x78]), 0x1234_5678);
}

#[test]
fn sign_extension() {
    assert_eq!(sgn_ext_imm_16(5), 5);
    assert_eq!(sgn_ext_imm_16(0xffff), -1);
    assert_eq!(sgn_ext_imm_16(0x8000), -32768);
}

#[test]
fn decode_of_encode_is_identity() {
    let samples = [
        Instruction::sll(1, 2, 3),
        Instruction::srl(31, 30, 31),
        Instruction::sra(4, 5, 6),
        Instruction::syscall(),
        Instruction::mfhi(7),
        Instruction::mthi(8),
        Instruction::mflo(9),
        Instruction::mtlo(10),
        Instruction::mult(1, 2),
        Instruction::multu(3, 4),
        Instruction::div(5, 6),
        Instruction::divu(7, 8),
        Instruction::add(1, 2, 3),
        Instruction::addu(4, 5, 6),
        Instruction::sub(7, 8, 9),
        Instruction::subu(10, 11, 12),
        Instruction::and(13, 14, 15),
        Instruction::or(16, 17, 18),
        Instruction::xor(19, 20, 21),
        Instruction::nor(22, 23, 24),
        Instruction::slt(25, 26, 27),
        Instruction::sltu(28, 29, 30),
        Instruction::mfc0(1, 12),
        Instruction::mtc0(2, 13),
        Instruction::eret(),
        Instruction::beq(1, 2, 0xfffe),
        Instruction::bne(3, 4, 8),
        Instruction::addi(1, 0, 5),
        Instruction::addiu(1, 0, 0xffff),
        Instruction::slti(1, 2, 3),
        Instruction::sltiu(1, 2, 3),
        Instruction::andi(1, 2, 0xff),
        Instruction::ori(1, 2, 0xf0),
        Instruction::xori(1, 2, 0x0f),
        Instruction::lui(1, 0x1234),
        Instruction::lw(1, 2, 4),
        Instruction::lbu(1, 2, 4),
        Instruction::lhu(1, 2, 4),
        Instruction::sb(1, 2, 4),
        Instruction::sh(1, 2, 4),
        Instruction::sw(1, 2, 4),
        Instruction::ll(1, 2, 4),
        Instruction::sc(1, 2, 4),
        Instruction::j(0x10_0000),
        Instruction::jal(0x3ff_ffff),
        Instruction::Undefined { opcode: 0x3f, rest: 0x123 },
    ];
    for i in samples {
        assert_eq!(Instruction::new(i.dump()), i);
    }
}

#[test]
fn exact_encodings() {
    assert_eq!(Instruction::addi(1, 0, 5).dump(), 0x2001_0005);
    assert_eq!(Instruction::add(3, 1, 2).dump(), 0x0022_1820);
    assert_eq!(Instruction::sw(3, 0, 0).dump(), 0xac03_0000);
    assert_eq!(Instruction::j(0x10_0000).dump(), 0x0810_0000);
    assert_eq!(Instruction::jal(0x10_0000).dump(), 0x0c10_0000);
    assert_eq!(Instruction::eret().dump(), 0x4200_0018);
}

#[test]
fn decoding_classifies_opcodes() {
    assert_eq!(
        Instruction::new(0x0022_1820),
        Instruction::R { opcode: 0, rs: 1, rt: 2, rd: 3, shamt: 0, funct: 0x20 }
    );
    assert_eq!(Instruction::new(0x3801_00ff), Instruction::I { opcode: 0xe, rs: 0, rt: 1, imm: 0xff });
    assert_eq!(Instruction::new(0x0fff_ffff), Instruction::J { opcode: 3, imm: 0x3ff_ffff });
    assert_eq!(Instruction::new(0x0400_0001), Instruction::Undefined { opcode: 1, rest: 1 });
}
