//! Packing and unpacking of bytes and halfwords inside machine words.
//!
//! The machine stores multi-byte values little-endian (byte `k` of a word is
//! bits `8k..8k+8`); the big-endian variants number the bytes from the top.
use vstd::prelude::*;

verus! {

/// Byte `offset` of a halfword, counting from the least significant byte.
pub open spec fn byte_of_half_le(src: u16, offset: u8) -> u8 {
    ((src >> (offset as u16 * 8)) & 0xff) as u8
}

/// Byte `offset` of a word, counting from the least significant byte.
pub open spec fn byte_of_word_le(src: u32, offset: u8) -> u8 {
    ((src >> (offset as u32 * 8)) & 0xff) as u8
}

/// Halfword starting at byte `offset` of a word, little-endian numbering.
pub open spec fn half_of_word_le(src: u32, offset: u8) -> u16 {
    ((src >> (offset as u32 * 8)) & 0xffff) as u16
}

/// Byte `offset` of a halfword, counting from the most significant byte.
pub open spec fn byte_of_half_be(src: u16, offset: u8) -> u8 {
    ((src >> (8 - offset as u16 * 8) as u16) & 0xff) as u8
}

/// Byte `offset` of a word, counting from the most significant byte.
pub open spec fn byte_of_word_be(src: u32, offset: u8) -> u8 {
    ((src >> (24 - offset as u32 * 8) as u32) & 0xff) as u8
}

/// Halfword starting at byte `offset` of a word, big-endian numbering.
pub open spec fn half_of_word_be(src: u32, offset: u8) -> u16 {
    ((src >> (16 - offset as u32 * 8) as u32) & 0xffff) as u16
}

/// `src` with the byte at shift `sh` replaced by `data`.
pub open spec fn put_byte_16(src: u16, sh: u16, data: u8) -> u16 {
    (src & !(0xffu16 << sh)) | ((data as u16) << sh)
}

/// `src` with the byte at shift `sh` replaced by `data`.
pub open spec fn put_byte_32(src: u32, sh: u32, data: u8) -> u32 {
    (src & !(0xffu32 << sh)) | ((data as u32) << sh)
}

/// `src` with the halfword at shift `sh` replaced by `data`.
pub open spec fn put_half_32(src: u32, sh: u32, data: u16) -> u32 {
    (src & !(0xffffu32 << sh)) | ((data as u32) << sh)
}

/// The halfword whose little-endian bytes are `b0, b1`.
pub open spec fn half_from_le(b0: u8, b1: u8) -> u16 {
    (b0 as u16) | ((b1 as u16) << 8)
}

/// The word whose little-endian bytes are `b0 .. b3`.
pub open spec fn word_from_le(b0: u8, b1: u8, b2: u8, b3: u8) -> u32 {
    (b0 as u32) | ((b1 as u32) << 8) | ((b2 as u32) << 16) | ((b3 as u32) << 24)
}

pub fn get_byte_from_halfword_small_endian(src: u16, offset: u8) -> (r: u8)
    requires
        offset < 2,
    ensures
        r == byte_of_half_le(src, offset),
{
    ((src >> (offset as u16 * 8)) & 0xff) as u8
}

pub fn get_byte_from_word_small_endian(src: u32, offset: u8) -> (r: u8)
    requires
        offset < 4,
    ensures
        r == byte_of_word_le(src, offset),
{
    ((src >> (offset as u32 * 8)) & 0xff) as u8
}

pub fn get_halfword_from_word_small_endian(src: u32, offset: u8) -> (r: u16)
    requires
        offset < 3,
    ensures
        r == half_of_word_le(src, offset),
{
    ((src >> (offset as u32 * 8)) & 0xffff) as u16
}

pub fn get_byte_from_halfword_big_endian(src: u16, offset: u8) -> (r: u8)
    requires
        offset < 2,
    ensures
        r == byte_of_half_be(src, offset),
{
    ((src >> (8 - offset as u16 * 8)) & 0xff) as u8
}

pub fn get_byte_from_word_big_endian(src: u32, offset: u8) -> (r: u8)
    requires
        offset < 4,
    ensures
        r == byte_of_word_be(src, offset),
{
    ((src >> (24 - offset as u32 * 8)) & 0xff) as u8
}

pub fn get_halfword_from_word_big_endian(src: u32, offset: u8) -> (r: u16)
    requires
        offset < 3,
    ensures
        r == half_of_word_be(src, offset),
{
    ((src >> (16 - offset as u32 * 8)) & 0xffff) as u16
}

pub fn set_byte_of_halfword_small_endian(src: u16, offset: u8, data: u8) -> (r: u16)
    requires
        offset < 2,
    ensures
        r == put_byte_16(src, (offset as u16 * 8) as u16, data),
{
    let sh: u16 = offset as u16 * 8;
    (src & !(0xffu16 << sh)) | ((data as u16) << sh)
}

pub fn set_byte_of_word_small_endian(src: u32, offset: u8, data: u8) -> (r: u32)
    requires
        offset < 4,
    ensures
        r == put_byte_32(src, (offset as u32 * 8) as u32, data),
{
    let sh: u32 = offset as u32 * 8;
    (src & !(0xffu32 << sh)) | ((data as u32) << sh)
}

pub fn set_halfword_of_word_small_endian(src: u32, offset: u8, data: u16) -> (r: u32)
    requires
        offset < 3,
    ensures
        r == put_half_32(src, (offset as u32 * 8) as u32, data),
{
    let sh: u32 = offset as u32 * 8;
    (src & !(0xffffu32 << sh)) | ((data as u32) << sh)
}

pub fn set_byte_of_halfword_big_endian(src: u16, offset: u8, data: u8) -> (r: u16)
    requires
        offset < 2,
    ensures
        r == put_byte_16(src, (8 - offset as u16 * 8) as u16, data),
{
    let sh: u16 = 8 - offset as u16 * 8;
    (src & !(0xffu16 << sh)) | ((data as u16) << sh)
}

pub fn set_byte_of_word_big_endian(src: u32, offset: u8, data: u8) -> (r: u32)
    requires
        offset < 4,
    ensures
        r == put_byte_32(src, (24 - offset as u32 * 8) as u32, data),
{
    let sh: u32 = 24 - offset as u32 * 8;
    (src & !(0xffu32 << sh)) | ((data as u32) << sh)
}

pub fn set_halfword_of_word_big_endian(src: u32, offset: u8, data: u16) -> (r: u32)
    requires
        offset < 3,
    ensures
        r == put_half_32(src, (16 - offset as u32 * 8) as u32, data),
{
    let sh: u32 = 16 - offset as u32 * 8;
    (src & !(0xffffu32 << sh)) | ((data as u32) << sh)
}

pub fn concat_halfword_small_endian(src: [u8; 2]) -> (r: u16)
    ensures
        r == half_from_le(src[0], src[1]),
{
    (src[0] as u16) | ((src[1] as u16) << 8)
}

pub fn concat_word_small_endian(src: [u8; 4]) -> (r: u32)
    ensures
        r == word_from_le(src[0], src[1], src[2], src[3]),
{
    (src[0] as u32) | ((src[1] as u32) << 8) | ((src[2] as u32) << 16) | ((src[3] as u32) << 24)
}

pub fn concat_halfword_big_endian(src: [u8; 2]) -> (r: u16)
    ensures
        r == half_from_le(src[1], src[0]),
{
    (src[1] as u16) | ((src[0] as u16) << 8)
}

pub fn concat_word_big_endian(src: [u8; 4]) -> (r: u32)
    ensures
        r == word_from_le(src[3], src[2], src[1], src[0]),
{
    (src[3] as u32) | ((src[2] as u32) << 8) | ((src[1] as u32) << 16) | ((src[0] as u32) << 24)
}

/// The machine's byte order for sub-word access: little-endian.
pub fn get_byte_from_halfword(src: u16, offset: u8) -> (r: u8)
    requires
        offset < 2,
    ensures
        r == byte_of_half_le(src, offset),
{
    get_byte_from_halfword_small_endian(src, offset)
}

pub fn get_byte_from_word(src: u32, offset: u8) -> (r: u8)
    requires
        offset < 4,
    ensures
        r == byte_of_word_le(src, offset),
{
    get_byte_from_word_small_endian(src, offset)
}

pub fn get_halfword_from_word(src: u32, offset: u8) -> (r: u16)
    requires
        offset < 3,
    ensures
        r == half_of_word_le(src, offset),
{
    get_halfword_from_word_small_endian(src, offset)
}

pub fn set_byte_of_halfword(src: u16, offset: u8, data: u8) -> (r: u16)
    requires
        offset < 2,
    ensures
        r == put_byte_16(src, (offset as u16 * 8) as u16, data),
{
    set_byte_of_halfword_small_endian(src, offset, data)
}

pub fn set_byte_of_word(src: u32, offset: u8, data: u8) -> (r: u32)
    requires
        offset < 4,
    ensures
        r == put_byte_32(src, (offset as u32 * 8) as u32, data),
{
    set_byte_of_word_small_endian(src, offset, data)
}

pub fn set_halfword_of_word(src: u32, offset: u8, data: u16) -> (r: u32)
    requires
        offset < 3,
    ensures
        r == put_half_32(src, (offset as u32 * 8) as u32, data),
{
    set_halfword_of_word_small_endian(src, offset, data)
}

pub fn concat_halfword(src: [u8; 2]) -> (r: u16)
    ensures
        r == half_from_le(src[0], src[1]),
{
    concat_halfword_small_endian(src)
}

pub fn concat_word(src: [u8; 4]) -> (r: u32)
    ensures
        r == word_from_le(src[0], src[1], src[2], src[3]),
{
    concat_word_small_endian(src)
}

/// Sign-extends a 16-bit immediate.
pub fn sgn_ext_imm_16(imm: u16) -> (r: i32)
    ensures
        r as int == if imm < 0x8000 { imm as int } else { imm as int - 0x10000 },
{
    if imm < 0x8000 {
        imm as i32
    } else {
        imm as i32 - 0x10000
    }
}

/// Setting a byte twice to the same value is the same as setting it once,
/// and reading the byte back gives the value that was set.
pub proof fn lemma_set_byte_of_word(x: u32, o: u8, a: u8)
    requires
        o < 4,
    ensures
        put_byte_32(put_byte_32(x, (o as u32 * 8) as u32, a), (o as u32 * 8) as u32, a)
            == put_byte_32(x, (o as u32 * 8) as u32, a),
        byte_of_word_le(put_byte_32(x, (o as u32 * 8) as u32, a), o) == a,
{
    let sh: u32 = (o as u32 * 8) as u32;
    assert(sh == 0 || sh == 8 || sh == 16 || sh == 24);
    assert(put_byte_32(put_byte_32(x, sh, a), sh, a) == put_byte_32(x, sh, a)
        && ((put_byte_32(x, sh, a) >> sh) & 0xff) as u8 == a) by (bit_vector)
        requires
            sh == 0 || sh == 8 || sh == 16 || sh == 24,
    ;
}

} // verus!
