//! Flat byte storage with alignment-checked access, shared by DRAM, ROM and
//! the virtio window.
use vstd::prelude::*;
use crate::exception::Exception;
use crate::size::{Size, mask_to};
use crate::utils::{
    byte_of_half_le, byte_of_word_le, half_from_le, word_from_le, concat_halfword, concat_word,
    get_byte_from_halfword, get_byte_from_word,
};

verus! {

/// Whether `addr` is inside `mem` and aligned for `size`.
pub open spec fn accessible(mem: Seq<u8>, addr: u32, size: Size) -> bool {
    &&& addr < mem.len()
    &&& match size {
        Size::Byte => true,
        Size::Halfword => addr % 2 == 0,
        Size::Word => addr % 4 == 0,
    }
}

/// What a read of `size` at `addr` returns.
pub open spec fn load_spec(mem: Seq<u8>, addr: u32, size: Size) -> Result<u32, Exception> {
    let a = addr as int;
    if !accessible(mem, addr, size) {
        Err(Exception::LoadIllegalAddress)
    } else {
        match size {
            Size::Byte => Ok(mem[a] as u32),
            Size::Halfword => Ok(half_from_le(mem[a], mem[a + 1]) as u32),
            Size::Word => Ok(word_from_le(mem[a], mem[a + 1], mem[a + 2], mem[a + 3])),
        }
    }
}

/// The contents after a write of `size` at `addr` (unchanged when the write fails).
pub open spec fn store_spec(mem: Seq<u8>, addr: u32, data: u32, size: Size) -> Seq<u8> {
    let a = addr as int;
    if !accessible(mem, addr, size) {
        mem
    } else {
        match size {
            Size::Byte => mem.update(a, data as u8),
            Size::Halfword => mem.update(a, byte_of_half_le(data as u16, 0)).update(
                a + 1,
                byte_of_half_le(data as u16, 1),
            ),
            Size::Word => mem.update(a, byte_of_word_le(data, 0)).update(
                a + 1,
                byte_of_word_le(data, 1),
            ).update(a + 2, byte_of_word_le(data, 2)).update(a + 3, byte_of_word_le(data, 3)),
        }
    }
}

/// What a write of `size` at `addr` returns.
pub open spec fn store_result(mem: Seq<u8>, addr: u32, size: Size) -> Result<(), Exception> {
    if accessible(mem, addr, size) {
        Ok(())
    } else {
        Err(Exception::LoadIllegalAddress)
    }
}

pub fn load(mem: &Vec<u8>, addr: u32, size: Size) -> (r: Result<u32, Exception>)
    requires
        mem@.len() % 4 == 0,
    ensures
        r == load_spec(mem@, addr, size),
{
    let a = addr as usize;
    if a >= mem.len() {
        return Err(Exception::LoadIllegalAddress);
    }
    match size {
        Size::Byte => Ok(mem[a] as u32),
        Size::Halfword => {
            if addr % 2 != 0 {
                Err(Exception::LoadIllegalAddress)
            } else {
                Ok(concat_halfword([mem[a], mem[a + 1]]) as u32)
            }
        },
        Size::Word => {
            if addr % 4 != 0 {
                Err(Exception::LoadIllegalAddress)
            } else {
                Ok(concat_word([mem[a], mem[a + 1], mem[a + 2], mem[a + 3]]))
            }
        },
    }
}

pub fn store(mem: &mut Vec<u8>, addr: u32, data: u32, size: Size) -> (r: Result<(), Exception>)
    requires
        old(mem)@.len() % 4 == 0,
    ensures
        r == store_result(old(mem)@, addr, size),
        final(mem)@ == store_spec(old(mem)@, addr, data, size),
{
    let a = addr as usize;
    if a >= mem.len() {
        return Err(Exception::LoadIllegalAddress);
    }
    match size {
        Size::Byte => {
            mem.set(a, data as u8);
            Ok(())
        },
        Size::Halfword => {
            if addr % 2 != 0 {
                Err(Exception::LoadIllegalAddress)
            } else {
                mem.set(a, get_byte_from_halfword(data as u16, 0));
                mem.set(a + 1, get_byte_from_halfword(data as u16, 1));
                Ok(())
            }
        },
        Size::Word => {
            if addr % 4 != 0 {
                Err(Exception::LoadIllegalAddress)
            } else {
                mem.set(a, get_byte_from_word(data, 0));
                mem.set(a + 1, get_byte_from_word(data, 1));
                mem.set(a + 2, get_byte_from_word(data, 2));
                mem.set(a + 3, get_byte_from_word(data, 3));
                Ok(())
            }
        },
    }
}

/// A read after a write of the same size at the same accessible address
/// returns the written value cut down to that size.
pub proof fn lemma_load_after_store(mem: Seq<u8>, addr: u32, data: u32, size: Size)
    requires
        accessible(mem, addr, size),
        mem.len() % 4 == 0,
    ensures
        load_spec(store_spec(mem, addr, data, size), addr, size) == Ok::<u32, Exception>(
            mask_to(data, size),
        ),
{
    match size {
        Size::Byte => {
            assert((data as u8) as u32 == data & 0xff) by (bit_vector);
        },
        Size::Halfword => {
            let h = data as u16;
            assert(half_from_le(byte_of_half_le(h, 0), byte_of_half_le(h, 1)) as u32 == data
                & 0xffff) by (bit_vector)
                requires
                    h == data as u16,
            ;
        },
        Size::Word => {
            assert(word_from_le(
                byte_of_word_le(data, 0),
                byte_of_word_le(data, 1),
                byte_of_word_le(data, 2),
                byte_of_word_le(data, 3),
            ) == data) by (bit_vector);
        },
    }
}

} // verus!
