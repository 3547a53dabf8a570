//! The boot ROM: 4 KiB at the top of the address space.
use vstd::prelude::*;
use crate::bus::ROM_SIZE;
use crate::device::Device;
use crate::exception::Exception;
use crate::instruction::{Instruction, encode};
use crate::ram::{load, store, load_spec, store_spec, store_result};
use crate::size::Size;

verus! {

/// The ROM's first word jumps to the kernel's text at `0x0040_0000`.
pub const BOOT_JUMP_TARGET: u32 = 0x10_0000;

pub struct Rom {
    pub content: Vec<u8>,
}

impl View for Rom {
    type V = Seq<u8>;

    open spec fn view(&self) -> Seq<u8> {
        self.content@
    }
}

/// The ROM image at power-on: zeros but for a jump into the kernel at offset 0.
pub open spec fn boot_rom() -> Seq<u8> {
    store_spec(
        Seq::new(ROM_SIZE as nat, |i: int| 0u8),
        0,
        encode(Instruction::J { opcode: 0x2, imm: BOOT_JUMP_TARGET }),
        Size::Word,
    )
}

impl Rom {
    pub fn new() -> (r: Self)
        ensures
            r@ == boot_rom(),
    {
        let content: Vec<u8> = vec![0u8; ROM_SIZE as usize];
        assert(content@ =~= Seq::new(ROM_SIZE as nat, |i: int| 0u8));
        let mut rom = Rom { content };
        let jump = Instruction::j(BOOT_JUMP_TARGET).dump();
        let _ = store(&mut rom.content, 0, jump, Size::Word);
        rom
    }

    /// Replaces the start of the ROM with `image`.
    pub fn load_binary(&mut self, image: &Vec<u8>)
        requires
            old(self)@.len() == ROM_SIZE,
            image@.len() <= ROM_SIZE,
        ensures
            final(self)@ == image@ + old(self)@.subrange(image@.len() as int, ROM_SIZE as int),
    {
        let mut i: usize = 0;
        while i < image.len()
            invariant
                i <= image@.len() <= ROM_SIZE,
                self@.len() == ROM_SIZE,
                forall|j: int| 0 <= j < i ==> self@[j] == image@[j],
                forall|j: int| i <= j < ROM_SIZE ==> self@[j] == old(self)@[j],
            decreases image@.len() - i,
        {
            self.content.set(i, image[i]);
            i = i + 1;
        }
        assert(self@ =~= image@ + old(self)@.subrange(image@.len() as int, ROM_SIZE as int));
    }
}

impl Device for Rom {
    open spec fn inv(s: Seq<u8>) -> bool {
        s.len() == ROM_SIZE
    }

    open spec fn read_spec(s: Seq<u8>, addr: u32, size: Size) -> (Seq<u8>, Result<u32, Exception>) {
        (s, load_spec(s, addr, size))
    }

    open spec fn write_spec(s: Seq<u8>, addr: u32, data: u32, size: Size) -> (
        Seq<u8>,
        Result<(), Exception>,
    ) {
        (store_spec(s, addr, data, size), store_result(s, addr, size))
    }

    fn read(&mut self, addr: u32, size: Size) -> (r: Result<u32, Exception>) {
        load(&self.content, addr, size)
    }

    fn write(&mut self, addr: u32, data: u32, size: Size) -> (r: Result<(), Exception>) {
        store(&mut self.content, addr, data, size)
    }
}

} // verus!
