//! Main memory: 2 GiB of bytes at physical address 0.
use vstd::prelude::*;
use crate::bus::DRAM_SIZE;
use crate::device::Device;
use crate::exception::Exception;
use crate::ram::{load, store, load_spec, store_spec, store_result};
use crate::size::Size;

verus! {

pub struct Dram {
    pub content: Vec<u8>,
}

impl View for Dram {
    type V = Seq<u8>;

    open spec fn view(&self) -> Seq<u8> {
        self.content@
    }
}

impl Dram {
    /// Zero-filled memory of `DRAM_SIZE` bytes.
    pub fn new() -> (r: Self)
        ensures
            r@ == Seq::new(DRAM_SIZE as nat, |i: int| 0u8),
    {
        let content: Vec<u8> = vec![0u8; DRAM_SIZE as usize];
        assert(content@ =~= Seq::new(DRAM_SIZE as nat, |i: int| 0u8));
        Dram { content }
    }
}

impl Device for Dram {
    open spec fn inv(s: Seq<u8>) -> bool {
        s.len() == DRAM_SIZE
    }

    open spec fn read_spec(s: Seq<u8>, addr: u32, size: Size) -> (Seq<u8>, Result<u32, Exception>) {
        (s, load_spec(s, addr, size))
    }

    open spec fn write_spec(s: Seq<u8>, addr: u32, data: u32, size: Size) -> (
        Seq<u8>,
        Result<(), Exception>,
    ) {
        (store_spec(s, addr, data, size), store_result(s, addr, size))
    }

    fn read(&mut self, addr: u32, size: Size) -> (r: Result<u32, Exception>) {
        load(&self.content, addr, size)
    }

    fn write(&mut self, addr: u32, data: u32, size: Size) -> (r: Result<(), Exception>) {
        store(&mut self.content, addr, data, size)
    }
}

} // verus!
