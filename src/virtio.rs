//! The virtio window: a page of plain byte registers that the core does not interpret.
use vstd::prelude::*;
use crate::bus::VIRTIO_SIZE;
use crate::device::Device;
use crate::exception::Exception;
use crate::ram::{load, store, load_spec, store_spec, store_result};
use crate::size::Size;

verus! {

pub struct Virtio {
    pub content: Vec<u8>,
}

impl View for Virtio {
    type V = Seq<u8>;

    open spec fn view(&self) -> Seq<u8> {
        self.content@
    }
}

impl Virtio {
    /// A zeroed window.
    pub fn new() -> (r: Self)
        ensures
            r@ == Seq::new(VIRTIO_SIZE as nat, |i: int| 0u8),
    {
        let content: Vec<u8> = vec![0u8; VIRTIO_SIZE as usize];
        assert(content@ =~= Seq::new(VIRTIO_SIZE as nat, |i: int| 0u8));
        Virtio { content }
    }
}

impl Device for Virtio {
    open spec fn inv(s: Seq<u8>) -> bool {
        s.len() == VIRTIO_SIZE
    }

    open spec fn read_spec(s: Seq<u8>, addr: u32, size: Size) -> (Seq<u8>, Result<u32, Exception>) {
        (s, load_spec(s, addr, size))
    }

    open spec fn write_spec(s: Seq<u8>, addr: u32, data: u32, size: Size) -> (
        Seq<u8>,
        Result<(), Exception>,
    ) {
        (store_spec(s, addr, data, size), store_result(s, addr, size))
    }

    fn read(&mut self, addr: u32, size: Size) -> (r: Result<u32, Exception>) {
        load(&self.content, addr, size)
    }

    fn write(&mut self, addr: u32, data: u32, size: Size) -> (r: Result<(), Exception>) {
        store(&mut self.content, addr, data, size)
    }
}

} // verus!
