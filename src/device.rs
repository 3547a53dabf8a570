//! The access contract shared by everything that sits on the bus.
use vstd::prelude::*;
use crate::exception::Exception;
use crate::size::Size;

verus! {

/// A memory-mapped device, addressed from the start of its own window.
///
/// Each device describes its behaviour over its model (`View`): what a read
/// returns and leaves behind, and what a write leaves behind and returns.
pub trait Device: View + Sized {
    /// The invariant that the device keeps.
    spec fn inv(s: Self::V) -> bool;

    /// The state after a read, and what the read returns.
    spec fn read_spec(s: Self::V, addr: u32, size: Size) -> (Self::V, Result<u32, Exception>);

    /// The state after a write, and what the write returns.
    spec fn write_spec(s: Self::V, addr: u32, data: u32, size: Size) -> (
        Self::V,
        Result<(), Exception>,
    );

    fn read(&mut self, addr: u32, size: Size) -> (r: Result<u32, Exception>)
        requires
            Self::inv(old(self)@),
        ensures
            Self::inv(final(self)@),
            (final(self)@, r) == Self::read_spec(old(self)@, addr, size),
    ;

    fn write(&mut self, addr: u32, data: u32, size: Size) -> (r: Result<(), Exception>)
        requires
            Self::inv(old(self)@),
        ensures
            Self::inv(final(self)@),
            (final(self)@, r) == Self::write_spec(old(self)@, addr, data, size),
    ;
}

} // verus!
