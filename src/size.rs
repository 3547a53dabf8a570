//! Access widths.
use vstd::prelude::*;

verus! {

#[derive(Debug, Clone, Copy, PartialEq, Eq, Structural)]
pub enum Size {
    Byte,
    Halfword,
    Word,
}

/// `data` cut down to the width of an access.
pub open spec fn mask_to(data: u32, size: Size) -> u32 {
    match size {
        Size::Byte => data & 0xff,
        Size::Halfword => data & 0xffff,
        Size::Word => data,
    }
}

} // verus!
