//! Page-table entries, the two-level page walk, dirty marking, the bootstrap
//! page table and the bump allocator that maps fresh frames.
//!
//! A PTE is `[PFN:31..12][HUGE:6][PRESENT:5][VALID:4][USER:3][READ:2][WRITE:1][DIRTY:0]`.
//! A HUGE first-level entry maps 4 MiB: it gives bits 31..22 of the
//! physical address and the virtual address gives the low 22 bits.
use vstd::prelude::*;
use crate::bus::{BusState, DRAM_SIZE, ROM_BASE, UART_BASE, VIRTIO_BASE, bus_read, bus_write};
use crate::dram::Dram;
use crate::ram::{load_spec, store_spec};
use crate::coprocessor::PTBASE;
use crate::cpu::{Cpu, cp0_addr};
use crate::device::Device;
use crate::exception::Exception;
use crate::size::Size;

verus! {

pub const HUGE: u32 = 0x40;
pub const PRESENT: u32 = 0x20;
pub const VALID: u32 = 0x10;
pub const USER: u32 = 0x8;
pub const READ: u32 = 0x4;
pub const WRITE: u32 = 0x2;
pub const DIRTY: u32 = 0x1;
pub const TEXT: u32 = 0x0040_0000;
pub const DATA: u32 = 0x1000_0000;
pub const HEAP: u32 = 0x1000_8000;

pub open spec fn bit(e: u32, k: u32) -> bool {
    (e >> k) & 1 != 0
}

pub open spec fn pfn_of(e: u32) -> u32 {
    e & 0xffff_f000
}

/// The address of the entry for `vaddr` in the table at `table`, at the
/// level that translates bits `shift..shift+10`.
pub open spec fn entry_addr(table: u32, vaddr: u32, shift: u32) -> u32 {
    pfn_of(table) | (((vaddr >> shift) & 0x3ff) << 2)
}

pub struct PTE {
    pub entry: u32,
}

impl PTE {
    pub fn pfn(&self) -> (r: u32)
        ensures
            r == pfn_of(self.entry),
    {
        self.entry & 0xffff_f000
    }

    pub fn huge(&self) -> (r: bool)
        ensures
            r == bit(self.entry, 6),
    {
        (self.entry >> 6) & 1 != 0
    }

    pub fn present(&self) -> (r: bool)
        ensures
            r == bit(self.entry, 5),
    {
        (self.entry >> 5) & 1 != 0
    }

    pub fn valid(&self) -> (r: bool)
        ensures
            r == bit(self.entry, 4),
    {
        (self.entry >> 4) & 1 != 0
    }

    pub fn user(&self) -> (r: bool)
        ensures
            r == bit(self.entry, 3),
    {
        (self.entry >> 3) & 1 != 0
    }

    pub fn read(&self) -> (r: bool)
        ensures
            r == bit(self.entry, 2),
    {
        (self.entry >> 2) & 1 != 0
    }

    pub fn write(&self) -> (r: bool)
        ensures
            r == bit(self.entry, 1),
    {
        (self.entry >> 1) & 1 != 0
    }

    pub fn dirty(&self) -> (r: bool)
        ensures
            r == bit(self.entry, 0),
    {
        let e = self.entry;
        assert((e >> 0u32) & 1 == e & 1) by (bit_vector);
        e & 1 != 0
    }
}

/// A translated address with the protection that the walk found.
#[derive(Debug, Clone, Copy, PartialEq, Eq, Structural)]
pub struct Paddr {
    pub paddr: u32,
    pub user: bool,
    pub read: bool,
    pub write: bool,
}

/// The error for an entry that cannot be followed, if any.
pub open spec fn entry_fault(e: u32) -> Option<Exception> {
    if !bit(e, 4) {
        Some(Exception::LoadIllegalAddress)
    } else if !bit(e, 5) {
        Some(Exception::PageFault)
    } else {
        None
    }
}

/// The physical address of a HUGE mapping: bits 31..22 come from the
/// entry, the low 22 bits from the virtual address. The entry's flag bits
/// never reach the address.
pub open spec fn huge_paddr(e: u32, vaddr: u32) -> u32 {
    (e & 0xffc0_0000) | (vaddr & 0x3f_ffff)
}

/// The result of translating `vaddr` with the page table rooted at PTBASE.
pub open spec fn walk(s: BusState, vaddr: u32) -> Result<Paddr, Exception> {
    let root = s.cp0[PTBASE as int];
    if entry_fault(root) is Some {
        Err(entry_fault(root)->0)
    } else {
        match bus_read(s, entry_addr(root, vaddr, 22), Size::Word).1 {
            Err(e) => Err(e),
            Ok(e1) => if bit(e1, 6) {
                Ok(
                    Paddr {
                        paddr: huge_paddr(e1, vaddr),
                        user: bit(e1, 3),
                        read: bit(e1, 2),
                        write: bit(e1, 1),
                    },
                )
            } else if entry_fault(e1) is Some {
                Err(entry_fault(e1)->0)
            } else {
                match bus_read(s, entry_addr(e1, vaddr, 12), Size::Word).1 {
                    Err(e) => Err(e),
                    Ok(e2) => Ok(
                        Paddr {
                            paddr: pfn_of(e2) | (vaddr & 0xfff),
                            user: bit(e1, 3) && bit(e2, 3),
                            read: bit(e1, 2) && bit(e2, 2),
                            write: bit(e1, 1) && bit(e2, 1),
                        },
                    ),
                }
            },
        }
    }
}

/// Whether the first-level entry for `vaddr` is a valid, present HUGE entry.
pub open spec fn walk_is_huge(s: BusState, vaddr: u32) -> bool {
    let root = s.cp0[PTBASE as int];
    &&& entry_fault(root) is None
    &&& match bus_read(s, entry_addr(root, vaddr, 22), Size::Word).1 {
        Ok(e1) => bit(e1, 6),
        Err(_) => false,
    }
}

/// Translates `vaddr`; nothing in the machine changes.
pub fn walkpgdir(cpu: &mut Cpu, vaddr: u32) -> (r: Result<Paddr, Exception>)
    requires
        old(cpu)@.wf(),
    ensures
        final(cpu)@ == old(cpu)@,
        r == walk(old(cpu)@.bus, vaddr),
{
    let root = match cpu.load_coprocessor0(PTBASE) {
        Ok(v) => PTE { entry: v },
        Err(e) => return Err(e),
    };
    if !root.valid() {
        return Err(Exception::LoadIllegalAddress);
    }
    if !root.present() {
        return Err(Exception::PageFault);
    }
    let a1 = root.pfn() | (((vaddr >> 22) & 0x3ff) << 2);
    let e1 = match cpu.bus.read(a1, Size::Word) {
        Ok(v) => PTE { entry: v },
        Err(e) => return Err(e),
    };
    if e1.huge() {
        return Ok(
            Paddr {
                paddr: (e1.entry & 0xffc0_0000) | (vaddr & 0x3f_ffff),
                user: e1.user(),
                read: e1.read(),
                write: e1.write(),
            },
        );
    }
    if !e1.valid() {
        return Err(Exception::LoadIllegalAddress);
    }
    if !e1.present() {
        return Err(Exception::PageFault);
    }
    let a2 = e1.pfn() | (((vaddr >> 12) & 0x3ff) << 2);
    let e2 = match cpu.bus.read(a2, Size::Word) {
        Ok(v) => PTE { entry: v },
        Err(e) => return Err(e),
    };
    Ok(
        Paddr {
            paddr: e2.pfn() | (vaddr & 0xfff),
            user: e1.user() && e2.user(),
            read: e1.read() && e2.read(),
            write: e1.write() && e2.write(),
        },
    )
}

/// The bus after marking dirty PTBASE and each entry on the way to `vaddr`
/// (stopping after a HUGE entry), and the result of doing so.
pub open spec fn set_dirty(s: BusState, vaddr: u32) -> (BusState, Result<(), Exception>) {
    let root = s.cp0[PTBASE as int] | 1;
    let (s0, r0) = bus_write(s, cp0_addr(PTBASE), root, Size::Word);
    let a1 = entry_addr(root, vaddr, 22);
    if r0 is Err {
        (s0, r0)
    } else {
        match bus_read(s0, a1, Size::Word).1 {
            Err(e) => (s0, Err(e)),
            Ok(e1) => {
                let (s1, r1) = bus_write(s0, a1, e1 | 1, Size::Word);
                let a2 = entry_addr(e1 | 1, vaddr, 12);
                if r1 is Err || bit(e1 | 1, 6) {
                    (s1, r1)
                } else {
                    match bus_read(s1, a2, Size::Word).1 {
                        Err(e) => (s1, Err(e)),
                        Ok(e2) => bus_write(s1, a2, e2 | 1, Size::Word),
                    }
                }
            },
        }
    }
}

/// Sets the DIRTY bit on PTBASE and on the entries that translate `vaddr`.
pub fn set_page_dirty(cpu: &mut Cpu, vaddr: u32) -> (r: Result<(), Exception>)
    requires
        old(cpu)@.wf(),
    ensures
        final(cpu)@.wf(),
        final(cpu)@ == old(cpu)@.with_bus(set_dirty(old(cpu)@.bus, vaddr).0),
        r == set_dirty(old(cpu)@.bus, vaddr).1,
{
    let root = match cpu.load_coprocessor0(PTBASE) {
        Ok(v) => PTE { entry: v | 1 },
        Err(e) => return Err(e),
    };
    match cpu.write_coprocessor0(PTBASE, root.entry) {
        Ok(()) => {},
        Err(e) => return Err(e),
    }
    let a1 = root.pfn() | (((vaddr >> 22) & 0x3ff) << 2);
    let e1 = match cpu.bus.read(a1, Size::Word) {
        Ok(v) => PTE { entry: v | 1 },
        Err(e) => return Err(e),
    };
    match cpu.bus.write(a1, e1.entry, Size::Word) {
        Ok(()) => {},
        Err(e) => return Err(e),
    }
    if e1.huge() {
        return Ok(());
    }
    let a2 = e1.pfn() | (((vaddr >> 12) & 0x3ff) << 2);
    let e2 = match cpu.bus.read(a2, Size::Word) {
        Ok(v) => v | 1,
        Err(e) => return Err(e),
    };
    cpu.bus.write(a2, e2, Size::Word)
}

/// The value of the `i`-th first-level entry of the kernel window, which
/// maps virtual `0x8000_0000 + (i - 0x200) * 4 MiB` onto physical `(i - 0x200) * 4 MiB`.
pub open spec fn window_entry(i: u32) -> u32 {
    (((i - 0x200) as u32) << 22) | HUGE | PRESENT | VALID | READ | WRITE
}

/// DRAM after writing the kernel-window entries `0x200 .. 0x200 + n`.
pub open spec fn window_entries(m: Seq<u8>, n: nat) -> Seq<u8>
    decreases n,
{
    if n == 0 {
        m
    } else {
        let i = (0x200 + n - 1) as u32;
        store_spec(window_entries(m, (n - 1) as nat), (i * 4) as u32, window_entry(i), Size::Word)
    }
}

/// DRAM after building the bootstrap page table in frame 0: entry 0 points
/// to a second-level table at 0x1000 mapping virtual pages 0, 1, 2 onto the
/// ROM, the virtio window and the UART, and entries 0x200 .. 0x400 map the
/// kernel window.
pub open spec fn meta_page_table(m: Seq<u8>) -> Seq<u8> {
    let m1 = store_spec(m, 0, 0x1000 | PRESENT | VALID | READ | WRITE, Size::Word);
    let m2 = store_spec(m1, 0x1000, ROM_BASE | PRESENT | VALID | READ, Size::Word);
    let m3 = store_spec(m2, 0x1004, VIRTIO_BASE | PRESENT | VALID | READ | WRITE, Size::Word);
    let m4 = store_spec(m3, 0x1008, UART_BASE | PRESENT | VALID | READ | WRITE, Size::Word);
    window_entries(m4, 0x200)
}

/// Builds the bootstrap page table.
pub fn create_meta_page_table(dram: &mut Dram)
    requires
        old(dram)@.len() == DRAM_SIZE,
    ensures
        final(dram)@ == meta_page_table(old(dram)@),
        final(dram)@.len() == DRAM_SIZE,
{
    let _ = dram.write(0, 0x1000 | PRESENT | VALID | READ | WRITE, Size::Word);
    let _ = dram.write(0x1000, ROM_BASE | PRESENT | VALID | READ, Size::Word);
    let _ = dram.write(0x1004, VIRTIO_BASE | PRESENT | VALID | READ | WRITE, Size::Word);
    let _ = dram.write(0x1008, UART_BASE | PRESENT | VALID | READ | WRITE, Size::Word);
    let ghost m4 = dram@;
    let mut i: u32 = 0x200;
    while i < 0x400
        invariant
            0x200 <= i <= 0x400,
            dram@.len() == DRAM_SIZE,
            dram@ == window_entries(m4, (i - 0x200) as nat),
        decreases 0x400 - i,
    {
        let _ = dram.write(i << 2, ((i - 0x200) << 22) | HUGE | PRESENT | VALID | READ | WRITE, Size::Word);
        assert(i << 2 == i * 4) by (bit_vector)
            requires
                i < 0x400,
        ;
        i = i + 1;
    }
}

/// The bump allocator of physical frames used while loading a kernel.
pub struct Allocator {
    pub allocated: u32,
}

/// Number of 4 KiB frames in DRAM.
pub const DRAM_FRAMES: u32 = 0x8_0000;

/// The word at `a` of DRAM, if it can be read.
pub open spec fn dram_word(m: Seq<u8>, a: u32) -> Result<u32, Exception> {
    load_spec(m, a, Size::Word)
}

/// Mapping the page at `vaddr` to a fresh frame, from allocator state
/// `next`: the allocator state after it, DRAM after it, and the frame's
/// physical address. `None` when the page is already mapped (or lies in a
/// HUGE mapping), when a table cannot be read, or when frames run out.
pub open spec fn kalloc_spec(next: u32, m: Seq<u8>, vaddr: u32) -> (u32, Seq<u8>, Option<u32>) {
    let l1 = ((vaddr >> 22) & 0x3ff) << 2;
    if next >= DRAM_FRAMES - 1 {
        (next, m, None)
    } else {
        match dram_word(m, l1) {
            Err(_) => (next, m, None),
            Ok(pde) => {
                let (next1, m1, table) = if bit(pde, 4) {
                    (next, store_spec(m, l1, pde | DIRTY, Size::Word), pde)
                } else {
                    let t = (next << 12) | PRESENT | VALID | READ | WRITE;
                    ((next + 1) as u32, store_spec(m, l1, t, Size::Word), t)
                };
                let l2 = entry_addr(table, vaddr, 12);
                if bit(pde, 4) && bit(pde, 6) {
                    (next, m, None)
                } else {
                    match dram_word(m1, l2) {
                        Err(_) => (next1, m1, None),
                        Ok(pte) => if bit(pte, 4) {
                            (next1, m1, None)
                        } else {
                            let frame = (next1 << 12) as u32;
                            (
                                (next1 + 1) as u32,
                                store_spec(m1, l2, frame | PRESENT | VALID | READ | WRITE, Size::Word),
                                Some(frame),
                            )
                        },
                    }
                }
            },
        }
    }
}

impl Allocator {
    /// Frames 0 and 1 hold the bootstrap page table; allocation starts at 2.
    pub fn new() -> (r: Self)
        ensures
            r.allocated == 2,
    {
        Allocator { allocated: 2 }
    }

    /// Maps the page at `vaddr` to a fresh frame and returns the frame's
    /// physical address; see `kalloc_spec` for when it cannot.
    pub fn kalloc(&mut self, dram: &mut Dram, vaddr: u32) -> (r: Option<u32>)
        requires
            old(dram)@.len() == DRAM_SIZE,
            vaddr & 0xfff == 0,
        ensures
            final(dram)@.len() == DRAM_SIZE,
            (final(self).allocated, final(dram)@, r) == kalloc_spec(
                old(self).allocated,
                old(dram)@,
                vaddr,
            ),
            r matches Some(f) ==> f % 0x1000 == 0 && f < DRAM_SIZE,
    {
        if self.allocated >= DRAM_FRAMES - 1 {
            return None;
        }
        let l1 = ((vaddr >> 22) & 0x3ff) << 2;
        let pde = match dram.read(l1, Size::Word) {
            Ok(v) => PTE { entry: v },
            Err(_) => return None,
        };
        if pde.valid() && pde.huge() {
            return None;
        }
        let table = if pde.valid() {
            let _ = dram.write(l1, pde.entry | DIRTY, Size::Word);
            pde
        } else {
            let t = (self.allocated << 12) | PRESENT | VALID | READ | WRITE;
            let _ = dram.write(l1, t, Size::Word);
            self.allocated = self.allocated + 1;
            PTE { entry: t }
        };
        let l2 = table.pfn() | (((vaddr >> 12) & 0x3ff) << 2);
        let pte = match dram.read(l2, Size::Word) {
            Ok(v) => PTE { entry: v },
            Err(_) => return None,
        };
        if pte.valid() {
            return None;
        }
        let n = self.allocated;
        assert((n << 12) % 0x1000 == 0 && (n << 12) < 0x8000_0000) by (bit_vector)
            requires
                n < 0x8_0000,
        ;
        let frame = n << 12;
        let _ = dram.write(l2, frame | PRESENT | VALID | READ | WRITE, Size::Word);
        self.allocated = self.allocated + 1;
        Some(frame)
    }
}

/// Within one 4 KiB page, translation keeps the offset: the walk of
/// `vaddr + k` gives the walk of `vaddr` moved by `k`, or the same error.
pub proof fn lemma_walk_within_page(s: BusState, vaddr: u32, k: u32)
    requires
        vaddr % 0x1000 == 0,
        k < 0x1000,
    ensures
        match walk(s, vaddr) {
            Ok(p) => walk(s, (vaddr + k) as u32) == Ok::<Paddr, Exception>(
                Paddr { paddr: (p.paddr + k) as u32, ..p },
            ),
            Err(e) => walk(s, (vaddr + k) as u32) == Err::<Paddr, Exception>(e),
        },
{
    let v2 = (vaddr + k) as u32;
    assert(vaddr + k < 0x1_0000_0000) by {
        assert(vaddr <= 0xffff_f000);
    }
    assert(((v2 >> 22u32) & 0x3ff) == ((vaddr >> 22u32) & 0x3ff) && ((v2 >> 12u32) & 0x3ff) == ((
    vaddr >> 12u32) & 0x3ff)) by (bit_vector)
        requires
            v2 == vaddr + k,
            vaddr % 0x1000 == 0,
            k < 0x1000,
    ;
    assert(forall|e: u32|
        #![trigger pfn_of(e)]
        (pfn_of(e) | (v2 & 0xfff)) == (pfn_of(e) | (vaddr & 0xfff)) + k && (pfn_of(e) | (
        vaddr & 0xfff)) + k < 0x1_0000_0000) by {
        assert forall|e: u32|
            #![trigger pfn_of(e)]
            (pfn_of(e) | (v2 & 0xfff)) == (pfn_of(e) | (vaddr & 0xfff)) + k && (pfn_of(e) | (
            vaddr & 0xfff)) + k < 0x1_0000_0000 by {
            let p = pfn_of(e);
            assert((p | (v2 & 0xfff)) == (p | (vaddr & 0xfff)) + k && (p | (vaddr & 0xfff)) + k
                < 0x1_0000_0000) by (bit_vector)
                requires
                    p == e & 0xffff_f000,
                    v2 == vaddr + k,
                    vaddr % 0x1000 == 0,
                    k < 0x1000,
            ;
        }
    }
    assert(forall|e: u32|
        #![trigger huge_paddr(e, v2)]
        huge_paddr(e, v2) == huge_paddr(e, vaddr) + k && huge_paddr(e, vaddr) + k
            < 0x1_0000_0000) by {
        assert forall|e: u32|
            #![trigger huge_paddr(e, v2)]
            huge_paddr(e, v2) == huge_paddr(e, vaddr) + k && huge_paddr(e, vaddr) + k
                < 0x1_0000_0000 by {
            assert(((e & 0xffc0_0000) | (v2 & 0x3f_ffff)) == ((e & 0xffc0_0000) | (vaddr
                & 0x3f_ffff)) + k && ((e & 0xffc0_0000) | (vaddr & 0x3f_ffff)) + k < 0x1_0000_0000)
                by (bit_vector)
                requires
                    v2 == vaddr + k,
                    vaddr % 0x1000 == 0,
                    k < 0x1000,
            ;
        }
    }
    assert(entry_addr(s.cp0[PTBASE as int], v2, 22) == entry_addr(s.cp0[PTBASE as int], vaddr, 22));
    match bus_read(s, entry_addr(s.cp0[PTBASE as int], vaddr, 22), Size::Word).1 {
        Ok(e1) => {
            assert(entry_addr(e1, v2, 12) == entry_addr(e1, vaddr, 12));
            assert(huge_paddr(e1, v2) == huge_paddr(e1, vaddr) + k);
        },
        Err(_) => {},
    }
}

/// Within one 4 MiB HUGE mapping, translation keeps the offset.
pub proof fn lemma_walk_within_huge_page(s: BusState, vaddr: u32, k: u32)
    requires
        vaddr % 0x40_0000 == 0,
        k < 0x40_0000,
        walk_is_huge(s, vaddr),
    ensures
        walk(s, vaddr) is Ok,
        walk(s, (vaddr + k) as u32) == Ok::<Paddr, Exception>(
            Paddr { paddr: (walk(s, vaddr)->Ok_0.paddr + k) as u32, ..walk(s, vaddr)->Ok_0 },
        ),
{
    let v2 = (vaddr + k) as u32;
    assert(vaddr + k < 0x1_0000_0000) by {
        assert(vaddr <= 0xffc0_0000);
    }
    assert(((v2 >> 22u32) & 0x3ff) == ((vaddr >> 22u32) & 0x3ff)) by (bit_vector)
        requires
            v2 == vaddr + k,
            vaddr % 0x40_0000 == 0,
            k < 0x40_0000,
    ;
    let root = s.cp0[PTBASE as int];
    assert(entry_addr(root, v2, 22) == entry_addr(root, vaddr, 22));
    let e1 = bus_read(s, entry_addr(root, vaddr, 22), Size::Word).1->Ok_0;
    assert(((e1 & 0xffc0_0000) | (v2 & 0x3f_ffff)) == ((e1 & 0xffc0_0000) | (vaddr & 0x3f_ffff))
        + k && ((e1 & 0xffc0_0000) | (vaddr & 0x3f_ffff)) + k < 0x1_0000_0000) by (bit_vector)
        requires
            v2 == vaddr + k,
            vaddr % 0x40_0000 == 0,
            k < 0x40_0000,
    ;
}

} // verus!
