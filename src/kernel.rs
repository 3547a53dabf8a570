//! Loading a kernel image: the `.text` and optional `.data` sections of an
//! ELF file are copied, one fresh frame per 4 KiB page, to the virtual
//! addresses `TEXT` and `DATA`. Instruction words are read big-endian from
//! the image; a section whose length is not a multiple of four is padded
//! with zero bytes.
use vstd::prelude::*;
use crate::bus::DRAM_SIZE;
use crate::device::Device;
use crate::dram::Dram;
use crate::memory::{Allocator, DATA, TEXT, kalloc_spec};
use crate::ram::store_spec;
use crate::size::Size;
use crate::utils::{concat_word_big_endian, word_from_le};

verus! {

/// The contents of the section called `name` of an ELF image, or `None`
/// where the image does not parse or has no such section.
pub uninterp spec fn elf_section_data(image: Seq<u8>, name: Seq<char>) -> Option<Seq<u8>>;

/// Relies on elf's `ElfBytes::minimal_parse`, `ElfBytes::section_header_by_name`
/// and `ElfBytes::section_data`: together they give the bytes of the section
/// called `name`, and the parse fails on an image shorter than the 16-byte
/// ELF identification.
#[verifier::external_body]
fn section_bytes(image: &[u8], name: &str) -> (r: Option<Vec<u8>>)
    ensures
        match r {
            Some(v) => elf_section_data(image@, name@) == Some(v@),
            None => elf_section_data(image@, name@) is None,
        },
        image@.len() < 16 ==> r is None,
{
    let file = elf::ElfBytes::<elf::endian::AnyEndian>::minimal_parse(image).ok()?;
    let header = file.section_header_by_name(name).ok()??;
    let (data, _) = file.section_data(&header).ok()?;
    Some(data.to_vec())
}

/// Byte `j` of a section, zero past its end.
pub open spec fn image_byte(b: Seq<u8>, j: int) -> u8 {
    if 0 <= j < b.len() {
        b[j]
    } else {
        0
    }
}

/// The big-endian word at byte `k` of a section.
pub open spec fn be_word_at(b: Seq<u8>, k: int) -> u32 {
    word_from_le(image_byte(b, k + 3), image_byte(b, k + 2), image_byte(b, k + 1), image_byte(b, k))
}

/// Number of words in a section, counting a partial last word.
pub open spec fn word_count(b: Seq<u8>) -> nat {
    ((b.len() + 3) / 4) as nat
}

/// Allocator state, DRAM, and the frame of the current page after placing
/// the first `n` words of section `b` at virtual `base`; `None` in the last
/// place once a page could not be mapped.
pub open spec fn section_load(next: u32, m: Seq<u8>, base: u32, b: Seq<u8>, n: nat) -> (
    u32,
    Seq<u8>,
    Option<u32>,
)
    decreases n,
{
    if n == 0 {
        (next, m, Some(0))
    } else {
        let (a, mm, fr) = section_load(next, m, base, b, (n - 1) as nat);
        let ptr = ((n - 1) * 4) as u32;
        match fr {
            None => (a, mm, None),
            Some(f) => {
                let (a2, m2, f2) = if ptr % 0x1000 == 0 {
                    kalloc_spec(a, mm, (base + ptr) as u32)
                } else {
                    (a, mm, Some(f))
                };
                match f2 {
                    None => (a2, m2, None),
                    Some(f3) => (
                        a2,
                        store_spec(m2, (f3 + ptr % 0x1000) as u32, be_word_at(b, ptr as int), Size::Word),
                        Some(f3),
                    ),
                }
            },
        }
    }
}

/// Once loading has failed, further words change nothing.
proof fn lemma_section_load_stays_failed(
    next: u32,
    m: Seq<u8>,
    base: u32,
    b: Seq<u8>,
    n: nat,
    k: nat,
)
    requires
        section_load(next, m, base, b, n).2 is None,
    ensures
        section_load(next, m, base, b, n + k) == section_load(next, m, base, b, n),
    decreases k,
{
    if k > 0 {
        lemma_section_load_stays_failed(next, m, base, b, n, (k - 1) as nat);
        assert(section_load(next, m, base, b, n + k) == section_load(
            next,
            m,
            base,
            b,
            (n + k - 1) as nat,
        ));
    }
}

/// Byte `j` of `b`, zero past its end.
fn byte_at(b: &[u8], j: u32) -> (r: u8)
    ensures
        r == image_byte(b@, j as int),
{
    if (j as usize) < b.len() {
        b[j as usize]
    } else {
        0
    }
}

/// Places section `b` at virtual `base`; reports whether every page was mapped.
fn load_section(alloc: &mut Allocator, dram: &mut Dram, base: u32, b: &[u8]) -> (ok: bool)
    requires
        old(dram)@.len() == DRAM_SIZE,
        base % 0x1000 == 0,
        base as int + b@.len() + 4 <= u32::MAX,
    ensures
        final(dram)@.len() == DRAM_SIZE,
        (final(alloc).allocated, final(dram)@, ok) == ({
            let (a, m, f) = section_load(
                old(alloc).allocated,
                old(dram)@,
                base,
                b@,
                word_count(b@),
            );
            (a, m, f is Some)
        }),
{
    let len = b.len() as u32;
    let mut ptr: u32 = 0;
    let mut frame: u32 = 0;
    while ptr < len
        invariant
            len == b@.len(),
            base as int + len + 4 <= u32::MAX,
            base % 0x1000 == 0,
            ptr % 4 == 0,
            ptr <= len + 3,
            ptr < len ==> (ptr / 4) < word_count(b@),
            ptr >= len ==> (ptr / 4) == word_count(b@),
            dram@.len() == DRAM_SIZE,
            section_load(old(alloc).allocated, old(dram)@, base, b@, (ptr / 4) as nat) == (
                alloc.allocated,
                dram@,
                Some(frame),
            ),
            frame % 0x1000 == 0,
            frame < DRAM_SIZE,
        decreases len + 4 - ptr,
    {
        let ghost n = (ptr / 4) as nat;
        assert(((n + 1) - 1) * 4 == ptr);
        let offset = ptr % 0x1000;
        if offset == 0 {
            let vaddr = base + ptr;
            assert(vaddr & 0xfff == 0) by (bit_vector)
                requires
                    vaddr == base + ptr,
                    base % 0x1000 == 0,
                    ptr % 0x1000 == 0,
                    base + ptr <= u32::MAX,
            ;
            match alloc.kalloc(dram, vaddr) {
                Some(f) => {
                    frame = f;
                },
                None => {
                    proof {
                        lemma_section_load_stays_failed(
                            old(alloc).allocated,
                            old(dram)@,
                            base,
                            b@,
                            n + 1,
                            (word_count(b@) - (n + 1)) as nat,
                        );
                    }
                    return false;
                },
            }
        }
        let word = concat_word_big_endian(
            [byte_at(b, ptr), byte_at(b, ptr + 1), byte_at(b, ptr + 2), byte_at(b, ptr + 3)],
        );
        let _ = dram.write(frame + offset, word, Size::Word);
        ptr = ptr + 4;
    }
    true
}

/// The result of loading one section at `base` from allocator state `next`:
/// allocator state, DRAM, and whether it fitted.
pub open spec fn place_section(next: u32, m: Seq<u8>, base: u32, b: Seq<u8>) -> (u32, Seq<u8>, bool) {
    if base as int + b.len() + 4 > u32::MAX {
        (next, m, false)
    } else {
        let (a, mm, f) = section_load(next, m, base, b, word_count(b));
        (a, mm, f is Some)
    }
}

/// A borrowed section as a sequence, if present.
pub open spec fn section_view(b: Option<&[u8]>) -> Option<Seq<u8>> {
    match b {
        Some(v) => Some(v@),
        None => None,
    }
}

/// DRAM after loading sections `text` and `data`, and whether they were
/// loaded whole. Without a text section nothing is loaded.
pub open spec fn sections_load(m: Seq<u8>, text: Option<Seq<u8>>, data: Option<Seq<u8>>) -> (
    Seq<u8>,
    bool,
) {
    match text {
        None => (m, false),
        Some(t) => {
            let (a1, m1, ok1) = place_section(2, m, TEXT, t);
            if !ok1 {
                (m1, false)
            } else {
                match data {
                    None => (m1, true),
                    Some(d) => {
                        let (_, m2, ok2) = place_section(a1, m1, DATA, d);
                        (m2, ok2)
                    },
                }
            }
        },
    }
}

/// DRAM after loading the kernel `image`, and whether it was loaded whole.
pub open spec fn kernel_load(m: Seq<u8>, image: Seq<u8>) -> (Seq<u8>, bool) {
    sections_load(m, elf_section_data(image, ".text"@), elf_section_data(image, ".data"@))
}

/// Loads one section at `base`, refusing one that would run past the top of
/// the address space.
fn place(alloc: &mut Allocator, dram: &mut Dram, base: u32, b: &[u8]) -> (ok: bool)
    requires
        old(dram)@.len() == DRAM_SIZE,
        base % 0x1000 == 0,
    ensures
        final(dram)@.len() == DRAM_SIZE,
        (final(alloc).allocated, final(dram)@, ok) == place_section(
            old(alloc).allocated,
            old(dram)@,
            base,
            b@,
        ),
{
    if base > u32::MAX - 4 || b.len() > (u32::MAX - 4 - base) as usize {
        return false;
    }
    load_section(alloc, dram, base, b)
}

/// Loads a text section at `TEXT` and an optional data section at `DATA`
/// into fresh frames; reports whether there was a text section and
/// everything fitted.
pub fn load_sections(dram: &mut Dram, text: Option<&[u8]>, data: Option<&[u8]>) -> (ok: bool)
    requires
        old(dram)@.len() == DRAM_SIZE,
    ensures
        final(dram)@.len() == DRAM_SIZE,
        (final(dram)@, ok) == sections_load(old(dram)@, section_view(text), section_view(data)),
{
    let mut alloc = Allocator::new();
    let t = match text {
        Some(t) => t,
        None => return false,
    };
    if !place(&mut alloc, dram, TEXT, t) {
        return false;
    }
    match data {
        Some(d) => place(&mut alloc, dram, DATA, d),
        None => true,
    }
}

/// Loads the `.text` and `.data` sections of the ELF `image` into fresh
/// frames mapped at `TEXT` and `DATA`; reports whether the image held a
/// `.text` section and everything fitted.
pub fn load_kernel(dram: &mut Dram, image: &[u8]) -> (ok: bool)
    requires
        old(dram)@.len() == DRAM_SIZE,
    ensures
        final(dram)@.len() == DRAM_SIZE,
        (final(dram)@, ok) == kernel_load(old(dram)@, image@),
{
    let text = section_bytes(image, ".text");
    let data = section_bytes(image, ".data");
    let t = match &text {
        Some(v) => Some(v.as_slice()),
        None => None,
    };
    let d = match &data {
        Some(v) => Some(v.as_slice()),
        None => None,
    };
    load_sections(dram, t, d)
}

} // verus!
