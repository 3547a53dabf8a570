use mipsemu::bus::{Bus, COPROCESSOR_BASE, DRAM_SIZE, ROM_BASE, UART_BASE, VIRTIO_BASE};
use mipsemu::coprocessor::{Coprocessor0, CAUSE, COMPARE, COUNT, EBASE, PTBASE, SR};
use mipsemu::device::Device;
use mipsemu::dram::Dram;
use mipsemu::exception::Exception;
use mipsemu::kernel::{load_kernel, load_sections};
use mipsemu::memory::{create_meta_page_table, Allocator, HUGE, PRESENT, PTE, READ, VALID, WRITE};
use mipsemu::rom::Rom;
use mipsemu::size::Size;
use mipsemu::uart::Uart;
use mipsemu::virtio::Virtio;

#[test]
fn dram_store_then_load_each_size() {
    let mut d = Dram::new();
    assert_eq!(d.content.len(), DRAM_SIZE as usize);
    d.write(0x100, 0x1122_3344, Size::Word).unwrap();
    assert_eq!(d.read(0x100, Size::Word), Ok(0x1122_3344));
    assert_eq!(d.read(0x100, Size::Byte), Ok(0x44));
    assert_eq!(d.read(0x102, Size::Halfword), Ok(0x1122));
    d.write(0x200, 0xdead_beef, Size::Halfword).unwrap();
    assert_eq!(d.read(0x200, Size::Halfword), Ok(0xbeef));
    d.write(0x301, 0x1ff, Size::Byte).unwrap();
    assert_eq!(d.read(0x301, Size::Byte), Ok(0xff));
}

#[test]
fn dram_rejects_misaligned_and_out_of_range() {
    let mut d = Dram::new();
    assert_eq!(d.read(1, Size::Halfword), Err(Exception::LoadIllegalAddress));
    assert_eq!(d.read(2, Size::Word), Err(Exception::LoadIllegalAddress));
    assert_eq!(d.write(3, 0, Size::Word), Err(Exception::LoadIllegalAddress));
    assert_eq!(d.read(DRAM_SIZE, Size::Byte), Err(Exception::LoadIllegalAddress));
}

#[test]
fn rom_load_binary_replaces_prefix() {
    let mut r = Rom::new();
    r.load_binary(&vec![1, 2, 3, 4, 5]);
    assert_eq!(r.read(0, Size::Word), Ok(0x0403_0201));
    assert_eq!(r.read(4, Size::Byte), Ok(5));
    assert_eq!(r.read(0x1000, Size::Byte), Err(Exception::LoadIllegalAddress));
}

#[test]
fn virtio_window_is_plain_storage() {
    let mut v = Virtio::new();
    v.write(0x10, 0xabcd, Size::Halfword).unwrap();
    assert_eq!(v.read(0x10, Size::Halfword), Ok(0xabcd));
}

#[test]
fn coprocessor_initial_values() {
    let mut c = Coprocessor0::new();
    assert_eq!(c.read(4 * PTBASE as u32, Size::Word), Ok(PRESENT | VALID | READ | WRITE));
    assert_eq!(c.read(4 * SR as u32, Size::Word), Ok(0x0000_ff01));
    assert_eq!(c.read(4 * EBASE as u32, Size::Word), Ok(0x8000_0000));
    assert_eq!(c.read(4 * COMPARE as u32, Size::Word), Ok(10));
    assert_eq!(c.read(4 * CAUSE as u32, Size::Word), Ok(0));
}

#[test]
fn coprocessor_sub_word_access() {
    let mut c = Coprocessor0::new();
    let sr = 4 * SR as u32;
    assert_eq!(c.read(sr + 1, Size::Byte), Ok(0xff));
    assert_eq!(c.read(sr + 2, Size::Halfword), Ok(0));
    assert_eq!(c.read(sr + 1, Size::Halfword), Err(Exception::LoadIllegalAddress));
    assert_eq!(c.read(sr + 2, Size::Word), Err(Exception::LoadIllegalAddress));
    c.write(sr + 3, 0x12, Size::Byte).unwrap();
    assert_eq!(c.read(sr, Size::Word), Ok(0x1200_ff01));
    c.write(sr, 0xbeef, Size::Halfword).unwrap();
    assert_eq!(c.read(sr, Size::Word), Ok(0x1200_beef));
    assert_eq!(c.write(sr + 1, 0, Size::Halfword), Err(Exception::LoadIllegalAddress));
    assert_eq!(c.read(0x80, Size::Word), Err(Exception::LoadIllegalAddress));
}

#[test]
fn timer_counts_to_compare_and_raises() {
    let mut c = Coprocessor0::new();
    let mut fired = 0;
    for _ in 0..35 {
        c.timer_tick();
        let count = c.registers[COUNT as usize];
        assert!(count < 10);
        if c.registers[CAUSE as usize] & (1 << 13) != 0 {
            fired += 1;
            c.registers[CAUSE as usize] = 0;
        }
    }
    assert_eq!(fired, 3);
    assert_eq!(c.registers[COUNT as usize], 5);
}

#[test]
fn timer_fire_clears_exception_code() {
    let mut c = Coprocessor0::new();
    c.registers[CAUSE as usize] = 0x7c;
    c.registers[COMPARE as usize] = 1;
    c.timer_tick();
    assert_eq!(c.registers[CAUSE as usize], 0x2000);
    assert_eq!(c.registers[COUNT as usize], 0);
}

#[test]
fn uart_receive_read_and_transmit() {
    let mut u = Uart::new();
    assert_eq!(u.read(5, Size::Byte), Ok(0x20));
    assert!(u.receive(b'x'));
    assert!(!u.receive(b'y'));
    assert!(u.is_interrupting());
    assert!(!u.is_interrupting());
    assert_eq!(u.read(5, Size::Byte), Ok(0x21));
    assert_eq!(u.read(0, Size::Byte), Ok(b'x' as u32));
    assert_eq!(u.read(5, Size::Byte), Ok(0x20));
    assert!(u.receive(b'y'));
    u.write(0, b'h' as u32, Size::Byte).unwrap();
    u.write(0, b'i' as u32, Size::Byte).unwrap();
    u.write(7, 0x99, Size::Byte).unwrap();
    assert_eq!(u.read(7, Size::Byte), Ok(0x99));
    assert_eq!(u.take_output(), b"hi".to_vec());
    assert_eq!(u.take_output(), Vec::<u8>::new());
}

#[test]
fn uart_accepts_bytes_only() {
    let mut u = Uart::new();
    assert_eq!(u.read(0, Size::Word), Err(Exception::LoadIllegalAddress));
    assert_eq!(u.write(0, 1, Size::Halfword), Err(Exception::StoreIllegalAddress));
}

#[test]
fn bus_routes_by_window() {
    let mut b = Bus::new();
    assert_eq!(b.read(COPROCESSOR_BASE + 4 * SR as u32, Size::Word), Ok(0x0000_ff01));
    assert_eq!(b.read(UART_BASE + 5, Size::Byte), Ok(0x20));
    b.write(VIRTIO_BASE + 8, 7, Size::Word).unwrap();
    assert_eq!(b.read(VIRTIO_BASE + 8, Size::Word), Ok(7));
    assert_eq!(b.read(ROM_BASE, Size::Word), Ok(0x0810_0000));
    b.write(ROM_BASE + 0xffc, 0xcafe_f00d, Size::Word).unwrap();
    assert_eq!(b.read(ROM_BASE + 0xffc, Size::Word), Ok(0xcafe_f00d));
}

#[test]
fn bus_rejects_unmapped_addresses() {
    let mut b = Bus::new();
    assert_eq!(b.read(0x8000_0000, Size::Word), Err(Exception::LoadIllegalAddress));
    assert_eq!(b.read(COPROCESSOR_BASE + 0x80, Size::Word), Err(Exception::LoadIllegalAddress));
    assert_eq!(b.write(0x9000_0000, 1, Size::Word), Err(Exception::LoadIllegalAddress));
}

#[test]
fn bus_load_linked_store_conditional() {
    let mut b = Bus::new();
    assert_eq!(b.store_conditional(0x40, 5), Ok(false));
    assert_eq!(b.read(0x40, Size::Word), Ok(0));
    assert_eq!(b.load_linked(0x40), Ok(0));
    b.write(0x44, 9, Size::Word).unwrap();
    assert_eq!(b.store_conditional(0x40, 5), Ok(true));
    assert_eq!(b.read(0x40, Size::Word), Ok(5));
    assert_eq!(b.store_conditional(0x40, 6), Ok(false));
    assert_eq!(b.load_linked(0x40), Ok(5));
    b.write(0x40, 1, Size::Byte).unwrap();
    assert_eq!(b.store_conditional(0x40, 6), Ok(false));
    assert_eq!(b.read(0x40, Size::Word), Ok(1));
    assert_eq!(b.load_linked(0x42), Err(Exception::LoadIllegalAddress));
    assert!(!b.atomic.contains(&0x42));
}

#[test]
fn meta_page_table_entries() {
    let mut d = Dram::new();
    create_meta_page_table(&mut d);
    assert_eq!(d.read(0, Size::Word), Ok(0x1000 | PRESENT | VALID | READ | WRITE));
    assert_eq!(d.read(0x1000, Size::Word), Ok(ROM_BASE | PRESENT | VALID | READ));
    assert_eq!(d.read(0x1004, Size::Word), Ok(VIRTIO_BASE | PRESENT | VALID | READ | WRITE));
    assert_eq!(d.read(0x1008, Size::Word), Ok(UART_BASE | PRESENT | VALID | READ | WRITE));
    assert_eq!(d.read(0x800, Size::Word), Ok(HUGE | PRESENT | VALID | READ | WRITE));
    assert_eq!(d.read(0xffc, Size::Word), Ok((0x1ff << 22) | HUGE | PRESENT | VALID | READ | WRITE));
    assert_eq!(d.read(0x7fc, Size::Word), Ok(0));
}

#[test]
fn kalloc_maps_fresh_frames() {
    let mut d = Dram::new();
    create_meta_page_table(&mut d);
    let mut a = Allocator::new();
    assert_eq!(a.kalloc(&mut d, 0x0040_0000), Some(0x3000));
    assert_eq!(d.read(4, Size::Word), Ok(0x2000 | PRESENT | VALID | READ | WRITE));
    assert_eq!(d.read(0x2000, Size::Word), Ok(0x3000 | PRESENT | VALID | READ | WRITE));
    assert_eq!(a.kalloc(&mut d, 0x0040_1000), Some(0x4000));
    assert_eq!(d.read(4, Size::Word), Ok(0x2000 | PRESENT | VALID | READ | WRITE | 1));
    assert_eq!(a.allocated, 5);
    assert_eq!(a.kalloc(&mut d, 0x0040_0000), None);
    assert_eq!(a.kalloc(&mut d, 0x8000_0000), None);
}

#[test]
fn pte_flag_accessors() {
    let p = PTE { entry: 0x1234_5000 | 0x7f };
    assert_eq!(p.pfn(), 0x1234_5000);
    assert!(p.huge() && p.present() && p.valid() && p.user() && p.read() && p.write() && p.dirty());
    let q = PTE { entry: 0x20 };
    assert!(q.present() && !q.valid() && !q.huge() && !q.dirty());
}

#[test]
fn exception_codes() {
    assert_eq!(Exception::Interrupt.code(), 0);
    assert_eq!(Exception::PageFault.code(), 1);
    assert_eq!(Exception::LoadIllegalAddress.code(), 4);
    assert_eq!(Exception::StoreIllegalAddress.code(), 5);
    assert_eq!(Exception::InstructionBusError.code(), 6);
    assert_eq!(Exception::DataBusError.code(), 7);
    assert_eq!(Exception::Syscall.code(), 8);
    assert_eq!(Exception::Break.code(), 9);
    assert_eq!(Exception::Reserved.code(), 10);
    assert_eq!(Exception::Overflow.code(), 12);
}

#[test]
fn load_sections_places_words_big_endian() {
    let mut d = Dram::new();
    create_meta_page_table(&mut d);
    let text = [0x12u8, 0x34, 0x56, 0x78, 0xaa];
    let data = vec![1u8; 0x1004];
    assert!(load_sections(&mut d, Some(&text), Some(&data)));
    let rw = PRESENT | VALID | READ | WRITE;
    assert_eq!(d.read(4, Size::Word), Ok(0x2000 | rw));
    assert_eq!(d.read(0x2000, Size::Word), Ok(0x3000 | rw));
    assert_eq!(d.read(0x3000, Size::Word), Ok(0x1234_5678));
    assert_eq!(d.read(0x3004, Size::Word), Ok(0xaa00_0000));
    assert_eq!(d.read(0x100, Size::Word), Ok(0x4000 | rw | 1));
    assert_eq!(d.read(0x4000, Size::Word), Ok(0x5000 | rw));
    assert_eq!(d.read(0x4004, Size::Word), Ok(0x6000 | rw));
    assert_eq!(d.read(0x5ffc, Size::Word), Ok(0x0101_0101));
    assert_eq!(d.read(0x6000, Size::Word), Ok(0x0101_0101));
    assert_eq!(d.read(0x6004, Size::Word), Ok(0));
}

#[test]
fn load_sections_without_text_loads_nothing() {
    let mut d = Dram::new();
    create_meta_page_table(&mut d);
    assert!(!load_sections(&mut d, None, Some(&[1, 2, 3, 4])));
    assert_eq!(d.read(0x100, Size::Word), Ok(0));
    assert_eq!(d.read(0x2000, Size::Word), Ok(0));
}

#[test]
fn load_kernel_rejects_non_elf_image() {
    let mut d = Dram::new();
    assert!(!load_kernel(&mut d, b"definitely not an ELF image"));
    assert!(!load_kernel(&mut d, &[]));
    assert_eq!(d.read(4, Size::Word), Ok(0));
}
