use mipsemu::bus::{DRAM_BASE, ROM_BASE};
use mipsemu::coprocessor::{CAUSE, COMPARE, EBASE, EPC, PTBASE, SR};
use mipsemu::cpu::{Cpu, Instruction, Size};
use mipsemu::device::Device;
use mipsemu::memory::{walkpgdir, PRESENT, READ, TEXT, VALID, WRITE};

fn push_u16(v: &mut Vec<u8>, x: u16) {
    v.extend_from_slice(&x.to_be_bytes());
}

fn push_u32(v: &mut Vec<u8>, x: u32) {
    v.extend_from_slice(&x.to_be_bytes());
}

/// A big-endian ELF32 file with a `.text` section holding `words`.
fn elf_image(words: &[u32]) -> Vec<u8> {
    let mut text = Vec::new();
    for w in words {
        push_u32(&mut text, *w);
    }
    let names = b"\0.text\0.shstrtab\0".to_vec();
    let text_off = 52u32;
    let names_off = text_off + text.len() as u32;
    let mut sh_off = names_off + names.len() as u32;
    while sh_off % 4 != 0 {
        sh_off += 1;
    }
    let mut f = vec![0x7f, b'E', b'L', b'F', 1, 2, 1, 0, 0, 0, 0, 0, 0, 0, 0, 0];
    push_u16(&mut f, 2);
    push_u16(&mut f, 8);
    push_u32(&mut f, 1);
    push_u32(&mut f, TEXT);
    push_u32(&mut f, 0);
    push_u32(&mut f, sh_off);
    push_u32(&mut f, 0);
    push_u16(&mut f, 52);
    push_u16(&mut f, 32);
    push_u16(&mut f, 0);
    push_u16(&mut f, 40);
    push_u16(&mut f, 3);
    push_u16(&mut f, 2);
    f.extend_from_slice(&text);
    f.extend_from_slice(&names);
    while (f.len() as u32) < sh_off {
        f.push(0);
    }
    for _ in 0..10 {
        push_u32(&mut f, 0);
    }
    for x in [1, 1, 6, TEXT, text_off, text.len() as u32, 0, 0, 4, 0] {
        push_u32(&mut f, x);
    }
    for x in [7, 3, 0, 0, names_off, names.len() as u32, 0, 0, 1, 0] {
        push_u32(&mut f, x);
    }
    f
}

/// Maps virtual page 0 onto the DRAM frame at `0x5000`, writable.
fn map_page_zero_to_dram(cpu: &mut Cpu) {
    cpu.bus.write(0x1000, 0x5000 | PRESENT | VALID | READ | WRITE, Size::Word).unwrap();
}

fn cp0(cpu: &mut Cpu, reg: u8) -> u32 {
    cpu.load_coprocessor0(reg).unwrap()
}

/// A machine booted into `program`, with PC at its first instruction.
fn booted(program: &[u32]) -> Cpu {
    let mut cpu = Cpu::new(&elf_image(program));
    cpu.tick();
    assert_eq!(cpu.pc, TEXT);
    cpu
}

#[test]
fn reset_fetch_jumps_to_kernel_text() {
    let mut cpu = Cpu::new(&[]);
    assert_eq!(cpu.pc, 0);
    cpu.tick();
    assert_eq!(cpu.pc, 0x0040_0000);
}

#[test]
fn rom_holds_boot_jump() {
    let mut cpu = Cpu::new(&[]);
    let word = cpu.bus.read(ROM_BASE, Size::Word).unwrap();
    assert_eq!(word, Instruction::j(0x10_0000).dump());
    assert_eq!(word, 0x0810_0000);
}

#[test]
fn kernel_text_is_loaded_at_text_base() {
    let program = [0x2001_0005u32, 0x2002_0007, 0x0022_1820, 0xdead_beef, 0x1234_5678];
    let mut cpu = Cpu::new(&elf_image(&program));
    for (i, w) in program.iter().enumerate() {
        let p = walkpgdir(&mut cpu, TEXT + 4 * i as u32).unwrap();
        assert!(p.read && p.write);
        assert_eq!(cpu.bus.read(p.paddr, Size::Word).unwrap(), *w);
    }
    let first = walkpgdir(&mut cpu, TEXT).unwrap();
    assert_eq!(first.paddr, 0x3000);
}

#[test]
fn arithmetic_sequence_stores_sum() {
    let program = [
        Instruction::addi(1, 0, 5).dump(),
        Instruction::addi(2, 0, 7).dump(),
        Instruction::add(3, 1, 2).dump(),
        Instruction::sw(3, 0, 0).dump(),
    ];
    let mut cpu = booted(&program);
    map_page_zero_to_dram(&mut cpu);
    for _ in 0..4 {
        cpu.tick();
    }
    assert_eq!(cpu.registers[3], 12);
    assert_eq!(cpu.bus.read(0x5000, Size::Word).unwrap(), 12);
    let p = walkpgdir(&mut cpu, 0).unwrap();
    assert_eq!(cpu.bus.read(p.paddr, Size::Word).unwrap(), 12);
    assert_eq!(cpu.pc, TEXT + 16);
    assert_eq!(cp0(&mut cpu, CAUSE), 0);
}

#[test]
fn ll_sc_increments_word() {
    let program = [
        Instruction::ll(1, 0, 0).dump(),
        Instruction::addi(1, 1, 1).dump(),
        Instruction::sc(1, 0, 0).dump(),
    ];
    let mut cpu = booted(&program);
    map_page_zero_to_dram(&mut cpu);
    cpu.bus.write(0x5000, 41, Size::Word).unwrap();
    for _ in 0..3 {
        cpu.tick();
    }
    assert_eq!(cpu.registers[1], 1);
    assert_eq!(cpu.bus.read(0x5000, Size::Word).unwrap(), 42);
}

#[test]
fn sc_fails_after_intervening_store() {
    let program = [
        Instruction::ll(1, 0, 0).dump(),
        Instruction::sw(2, 0, 0).dump(),
        Instruction::sc(3, 0, 0).dump(),
    ];
    let mut cpu = booted(&program);
    map_page_zero_to_dram(&mut cpu);
    cpu.registers[2] = 0x55;
    cpu.registers[3] = 0x77;
    for _ in 0..3 {
        cpu.tick();
    }
    assert_eq!(cpu.registers[3], 0);
    assert_eq!(cpu.bus.read(0x5000, Size::Word).unwrap(), 0x55);
}

#[test]
fn page_fault_vectors_past_faulting_load() {
    let program = [Instruction::lw(1, 2, 0).dump()];
    let mut cpu = booted(&program);
    // The first-level entry that covers 0x0020_0000 is valid but not present.
    cpu.bus.write(DRAM_BASE, 0x1000 | VALID | READ | WRITE, Size::Word).unwrap();
    cpu.registers[2] = 0x0020_0000;
    cpu.tick();
    assert_eq!((cp0(&mut cpu, CAUSE) >> 2) & 0x1f, 1);
    assert_eq!(cp0(&mut cpu, SR) & 2, 2);
    assert_eq!(cpu.pc, TEXT);
    cpu.tick();
    let ebase = cp0(&mut cpu, EBASE);
    assert_eq!(cpu.pc, ebase);
    assert_eq!(cpu.pc, 0x8000_0000);
    assert_eq!(cp0(&mut cpu, EPC), TEXT + 4);
}

#[test]
fn timer_interrupt_vectors_without_skipping() {
    let mut cpu = Cpu::new(&[]);
    cpu.write_coprocessor0(SR, 0x0000_ff01).unwrap();
    cpu.write_coprocessor0(COMPARE, 1).unwrap();
    cpu.bus.coprocessor.timer_tick();
    assert_eq!(cpu.bus.get_raw_cause(), 1 << 13);
    let before = cpu.pc;
    cpu.tick();
    assert_eq!(cpu.pc, 0x8000_0000);
    assert_eq!(cp0(&mut cpu, EPC), before);
}

#[test]
fn masked_interrupt_is_not_taken() {
    let mut cpu = Cpu::new(&[]);
    cpu.write_coprocessor0(SR, 0x0000_0001).unwrap();
    cpu.write_coprocessor0(COMPARE, 1).unwrap();
    cpu.bus.coprocessor.timer_tick();
    cpu.tick();
    assert_eq!(cpu.pc, 0x0040_0000);
}

#[test]
fn syscall_records_code_then_vectors() {
    let mut cpu = booted(&[Instruction::syscall().dump()]);
    cpu.tick();
    assert_eq!(cp0(&mut cpu, CAUSE), 8 << 2);
    cpu.tick();
    assert_eq!(cpu.pc, 0x8000_0000);
    assert_eq!(cp0(&mut cpu, EPC), TEXT + 4);
}

#[test]
fn undefined_opcode_is_bus_error() {
    let mut cpu = booted(&[0xfc00_0000]);
    cpu.tick();
    assert_eq!(cp0(&mut cpu, CAUSE), 6 << 2);
}

#[test]
fn unknown_funct_is_bus_error() {
    let mut cpu = booted(&[0x0000_003f]);
    cpu.tick();
    assert_eq!(cp0(&mut cpu, CAUSE), 6 << 2);
}

#[test]
fn store_to_read_only_rom_page_is_refused() {
    let mut cpu = booted(&[Instruction::sw(1, 0, 0).dump()]);
    cpu.tick();
    assert_eq!(cp0(&mut cpu, CAUSE), 5 << 2);
}

#[test]
fn user_mode_load_from_kernel_page_is_refused() {
    let mut cpu = booted(&[Instruction::lw(1, 0, 0).dump()]);
    let p = walkpgdir(&mut cpu, TEXT).unwrap();
    assert!(!p.user);
    cpu.write_coprocessor0(SR, 0x0000_ff11).unwrap();
    cpu.tick();
    assert_eq!(cp0(&mut cpu, CAUSE), 4 << 2);
}

#[test]
fn misaligned_word_load_is_illegal() {
    let mut cpu = booted(&[Instruction::lw(1, 0, 2).dump()]);
    cpu.tick();
    assert_eq!(cp0(&mut cpu, CAUSE), 4 << 2);
}

#[test]
fn branch_and_jump_targets() {
    let program = [
        Instruction::beq(0, 0, 2).dump(),
        0,
        0,
        Instruction::bne(0, 0, 5).dump(),
        Instruction::jal(0x10_0010).dump(),
    ];
    let mut cpu = booted(&program);
    cpu.tick();
    assert_eq!(cpu.pc, TEXT + 12);
    cpu.tick();
    assert_eq!(cpu.pc, TEXT + 16);
    cpu.tick();
    assert_eq!(cpu.pc, 0x0040_0040);
    assert_eq!(cpu.registers[31], TEXT + 24);
}

#[test]
fn backward_branch() {
    let program = [0, Instruction::beq(0, 0, 0xfffe).dump()];
    let mut cpu = booted(&program);
    cpu.tick();
    cpu.tick();
    assert_eq!(cpu.pc, TEXT);
}

#[test]
fn multiply_and_divide() {
    let program = [
        Instruction::mult(1, 2).dump(),
        Instruction::mfhi(3).dump(),
        Instruction::mflo(4).dump(),
        Instruction::multu(1, 2).dump(),
        Instruction::mfhi(5).dump(),
        Instruction::div(1, 6).dump(),
        Instruction::mflo(7).dump(),
        Instruction::mfhi(8).dump(),
        Instruction::divu(1, 6).dump(),
        Instruction::mflo(9).dump(),
    ];
    let mut cpu = booted(&program);
    cpu.registers[1] = (-7i32) as u32;
    cpu.registers[2] = 3;
    cpu.registers[6] = 2;
    for _ in 0..program.len() {
        cpu.tick();
    }
    assert_eq!(cpu.registers[3], 0xffff_ffff);
    assert_eq!(cpu.registers[4], (-21i32) as u32);
    assert_eq!(cpu.registers[5], 2);
    assert_eq!(cpu.registers[7], (-3i32) as u32);
    assert_eq!(cpu.registers[8], (-1i32) as u32);
    assert_eq!(cpu.registers[9], 0x7fff_fffc);
}

#[test]
fn divide_by_zero_keeps_hi_lo() {
    let mut cpu = booted(&[Instruction::divu(1, 2).dump(), Instruction::div(1, 2).dump()]);
    cpu.registers[1] = 9;
    cpu.hi = 3;
    cpu.lo = 4;
    cpu.tick();
    cpu.tick();
    assert_eq!((cpu.hi, cpu.lo), (3, 4));
    assert_eq!(cp0(&mut cpu, CAUSE), 0);
}

#[test]
fn logic_shifts_and_compares() {
    let program = [
        Instruction::sll(3, 1, 4).dump(),
        Instruction::sra(4, 1, 4).dump(),
        Instruction::nor(5, 1, 2).dump(),
        Instruction::slt(6, 1, 2).dump(),
        Instruction::sltu(7, 1, 2).dump(),
        Instruction::lui(8, 0x1234).dump(),
        Instruction::ori(8, 8, 0x5678).dump(),
        Instruction::slti(9, 1, 0).dump(),
        Instruction::sub(10, 2, 1).dump(),
        Instruction::xori(11, 2, 0xff).dump(),
    ];
    let mut cpu = booted(&program);
    cpu.registers[1] = 0x8000_0001;
    cpu.registers[2] = 2;
    for _ in 0..program.len() {
        cpu.tick();
    }
    assert_eq!(cpu.registers[3], 0x0000_0010);
    assert_eq!(cpu.registers[4], 0x0800_0000);
    assert_eq!(cpu.registers[5], !0x8000_0003u32);
    assert_eq!(cpu.registers[6], 1);
    assert_eq!(cpu.registers[7], 0);
    assert_eq!(cpu.registers[8], 0x1234_5678);
    assert_eq!(cpu.registers[9], 1);
    assert_eq!(cpu.registers[10], 0x8000_0001);
    assert_eq!(cpu.registers[11], 0xfd);
}

#[test]
fn add_wraps_around() {
    let program = [Instruction::add(3, 1, 2).dump(), Instruction::addi(4, 1, 0xffff).dump()];
    let mut cpu = booted(&program);
    cpu.registers[1] = 0xffff_ffff;
    cpu.registers[2] = 2;
    cpu.tick();
    cpu.tick();
    assert_eq!(cpu.registers[3], 1);
    assert_eq!(cpu.registers[4], 0xffff_fffe);
    assert_eq!(cp0(&mut cpu, CAUSE), 0);
}

#[test]
fn mtc0_mfc0_and_eret() {
    let program = [
        Instruction::mtc0(1, EPC).dump(),
        Instruction::mfc0(2, EPC).dump(),
        Instruction::eret().dump(),
    ];
    let mut cpu = booted(&program);
    cpu.registers[1] = TEXT + 0x100;
    cpu.write_coprocessor0(SR, 0x0000_ff03).unwrap();
    cpu.tick();
    cpu.tick();
    assert_eq!(cpu.registers[2], TEXT + 0x100);
    cpu.tick();
    assert_eq!(cpu.pc, TEXT + 0x100);
    assert_eq!(cp0(&mut cpu, SR), 0x0000_ff01);
}

#[test]
fn store_marks_page_dirty() {
    let mut cpu = booted(&[Instruction::sb(1, 0, 3).dump()]);
    map_page_zero_to_dram(&mut cpu);
    cpu.registers[1] = 0x1ab;
    cpu.tick();
    assert_eq!(cpu.bus.read(0x5003, Size::Byte).unwrap(), 0xab);
    assert_eq!(cp0(&mut cpu, PTBASE) & 1, 1);
    assert_eq!(cpu.bus.read(0, Size::Word).unwrap() & 1, 1);
    assert_eq!(cpu.bus.read(0x1000, Size::Word).unwrap() & 1, 1);
}

#[test]
fn halfword_and_byte_loads() {
    let program = [Instruction::lhu(1, 0, 2).dump(), Instruction::lbu(2, 0, 1).dump()];
    let mut cpu = booted(&program);
    map_page_zero_to_dram(&mut cpu);
    cpu.bus.write(0x5000, 0xaabb_ccdd, Size::Word).unwrap();
    cpu.tick();
    cpu.tick();
    assert_eq!(cpu.registers[1], 0xaabb);
    assert_eq!(cpu.registers[2], 0xcc);
}

#[test]
fn huge_window_maps_kernel_space() {
    let mut cpu = Cpu::new(&[]);
    let p = walkpgdir(&mut cpu, 0x8000_1234).unwrap();
    assert_eq!(p.paddr, 0x0000_1234);
    let q = walkpgdir(&mut cpu, 0x8040_0010).unwrap();
    assert_eq!(q.paddr, 0x0040_0010);
}

#[test]
fn walk_keeps_offset_within_page() {
    let mut cpu = Cpu::new(&[]);
    let base = walkpgdir(&mut cpu, 0x1000).unwrap();
    let inner = walkpgdir(&mut cpu, 0x1ffc).unwrap();
    assert_eq!(base.paddr, 0xffff_e000);
    assert_eq!(inner.paddr, base.paddr + 0xffc);
    assert_eq!((inner.read, inner.write, inner.user), (base.read, base.write, base.user));
}

#[test]
fn interrupt_sets_level_and_clears_code() {
    let mut cause = 0x0000_0018u32;
    Cpu::interrupt(&mut cause, 5);
    assert_eq!(cause, 0x0000_2000);
}

#[test]
fn debug_runs_ticks() {
    let mut cpu = Cpu::new(&elf_image(&[Instruction::addi(1, 1, 1).dump(); 4]));
    cpu.debug(5);
    assert_eq!(cpu.registers[1], 4);
    assert_eq!(cpu.pc, TEXT + 16);
}
