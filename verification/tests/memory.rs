use emu6502::cpu::cpu_6502::{cell, CPU, PROGRAM_ORIGIN, RAM_SIZE};
use emu6502::cpu::util::{high_byte, low_byte, nth_bit, word_from_bytes};

#[test]
fn new_cpu_has_the_fixed_initial_state() {
    let cpu = CPU::new();
    assert_eq!(cpu.register_a, 0);
    assert_eq!(cpu.register_x, 0);
    assert_eq!(cpu.register_y, 0);
    assert_eq!(cpu.pc, 0x0600);
    assert_eq!(cpu.pc, PROGRAM_ORIGIN);
    assert_eq!(cpu.sp, 0xFD);
    assert!(cpu.status.carry());
    assert!(cpu.status.interrupt_disable());
    assert!(!cpu.status.zero());
    assert!(!cpu.status.decimal());
    assert!(!cpu.status.break_command());
    assert!(!cpu.status.overflow());
    assert!(!cpu.status.negative());
    assert_eq!(RAM_SIZE, 65_535);
    assert_eq!(cpu.ram.len(), 65_535);
    assert!(cpu.ram.iter().all(|&byte| byte == 0));
}

#[test]
fn reset_zeroes_registers_and_lowers_stack_pointer_by_three() {
    let mut cpu = CPU::new();
    cpu.register_a = 1;
    cpu.register_x = 2;
    cpu.register_y = 3;
    cpu.pc = 0x1234;
    cpu.ram[0x10] = 0x99;
    cpu.status.set_zero(true);
    cpu.reset();
    assert_eq!((cpu.register_a, cpu.register_x, cpu.register_y), (0, 0, 0));
    assert_eq!(cpu.sp, 0xFA);
    assert_eq!(cpu.pc, 0x1234);
    assert_eq!(cpu.ram[0x10], 0x99);
    assert!(cpu.status.zero());
    assert!(cpu.status.carry());
}

#[test]
fn reset_wraps_the_stack_pointer() {
    let mut cpu = CPU::new();
    cpu.sp = 0x01;
    cpu.reset();
    assert_eq!(cpu.sp, 0xFE);
}

#[test]
fn load_copies_bytes_to_the_program_origin() {
    let mut cpu = CPU::new();
    cpu.ram[0x05FF] = 0x11;
    cpu.ram[0x0603] = 0x22;
    cpu.load(&[0xA9, 0x05, 0xEA]);
    assert_eq!(&cpu.ram[0x0600..0x0603], &[0xA9, 0x05, 0xEA]);
    assert_eq!(cpu.ram[0x05FF], 0x11);
    assert_eq!(cpu.ram[0x0603], 0x22);
    assert_eq!(cpu.pc, 0x0600);
    assert_eq!(cpu.sp, 0xFD);
}

#[test]
fn load_accepts_empty_and_largest_programs() {
    let mut cpu = CPU::new();
    cpu.load(&[]);
    assert!(cpu.ram.iter().all(|&byte| byte == 0));
    let program = vec![0x5A; RAM_SIZE - 0x0600];
    cpu.load(&program);
    assert!(cpu.ram[..0x0600].iter().all(|&byte| byte == 0));
    assert!(cpu.ram[0x0600..].iter().all(|&byte| byte == 0x5A));
}

#[test]
fn addresses_are_taken_modulo_the_memory_size() {
    assert_eq!(cell(0x0000), 0);
    assert_eq!(cell(0x1234), 0x1234);
    assert_eq!(cell(0xFFFE), 0xFFFE);
    assert_eq!(cell(0xFFFF), 0);
    let mut cpu = CPU::new();
    cpu.ram[0] = 0x42;
    cpu.ram[0xFFFE] = 0x24;
    assert_eq!(cpu.read_byte(0xFFFF), 0x42);
    assert_eq!(cpu.read_byte(0x0000), 0x42);
    assert_eq!(cpu.read_byte(0xFFFE), 0x24);
}

#[test]
fn read_word_is_little_endian() {
    let mut cpu = CPU::new();
    cpu.ram[0x0010] = 0x34;
    cpu.ram[0x0011] = 0x12;
    assert_eq!(cpu.read_byte(0x0010), 0x34);
    assert_eq!(cpu.read_word(0x0010), 0x1234);
}

#[test]
fn read_word_at_the_top_of_memory_wraps() {
    let mut cpu = CPU::new();
    cpu.ram[0xFFFE] = 0xCD;
    cpu.ram[0x0000] = 0xAB;
    assert_eq!(cpu.read_word(0xFFFE), 0xABCD);
    assert_eq!(cpu.read_word(0xFFFF), 0xABAB);
}

#[test]
fn push_byte_writes_at_stack_pointer_then_decrements() {
    let mut cpu = CPU::new();
    cpu.push_byte(0x77);
    assert_eq!(cpu.ram[0xFD], 0x77);
    assert_eq!(cpu.sp, 0xFC);
}

#[test]
fn pop_byte_increments_then_reads() {
    let mut cpu = CPU::new();
    cpu.ram[0xFE] = 0x88;
    assert_eq!(cpu.pop_byte(), 0x88);
    assert_eq!(cpu.sp, 0xFE);
}

#[test]
fn push_byte_then_pop_byte_returns_the_byte_and_restores_sp() {
    for sp in [0x00u8, 0x01, 0x7F, 0xFD, 0xFF] {
        for value in [0x00u8, 0x01, 0x80, 0xFF] {
            let mut cpu = CPU::new();
            cpu.sp = sp;
            cpu.push_byte(value);
            assert_eq!(cpu.pop_byte(), value);
            assert_eq!(cpu.sp, sp);
        }
    }
}

#[test]
fn stack_pointer_wraps_in_both_directions() {
    let mut cpu = CPU::new();
    cpu.sp = 0x00;
    cpu.push_byte(0x5C);
    assert_eq!(cpu.sp, 0xFF);
    assert_eq!(cpu.ram[0x00], 0x5C);
    assert_eq!(cpu.pop_byte(), 0x5C);
    assert_eq!(cpu.sp, 0x00);
}

#[test]
fn push_word_pushes_high_byte_first() {
    let mut cpu = CPU::new();
    cpu.push_word(0x1234);
    assert_eq!(cpu.ram[0xFD], 0x12);
    assert_eq!(cpu.ram[0xFC], 0x34);
    assert_eq!(cpu.sp, 0xFB);
}

#[test]
fn push_word_then_pop_word_returns_the_word() {
    for sp in [0x00u8, 0x01, 0xFD, 0xFF] {
        for value in [0x0000u16, 0x0001, 0x00FF, 0x0100, 0x1234, 0x8000, 0xFFFF] {
            let mut cpu = CPU::new();
            cpu.sp = sp;
            cpu.push_word(value);
            assert_eq!(cpu.pop_word(), value);
            assert_eq!(cpu.sp, sp);
        }
    }
}

#[test]
fn nth_bit_tests_single_bits() {
    assert!(nth_bit(0x80, 7));
    assert!(!nth_bit(0x7F, 7));
    assert!(nth_bit(0x01, 0));
    assert!(!nth_bit(0xFE, 0));
    assert!(nth_bit(0x10, 4));
    assert!(!nth_bit(0x10, 3));
}

#[test]
fn words_split_and_assemble() {
    assert_eq!(word_from_bytes(0x34, 0x12), 0x1234);
    assert_eq!(word_from_bytes(0xFF, 0xFF), 0xFFFF);
    assert_eq!(word_from_bytes(0x00, 0x00), 0x0000);
    assert_eq!(high_byte(0x1234), 0x12);
    assert_eq!(low_byte(0x1234), 0x34);
    for word in [0x0000u16, 0x00FF, 0x0100, 0xABCD, 0xFFFF] {
        assert_eq!(word_from_bytes(low_byte(word), high_byte(word)), word);
    }
}
