use mos6502::{Flag, Mem, CPU};

/// A processor whose reset vector points at `start`, with `program` loaded
/// there and the cycle counter forced to zero so the first clock fetches.
fn cpu_running(program: &[u8], start: u16) -> CPU {
    let mut mem = Mem::new();
    mem.load(&[(start & 0x00FF) as u8, (start >> 8) as u8], 0xFFFC);
    mem.load(program, start);
    let mut cpu = CPU::new(mem);
    cpu.cycles = 0;
    cpu
}

#[test]
fn init_cpu() {
    let mut mem = Mem::new();
    mem.load(&[0x01, 0x00], 0xFFFC);
    let cpu = CPU::new(mem);
    assert_eq!(
        cpu.pc, 0x0001,
        "CPU program counter didn't load successfully it has {} instead of 0x0001",
        cpu.pc
    );
}

#[test]
fn load_accumulator() {
    let mut mem = Mem::new();
    // starting address
    mem.load(&[0x00, 0x00], 0xFFFC);

    // program
    mem.load(&[0xA9], 0);
    mem.load(&[0x45], 1);

    let mut cpu = CPU::new(mem);

    // for testing purposes
    cpu.cycles = 0;
    cpu.clock();

    assert_eq!(
        cpu.working_addr, 0x0001,
        "CPU didn't load working address with 0x0001, it has {} instead",
        cpu.working_addr
    );
    assert_eq!(
        cpu.reg_a, 0x45,
        "CPU didn't load accumulator with 0x45, it has {} instead",
        cpu.reg_a
    );
}

#[test]
fn reset_state() {
    let mut mem = Mem::new();
    mem.load(&[0x34, 0x12], 0xFFFC);
    let cpu = CPU::new(mem);
    assert_eq!(cpu.pc, 0x1234);
    assert_eq!(cpu.sp, 0x00);
    assert_eq!(cpu.status.bits, 0xFF);
    assert_eq!(cpu.cycles, 8);
    assert_eq!(cpu.working_addr, 0xFFFC);
}

#[test]
fn lda_immediate_zero_sets_zero_flag() {
    let mut cpu = cpu_running(&[0xA9, 0x00], 0);
    cpu.clock();
    assert_eq!(cpu.reg_a, 0x00);
    assert!(cpu.status.is_flag_set(Flag::Z));
    assert!(!cpu.status.is_flag_set(Flag::N));
}

#[test]
fn lda_immediate_bit7_sets_negative_flag() {
    let mut cpu = cpu_running(&[0xA9, 0x80], 0);
    cpu.clock();
    assert_eq!(cpu.reg_a, 0x80);
    assert!(!cpu.status.is_flag_set(Flag::Z));
    assert!(cpu.status.is_flag_set(Flag::N));
}

#[test]
fn lda_immediate_plain_value_clears_both_flags() {
    let mut cpu = cpu_running(&[0xA9, 0x45], 0);
    cpu.clock();
    assert_eq!(cpu.reg_a, 0x45);
    assert!(!cpu.status.is_flag_set(Flag::Z));
    assert!(!cpu.status.is_flag_set(Flag::N));
}

#[test]
fn adc_signed_overflow_from_two_positives() {
    let mut cpu = cpu_running(&[0xA9, 0x50, 0x69, 0x50], 0);
    cpu.clock();
    assert_eq!(cpu.reg_a, 0x50);
    cpu.status.bits = 0x00; // carry-in = 0
    cpu.cycles = 0;
    cpu.clock();
    assert_eq!(cpu.reg_a, 0xA0);
    assert!(!cpu.status.is_flag_set(Flag::C));
    assert!(cpu.status.is_flag_set(Flag::V));
    assert!(cpu.status.is_flag_set(Flag::N));
    assert!(!cpu.status.is_flag_set(Flag::Z));
}

#[test]
fn adc_carry_out_and_carry_in() {
    let mut cpu = cpu_running(&[0x69, 0x01], 0);
    cpu.reg_a = 0xFF;
    cpu.status.bits = 0x00;
    cpu.clock();
    assert_eq!(cpu.reg_a, 0x00);
    assert!(cpu.status.is_flag_set(Flag::C));
    assert!(cpu.status.is_flag_set(Flag::Z));
    assert!(!cpu.status.is_flag_set(Flag::V));

    let mut cpu = cpu_running(&[0x69, 0x10], 0);
    cpu.reg_a = 0x05;
    cpu.status.bits = 0x01; // carry-in = 1
    cpu.clock();
    assert_eq!(cpu.reg_a, 0x16);
    assert!(!cpu.status.is_flag_set(Flag::C));
}

#[test]
fn sbc_without_borrow() {
    let mut cpu = cpu_running(&[0xE9, 0x30], 0);
    cpu.reg_a = 0x50;
    cpu.status.bits = 0x01; // carry set: no borrow pending
    cpu.clock();
    assert_eq!(cpu.reg_a, 0x20);
    assert!(cpu.status.is_flag_set(Flag::C)); // no borrow occurred
    assert!(!cpu.status.is_flag_set(Flag::Z));
    assert!(!cpu.status.is_flag_set(Flag::N));
    assert!(!cpu.status.is_flag_set(Flag::V));
}

#[test]
fn sbc_with_borrow_result() {
    let mut cpu = cpu_running(&[0xE9, 0x50], 0);
    cpu.reg_a = 0x30;
    cpu.status.bits = 0x01;
    cpu.clock();
    assert_eq!(cpu.reg_a, 0xE0);
    assert!(!cpu.status.is_flag_set(Flag::C)); // borrow occurred
    assert!(cpu.status.is_flag_set(Flag::N));
}

#[test]
fn sbc_signed_overflow() {
    // 0x50 - 0xB0 = -96 - 80 out of signed range: overflow set
    let mut cpu = cpu_running(&[0xE9, 0xB0], 0);
    cpu.reg_a = 0x50;
    cpu.status.bits = 0x01;
    cpu.clock();
    assert_eq!(cpu.reg_a, 0xA0);
    assert!(cpu.status.is_flag_set(Flag::V));
}

#[test]
fn clock_counts_down_without_fetching() {
    let mut cpu = cpu_running(&[0xA9, 0x45], 0);
    cpu.clock();
    // immediate load: 2 base + 1 operation extra, one tick already spent
    assert_eq!(cpu.cycles, 2);
    let pc_after = cpu.pc;
    cpu.clock();
    assert_eq!(cpu.cycles, 1);
    assert_eq!(cpu.pc, pc_after);
    cpu.clock();
    assert_eq!(cpu.cycles, 0);
    assert_eq!(cpu.pc, pc_after);
}

#[test]
fn unknown_opcode_is_harmless() {
    let mut cpu = cpu_running(&[0x02], 0);
    let a = cpu.reg_a;
    let st = cpu.status.bits;
    cpu.clock();
    // unknown descriptor: no-op semantics, zero base cycles, counter stays at zero
    assert_eq!(cpu.pc, 0x0001);
    assert_eq!(cpu.cycles, 0);
    assert_eq!(cpu.reg_a, a);
    assert_eq!(cpu.status.bits, st);
}
