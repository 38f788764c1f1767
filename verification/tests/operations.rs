use mos6502::{Flag, Instruction, Mem, ADDR_MODE, CPU, OPS};

/// A processor whose reset vector points at `start`, with `program` loaded
/// there and the cycle counter forced to zero so the first clock fetches.
fn running(program: &[u8], start: u16) -> CPU {
    let mut mem = Mem::new();
    mem.load(&[(start & 0x00FF) as u8, (start >> 8) as u8], 0xFFFC);
    mem.load(program, start);
    let mut cpu = CPU::new(mem);
    cpu.cycles = 0;
    cpu
}

/// Runs the next instruction regardless of remaining latency.
fn step(cpu: &mut CPU) {
    cpu.cycles = 0;
    cpu.clock();
}

#[test]
fn decode_is_total_over_all_opcodes() {
    for op in 0..=255u8 {
        let ins = Instruction::from_op_code(op);
        assert_eq!(ins.name.len(), 3, "opcode {:02X} lacks a mnemonic", op);
        assert!(ins.cycles <= 7, "opcode {:02X} has base cycles {}", op, ins.cycles);
        assert!(ins.opr != OPS::XXX, "opcode {:02X} decoded to the reserved tag", op);
    }
}

#[test]
fn decode_known_and_unknown_entries() {
    let ins = Instruction::from_op_code(0x69);
    assert_eq!(ins.name, "ADC");
    assert_eq!(ins.opcode, 0x69);
    assert!(ins.opr == OPS::ADC);
    assert!(ins.addr_mode == ADDR_MODE::IMMEDIATE);
    assert_eq!(ins.cycles, 2);

    let ins = Instruction::from_op_code(0x02);
    assert_eq!(ins.name, "???");
    assert!(ins.opr == OPS::NOP);
    assert!(ins.addr_mode == ADDR_MODE::IMPLIED);
    assert_eq!(ins.cycles, 0);
}

#[test]
fn and_ora_eor_update_accumulator_and_flags() {
    let mut cpu = running(&[0x29, 0x0F, 0x09, 0x8F, 0x49, 0xFF], 0);
    cpu.reg_a = 0xF0;
    cpu.status.bits = 0x00;
    cpu.clock(); // AND #0x0F
    assert_eq!(cpu.reg_a, 0x00);
    assert!(cpu.status.is_flag_set(Flag::Z));
    step(&mut cpu); // ORA #0x8F
    assert_eq!(cpu.reg_a, 0x8F);
    assert!(cpu.status.is_flag_set(Flag::N));
    assert!(!cpu.status.is_flag_set(Flag::Z));
    step(&mut cpu); // EOR #0xFF
    assert_eq!(cpu.reg_a, 0x70);
    assert!(!cpu.status.is_flag_set(Flag::N));
}

#[test]
fn bit_copies_top_bits_and_tests_mask() {
    let mut cpu = running(&[0x24, 0x10], 0);
    cpu.reg_a = 0x01;
    cpu.mem.write(0x10, 0xC0);
    cpu.status.bits = 0x00;
    cpu.clock();
    assert_eq!(cpu.reg_a, 0x01); // accumulator untouched
    assert!(cpu.status.is_flag_set(Flag::N));
    assert!(cpu.status.is_flag_set(Flag::V));
    assert!(cpu.status.is_flag_set(Flag::Z)); // 0xC0 & 0x01 == 0
}

#[test]
fn asl_shifts_into_carry() {
    let mut cpu = running(&[0x0A], 0);
    cpu.reg_a = 0x81;
    cpu.status.bits = 0x00;
    cpu.clock();
    assert_eq!(cpu.reg_a, 0x02);
    assert!(cpu.status.is_flag_set(Flag::C));
    assert!(!cpu.status.is_flag_set(Flag::N));
    assert!(!cpu.status.is_flag_set(Flag::Z));
}

#[test]
fn asl_memory_target_writes_back() {
    let mut cpu = running(&[0x06, 0x10], 0);
    cpu.mem.write(0x10, 0x40);
    cpu.status.bits = 0x00;
    cpu.clock();
    assert_eq!(cpu.mem.read(0x10), 0x80);
    assert!(cpu.status.is_flag_set(Flag::N));
    assert_eq!(cpu.reg_a, 0x00); // accumulator untouched for memory targets
}

#[test]
fn lsr_shifts_out_low_bit() {
    let mut cpu = running(&[0x4A], 0);
    cpu.reg_a = 0x01;
    cpu.status.bits = 0x00;
    cpu.clock();
    assert_eq!(cpu.reg_a, 0x00);
    assert!(cpu.status.is_flag_set(Flag::C));
    assert!(cpu.status.is_flag_set(Flag::Z));
}

#[test]
fn rol_feeds_carry_into_bit_zero() {
    let mut cpu = running(&[0x2A], 0);
    cpu.reg_a = 0x80;
    cpu.status.bits = 0x01; // carry in
    cpu.clock();
    assert_eq!(cpu.reg_a, 0x01);
    assert!(cpu.status.is_flag_set(Flag::C)); // bit 7 shifted out
    assert!(!cpu.status.is_flag_set(Flag::N));
}

#[test]
fn ror_feeds_carry_into_bit_seven() {
    let mut cpu = running(&[0x6A], 0);
    cpu.reg_a = 0x01;
    cpu.status.bits = 0x01; // carry in
    cpu.clock();
    assert_eq!(cpu.reg_a, 0x80);
    assert!(cpu.status.is_flag_set(Flag::C)); // bit 0 shifted out
    assert!(cpu.status.is_flag_set(Flag::N));

    let mut cpu = running(&[0x6A], 0);
    cpu.reg_a = 0x02;
    cpu.status.bits = 0x00;
    cpu.clock();
    assert_eq!(cpu.reg_a, 0x01);
    assert!(!cpu.status.is_flag_set(Flag::C));
}

#[test]
fn compare_sets_carry_when_register_not_below_operand() {
    let mut cpu = running(&[0xC9, 0x30], 0);
    cpu.reg_a = 0x50;
    cpu.status.bits = 0x00;
    cpu.clock();
    assert!(cpu.status.is_flag_set(Flag::C));
    assert!(!cpu.status.is_flag_set(Flag::Z));
    assert!(!cpu.status.is_flag_set(Flag::N));
    assert_eq!(cpu.reg_a, 0x50); // nothing stored

    let mut cpu = running(&[0xC9, 0x50], 0);
    cpu.reg_a = 0x30;
    cpu.status.bits = 0x00;
    cpu.clock();
    assert!(!cpu.status.is_flag_set(Flag::C));
    assert!(cpu.status.is_flag_set(Flag::N)); // 0x30 - 0x50 == 0xE0

    let mut cpu = running(&[0xC9, 0x42], 0);
    cpu.reg_a = 0x42;
    cpu.status.bits = 0x00;
    cpu.clock();
    assert!(cpu.status.is_flag_set(Flag::C));
    assert!(cpu.status.is_flag_set(Flag::Z));
}

#[test]
fn compare_index_registers() {
    let mut cpu = running(&[0xE0, 0x10, 0xC0, 0x20], 0);
    cpu.reg_x = 0x10;
    cpu.reg_y = 0x10;
    cpu.status.bits = 0x00;
    cpu.clock(); // CPX #0x10
    assert!(cpu.status.is_flag_set(Flag::C));
    assert!(cpu.status.is_flag_set(Flag::Z));
    step(&mut cpu); // CPY #0x20
    assert!(!cpu.status.is_flag_set(Flag::C));
}

#[test]
fn inc_and_dec_memory_wrap() {
    let mut cpu = running(&[0xE6, 0x10, 0xC6, 0x11], 0);
    cpu.mem.write(0x10, 0xFF);
    cpu.mem.write(0x11, 0x00);
    cpu.clock(); // INC 0x10: 0xFF -> 0x00
    assert_eq!(cpu.mem.read(0x10), 0x00);
    assert!(cpu.status.is_flag_set(Flag::Z));
    step(&mut cpu); // DEC 0x11: 0x00 -> 0xFF
    assert_eq!(cpu.mem.read(0x11), 0xFF);
    assert!(cpu.status.is_flag_set(Flag::N));
}

#[test]
fn index_register_steps() {
    let mut cpu = running(&[0xE8, 0xC8, 0xCA, 0x88], 0);
    cpu.reg_x = 0xFF;
    cpu.reg_y = 0x00;
    cpu.clock(); // INX: 0xFF -> 0x00
    assert_eq!(cpu.reg_x, 0x00);
    assert!(cpu.status.is_flag_set(Flag::Z));
    step(&mut cpu); // INY: 0x00 -> 0x01
    assert_eq!(cpu.reg_y, 0x01);
    step(&mut cpu); // DEX: 0x00 -> 0xFF
    assert_eq!(cpu.reg_x, 0xFF);
    assert!(cpu.status.is_flag_set(Flag::N));
    step(&mut cpu); // DEY: 0x01 -> 0x00
    assert_eq!(cpu.reg_y, 0x00);
    assert!(cpu.status.is_flag_set(Flag::Z));
}

#[test]
fn loads_and_stores_round_trip_through_memory() {
    let mut cpu = running(&[0xA2, 0x7B, 0x86, 0x10, 0xA0, 0x3C, 0x84, 0x11, 0xA9, 0x5A, 0x85, 0x12], 0);
    cpu.clock(); // LDX #0x7B
    step(&mut cpu); // STX 0x10
    step(&mut cpu); // LDY #0x3C
    step(&mut cpu); // STY 0x11
    step(&mut cpu); // LDA #0x5A
    step(&mut cpu); // STA 0x12
    assert_eq!(cpu.mem.read(0x10), 0x7B);
    assert_eq!(cpu.mem.read(0x11), 0x3C);
    assert_eq!(cpu.mem.read(0x12), 0x5A);
}

#[test]
fn transfers_copy_registers_and_flags() {
    let mut cpu = running(&[0xAA, 0xA8, 0x8A, 0x98, 0xBA, 0x9A], 0);
    cpu.reg_a = 0x80;
    cpu.status.bits = 0x00;
    cpu.clock(); // TAX
    assert_eq!(cpu.reg_x, 0x80);
    assert!(cpu.status.is_flag_set(Flag::N));
    step(&mut cpu); // TAY
    assert_eq!(cpu.reg_y, 0x80);
    cpu.reg_x = 0x00;
    step(&mut cpu); // TXA
    assert_eq!(cpu.reg_a, 0x00);
    assert!(cpu.status.is_flag_set(Flag::Z));
    cpu.reg_y = 0x42;
    step(&mut cpu); // TYA
    assert_eq!(cpu.reg_a, 0x42);
    cpu.sp = 0x91;
    step(&mut cpu); // TSX
    assert_eq!(cpu.reg_x, 0x91);
    assert!(cpu.status.is_flag_set(Flag::N));
    cpu.reg_x = 0xAB;
    let st = cpu.status.bits;
    step(&mut cpu); // TXS: no flag effect
    assert_eq!(cpu.sp, 0xAB);
    assert_eq!(cpu.status.bits, st);
}

#[test]
fn flag_set_and_clear_operations() {
    let mut cpu = running(&[0x38, 0xF8, 0x78, 0x18, 0xD8, 0x58, 0xB8], 0);
    cpu.status.bits = 0x40; // only Overflow set
    cpu.clock(); // SEC
    assert!(cpu.status.is_flag_set(Flag::C));
    step(&mut cpu); // SED
    assert!(cpu.status.is_flag_set(Flag::D));
    step(&mut cpu); // SEI
    assert!(cpu.status.is_flag_set(Flag::I));
    step(&mut cpu); // CLC
    assert!(!cpu.status.is_flag_set(Flag::C));
    step(&mut cpu); // CLD
    assert!(!cpu.status.is_flag_set(Flag::D));
    step(&mut cpu); // CLI
    assert!(!cpu.status.is_flag_set(Flag::I));
    step(&mut cpu); // CLV
    assert!(!cpu.status.is_flag_set(Flag::V));
}

#[test]
fn jmp_absolute_and_indirect() {
    let mut cpu = running(&[0x4C, 0x34, 0x12], 0);
    cpu.clock();
    assert_eq!(cpu.pc, 0x1234);

    let mut cpu = running(&[0x6C, 0x10, 0x02], 0);
    cpu.mem.write(0x0210, 0x00);
    cpu.mem.write(0x0211, 0x80);
    cpu.clock();
    assert_eq!(cpu.pc, 0x8000);
}

#[test]
fn jsr_then_rts_restores_following_address() {
    // JSR 0x0010 at 0x0000; RTS at 0x0010. The return lands on the address
    // following the call and its two operand bytes.
    let mut cpu = running(&[0x20, 0x10, 0x00], 0);
    cpu.mem.write(0x0010, 0x60);
    let sp0 = cpu.sp;
    cpu.clock(); // JSR
    assert_eq!(cpu.pc, 0x0010);
    assert_eq!(cpu.sp, sp0.wrapping_sub(2));
    step(&mut cpu); // RTS
    assert_eq!(cpu.pc, 0x0003);
    assert_eq!(cpu.sp, sp0);
}

#[test]
fn pha_then_pla_round_trips_accumulator() {
    let mut cpu = running(&[0x48, 0x68], 0);
    cpu.reg_a = 0x5A;
    let sp0 = cpu.sp;
    cpu.clock(); // PHA
    assert_eq!(cpu.sp, sp0.wrapping_sub(1));
    cpu.reg_a = 0x00;
    step(&mut cpu); // PLA
    assert_eq!(cpu.reg_a, 0x5A);
    assert_eq!(cpu.sp, sp0);
}

#[test]
fn php_then_plp_round_trips_status() {
    let mut cpu = running(&[0x08, 0x28], 0);
    cpu.status.bits = 0x8D;
    cpu.clock(); // PHP
    cpu.status.bits = 0x00;
    step(&mut cpu); // PLP
    assert_eq!(cpu.status.bits, 0x8D);
}

#[test]
fn branch_not_taken_costs_nothing_extra() {
    let mut cpu = running(&[0xB0, 0x05], 0); // BCS with carry clear
    cpu.status.bits = 0x00;
    cpu.clock();
    assert_eq!(cpu.pc, 0x0002);
    assert_eq!(cpu.cycles, 1); // 2 base, one tick spent
}

#[test]
fn branch_taken_same_page_costs_one_extra() {
    let mut cpu = running(&[0xB0, 0x05], 0); // BCS with carry set
    cpu.status.bits = 0x01;
    cpu.clock();
    assert_eq!(cpu.pc, 0x0007);
    assert_eq!(cpu.cycles, 2); // 2 base + 1 taken, one tick spent
}

#[test]
fn branch_taken_crossing_page_costs_two_extra() {
    let mut cpu = running(&[0xB0, 0x20], 0x00F0); // target 0x0112, new page
    cpu.status.bits = 0x01;
    cpu.clock();
    assert_eq!(cpu.pc, 0x0112);
    assert_eq!(cpu.cycles, 3); // 2 base + 2 taken-and-crossed, one tick spent
}

#[test]
fn branch_backwards_with_negative_offset() {
    let mut cpu = running(&[0xD0, 0xFC], 0x0010); // BNE -4
    cpu.status.bits = 0x00; // zero clear: taken
    cpu.clock();
    assert_eq!(cpu.pc, 0x000E);
}

#[test]
fn brk_pushes_state_and_jumps_through_vector() {
    let mut cpu = running(&[0x00], 0);
    cpu.mem.write(0xFFFE, 0x00);
    cpu.mem.write(0xFFFF, 0x80);
    cpu.status.bits = 0x00;
    let sp0 = cpu.sp;
    cpu.clock();
    assert_eq!(cpu.pc, 0x8000);
    assert_eq!(cpu.sp, sp0.wrapping_sub(3));
    // pushed: pc high, pc low (pc was advanced past the opcode and once
    // more), then status with Break, Unused and Interrupt-disable set
    assert_eq!(cpu.mem.read(0x0100u16.wrapping_add(sp0 as u16)), 0x00);
    assert_eq!(
        cpu.mem.read(0x0100u16.wrapping_add(sp0.wrapping_sub(1) as u16)),
        0x02
    );
    assert_eq!(
        cpu.mem.read(0x0100u16.wrapping_add(sp0.wrapping_sub(2) as u16)),
        0x34
    );
    assert!(cpu.status.is_flag_set(Flag::I));
}

#[test]
fn rti_instruction_restores_pushed_state() {
    // BRK from 0x0000, then RTI from the handler returns to 0x0002 with the
    // pushed status byte
    let mut cpu = running(&[0x00], 0);
    cpu.mem.write(0xFFFE, 0x00);
    cpu.mem.write(0xFFFF, 0x80);
    cpu.mem.write(0x8000, 0x40); // RTI
    cpu.status.bits = 0x00;
    cpu.clock(); // BRK
    step(&mut cpu); // RTI
    assert_eq!(cpu.pc, 0x0002);
    assert_eq!(cpu.status.bits, 0x34);
}
