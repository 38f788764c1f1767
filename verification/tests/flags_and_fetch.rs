use mos6502::instructions::execute;
use mos6502::{CpuStatus, Flag, Instruction, Mem, ADDR_MODE, CPU};

#[test]
fn status_flag_set_clear_and_test() {
    let mut st = CpuStatus { bits: 0x00 };
    assert!(!st.is_flag_set(Flag::C));
    st.set_flag(Flag::C);
    st.set_flag(Flag::N);
    assert!(st.is_flag_set(Flag::C));
    assert!(st.is_flag_set(Flag::N));
    assert_eq!(st.bits, 0x81);
    st.clear_flag(Flag::C);
    assert!(!st.is_flag_set(Flag::C));
    assert!(st.is_flag_set(Flag::N));
    assert_eq!(st.bits, 0x80);
    st.reset();
    assert_eq!(st.bits, 0xFF);
    assert!(st.is_flag_set(Flag::U));
}

#[test]
fn fetch_reads_byte_and_advances() {
    let mut mem = Mem::new();
    mem.load(&[0xDE, 0xAD], 0x0200);
    let mut cpu = CPU::new(mem);
    cpu.pc = 0x0200;
    assert_eq!(cpu.fetch(), 0xDE);
    assert_eq!(cpu.pc, 0x0201);
    assert_eq!(cpu.fetch(), 0xAD);
    assert_eq!(cpu.pc, 0x0202);
}

#[test]
fn fetch_wraps_at_top_of_address_space() {
    let mut mem = Mem::new();
    mem.write(0xFFFF, 0x42);
    let mut cpu = CPU::new(mem);
    cpu.pc = 0xFFFF;
    assert_eq!(cpu.fetch(), 0x42);
    assert_eq!(cpu.pc, 0x0000);
}

#[test]
fn fetch_word_is_little_endian() {
    let mut mem = Mem::new();
    mem.load(&[0x34, 0x12], 0x0300);
    let mut cpu = CPU::new(mem);
    cpu.pc = 0x0300;
    assert_eq!(cpu.fetch_word(), 0x1234);
    assert_eq!(cpu.pc, 0x0302);
}

#[test]
fn fill_working_data_reads_memory_unless_implied() {
    let mut mem = Mem::new();
    mem.write(0x0040, 0x99);
    let mut cpu = CPU::new(mem);
    cpu.working_addr = 0x0040;
    cpu.curr_instruction = Instruction::from_op_code(0xA5); // zero-page load
    cpu.fill_working_data();
    assert_eq!(cpu.working_data, 0x99);

    cpu.working_data = 0x00;
    cpu.curr_instruction = Instruction::from_op_code(0xEA); // implied
    cpu.fill_working_data();
    assert_eq!(cpu.working_data, 0x00);
}

#[test]
fn execute_resolves_and_applies_a_descriptor() {
    let mut mem = Mem::new();
    mem.load(&[0x45], 0x0100);
    let mut cpu = CPU::new(mem);
    cpu.pc = 0x0100;
    let ins = Instruction::from_op_code(0xA9); // immediate load into A
    assert!(ins.addr_mode == ADDR_MODE::IMMEDIATE);
    cpu.curr_instruction = ins;
    let extra = execute(&mut cpu, ins);
    assert_eq!(cpu.reg_a, 0x45);
    assert_eq!(cpu.pc, 0x0101);
    assert_eq!(extra, 1); // the load's own signal; immediate adds none
}

#[test]
fn instruction_default_is_the_reserved_placeholder() {
    let ins = Instruction::default();
    assert_eq!(ins.name, "NO NAME");
    assert!(ins.addr_mode == ADDR_MODE::NONE);
    assert_eq!(ins.cycles, 0);
}
