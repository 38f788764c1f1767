use mos6502::{Flag, Mem, Vm, CPU};

#[test]
fn mem_starts_zeroed_and_round_trips_writes() {
    let mut mem = Mem::new();
    assert_eq!(mem.read(0x0000), 0x00);
    assert_eq!(mem.read(0xFFFF), 0x00);
    mem.write(0x1234, 0xAB);
    assert_eq!(mem.read(0x1234), 0xAB);
    assert_eq!(mem.read(0x1235), 0x00);
}

#[test]
fn mem_load_places_bytes_at_offset() {
    let mut mem = Mem::new();
    mem.load(&[0x01, 0x02, 0x03], 0x0FFE);
    assert_eq!(mem.read(0x0FFD), 0x00);
    assert_eq!(mem.read(0x0FFE), 0x01);
    assert_eq!(mem.read(0x0FFF), 0x02);
    assert_eq!(mem.read(0x1000), 0x03);
    assert_eq!(mem.read(0x1001), 0x00);
}

#[test]
fn mem_reset_clears_everything() {
    let mut mem = Mem::new();
    mem.write(0x0000, 0xFF);
    mem.write(0xFFFF, 0xFF);
    mem.reset();
    assert_eq!(mem.read(0x0000), 0x00);
    assert_eq!(mem.read(0xFFFF), 0x00);
}

#[test]
fn irq_is_masked_while_interrupt_disable_is_set() {
    let mut mem = Mem::new();
    mem.load(&[0x34, 0x12], 0xFFFE);
    let mut cpu = CPU::new(mem);
    // power-up status has Interrupt-disable set
    let pc0 = cpu.pc;
    let sp0 = cpu.sp;
    cpu.irq();
    assert_eq!(cpu.pc, pc0);
    assert_eq!(cpu.sp, sp0);
}

#[test]
fn irq_pushes_state_and_takes_vector() {
    let mut mem = Mem::new();
    mem.load(&[0x34, 0x12], 0xFFFE);
    let mut cpu = CPU::new(mem);
    cpu.status.bits = 0x00;
    cpu.pc = 0xABCD;
    let sp0 = cpu.sp;
    cpu.irq();
    assert_eq!(cpu.pc, 0x1234);
    assert_eq!(cpu.sp, sp0.wrapping_sub(3));
    assert_eq!(cpu.mem.read(0x0100u16.wrapping_add(sp0 as u16)), 0xAB);
    assert_eq!(
        cpu.mem.read(0x0100u16.wrapping_add(sp0.wrapping_sub(1) as u16)),
        0xCD
    );
    // pushed status carries Break, Unused and Interrupt-disable
    assert_eq!(
        cpu.mem.read(0x0100u16.wrapping_add(sp0.wrapping_sub(2) as u16)),
        0x34
    );
    assert!(cpu.status.is_flag_set(Flag::I));
    assert_eq!(cpu.cycles, 7);
}

#[test]
fn nmi_is_never_masked() {
    let mut mem = Mem::new();
    mem.load(&[0x78, 0x56], 0xFFFA);
    let mut cpu = CPU::new(mem);
    // Interrupt-disable is set after reset, yet the request is serviced
    assert!(cpu.status.is_flag_set(Flag::I));
    cpu.pc = 0xABCD;
    let sp0 = cpu.sp;
    cpu.nmi();
    assert_eq!(cpu.pc, 0x5678);
    assert_eq!(cpu.sp, sp0.wrapping_sub(3));
    assert_eq!(cpu.cycles, 8);
}

#[test]
fn cpu_rti_mirrors_interrupt_entry() {
    let mut mem = Mem::new();
    mem.load(&[0x34, 0x12], 0xFFFE);
    let mut cpu = CPU::new(mem);
    cpu.status.bits = 0x41; // Overflow and Carry
    cpu.pc = 0xABCD;
    cpu.irq();
    cpu.rti();
    assert_eq!(cpu.pc, 0xABCD);
    // the pushed byte had Break and Unused forced; the return clears them
    assert_eq!(cpu.status.bits, 0x45);
    assert_eq!(cpu.cycles, 6);
}

#[test]
fn vm_loads_and_steps_a_program() {
    let mut vm = Vm::new();
    assert_eq!(vm.cpu.pc, 0x0000);
    vm.load(&[0xA9, 0x45], 0);
    vm.cpu.cycles = 0;
    vm.step();
    assert_eq!(vm.cpu.reg_a, 0x45);
}

#[test]
fn vm_reset_reloads_vector() {
    let mut vm = Vm::new();
    vm.load(&[0x01, 0x00], 0xFFFC);
    vm.cpu.pc = 0x4444;
    vm.reset();
    assert_eq!(vm.cpu.pc, 0x0001);
    assert_eq!(vm.cpu.cycles, 8);
}
