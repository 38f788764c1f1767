use mos6502::instructions::{abx, ind, izx, izy, rel, zpx, zpy};
use mos6502::{Mem, CPU};

/// A processor halted at `pc` over the given memory image.
fn cpu_at(mem_bytes: &[(u16, &[u8])], pc: u16) -> CPU {
    let mut mem = Mem::new();
    for (offset, bytes) in mem_bytes {
        mem.load(bytes, *offset);
    }
    let mut cpu = CPU::new(mem);
    cpu.pc = pc;
    cpu
}

#[test]
fn absolute_x_page_cross_signals_extra_cycle() {
    // base 0x01FF + X=0x01 => 0x0200, high byte changed
    let mut cpu = cpu_at(&[(0, &[0xFF, 0x01])], 0);
    cpu.reg_x = 0x01;
    let extra = abx(&mut cpu);
    assert_eq!(cpu.working_addr, 0x0200);
    assert_eq!(extra, 1);
}

#[test]
fn absolute_x_same_page_signals_nothing() {
    // base 0x0100 + X=0x01 => 0x0101, high byte unchanged
    let mut cpu = cpu_at(&[(0, &[0x00, 0x01])], 0);
    cpu.reg_x = 0x01;
    let extra = abx(&mut cpu);
    assert_eq!(cpu.working_addr, 0x0101);
    assert_eq!(extra, 0);
}

#[test]
fn indirect_jmp_page_boundary_defect() {
    // pointer 0x02FF: low byte from 0x02FF, high byte from 0x0200 (same
    // page), never from 0x0300
    let mut cpu = cpu_at(
        &[(0, &[0xFF, 0x02]), (0x02FF, &[0x00]), (0x0200, &[0x80]), (0x0300, &[0x12])],
        0,
    );
    let extra = ind(&mut cpu);
    assert_eq!(cpu.working_addr, 0x8000);
    assert_eq!(extra, 0);
}

#[test]
fn indirect_jmp_ordinary_pointer() {
    let mut cpu = cpu_at(&[(0, &[0x10, 0x02]), (0x0210, &[0x00, 0x80])], 0);
    ind(&mut cpu);
    assert_eq!(cpu.working_addr, 0x8000);
}

#[test]
fn zero_page_x_wraps_within_page_zero() {
    let mut cpu = cpu_at(&[(0, &[0xFF])], 0);
    cpu.reg_x = 0x02;
    zpx(&mut cpu);
    assert_eq!(cpu.working_addr, 0x0001);
}

#[test]
fn zero_page_y_wraps_within_page_zero() {
    let mut cpu = cpu_at(&[(0, &[0x80])], 0);
    cpu.reg_y = 0x90;
    zpy(&mut cpu);
    assert_eq!(cpu.working_addr, 0x0010);
}

#[test]
fn indexed_indirect_wraps_pointer_in_page_zero() {
    // zero-page byte 0x20 + X=0x04 => pointer 0x24/0x25 holds 0x1234
    let mut cpu = cpu_at(&[(0, &[0x20]), (0x24, &[0x34, 0x12])], 0);
    cpu.reg_x = 0x04;
    izx(&mut cpu);
    assert_eq!(cpu.working_addr, 0x1234);

    // pointer arithmetic wraps: 0xFF + X=0x01 reads 0x00 and 0x01
    let mut cpu = cpu_at(&[(0x0300, &[0xFF]), (0x00, &[0xCD, 0xAB])], 0x0300);
    cpu.reg_x = 0x01;
    izx(&mut cpu);
    assert_eq!(cpu.working_addr, 0xABCD);
}

#[test]
fn indirect_indexed_page_cross_signals_extra_cycle() {
    // base 0x01FF + Y=0x01 => 0x0200, crossing a page
    let mut cpu = cpu_at(&[(0, &[0x20]), (0x20, &[0xFF, 0x01])], 0);
    cpu.reg_y = 0x01;
    let extra = izy(&mut cpu);
    assert_eq!(cpu.working_addr, 0x0200);
    assert_eq!(extra, 1);

    // base 0x0180 + Y=0x01 => 0x0181, same page
    let mut cpu = cpu_at(&[(0, &[0x20]), (0x20, &[0x80, 0x01])], 0);
    cpu.reg_y = 0x01;
    let extra = izy(&mut cpu);
    assert_eq!(cpu.working_addr, 0x0181);
    assert_eq!(extra, 0);
}

#[test]
fn relative_offset_sign_extends() {
    let mut cpu = cpu_at(&[(0, &[0x80])], 0);
    rel(&mut cpu);
    assert_eq!(cpu.rel_working_addr, 0xFF80);

    let mut cpu = cpu_at(&[(0, &[0x7F])], 0);
    rel(&mut cpu);
    assert_eq!(cpu.rel_working_addr, 0x007F);
}

#[test]
fn lda_absolute_x_crossing_costs_one_more_tick() {
    // LDA abs,X with page cross: 4 base + 1 cross + 1 operation, minus the
    // tick spent
    let mut mem = Mem::new();
    mem.load(&[0x00, 0x00], 0xFFFC);
    mem.load(&[0xBD, 0xFF, 0x01], 0);
    mem.load(&[0x77], 0x0200);
    let mut cpu = CPU::new(mem);
    cpu.cycles = 0;
    cpu.reg_x = 0x01;
    cpu.clock();
    assert_eq!(cpu.reg_a, 0x77);
    assert_eq!(cpu.cycles, 5);

    // and without the cross, one tick fewer
    let mut mem = Mem::new();
    mem.load(&[0x00, 0x00], 0xFFFC);
    mem.load(&[0xBD, 0x00, 0x01], 0);
    mem.load(&[0x66], 0x0101);
    let mut cpu = CPU::new(mem);
    cpu.cycles = 0;
    cpu.reg_x = 0x01;
    cpu.clock();
    assert_eq!(cpu.reg_a, 0x66);
    assert_eq!(cpu.cycles, 4);
}

#[test]
fn lda_indirect_indexed_crossing_costs_one_more_tick() {
    let mut mem = Mem::new();
    mem.load(&[0x00, 0x00], 0xFFFC);
    mem.load(&[0xB1, 0x20], 0);
    mem.load(&[0xFF, 0x01], 0x20);
    mem.load(&[0x55], 0x0200);
    let mut cpu = CPU::new(mem);
    cpu.cycles = 0;
    cpu.reg_y = 0x01;
    cpu.clock();
    assert_eq!(cpu.reg_a, 0x55);
    // 5 base + 1 cross + 1 operation, minus the tick spent
    assert_eq!(cpu.cycles, 6);
}
