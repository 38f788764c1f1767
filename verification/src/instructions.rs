//! The opcode table: a total mapping from every byte value to an instruction
//! descriptor. Unassigned opcodes decode to a harmless no-effect descriptor,
//! so corrupted or data-as-code streams can never make decoding fail.

use crate::cpu::CPU;
use crate::model::{
    abs_spec, abx_spec, aby_spec, adc_spec, and_spec, asl_spec, bit_spec, branch_spec, brk_spec,
    clear_spec, cmp_spec, cpx_spec, cpy_spec, dec_spec, dex_spec, dey_spec, eor_spec,
    execute_spec, imm_spec, imp_spec, inc_spec, ind_spec, inx_spec, iny_spec, izx_spec, izy_spec,
    jmp_spec, jsr_spec, lda_spec, ldx_spec, ldy_spec, lsr_spec, ora_spec, pha_spec, php_spec,
    pla_spec, plp_spec, rel_spec, rol_spec, ror_spec, rti_op_spec, rts_spec, sbc_spec, set_spec,
    sta_spec, stx_spec, sty_spec, tax_spec, tay_spec, tsx_spec, txa_spec, txs_spec, tya_spec,
    zp0_spec, zpx_spec, zpy_spec,
};
use crate::status::{CpuStatus, Flag, FLAG_C, FLAG_D, FLAG_I, FLAG_N, FLAG_V, FLAG_Z};
use vstd::prelude::*;

verus! {

/// An addressing mode: the rule by which an instruction finds its operand.
#[allow(non_camel_case_types)]
#[derive(Clone, Copy, PartialEq, Eq, Structural, Debug)]
pub enum ADDR_MODE {
    IMMEDIATE,
    ZERO_PAGE,
    ZERO_PAGE_X,
    ZERO_PAGE_Y,
    ABSOLUTE,
    ABSOLUTE_X,
    ABSOLUTE_Y,
    INDIRECT,
    INDIRECT_X,
    INDIRECT_Y,
    RELATIVE,
    IMPLIED,
    NONE,
}

/// An operation kind: one tag per documented instruction, plus the reserved
/// `XXX` sentinel that the decode table never produces.
#[allow(non_camel_case_types)]
#[derive(Clone, Copy, PartialEq, Eq, Structural, Debug)]
pub enum OPS {
    ADC, AND, ASL, BCC,
    BCS, BEQ, BIT, BMI,
    BNE, BPL, BRK, BVC,
    BVS, CLC, CLD, CLI,
    CLV, CMP, CPX, CPY,
    DEC, DEX, DEY, EOR,
    INC, INX, INY, JMP,
    JSR, LDA, LDX, LDY,
    LSR, NOP, ORA, PHA,
    PHP, PLA, PLP, ROL,
    ROR, RTI, RTS, SBC,
    SEC, SED, SEI, STA,
    STX, STY, TAX, TAY,
    TSX, TXA, TXS, TYA,
    XXX,
}

/// An immutable per-opcode descriptor: mnemonic, numeric opcode, operation
/// kind, addressing mode, and base cycle count.
#[derive(Clone, Copy, Debug)]
pub struct Instruction {
    pub name: &'static str,
    pub opcode: u8,
    pub opr: OPS,
    pub addr_mode: ADDR_MODE,
    pub cycles: u8,
}

/// The mathematical image of a descriptor, used to state what decoding
/// returns.
pub ghost struct InstrInfo {
    pub opr: OPS,
    pub mode: ADDR_MODE,
    pub cycles: u8,
    pub opcode: u8,
    pub name: Seq<char>,
}

/// What decoding an opcode yields. Total over all 256 byte values: bytes
/// outside the documented instruction set map to a designated unknown
/// descriptor with no-op semantics, implied addressing and a zero base cycle
/// count.
pub open spec fn decode_info(op: u8) -> InstrInfo {
    match op {
            0x69 => (InstrInfo {
                opr: OPS::ADC,
                mode: ADDR_MODE::IMMEDIATE,
                cycles: 2,
                opcode: 0x69,
                name: "ADC"@,
            }),
            0x65 => (InstrInfo {
                opr: OPS::ADC,
                mode: ADDR_MODE::ZERO_PAGE,
                cycles: 3,
                opcode: 0x65,
                name: "ADC"@,
            }),
            0x75 => (InstrInfo {
                opr: OPS::ADC,
                mode: ADDR_MODE::ZERO_PAGE_X,
                cycles: 4,
                opcode: 0x75,
                name: "ADC"@,
            }),
            0x6D => (InstrInfo {
                opr: OPS::ADC,
                mode: ADDR_MODE::ABSOLUTE,
                cycles: 4,
                opcode: 0x6D,
                name: "ADC"@,
            }),
            0x7D => (InstrInfo {
                opr: OPS::ADC,
                mode: ADDR_MODE::ABSOLUTE_X,
                cycles: 4,
                opcode: 0x7D,
                name: "ADC"@,
            }),
            0x79 => (InstrInfo {
                opr: OPS::ADC,
                mode: ADDR_MODE::ABSOLUTE_Y,
                cycles: 4,
                opcode: 0x79,
                name: "ADC"@,
            }),
            0x61 => (InstrInfo {
                opr: OPS::ADC,
                mode: ADDR_MODE::INDIRECT_X,
                cycles: 6,
                opcode: 0x61,
                name: "ADC"@,
            }),
            0x71 => (InstrInfo {
                opr: OPS::ADC,
                mode: ADDR_MODE::INDIRECT_Y,
                cycles: 5,
                opcode: 0x71,
                name: "ADC"@,
            }),
            0x29 => (InstrInfo {
                opr: OPS::AND,
                mode: ADDR_MODE::IMMEDIATE,
                cycles: 2,
                opcode: 0x29,
                name: "AND"@,
            }),
            0x25 => (InstrInfo {
                opr: OPS::AND,
                mode: ADDR_MODE::ZERO_PAGE,
                cycles: 3,
                opcode: 0x25,
                name: "AND"@,
            }),
            0x35 => (InstrInfo {
                opr: OPS::AND,
                mode: ADDR_MODE::ZERO_PAGE_X,
                cycles: 4,
                opcode: 0x35,
                name: "AND"@,
            }),
            0x2D => (InstrInfo {
                opr: OPS::AND,
                mode: ADDR_MODE::ABSOLUTE,
                cycles: 4,
                opcode: 0x2D,
                name: "AND"@,
            }),
            0x3D => (InstrInfo {
                opr: OPS::AND,
                mode: ADDR_MODE::ABSOLUTE_X,
                cycles: 4,
                opcode: 0x3D,
                name: "AND"@,
            }),
            0x39 => (InstrInfo {
                opr: OPS::AND,
                mode: ADDR_MODE::ABSOLUTE_Y,
                cycles: 4,
                opcode: 0x39,
                name: "AND"@,
            }),
            0x21 => (InstrInfo {
                opr: OPS::AND,
                mode: ADDR_MODE::INDIRECT_X,
                cycles: 6,
                opcode: 0x21,
                name: "AND"@,
            }),
            0x31 => (InstrInfo {
                opr: OPS::AND,
                mode: ADDR_MODE::INDIRECT_Y,
                cycles: 5,
                opcode: 0x31,
                name: "AND"@,
            }),
            0x0A => (InstrInfo {
                opr: OPS::ASL,
                mode: ADDR_MODE::IMPLIED,
                cycles: 2,
                opcode: 0x0A,
                name: "ASL"@,
            }),
            0x06 => (InstrInfo {
                opr: OPS::ASL,
                mode: ADDR_MODE::ZERO_PAGE,
                cycles: 5,
                opcode: 0x06,
                name: "ASL"@,
            }),
            0x16 => (InstrInfo {
                opr: OPS::ASL,
                mode: ADDR_MODE::ZERO_PAGE_X,
                cycles: 6,
                opcode: 0x16,
                name: "ASL"@,
            }),
            0x0E => (InstrInfo {
                opr: OPS::ASL,
                mode: ADDR_MODE::ABSOLUTE,
                cycles: 6,
                opcode: 0x0E,
                name: "ASL"@,
            }),
            0x1E => (InstrInfo {
                opr: OPS::ASL,
                mode: ADDR_MODE::ABSOLUTE_X,
                cycles: 7,
                opcode: 0x1E,
                name: "ASL"@,
            }),
            0x90 => (InstrInfo {
                opr: OPS::BCC,
                mode: ADDR_MODE::RELATIVE,
                cycles: 2,
                opcode: 0x90,
                name: "BCC"@,
            }),
            0xB0 => (InstrInfo {
                opr: OPS::BCS,
                mode: ADDR_MODE::RELATIVE,
                cycles: 2,
                opcode: 0xB0,
                name: "BCS"@,
            }),
            0xF0 => (InstrInfo {
                opr: OPS::BEQ,
                mode: ADDR_MODE::RELATIVE,
                cycles: 2,
                opcode: 0xF0,
                name: "BEQ"@,
            }),
            0x24 => (InstrInfo {
                opr: OPS::BIT,
                mode: ADDR_MODE::ZERO_PAGE,
                cycles: 3,
                opcode: 0x24,
                name: "BIT"@,
            }),
            0x2C => (InstrInfo {
                opr: OPS::BIT,
                mode: ADDR_MODE::ABSOLUTE,
                cycles: 4,
                opcode: 0x2C,
                name: "BIT"@,
            }),
            0x30 => (InstrInfo {
                opr: OPS::BMI,
                mode: ADDR_MODE::RELATIVE,
                cycles: 2,
                opcode: 0x30,
                name: "BMI"@,
            }),
            0xD0 => (InstrInfo {
                opr: OPS::BNE,
                mode: ADDR_MODE::RELATIVE,
                cycles: 2,
                opcode: 0xD0,
                name: "BNE"@,
            }),
            0x10 => (InstrInfo {
                opr: OPS::BPL,
                mode: ADDR_MODE::RELATIVE,
                cycles: 2,
                opcode: 0x10,
                name: "BPL"@,
            }),
            0x00 => (InstrInfo {
                opr: OPS::BRK,
                mode: ADDR_MODE::IMPLIED,
                cycles: 7,
                opcode: 0x00,
                name: "BRK"@,
            }),
            0x50 => (InstrInfo {
                opr: OPS::BVC,
                mode: ADDR_MODE::RELATIVE,
                cycles: 2,
                opcode: 0x50,
                name: "BVC"@,
            }),
            0x70 => (InstrInfo {
                opr: OPS::BVS,
                mode: ADDR_MODE::RELATIVE,
                cycles: 2,
                opcode: 0x70,
                name: "BVS"@,
            }),
            0x18 => (InstrInfo {
                opr: OPS::CLC,
                mode: ADDR_MODE::IMPLIED,
                cycles: 2,
                opcode: 0x18,
                name: "CLC"@,
            }),
            0xD8 => (InstrInfo {
                opr: OPS::CLD,
                mode: ADDR_MODE::IMPLIED,
                cycles: 2,
                opcode: 0xD8,
                name: "CLD"@,
            }),
            0x58 => (InstrInfo {
                opr: OPS::CLI,
                mode: ADDR_MODE::IMPLIED,
                cycles: 2,
                opcode: 0x58,
                name: "CLI"@,
            }),
            0xB8 => (InstrInfo {
                opr: OPS::CLV,
                mode: ADDR_MODE::IMPLIED,
                cycles: 2,
                opcode: 0xB8,
                name: "CLV"@,
            }),
            0xC9 => (InstrInfo {
                opr: OPS::CMP,
                mode: ADDR_MODE::IMMEDIATE,
                cycles: 2,
                opcode: 0xC9,
                name: "CMP"@,
            }),
            0xC5 => (InstrInfo {
                opr: OPS::CMP,
                mode: ADDR_MODE::ZERO_PAGE,
                cycles: 3,
                opcode: 0xC5,
                name: "CMP"@,
            }),
            0xD5 => (InstrInfo {
                opr: OPS::CMP,
                mode: ADDR_MODE::ZERO_PAGE_X,
                cycles: 4,
                opcode: 0xD5,
                name: "CMP"@,
            }),
            0xCD => (InstrInfo {
                opr: OPS::CMP,
                mode: ADDR_MODE::ABSOLUTE,
                cycles: 4,
                opcode: 0xCD,
                name: "CMP"@,
            }),
            0xDD => (InstrInfo {
                opr: OPS::CMP,
                mode: ADDR_MODE::ABSOLUTE_X,
                cycles: 4,
                opcode: 0xDD,
                name: "CMP"@,
            }),
            0xD9 => (InstrInfo {
                opr: OPS::CMP,
                mode: ADDR_MODE::ABSOLUTE_Y,
                cycles: 4,
                opcode: 0xD9,
                name: "CMP"@,
            }),
            0xC1 => (InstrInfo {
                opr: OPS::CMP,
                mode: ADDR_MODE::INDIRECT_X,
                cycles: 6,
                opcode: 0xC1,
                name: "CMP"@,
            }),
            0xD1 => (InstrInfo {
                opr: OPS::CMP,
                mode: ADDR_MODE::INDIRECT_Y,
                cycles: 5,
                opcode: 0xD1,
                name: "CMP"@,
            }),
            0xE0 => (InstrInfo {
                opr: OPS::CPX,
                mode: ADDR_MODE::IMMEDIATE,
                cycles: 2,
                opcode: 0xE0,
                name: "CPX"@,
            }),
            0xE4 => (InstrInfo {
                opr: OPS::CPX,
                mode: ADDR_MODE::ZERO_PAGE,
                cycles: 3,
                opcode: 0xE4,
                name: "CPX"@,
            }),
            0xEC => (InstrInfo {
                opr: OPS::CPX,
                mode: ADDR_MODE::ABSOLUTE,
                cycles: 4,
                opcode: 0xEC,
                name: "CPX"@,
            }),
            0xC0 => (InstrInfo {
                opr: OPS::CPY,
                mode: ADDR_MODE::IMMEDIATE,
                cycles: 2,
                opcode: 0xC0,
                name: "CPY"@,
            }),
            0xC4 => (InstrInfo {
                opr: OPS::CPY,
                mode: ADDR_MODE::ZERO_PAGE,
                cycles: 3,
                opcode: 0xC4,
                name: "CPY"@,
            }),
            0xCC => (InstrInfo {
                opr: OPS::CPY,
                mode: ADDR_MODE::ABSOLUTE,
                cycles: 4,
                opcode: 0xCC,
                name: "CPY"@,
            }),
            0xC6 => (InstrInfo {
                opr: OPS::DEC,
                mode: ADDR_MODE::ZERO_PAGE,
                cycles: 5,
                opcode: 0xC6,
                name: "DEC"@,
            }),
            0xD6 => (InstrInfo {
                opr: OPS::DEC,
                mode: ADDR_MODE::ZERO_PAGE_X,
                cycles: 6,
                opcode: 0xD6,
                name: "DEC"@,
            }),
            0xCE => (InstrInfo {
                opr: OPS::DEC,
                mode: ADDR_MODE::ABSOLUTE,
                cycles: 6,
                opcode: 0xCE,
                name: "DEC"@,
            }),
            0xDE => (InstrInfo {
                opr: OPS::DEC,
                mode: ADDR_MODE::ABSOLUTE_X,
                cycles: 7,
                opcode: 0xDE,
                name: "DEC"@,
            }),
            0xCA => (InstrInfo {
                opr: OPS::DEX,
                mode: ADDR_MODE::IMPLIED,
                cycles: 2,
                opcode: 0xCA,
                name: "DEX"@,
            }),
            0x88 => (InstrInfo {
                opr: OPS::DEY,
                mode: ADDR_MODE::IMPLIED,
                cycles: 2,
                opcode: 0x88,
                name: "DEY"@,
            }),
            0x49 => (InstrInfo {
                opr: OPS::EOR,
                mode: ADDR_MODE::IMMEDIATE,
                cycles: 2,
                opcode: 0x49,
                name: "EOR"@,
            }),
            0x45 => (InstrInfo {
                opr: OPS::EOR,
                mode: ADDR_MODE::ZERO_PAGE,
                cycles: 3,
                opcode: 0x45,
                name: "EOR"@,
            }),
            0x55 => (InstrInfo {
                opr: OPS::EOR,
                mode: ADDR_MODE::ZERO_PAGE_X,
                cycles: 4,
                opcode: 0x55,
                name: "EOR"@,
            }),
            0x4D => (InstrInfo {
                opr: OPS::EOR,
                mode: ADDR_MODE::ABSOLUTE,
                cycles: 4,
                opcode: 0x4D,
                name: "EOR"@,
            }),
            0x5D => (InstrInfo {
                opr: OPS::EOR,
                mode: ADDR_MODE::ABSOLUTE_X,
                cycles: 4,
                opcode: 0x5D,
                name: "EOR"@,
            }),
            0x59 => (InstrInfo {
                opr: OPS::EOR,
                mode: ADDR_MODE::ABSOLUTE_Y,
                cycles: 4,
                opcode: 0x59,
                name: "EOR"@,
            }),
            0x41 => (InstrInfo {
                opr: OPS::EOR,
                mode: ADDR_MODE::INDIRECT_X,
                cycles: 6,
                opcode: 0x41,
                name: "EOR"@,
            }),
            0x51 => (InstrInfo {
                opr: OPS::EOR,
                mode: ADDR_MODE::INDIRECT_Y,
                cycles: 5,
                opcode: 0x51,
                name: "EOR"@,
            }),
            0xE6 => (InstrInfo {
                opr: OPS::INC,
                mode: ADDR_MODE::ZERO_PAGE,
                cycles: 5,
                opcode: 0xE6,
                name: "INC"@,
            }),
            0xF6 => (InstrInfo {
                opr: OPS::INC,
                mode: ADDR_MODE::ZERO_PAGE_X,
                cycles: 6,
                opcode: 0xF6,
                name: "INC"@,
            }),
            0xEE => (InstrInfo {
                opr: OPS::INC,
                mode: ADDR_MODE::ABSOLUTE,
                cycles: 6,
                opcode: 0xEE,
                name: "INC"@,
            }),
            0xFE => (InstrInfo {
                opr: OPS::INC,
                mode: ADDR_MODE::ABSOLUTE_X,
                cycles: 7,
                opcode: 0xFE,
                name: "INC"@,
            }),
            0xE8 => (InstrInfo {
                opr: OPS::INX,
                mode: ADDR_MODE::IMPLIED,
                cycles: 2,
                opcode: 0xE8,
                name: "INX"@,
            }),
            0xC8 => (InstrInfo {
                opr: OPS::INY,
                mode: ADDR_MODE::IMPLIED,
                cycles: 2,
                opcode: 0xC8,
                name: "INY"@,
            }),
            0x4C => (InstrInfo {
                opr: OPS::JMP,
                mode: ADDR_MODE::ABSOLUTE,
                cycles: 3,
                opcode: 0x4C,
                name: "JMP"@,
            }),
            0x6C => (InstrInfo {
                opr: OPS::JMP,
                mode: ADDR_MODE::INDIRECT,
                cycles: 5,
                opcode: 0x6C,
                name: "JMP"@,
            }),
            0x20 => (InstrInfo {
                opr: OPS::JSR,
                mode: ADDR_MODE::ABSOLUTE,
                cycles: 6,
                opcode: 0x20,
                name: "JSR"@,
            }),
            0xA9 => (InstrInfo {
                opr: OPS::LDA,
                mode: ADDR_MODE::IMMEDIATE,
                cycles: 2,
                opcode: 0xA9,
                name: "LDA"@,
            }),
            0xA5 => (InstrInfo {
                opr: OPS::LDA,
                mode: ADDR_MODE::ZERO_PAGE,
                cycles: 3,
                opcode: 0xA5,
                name: "LDA"@,
            }),
            0xB5 => (InstrInfo {
                opr: OPS::LDA,
                mode: ADDR_MODE::ZERO_PAGE_X,
                cycles: 4,
                opcode: 0xB5,
                name: "LDA"@,
            }),
            0xAD => (InstrInfo {
                opr: OPS::LDA,
                mode: ADDR_MODE::ABSOLUTE,
                cycles: 4,
                opcode: 0xAD,
                name: "LDA"@,
            }),
            0xBD => (InstrInfo {
                opr: OPS::LDA,
                mode: ADDR_MODE::ABSOLUTE_X,
                cycles: 4,
                opcode: 0xBD,
                name: "LDA"@,
            }),
            0xB9 => (InstrInfo {
                opr: OPS::LDA,
                mode: ADDR_MODE::ABSOLUTE_Y,
                cycles: 4,
                opcode: 0xB9,
                name: "LDA"@,
            }),
            0xA1 => (InstrInfo {
                opr: OPS::LDA,
                mode: ADDR_MODE::INDIRECT_X,
                cycles: 6,
                opcode: 0xA1,
                name: "LDA"@,
            }),
            0xB1 => (InstrInfo {
                opr: OPS::LDA,
                mode: ADDR_MODE::INDIRECT_Y,
                cycles: 5,
                opcode: 0xB1,
                name: "LDA"@,
            }),
            0xA2 => (InstrInfo {
                opr: OPS::LDX,
                mode: ADDR_MODE::IMMEDIATE,
                cycles: 2,
                opcode: 0xA2,
                name: "LDX"@,
            }),
            0xA6 => (InstrInfo {
                opr: OPS::LDX,
                mode: ADDR_MODE::ZERO_PAGE,
                cycles: 3,
                opcode: 0xA6,
                name: "LDX"@,
            }),
            0xB6 => (InstrInfo {
                opr: OPS::LDX,
                mode: ADDR_MODE::ZERO_PAGE_Y,
                cycles: 4,
                opcode: 0xB6,
                name: "LDX"@,
            }),
            0xAE => (InstrInfo {
                opr: OPS::LDX,
                mode: ADDR_MODE::ABSOLUTE,
                cycles: 4,
                opcode: 0xAE,
                name: "LDX"@,
            }),
            0xBE => (InstrInfo {
                opr: OPS::LDX,
                mode: ADDR_MODE::ABSOLUTE_Y,
                cycles: 4,
                opcode: 0xBE,
                name: "LDX"@,
            }),
            0xA0 => (InstrInfo {
                opr: OPS::LDY,
                mode: ADDR_MODE::IMMEDIATE,
                cycles: 2,
                opcode: 0xA0,
                name: "LDY"@,
            }),
            0xA4 => (InstrInfo {
                opr: OPS::LDY,
                mode: ADDR_MODE::ZERO_PAGE,
                cycles: 3,
                opcode: 0xA4,
                name: "LDY"@,
            }),
            0xB4 => (InstrInfo {
                opr: OPS::LDY,
                mode: ADDR_MODE::ZERO_PAGE_X,
                cycles: 4,
                opcode: 0xB4,
                name: "LDY"@,
            }),
            0xAC => (InstrInfo {
                opr: OPS::LDY,
                mode: ADDR_MODE::ABSOLUTE,
                cycles: 4,
                opcode: 0xAC,
                name: "LDY"@,
            }),
            0xBC => (InstrInfo {
                opr: OPS::LDY,
                mode: ADDR_MODE::ABSOLUTE_X,
                cycles: 4,
                opcode: 0xBC,
                name: "LDY"@,
            }),
            0x4A => (InstrInfo {
                opr: OPS::LSR,
                mode: ADDR_MODE::IMPLIED,
                cycles: 2,
                opcode: 0x4A,
                name: "LSR"@,
            }),
            0x46 => (InstrInfo {
                opr: OPS::LSR,
                mode: ADDR_MODE::ZERO_PAGE,
                cycles: 5,
                opcode: 0x46,
                name: "LSR"@,
            }),
            0x56 => (InstrInfo {
                opr: OPS::LSR,
                mode: ADDR_MODE::ZERO_PAGE_X,
                cycles: 6,
                opcode: 0x56,
                name: "LSR"@,
            }),
            0x4E => (InstrInfo {
                opr: OPS::LSR,
                mode: ADDR_MODE::ABSOLUTE,
                cycles: 6,
                opcode: 0x4E,
                name: "LSR"@,
            }),
            0x5E => (InstrInfo {
                opr: OPS::LSR,
                mode: ADDR_MODE::ABSOLUTE_X,
                cycles: 7,
                opcode: 0x5E,
                name: "LSR"@,
            }),
            0xEA => (InstrInfo {
                opr: OPS::NOP,
                mode: ADDR_MODE::IMPLIED,
                cycles: 2,
                opcode: 0xEA,
                name: "NOP"@,
            }),
            0x09 => (InstrInfo {
                opr: OPS::ORA,
                mode: ADDR_MODE::IMMEDIATE,
                cycles: 2,
                opcode: 0x09,
                name: "ORA"@,
            }),
            0x05 => (InstrInfo {
                opr: OPS::ORA,
                mode: ADDR_MODE::ZERO_PAGE,
                cycles: 3,
                opcode: 0x05,
                name: "ORA"@,
            }),
            0x15 => (InstrInfo {
                opr: OPS::ORA,
                mode: ADDR_MODE::ZERO_PAGE_X,
                cycles: 4,
                opcode: 0x15,
                name: "ORA"@,
            }),
            0x0D => (InstrInfo {
                opr: OPS::ORA,
                mode: ADDR_MODE::ABSOLUTE,
                cycles: 4,
                opcode: 0x0D,
                name: "ORA"@,
            }),
            0x1D => (InstrInfo {
                opr: OPS::ORA,
                mode: ADDR_MODE::ABSOLUTE_X,
                cycles: 4,
                opcode: 0x1D,
                name: "ORA"@,
            }),
            0x19 => (InstrInfo {
                opr: OPS::ORA,
                mode: ADDR_MODE::ABSOLUTE_Y,
                cycles: 4,
                opcode: 0x19,
                name: "ORA"@,
            }),
            0x01 => (InstrInfo {
                opr: OPS::ORA,
                mode: ADDR_MODE::INDIRECT_X,
                cycles: 6,
                opcode: 0x01,
                name: "ORA"@,
            }),
            0x11 => (InstrInfo {
                opr: OPS::ORA,
                mode: ADDR_MODE::INDIRECT_Y,
                cycles: 5,
                opcode: 0x11,
                name: "ORA"@,
            }),
            0x48 => (InstrInfo {
                opr: OPS::PHA,
                mode: ADDR_MODE::IMPLIED,
                cycles: 3,
                opcode: 0x48,
                name: "PHA"@,
            }),
            0x08 => (InstrInfo {
                opr: OPS::PHP,
                mode: ADDR_MODE::IMPLIED,
                cycles: 3,
                opcode: 0x08,
                name: "PHP"@,
            }),
            0x68 => (InstrInfo {
                opr: OPS::PLA,
                mode: ADDR_MODE::IMPLIED,
                cycles: 4,
                opcode: 0x68,
                name: "PLA"@,
            }),
            0x28 => (InstrInfo {
                opr: OPS::PLP,
                mode: ADDR_MODE::IMPLIED,
                cycles: 4,
                opcode: 0x28,
                name: "PLP"@,
            }),
            0x2A => (InstrInfo {
                opr: OPS::ROL,
                mode: ADDR_MODE::IMPLIED,
                cycles: 2,
                opcode: 0x2A,
                name: "ROL"@,
            }),
            0x26 => (InstrInfo {
                opr: OPS::ROL,
                mode: ADDR_MODE::ZERO_PAGE,
                cycles: 5,
                opcode: 0x26,
                name: "ROL"@,
            }),
            0x36 => (InstrInfo {
                opr: OPS::ROL,
                mode: ADDR_MODE::ZERO_PAGE_X,
                cycles: 6,
                opcode: 0x36,
                name: "ROL"@,
            }),
            0x2E => (InstrInfo {
                opr: OPS::ROL,
                mode: ADDR_MODE::ABSOLUTE,
                cycles: 6,
                opcode: 0x2E,
                name: "ROL"@,
            }),
            0x3E => (InstrInfo {
                opr: OPS::ROL,
                mode: ADDR_MODE::ABSOLUTE_X,
                cycles: 7,
                opcode: 0x3E,
                name: "ROL"@,
            }),
            0x6A => (InstrInfo {
                opr: OPS::ROR,
                mode: ADDR_MODE::IMPLIED,
                cycles: 2,
                opcode: 0x6A,
                name: "ROR"@,
            }),
            0x66 => (InstrInfo {
                opr: OPS::ROR,
                mode: ADDR_MODE::ZERO_PAGE,
                cycles: 5,
                opcode: 0x66,
                name: "ROR"@,
            }),
            0x76 => (InstrInfo {
                opr: OPS::ROR,
                mode: ADDR_MODE::ZERO_PAGE_X,
                cycles: 6,
                opcode: 0x76,
                name: "ROR"@,
            }),
            0x6E => (InstrInfo {
                opr: OPS::ROR,
                mode: ADDR_MODE::ABSOLUTE,
                cycles: 6,
                opcode: 0x6E,
                name: "ROR"@,
            }),
            0x7E => (InstrInfo {
                opr: OPS::ROR,
                mode: ADDR_MODE::ABSOLUTE_X,
                cycles: 7,
                opcode: 0x7E,
                name: "ROR"@,
            }),
            0x40 => (InstrInfo {
                opr: OPS::RTI,
                mode: ADDR_MODE::IMPLIED,
                cycles: 6,
                opcode: 0x40,
                name: "RTI"@,
            }),
            0x60 => (InstrInfo {
                opr: OPS::RTS,
                mode: ADDR_MODE::IMPLIED,
                cycles: 6,
                opcode: 0x60,
                name: "RTS"@,
            }),
            0xE9 => (InstrInfo {
                opr: OPS::SBC,
                mode: ADDR_MODE::IMMEDIATE,
                cycles: 2,
                opcode: 0xE9,
                name: "SBC"@,
            }),
            0xE5 => (InstrInfo {
                opr: OPS::SBC,
                mode: ADDR_MODE::ZERO_PAGE,
                cycles: 3,
                opcode: 0xE5,
                name: "SBC"@,
            }),
            0xF5 => (InstrInfo {
                opr: OPS::SBC,
                mode: ADDR_MODE::ZERO_PAGE_X,
                cycles: 4,
                opcode: 0xF5,
                name: "SBC"@,
            }),
            0xED => (InstrInfo {
                opr: OPS::SBC,
                mode: ADDR_MODE::ABSOLUTE,
                cycles: 4,
                opcode: 0xED,
                name: "SBC"@,
            }),
            0xFD => (InstrInfo {
                opr: OPS::SBC,
                mode: ADDR_MODE::ABSOLUTE_X,
                cycles: 4,
                opcode: 0xFD,
                name: "SBC"@,
            }),
            0xF9 => (InstrInfo {
                opr: OPS::SBC,
                mode: ADDR_MODE::ABSOLUTE_Y,
                cycles: 4,
                opcode: 0xF9,
                name: "SBC"@,
            }),
            0xE1 => (InstrInfo {
                opr: OPS::SBC,
                mode: ADDR_MODE::INDIRECT_X,
                cycles: 6,
                opcode: 0xE1,
                name: "SBC"@,
            }),
            0xF1 => (InstrInfo {
                opr: OPS::SBC,
                mode: ADDR_MODE::INDIRECT_Y,
                cycles: 5,
                opcode: 0xF1,
                name: "SBC"@,
            }),
            0x38 => (InstrInfo {
                opr: OPS::SEC,
                mode: ADDR_MODE::IMPLIED,
                cycles: 2,
                opcode: 0x38,
                name: "SEC"@,
            }),
            0xF8 => (InstrInfo {
                opr: OPS::SED,
                mode: ADDR_MODE::IMPLIED,
                cycles: 2,
                opcode: 0xF8,
                name: "SED"@,
            }),
            0x78 => (InstrInfo {
                opr: OPS::SEI,
                mode: ADDR_MODE::IMPLIED,
                cycles: 2,
                opcode: 0x78,
                name: "SEI"@,
            }),
            0x85 => (InstrInfo {
                opr: OPS::STA,
                mode: ADDR_MODE::ZERO_PAGE,
                cycles: 3,
                opcode: 0x85,
                name: "STA"@,
            }),
            0x95 => (InstrInfo {
                opr: OPS::STA,
                mode: ADDR_MODE::ZERO_PAGE_X,
                cycles: 4,
                opcode: 0x95,
                name: "STA"@,
            }),
            0x8D => (InstrInfo {
                opr: OPS::STA,
                mode: ADDR_MODE::ABSOLUTE,
                cycles: 4,
                opcode: 0x8D,
                name: "STA"@,
            }),
            0x9D => (InstrInfo {
                opr: OPS::STA,
                mode: ADDR_MODE::ABSOLUTE_X,
                cycles: 5,
                opcode: 0x9D,
                name: "STA"@,
            }),
            0x99 => (InstrInfo {
                opr: OPS::STA,
                mode: ADDR_MODE::ABSOLUTE_Y,
                cycles: 5,
                opcode: 0x99,
                name: "STA"@,
            }),
            0x81 => (InstrInfo {
                opr: OPS::STA,
                mode: ADDR_MODE::INDIRECT_X,
                cycles: 6,
                opcode: 0x81,
                name: "STA"@,
            }),
            0x91 => (InstrInfo {
                opr: OPS::STA,
                mode: ADDR_MODE::INDIRECT_Y,
                cycles: 6,
                opcode: 0x91,
                name: "STA"@,
            }),
            0x86 => (InstrInfo {
                opr: OPS::STX,
                mode: ADDR_MODE::ZERO_PAGE,
                cycles: 3,
                opcode: 0x86,
                name: "STX"@,
            }),
            0x96 => (InstrInfo {
                opr: OPS::STX,
                mode: ADDR_MODE::ZERO_PAGE_Y,
                cycles: 4,
                opcode: 0x96,
                name: "STX"@,
            }),
            0x8E => (InstrInfo {
                opr: OPS::STX,
                mode: ADDR_MODE::ABSOLUTE,
                cycles: 4,
                opcode: 0x8E,
                name: "STX"@,
            }),
            0x84 => (InstrInfo {
                opr: OPS::STY,
                mode: ADDR_MODE::ZERO_PAGE,
                cycles: 3,
                opcode: 0x84,
                name: "STY"@,
            }),
            0x94 => (InstrInfo {
                opr: OPS::STY,
                mode: ADDR_MODE::ZERO_PAGE_X,
                cycles: 4,
                opcode: 0x94,
                name: "STY"@,
            }),
            0x8C => (InstrInfo {
                opr: OPS::STY,
                mode: ADDR_MODE::ABSOLUTE,
                cycles: 4,
                opcode: 0x8C,
                name: "STY"@,
            }),
            0xAA => (InstrInfo {
                opr: OPS::TAX,
                mode: ADDR_MODE::IMPLIED,
                cycles: 2,
                opcode: 0xAA,
                name: "TAX"@,
            }),
            0xA8 => (InstrInfo {
                opr: OPS::TAY,
                mode: ADDR_MODE::IMPLIED,
                cycles: 2,
                opcode: 0xA8,
                name: "TAY"@,
            }),
            0xBA => (InstrInfo {
                opr: OPS::TSX,
                mode: ADDR_MODE::IMPLIED,
                cycles: 2,
                opcode: 0xBA,
                name: "TSX"@,
            }),
            0x8A => (InstrInfo {
                opr: OPS::TXA,
                mode: ADDR_MODE::IMPLIED,
                cycles: 2,
                opcode: 0x8A,
                name: "TXA"@,
            }),
            0x9A => (InstrInfo {
                opr: OPS::TXS,
                mode: ADDR_MODE::IMPLIED,
                cycles: 2,
                opcode: 0x9A,
                name: "TXS"@,
            }),
            0x98 => (InstrInfo {
                opr: OPS::TYA,
                mode: ADDR_MODE::IMPLIED,
                cycles: 2,
                opcode: 0x98,
                name: "TYA"@,
            }),
            _ => (InstrInfo {
                opr: OPS::NOP,
                mode: ADDR_MODE::IMPLIED,
                cycles: 0,
                opcode: 0x00,
                name: "???"@,
            }),
        }
    }

/// Every base cycle count in the opcode table is at most seven, so adding the
/// extra-cycle signals (at most three) to it can never overflow the cycle
/// counter.
pub proof fn lemma_decode_cycles(op: u8)
    ensures
        decode_info(op).cycles <= 7,
{
}

/// Whether a descriptor is the image of `decode_info(op)`.
pub open spec fn is_decode_of(r: Instruction, op: u8) -> bool {
    &&& r.opr == decode_info(op).opr
    &&& r.addr_mode == decode_info(op).mode
    &&& r.cycles == decode_info(op).cycles
    &&& r.opcode == decode_info(op).opcode
    &&& r.name@ == decode_info(op).name
}

impl Instruction {
    /// The placeholder descriptor a freshly constructed processor carries
    /// before its first fetch: the reserved operation tag with no addressing
    /// mode.
    pub fn default() -> (r: Instruction)
        ensures
            r.opr == OPS::XXX,
            r.addr_mode == ADDR_MODE::NONE,
            r.cycles == 0,
            r.opcode == 0x00,
            r.name@ == "NO NAME"@,
    {
        Instruction {
            name: "NO NAME",
            opcode: 0x00,
            opr: OPS::XXX,
            addr_mode: ADDR_MODE::NONE,
            cycles: 0,
        }
    }

    /// Decodes one opcode byte. Total: every input yields a descriptor, and
    /// the result agrees with `decode_info` in every field.
    pub fn from_op_code(op_code: u8) -> (r: Instruction)
        ensures
            is_decode_of(r, op_code),
    {
        match op_code {
            0x69 => Instruction {
                name: "ADC",
                opcode: 0x69,
                opr: OPS::ADC,
                addr_mode: ADDR_MODE::IMMEDIATE,
                cycles: 2,
            },
            0x65 => Instruction {
                name: "ADC",
                opcode: 0x65,
                opr: OPS::ADC,
                addr_mode: ADDR_MODE::ZERO_PAGE,
                cycles: 3,
            },
            0x75 => Instruction {
                name: "ADC",
                opcode: 0x75,
                opr: OPS::ADC,
                addr_mode: ADDR_MODE::ZERO_PAGE_X,
                cycles: 4,
            },
            0x6D => Instruction {
                name: "ADC",
                opcode: 0x6D,
                opr: OPS::ADC,
                addr_mode: ADDR_MODE::ABSOLUTE,
                cycles: 4,
            },
            0x7D => Instruction {
                name: "ADC",
                opcode: 0x7D,
                opr: OPS::ADC,
                addr_mode: ADDR_MODE::ABSOLUTE_X,
                cycles: 4,
            },
            0x79 => Instruction {
                name: "ADC",
                opcode: 0x79,
                opr: OPS::ADC,
                addr_mode: ADDR_MODE::ABSOLUTE_Y,
                cycles: 4,
            },
            0x61 => Instruction {
                name: "ADC",
                opcode: 0x61,
                opr: OPS::ADC,
                addr_mode: ADDR_MODE::INDIRECT_X,
                cycles: 6,
            },
            0x71 => Instruction {
                name: "ADC",
                opcode: 0x71,
                opr: OPS::ADC,
                addr_mode: ADDR_MODE::INDIRECT_Y,
                cycles: 5,
            },
            0x29 => Instruction {
                name: "AND",
                opcode: 0x29,
                opr: OPS::AND,
                addr_mode: ADDR_MODE::IMMEDIATE,
                cycles: 2,
            },
            0x25 => Instruction {
                name: "AND",
                opcode: 0x25,
                opr: OPS::AND,
                addr_mode: ADDR_MODE::ZERO_PAGE,
                cycles: 3,
            },
            0x35 => Instruction {
                name: "AND",
                opcode: 0x35,
                opr: OPS::AND,
                addr_mode: ADDR_MODE::ZERO_PAGE_X,
                cycles: 4,
            },
            0x2D => Instruction {
                name: "AND",
                opcode: 0x2D,
                opr: OPS::AND,
                addr_mode: ADDR_MODE::ABSOLUTE,
                cycles: 4,
            },
            0x3D => Instruction {
                name: "AND",
                opcode: 0x3D,
                opr: OPS::AND,
                addr_mode: ADDR_MODE::ABSOLUTE_X,
                cycles: 4,
            },
            0x39 => Instruction {
                name: "AND",
                opcode: 0x39,
                opr: OPS::AND,
                addr_mode: ADDR_MODE::ABSOLUTE_Y,
                cycles: 4,
            },
            0x21 => Instruction {
                name: "AND",
                opcode: 0x21,
                opr: OPS::AND,
                addr_mode: ADDR_MODE::INDIRECT_X,
                cycles: 6,
            },
            0x31 => Instruction {
                name: "AND",
                opcode: 0x31,
                opr: OPS::AND,
                addr_mode: ADDR_MODE::INDIRECT_Y,
                cycles: 5,
            },
            0x0A => Instruction {
                name: "ASL",
                opcode: 0x0A,
                opr: OPS::ASL,
                addr_mode: ADDR_MODE::IMPLIED,
                cycles: 2,
            },
            0x06 => Instruction {
                name: "ASL",
                opcode: 0x06,
                opr: OPS::ASL,
                addr_mode: ADDR_MODE::ZERO_PAGE,
                cycles: 5,
            },
            0x16 => Instruction {
                name: "ASL",
                opcode: 0x16,
                opr: OPS::ASL,
                addr_mode: ADDR_MODE::ZERO_PAGE_X,
                cycles: 6,
            },
            0x0E => Instruction {
                name: "ASL",
                opcode: 0x0E,
                opr: OPS::ASL,
                addr_mode: ADDR_MODE::ABSOLUTE,
                cycles: 6,
            },
            0x1E => Instruction {
                name: "ASL",
                opcode: 0x1E,
                opr: OPS::ASL,
                addr_mode: ADDR_MODE::ABSOLUTE_X,
                cycles: 7,
            },
            0x90 => Instruction {
                name: "BCC",
                opcode: 0x90,
                opr: OPS::BCC,
                addr_mode: ADDR_MODE::RELATIVE,
                cycles: 2,
            },
            0xB0 => Instruction {
                name: "BCS",
                opcode: 0xB0,
                opr: OPS::BCS,
                addr_mode: ADDR_MODE::RELATIVE,
                cycles: 2,
            },
            0xF0 => Instruction {
                name: "BEQ",
                opcode: 0xF0,
                opr: OPS::BEQ,
                addr_mode: ADDR_MODE::RELATIVE,
                cycles: 2,
            },
            0x24 => Instruction {
                name: "BIT",
                opcode: 0x24,
                opr: OPS::BIT,
                addr_mode: ADDR_MODE::ZERO_PAGE,
                cycles: 3,
            },
            0x2C => Instruction {
                name: "BIT",
                opcode: 0x2C,
                opr: OPS::BIT,
                addr_mode: ADDR_MODE::ABSOLUTE,
                cycles: 4,
            },
            0x30 => Instruction {
                name: "BMI",
                opcode: 0x30,
                opr: OPS::BMI,
                addr_mode: ADDR_MODE::RELATIVE,
                cycles: 2,
            },
            0xD0 => Instruction {
                name: "BNE",
                opcode: 0xD0,
                opr: OPS::BNE,
                addr_mode: ADDR_MODE::RELATIVE,
                cycles: 2,
            },
            0x10 => Instruction {
                name: "BPL",
                opcode: 0x10,
                opr: OPS::BPL,
                addr_mode: ADDR_MODE::RELATIVE,
                cycles: 2,
            },
            0x00 => Instruction {
                name: "BRK",
                opcode: 0x00,
                opr: OPS::BRK,
                addr_mode: ADDR_MODE::IMPLIED,
                cycles: 7,
            },
            0x50 => Instruction {
                name: "BVC",
                opcode: 0x50,
                opr: OPS::BVC,
                addr_mode: ADDR_MODE::RELATIVE,
                cycles: 2,
            },
            0x70 => Instruction {
                name: "BVS",
                opcode: 0x70,
                opr: OPS::BVS,
                addr_mode: ADDR_MODE::RELATIVE,
                cycles: 2,
            },
            0x18 => Instruction {
                name: "CLC",
                opcode: 0x18,
                opr: OPS::CLC,
                addr_mode: ADDR_MODE::IMPLIED,
                cycles: 2,
            },
            0xD8 => Instruction {
                name: "CLD",
                opcode: 0xD8,
                opr: OPS::CLD,
                addr_mode: ADDR_MODE::IMPLIED,
                cycles: 2,
            },
            0x58 => Instruction {
                name: "CLI",
                opcode: 0x58,
                opr: OPS::CLI,
                addr_mode: ADDR_MODE::IMPLIED,
                cycles: 2,
            },
            0xB8 => Instruction {
                name: "CLV",
                opcode: 0xB8,
                opr: OPS::CLV,
                addr_mode: ADDR_MODE::IMPLIED,
                cycles: 2,
            },
            0xC9 => Instruction {
                name: "CMP",
                opcode: 0xC9,
                opr: OPS::CMP,
                addr_mode: ADDR_MODE::IMMEDIATE,
                cycles: 2,
            },
            0xC5 => Instruction {
                name: "CMP",
                opcode: 0xC5,
                opr: OPS::CMP,
                addr_mode: ADDR_MODE::ZERO_PAGE,
                cycles: 3,
            },
            0xD5 => Instruction {
                name: "CMP",
                opcode: 0xD5,
                opr: OPS::CMP,
                addr_mode: ADDR_MODE::ZERO_PAGE_X,
                cycles: 4,
            },
            0xCD => Instruction {
                name: "CMP",
                opcode: 0xCD,
                opr: OPS::CMP,
                addr_mode: ADDR_MODE::ABSOLUTE,
                cycles: 4,
            },
            0xDD => Instruction {
                name: "CMP",
                opcode: 0xDD,
                opr: OPS::CMP,
                addr_mode: ADDR_MODE::ABSOLUTE_X,
                cycles: 4,
            },
            0xD9 => Instruction {
                name: "CMP",
                opcode: 0xD9,
                opr: OPS::CMP,
                addr_mode: ADDR_MODE::ABSOLUTE_Y,
                cycles: 4,
            },
            0xC1 => Instruction {
                name: "CMP",
                opcode: 0xC1,
                opr: OPS::CMP,
                addr_mode: ADDR_MODE::INDIRECT_X,
                cycles: 6,
            },
            0xD1 => Instruction {
                name: "CMP",
                opcode: 0xD1,
                opr: OPS::CMP,
                addr_mode: ADDR_MODE::INDIRECT_Y,
                cycles: 5,
            },
            0xE0 => Instruction {
                name: "CPX",
                opcode: 0xE0,
                opr: OPS::CPX,
                addr_mode: ADDR_MODE::IMMEDIATE,
                cycles: 2,
            },
            0xE4 => Instruction {
                name: "CPX",
                opcode: 0xE4,
                opr: OPS::CPX,
                addr_mode: ADDR_MODE::ZERO_PAGE,
                cycles: 3,
            },
            0xEC => Instruction {
                name: "CPX",
                opcode: 0xEC,
                opr: OPS::CPX,
                addr_mode: ADDR_MODE::ABSOLUTE,
                cycles: 4,
            },
            0xC0 => Instruction {
                name: "CPY",
                opcode: 0xC0,
                opr: OPS::CPY,
                addr_mode: ADDR_MODE::IMMEDIATE,
                cycles: 2,
            },
            0xC4 => Instruction {
                name: "CPY",
                opcode: 0xC4,
                opr: OPS::CPY,
                addr_mode: ADDR_MODE::ZERO_PAGE,
                cycles: 3,
            },
            0xCC => Instruction {
                name: "CPY",
                opcode: 0xCC,
                opr: OPS::CPY,
                addr_mode: ADDR_MODE::ABSOLUTE,
                cycles: 4,
            },
            0xC6 => Instruction {
                name: "DEC",
                opcode: 0xC6,
                opr: OPS::DEC,
                addr_mode: ADDR_MODE::ZERO_PAGE,
                cycles: 5,
            },
            0xD6 => Instruction {
                name: "DEC",
                opcode: 0xD6,
                opr: OPS::DEC,
                addr_mode: ADDR_MODE::ZERO_PAGE_X,
                cycles: 6,
            },
            0xCE => Instruction {
                name: "DEC",
                opcode: 0xCE,
                opr: OPS::DEC,
                addr_mode: ADDR_MODE::ABSOLUTE,
                cycles: 6,
            },
            0xDE => Instruction {
                name: "DEC",
                opcode: 0xDE,
                opr: OPS::DEC,
                addr_mode: ADDR_MODE::ABSOLUTE_X,
                cycles: 7,
            },
            0xCA => Instruction {
                name: "DEX",
                opcode: 0xCA,
                opr: OPS::DEX,
                addr_mode: ADDR_MODE::IMPLIED,
                cycles: 2,
            },
            0x88 => Instruction {
                name: "DEY",
                opcode: 0x88,
                opr: OPS::DEY,
                addr_mode: ADDR_MODE::IMPLIED,
                cycles: 2,
            },
            0x49 => Instruction {
                name: "EOR",
                opcode: 0x49,
                opr: OPS::EOR,
                addr_mode: ADDR_MODE::IMMEDIATE,
                cycles: 2,
            },
            0x45 => Instruction {
                name: "EOR",
                opcode: 0x45,
                opr: OPS::EOR,
                addr_mode: ADDR_MODE::ZERO_PAGE,
                cycles: 3,
            },
            0x55 => Instruction {
                name: "EOR",
                opcode: 0x55,
                opr: OPS::EOR,
                addr_mode: ADDR_MODE::ZERO_PAGE_X,
                cycles: 4,
            },
            0x4D => Instruction {
                name: "EOR",
                opcode: 0x4D,
                opr: OPS::EOR,
                addr_mode: ADDR_MODE::ABSOLUTE,
                cycles: 4,
            },
            0x5D => Instruction {
                name: "EOR",
                opcode: 0x5D,
                opr: OPS::EOR,
                addr_mode: ADDR_MODE::ABSOLUTE_X,
                cycles: 4,
            },
            0x59 => Instruction {
                name: "EOR",
                opcode: 0x59,
                opr: OPS::EOR,
                addr_mode: ADDR_MODE::ABSOLUTE_Y,
                cycles: 4,
            },
            0x41 => Instruction {
                name: "EOR",
                opcode: 0x41,
                opr: OPS::EOR,
                addr_mode: ADDR_MODE::INDIRECT_X,
                cycles: 6,
            },
            0x51 => Instruction {
                name: "EOR",
                opcode: 0x51,
                opr: OPS::EOR,
                addr_mode: ADDR_MODE::INDIRECT_Y,
                cycles: 5,
            },
            0xE6 => Instruction {
                name: "INC",
                opcode: 0xE6,
                opr: OPS::INC,
                addr_mode: ADDR_MODE::ZERO_PAGE,
                cycles: 5,
            },
            0xF6 => Instruction {
                name: "INC",
                opcode: 0xF6,
                opr: OPS::INC,
                addr_mode: ADDR_MODE::ZERO_PAGE_X,
                cycles: 6,
            },
            0xEE => Instruction {
                name: "INC",
                opcode: 0xEE,
                opr: OPS::INC,
                addr_mode: ADDR_MODE::ABSOLUTE,
                cycles: 6,
            },
            0xFE => Instruction {
                name: "INC",
                opcode: 0xFE,
                opr: OPS::INC,
                addr_mode: ADDR_MODE::ABSOLUTE_X,
                cycles: 7,
            },
            0xE8 => Instruction {
                name: "INX",
                opcode: 0xE8,
                opr: OPS::INX,
                addr_mode: ADDR_MODE::IMPLIED,
                cycles: 2,
            },
            0xC8 => Instruction {
                name: "INY",
                opcode: 0xC8,
                opr: OPS::INY,
                addr_mode: ADDR_MODE::IMPLIED,
                cycles: 2,
            },
            0x4C => Instruction {
                name: "JMP",
                opcode: 0x4C,
                opr: OPS::JMP,
                addr_mode: ADDR_MODE::ABSOLUTE,
                cycles: 3,
            },
            0x6C => Instruction {
                name: "JMP",
                opcode: 0x6C,
                opr: OPS::JMP,
                addr_mode: ADDR_MODE::INDIRECT,
                cycles: 5,
            },
            0x20 => Instruction {
                name: "JSR",
                opcode: 0x20,
                opr: OPS::JSR,
                addr_mode: ADDR_MODE::ABSOLUTE,
                cycles: 6,
            },
            0xA9 => Instruction {
                name: "LDA",
                opcode: 0xA9,
                opr: OPS::LDA,
                addr_mode: ADDR_MODE::IMMEDIATE,
                cycles: 2,
            },
            0xA5 => Instruction {
                name: "LDA",
                opcode: 0xA5,
                opr: OPS::LDA,
                addr_mode: ADDR_MODE::ZERO_PAGE,
                cycles: 3,
            },
            0xB5 => Instruction {
                name: "LDA",
                opcode: 0xB5,
                opr: OPS::LDA,
                addr_mode: ADDR_MODE::ZERO_PAGE_X,
                cycles: 4,
            },
            0xAD => Instruction {
                name: "LDA",
                opcode: 0xAD,
                opr: OPS::LDA,
                addr_mode: ADDR_MODE::ABSOLUTE,
                cycles: 4,
            },
            0xBD => Instruction {
                name: "LDA",
                opcode: 0xBD,
                opr: OPS::LDA,
                addr_mode: ADDR_MODE::ABSOLUTE_X,
                cycles: 4,
            },
            0xB9 => Instruction {
                name: "LDA",
                opcode: 0xB9,
                opr: OPS::LDA,
                addr_mode: ADDR_MODE::ABSOLUTE_Y,
                cycles: 4,
            },
            0xA1 => Instruction {
                name: "LDA",
                opcode: 0xA1,
                opr: OPS::LDA,
                addr_mode: ADDR_MODE::INDIRECT_X,
                cycles: 6,
            },
            0xB1 => Instruction {
                name: "LDA",
                opcode: 0xB1,
                opr: OPS::LDA,
                addr_mode: ADDR_MODE::INDIRECT_Y,
                cycles: 5,
            },
            0xA2 => Instruction {
                name: "LDX",
                opcode: 0xA2,
                opr: OPS::LDX,
                addr_mode: ADDR_MODE::IMMEDIATE,
                cycles: 2,
            },
            0xA6 => Instruction {
                name: "LDX",
                opcode: 0xA6,
                opr: OPS::LDX,
                addr_mode: ADDR_MODE::ZERO_PAGE,
                cycles: 3,
            },
            0xB6 => Instruction {
                name: "LDX",
                opcode: 0xB6,
                opr: OPS::LDX,
                addr_mode: ADDR_MODE::ZERO_PAGE_Y,
                cycles: 4,
            },
            0xAE => Instruction {
                name: "LDX",
                opcode: 0xAE,
                opr: OPS::LDX,
                addr_mode: ADDR_MODE::ABSOLUTE,
                cycles: 4,
            },
            0xBE => Instruction {
                name: "LDX",
                opcode: 0xBE,
                opr: OPS::LDX,
                addr_mode: ADDR_MODE::ABSOLUTE_Y,
                cycles: 4,
            },
            0xA0 => Instruction {
                name: "LDY",
                opcode: 0xA0,
                opr: OPS::LDY,
                addr_mode: ADDR_MODE::IMMEDIATE,
                cycles: 2,
            },
            0xA4 => Instruction {
                name: "LDY",
                opcode: 0xA4,
                opr: OPS::LDY,
                addr_mode: ADDR_MODE::ZERO_PAGE,
                cycles: 3,
            },
            0xB4 => Instruction {
                name: "LDY",
                opcode: 0xB4,
                opr: OPS::LDY,
                addr_mode: ADDR_MODE::ZERO_PAGE_X,
                cycles: 4,
            },
            0xAC => Instruction {
                name: "LDY",
                opcode: 0xAC,
                opr: OPS::LDY,
                addr_mode: ADDR_MODE::ABSOLUTE,
                cycles: 4,
            },
            0xBC => Instruction {
                name: "LDY",
                opcode: 0xBC,
                opr: OPS::LDY,
                addr_mode: ADDR_MODE::ABSOLUTE_X,
                cycles: 4,
            },
            0x4A => Instruction {
                name: "LSR",
                opcode: 0x4A,
                opr: OPS::LSR,
                addr_mode: ADDR_MODE::IMPLIED,
                cycles: 2,
            },
            0x46 => Instruction {
                name: "LSR",
                opcode: 0x46,
                opr: OPS::LSR,
                addr_mode: ADDR_MODE::ZERO_PAGE,
                cycles: 5,
            },
            0x56 => Instruction {
                name: "LSR",
                opcode: 0x56,
                opr: OPS::LSR,
                addr_mode: ADDR_MODE::ZERO_PAGE_X,
                cycles: 6,
            },
            0x4E => Instruction {
                name: "LSR",
                opcode: 0x4E,
                opr: OPS::LSR,
                addr_mode: ADDR_MODE::ABSOLUTE,
                cycles: 6,
            },
            0x5E => Instruction {
                name: "LSR",
                opcode: 0x5E,
                opr: OPS::LSR,
                addr_mode: ADDR_MODE::ABSOLUTE_X,
                cycles: 7,
            },
            0xEA => Instruction {
                name: "NOP",
                opcode: 0xEA,
                opr: OPS::NOP,
                addr_mode: ADDR_MODE::IMPLIED,
                cycles: 2,
            },
            0x09 => Instruction {
                name: "ORA",
                opcode: 0x09,
                opr: OPS::ORA,
                addr_mode: ADDR_MODE::IMMEDIATE,
                cycles: 2,
            },
            0x05 => Instruction {
                name: "ORA",
                opcode: 0x05,
                opr: OPS::ORA,
                addr_mode: ADDR_MODE::ZERO_PAGE,
                cycles: 3,
            },
            0x15 => Instruction {
                name: "ORA",
                opcode: 0x15,
                opr: OPS::ORA,
                addr_mode: ADDR_MODE::ZERO_PAGE_X,
                cycles: 4,
            },
            0x0D => Instruction {
                name: "ORA",
                opcode: 0x0D,
                opr: OPS::ORA,
                addr_mode: ADDR_MODE::ABSOLUTE,
                cycles: 4,
            },
            0x1D => Instruction {
                name: "ORA",
                opcode: 0x1D,
                opr: OPS::ORA,
                addr_mode: ADDR_MODE::ABSOLUTE_X,
                cycles: 4,
            },
            0x19 => Instruction {
                name: "ORA",
                opcode: 0x19,
                opr: OPS::ORA,
                addr_mode: ADDR_MODE::ABSOLUTE_Y,
                cycles: 4,
            },
            0x01 => Instruction {
                name: "ORA",
                opcode: 0x01,
                opr: OPS::ORA,
                addr_mode: ADDR_MODE::INDIRECT_X,
                cycles: 6,
            },
            0x11 => Instruction {
                name: "ORA",
                opcode: 0x11,
                opr: OPS::ORA,
                addr_mode: ADDR_MODE::INDIRECT_Y,
                cycles: 5,
            },
            0x48 => Instruction {
                name: "PHA",
                opcode: 0x48,
                opr: OPS::PHA,
                addr_mode: ADDR_MODE::IMPLIED,
                cycles: 3,
            },
            0x08 => Instruction {
                name: "PHP",
                opcode: 0x08,
                opr: OPS::PHP,
                addr_mode: ADDR_MODE::IMPLIED,
                cycles: 3,
            },
            0x68 => Instruction {
                name: "PLA",
                opcode: 0x68,
                opr: OPS::PLA,
                addr_mode: ADDR_MODE::IMPLIED,
                cycles: 4,
            },
            0x28 => Instruction {
                name: "PLP",
                opcode: 0x28,
                opr: OPS::PLP,
                addr_mode: ADDR_MODE::IMPLIED,
                cycles: 4,
            },
            0x2A => Instruction {
                name: "ROL",
                opcode: 0x2A,
                opr: OPS::ROL,
                addr_mode: ADDR_MODE::IMPLIED,
                cycles: 2,
            },
            0x26 => Instruction {
                name: "ROL",
                opcode: 0x26,
                opr: OPS::ROL,
                addr_mode: ADDR_MODE::ZERO_PAGE,
                cycles: 5,
            },
            0x36 => Instruction {
                name: "ROL",
                opcode: 0x36,
                opr: OPS::ROL,
                addr_mode: ADDR_MODE::ZERO_PAGE_X,
                cycles: 6,
            },
            0x2E => Instruction {
                name: "ROL",
                opcode: 0x2E,
                opr: OPS::ROL,
                addr_mode: ADDR_MODE::ABSOLUTE,
                cycles: 6,
            },
            0x3E => Instruction {
                name: "ROL",
                opcode: 0x3E,
                opr: OPS::ROL,
                addr_mode: ADDR_MODE::ABSOLUTE_X,
                cycles: 7,
            },
            0x6A => Instruction {
                name: "ROR",
                opcode: 0x6A,
                opr: OPS::ROR,
                addr_mode: ADDR_MODE::IMPLIED,
                cycles: 2,
            },
            0x66 => Instruction {
                name: "ROR",
                opcode: 0x66,
                opr: OPS::ROR,
                addr_mode: ADDR_MODE::ZERO_PAGE,
                cycles: 5,
            },
            0x76 => Instruction {
                name: "ROR",
                opcode: 0x76,
                opr: OPS::ROR,
                addr_mode: ADDR_MODE::ZERO_PAGE_X,
                cycles: 6,
            },
            0x6E => Instruction {
                name: "ROR",
                opcode: 0x6E,
                opr: OPS::ROR,
                addr_mode: ADDR_MODE::ABSOLUTE,
                cycles: 6,
            },
            0x7E => Instruction {
                name: "ROR",
                opcode: 0x7E,
                opr: OPS::ROR,
                addr_mode: ADDR_MODE::ABSOLUTE_X,
                cycles: 7,
            },
            0x40 => Instruction {
                name: "RTI",
                opcode: 0x40,
                opr: OPS::RTI,
                addr_mode: ADDR_MODE::IMPLIED,
                cycles: 6,
            },
            0x60 => Instruction {
                name: "RTS",
                opcode: 0x60,
                opr: OPS::RTS,
                addr_mode: ADDR_MODE::IMPLIED,
                cycles: 6,
            },
            0xE9 => Instruction {
                name: "SBC",
                opcode: 0xE9,
                opr: OPS::SBC,
                addr_mode: ADDR_MODE::IMMEDIATE,
                cycles: 2,
            },
            0xE5 => Instruction {
                name: "SBC",
                opcode: 0xE5,
                opr: OPS::SBC,
                addr_mode: ADDR_MODE::ZERO_PAGE,
                cycles: 3,
            },
            0xF5 => Instruction {
                name: "SBC",
                opcode: 0xF5,
                opr: OPS::SBC,
                addr_mode: ADDR_MODE::ZERO_PAGE_X,
                cycles: 4,
            },
            0xED => Instruction {
                name: "SBC",
                opcode: 0xED,
                opr: OPS::SBC,
                addr_mode: ADDR_MODE::ABSOLUTE,
                cycles: 4,
            },
            0xFD => Instruction {
                name: "SBC",
                opcode: 0xFD,
                opr: OPS::SBC,
                addr_mode: ADDR_MODE::ABSOLUTE_X,
                cycles: 4,
            },
            0xF9 => Instruction {
                name: "SBC",
                opcode: 0xF9,
                opr: OPS::SBC,
                addr_mode: ADDR_MODE::ABSOLUTE_Y,
                cycles: 4,
            },
            0xE1 => Instruction {
                name: "SBC",
                opcode: 0xE1,
                opr: OPS::SBC,
                addr_mode: ADDR_MODE::INDIRECT_X,
                cycles: 6,
            },
            0xF1 => Instruction {
                name: "SBC",
                opcode: 0xF1,
                opr: OPS::SBC,
                addr_mode: ADDR_MODE::INDIRECT_Y,
                cycles: 5,
            },
            0x38 => Instruction {
                name: "SEC",
                opcode: 0x38,
                opr: OPS::SEC,
                addr_mode: ADDR_MODE::IMPLIED,
                cycles: 2,
            },
            0xF8 => Instruction {
                name: "SED",
                opcode: 0xF8,
                opr: OPS::SED,
                addr_mode: ADDR_MODE::IMPLIED,
                cycles: 2,
            },
            0x78 => Instruction {
                name: "SEI",
                opcode: 0x78,
                opr: OPS::SEI,
                addr_mode: ADDR_MODE::IMPLIED,
                cycles: 2,
            },
            0x85 => Instruction {
                name: "STA",
                opcode: 0x85,
                opr: OPS::STA,
                addr_mode: ADDR_MODE::ZERO_PAGE,
                cycles: 3,
            },
            0x95 => Instruction {
                name: "STA",
                opcode: 0x95,
                opr: OPS::STA,
                addr_mode: ADDR_MODE::ZERO_PAGE_X,
                cycles: 4,
            },
            0x8D => Instruction {
                name: "STA",
                opcode: 0x8D,
                opr: OPS::STA,
                addr_mode: ADDR_MODE::ABSOLUTE,
                cycles: 4,
            },
            0x9D => Instruction {
                name: "STA",
                opcode: 0x9D,
                opr: OPS::STA,
                addr_mode: ADDR_MODE::ABSOLUTE_X,
                cycles: 5,
            },
            0x99 => Instruction {
                name: "STA",
                opcode: 0x99,
                opr: OPS::STA,
                addr_mode: ADDR_MODE::ABSOLUTE_Y,
                cycles: 5,
            },
            0x81 => Instruction {
                name: "STA",
                opcode: 0x81,
                opr: OPS::STA,
                addr_mode: ADDR_MODE::INDIRECT_X,
                cycles: 6,
            },
            0x91 => Instruction {
                name: "STA",
                opcode: 0x91,
                opr: OPS::STA,
                addr_mode: ADDR_MODE::INDIRECT_Y,
                cycles: 6,
            },
            0x86 => Instruction {
                name: "STX",
                opcode: 0x86,
                opr: OPS::STX,
                addr_mode: ADDR_MODE::ZERO_PAGE,
                cycles: 3,
            },
            0x96 => Instruction {
                name: "STX",
                opcode: 0x96,
                opr: OPS::STX,
                addr_mode: ADDR_MODE::ZERO_PAGE_Y,
                cycles: 4,
            },
            0x8E => Instruction {
                name: "STX",
                opcode: 0x8E,
                opr: OPS::STX,
                addr_mode: ADDR_MODE::ABSOLUTE,
                cycles: 4,
            },
            0x84 => Instruction {
                name: "STY",
                opcode: 0x84,
                opr: OPS::STY,
                addr_mode: ADDR_MODE::ZERO_PAGE,
                cycles: 3,
            },
            0x94 => Instruction {
                name: "STY",
                opcode: 0x94,
                opr: OPS::STY,
                addr_mode: ADDR_MODE::ZERO_PAGE_X,
                cycles: 4,
            },
            0x8C => Instruction {
                name: "STY",
                opcode: 0x8C,
                opr: OPS::STY,
                addr_mode: ADDR_MODE::ABSOLUTE,
                cycles: 4,
            },
            0xAA => Instruction {
                name: "TAX",
                opcode: 0xAA,
                opr: OPS::TAX,
                addr_mode: ADDR_MODE::IMPLIED,
                cycles: 2,
            },
            0xA8 => Instruction {
                name: "TAY",
                opcode: 0xA8,
                opr: OPS::TAY,
                addr_mode: ADDR_MODE::IMPLIED,
                cycles: 2,
            },
            0xBA => Instruction {
                name: "TSX",
                opcode: 0xBA,
                opr: OPS::TSX,
                addr_mode: ADDR_MODE::IMPLIED,
                cycles: 2,
            },
            0x8A => Instruction {
                name: "TXA",
                opcode: 0x8A,
                opr: OPS::TXA,
                addr_mode: ADDR_MODE::IMPLIED,
                cycles: 2,
            },
            0x9A => Instruction {
                name: "TXS",
                opcode: 0x9A,
                opr: OPS::TXS,
                addr_mode: ADDR_MODE::IMPLIED,
                cycles: 2,
            },
            0x98 => Instruction {
                name: "TYA",
                opcode: 0x98,
                opr: OPS::TYA,
                addr_mode: ADDR_MODE::IMPLIED,
                cycles: 2,
            },
            _ => Instruction {
                name: "???",
                opcode: 0x00,
                opr: OPS::NOP,
                addr_mode: ADDR_MODE::IMPLIED,
                cycles: 0,
            },
        }
    }
}

// ---------------------------------------------------------------------------
// Addressing-mode resolvers. Each consumes the mode's operand bytes, leaves
// the effective address (or staged operand) in the working state, and returns
// the mode's extra-cycle signal.
// ---------------------------------------------------------------------------

/// Immediate mode: the operand is the next instruction byte.
pub fn imm(cpu: &mut CPU) -> (extra: u8)
    requires
        old(cpu).wf(),
    ensures
        final(cpu).wf(),
        final(cpu)@ == imm_spec(old(cpu)@).0,
        extra == imm_spec(old(cpu)@).1,
        final(cpu).curr_instruction == old(cpu).curr_instruction,
{
    cpu.working_addr = cpu.pc;
    cpu.pc = cpu.pc.wrapping_add(1);
    0x00
}

/// Implied mode: stages the accumulator as the operand.
pub fn imp(cpu: &mut CPU) -> (extra: u8)
    requires
        old(cpu).wf(),
    ensures
        final(cpu).wf(),
        final(cpu)@ == imp_spec(old(cpu)@).0,
        extra == imp_spec(old(cpu)@).1,
        final(cpu).curr_instruction == old(cpu).curr_instruction,
{
    cpu.working_data = cpu.reg_a;
    0x00
}

/// Zero page mode.
pub fn zp0(cpu: &mut CPU) -> (extra: u8)
    requires
        old(cpu).wf(),
    ensures
        final(cpu).wf(),
        final(cpu)@ == zp0_spec(old(cpu)@).0,
        extra == zp0_spec(old(cpu)@).1,
        final(cpu).curr_instruction == old(cpu).curr_instruction,
{
    cpu.working_addr = cpu.fetch() as u16;
    0x00
}

/// Zero page mode indexed by X: wraps within page zero.
pub fn zpx(cpu: &mut CPU) -> (extra: u8)
    requires
        old(cpu).wf(),
    ensures
        final(cpu).wf(),
        final(cpu)@ == zpx_spec(old(cpu)@).0,
        extra == zpx_spec(old(cpu)@).1,
        final(cpu).curr_instruction == old(cpu).curr_instruction,
{
    cpu.working_addr = (cpu.fetch() as u16 + cpu.reg_x as u16) & 0x00FF;
    0x00
}

/// Zero page mode indexed by Y: wraps within page zero.
pub fn zpy(cpu: &mut CPU) -> (extra: u8)
    requires
        old(cpu).wf(),
    ensures
        final(cpu).wf(),
        final(cpu)@ == zpy_spec(old(cpu)@).0,
        extra == zpy_spec(old(cpu)@).1,
        final(cpu).curr_instruction == old(cpu).curr_instruction,
{
    cpu.working_addr = (cpu.fetch() as u16 + cpu.reg_y as u16) & 0x00FF;
    0x00
}

/// Absolute mode: the next two bytes, low byte first.
pub fn abs(cpu: &mut CPU) -> (extra: u8)
    requires
        old(cpu).wf(),
    ensures
        final(cpu).wf(),
        final(cpu)@ == abs_spec(old(cpu)@).0,
        extra == abs_spec(old(cpu)@).1,
        final(cpu).curr_instruction == old(cpu).curr_instruction,
{
    cpu.working_addr = cpu.fetch_word();
    0x00
}

/// Absolute mode indexed by X: a full 16-bit add, signalling one extra
/// cycle when it crosses a page boundary.
pub fn abx(cpu: &mut CPU) -> (extra: u8)
    requires
        old(cpu).wf(),
    ensures
        final(cpu).wf(),
        final(cpu)@ == abx_spec(old(cpu)@).0,
        extra == abx_spec(old(cpu)@).1,
        final(cpu).curr_instruction == old(cpu).curr_instruction,
{
    let addr = cpu.fetch_word();
    cpu.working_addr = addr.wrapping_add(cpu.reg_x as u16);

    if (addr & 0xFF00) != (0xFF00 & cpu.working_addr) {
        0x01
    } else {
        0x00
    }
}

/// Absolute mode indexed by Y: a full 16-bit add, signalling one extra
/// cycle when it crosses a page boundary.
pub fn aby(cpu: &mut CPU) -> (extra: u8)
    requires
        old(cpu).wf(),
    ensures
        final(cpu).wf(),
        final(cpu)@ == aby_spec(old(cpu)@).0,
        extra == aby_spec(old(cpu)@).1,
        final(cpu).curr_instruction == old(cpu).curr_instruction,
{
    let addr = cpu.fetch_word();
    cpu.working_addr = addr.wrapping_add(cpu.reg_y as u16);

    if (addr & 0xFF00) != (0xFF00 & cpu.working_addr) {
        0x01
    } else {
        0x00
    }
}

/// Indirect mode (jump only), reproducing the page-boundary hardware defect:
/// a pointer whose low byte is 0xFF takes its high byte from the start of the
/// same page.
pub fn ind(cpu: &mut CPU) -> (extra: u8)
    requires
        old(cpu).wf(),
    ensures
        final(cpu).wf(),
        final(cpu)@ == ind_spec(old(cpu)@).0,
        extra == ind_spec(old(cpu)@).1,
        final(cpu).curr_instruction == old(cpu).curr_instruction,
{
    let addr = cpu.fetch_word();
    if addr & 0x00FF == 0x00FF {
        cpu.working_addr = cpu.mem.read(addr) as u16 | ((cpu.mem.read(addr & 0xFF00) as u16)
            << 8);
    } else {
        cpu.working_addr = cpu.mem.read(addr) as u16 | ((cpu.mem.read(addr.wrapping_add(1))
            as u16) << 8);
    }
    0x00
}

/// Indexed indirect mode: the zero-page pointer and its successor both wrap
/// within page zero.
pub fn izx(cpu: &mut CPU) -> (extra: u8)
    requires
        old(cpu).wf(),
    ensures
        final(cpu).wf(),
        final(cpu)@ == izx_spec(old(cpu)@).0,
        extra == izx_spec(old(cpu)@).1,
        final(cpu).curr_instruction == old(cpu).curr_instruction,
{
    let addr = cpu.fetch() as u16;
    let lo = cpu.mem.read((addr + cpu.reg_x as u16) & 0x00FF) as u16;
    let hi = cpu.mem.read((addr + cpu.reg_x as u16 + 1) & 0x00FF) as u16;
    cpu.working_addr = lo | (hi << 8);
    0x00
}

/// Indirect indexed mode: one extra cycle when adding Y to the base crosses
/// a page boundary.
pub fn izy(cpu: &mut CPU) -> (extra: u8)
    requires
        old(cpu).wf(),
    ensures
        final(cpu).wf(),
        final(cpu)@ == izy_spec(old(cpu)@).0,
        extra == izy_spec(old(cpu)@).1,
        final(cpu).curr_instruction == old(cpu).curr_instruction,
{
    let addr = cpu.fetch() as u16;
    let lo = cpu.mem.read(addr & 0x00FF) as u16;
    let hi = cpu.mem.read((addr + 1) & 0x00FF) as u16;
    let base = lo | (hi << 8);
    cpu.working_addr = base.wrapping_add(cpu.reg_y as u16);

    if (base & 0xFF00) != (0xFF00 & cpu.working_addr) {
        0x01
    } else {
        0x00
    }
}

/// Relative mode: fetches the signed 8-bit offset and stores it
/// sign-extended; only branch operations apply it.
pub fn rel(cpu: &mut CPU) -> (extra: u8)
    requires
        old(cpu).wf(),
    ensures
        final(cpu).wf(),
        final(cpu)@ == rel_spec(old(cpu)@).0,
        extra == rel_spec(old(cpu)@).1,
        final(cpu).curr_instruction == old(cpu).curr_instruction,
{
    let off = cpu.fetch() as u16;
    if off & 0x80 == 0x80 {
        cpu.rel_working_addr = off | 0xFF00;
    } else {
        cpu.rel_working_addr = off;
    }
    0x00
}

// ---------------------------------------------------------------------------
// Operations. Each applies its semantics to registers, flags and memory and
// returns the operation's extra-cycle signal.
// ---------------------------------------------------------------------------

/// Bitwise AND with the accumulator.
pub fn and(cpu: &mut CPU) -> (extra: u8)
    requires
        old(cpu).wf(),
    ensures
        final(cpu).wf(),
        final(cpu)@ == and_spec(old(cpu)@).0,
        extra == and_spec(old(cpu)@).1,
        final(cpu).curr_instruction == old(cpu).curr_instruction,
{
    cpu.fill_working_data();
    cpu.reg_a = cpu.reg_a & cpu.working_data;

    if cpu.reg_a == 0x00 {
        cpu.status.set_flag(Flag::Z);
    } else {
        cpu.status.clear_flag(Flag::Z);
    }
    if cpu.reg_a & 0x80 == 0x80 {
        cpu.status.set_flag(Flag::N);
    } else {
        cpu.status.clear_flag(Flag::N);
    }
    0x01
}

/// Arithmetic shift left of the accumulator or the addressed byte.
pub fn asl(cpu: &mut CPU) -> (extra: u8)
    requires
        old(cpu).wf(),
    ensures
        final(cpu).wf(),
        final(cpu)@ == asl_spec(old(cpu)@).0,
        extra == asl_spec(old(cpu)@).1,
        final(cpu).curr_instruction == old(cpu).curr_instruction,
{
    cpu.fill_working_data();
    let mut data = cpu.working_data;

    if data & 0x80 == 0x80 {
        cpu.status.set_flag(Flag::C);
    } else {
        cpu.status.clear_flag(Flag::C);
    }

    data = data << 1;

    if data == 0x00 {
        cpu.status.set_flag(Flag::Z);
    } else {
        cpu.status.clear_flag(Flag::Z);
    }
    if data & 0x80 == 0x80 {
        cpu.status.set_flag(Flag::N);
    } else {
        cpu.status.clear_flag(Flag::N);
    }

    if cpu.curr_instruction.addr_mode == ADDR_MODE::IMPLIED {
        cpu.reg_a = data;
    } else {
        cpu.mem.write(cpu.working_addr, data);
    }
    0x00
}

/// Branch when Carry is set: one extra cycle when taken, a further one when the target lies on
/// a different page.
pub fn bcs(cpu: &mut CPU) -> (extra: u8)
    requires
        old(cpu).wf(),
    ensures
        final(cpu).wf(),
        final(cpu)@ == branch_spec(old(cpu)@, FLAG_C, true).0,
        extra == branch_spec(old(cpu)@, FLAG_C, true).1,
        final(cpu).curr_instruction == old(cpu).curr_instruction,
{
    if cpu.status.is_flag_set(Flag::C) {
        let mut cycles: u8 = 1;
        let addr = cpu.pc.wrapping_add(cpu.rel_working_addr);

        if (addr & 0xFF00) != (cpu.pc & 0xFF00) {
            cycles = cycles + 1;
        }

        cpu.pc = addr;
        return cycles;
    }
    0x00
}

/// Branch when Carry is clear: one extra cycle when taken, a further one when the target lies on
/// a different page.
pub fn bcc(cpu: &mut CPU) -> (extra: u8)
    requires
        old(cpu).wf(),
    ensures
        final(cpu).wf(),
        final(cpu)@ == branch_spec(old(cpu)@, FLAG_C, false).0,
        extra == branch_spec(old(cpu)@, FLAG_C, false).1,
        final(cpu).curr_instruction == old(cpu).curr_instruction,
{
    if !cpu.status.is_flag_set(Flag::C) {
        let mut cycles: u8 = 1;
        let addr = cpu.pc.wrapping_add(cpu.rel_working_addr);

        if (addr & 0xFF00) != (cpu.pc & 0xFF00) {
            cycles = cycles + 1;
        }

        cpu.pc = addr;
        return cycles;
    }
    0x00
}

/// Branch when Zero is set (equal): one extra cycle when taken, a further one when the target lies on
/// a different page.
pub fn beq(cpu: &mut CPU) -> (extra: u8)
    requires
        old(cpu).wf(),
    ensures
        final(cpu).wf(),
        final(cpu)@ == branch_spec(old(cpu)@, FLAG_Z, true).0,
        extra == branch_spec(old(cpu)@, FLAG_Z, true).1,
        final(cpu).curr_instruction == old(cpu).curr_instruction,
{
    if cpu.status.is_flag_set(Flag::Z) {
        let mut cycles: u8 = 1;
        let addr = cpu.pc.wrapping_add(cpu.rel_working_addr);

        if (addr & 0xFF00) != (cpu.pc & 0xFF00) {
            cycles = cycles + 1;
        }

        cpu.pc = addr;
        return cycles;
    }
    0x00
}

/// Branch when Negative is set (minus): one extra cycle when taken, a further one when the target lies on
/// a different page.
pub fn bmi(cpu: &mut CPU) -> (extra: u8)
    requires
        old(cpu).wf(),
    ensures
        final(cpu).wf(),
        final(cpu)@ == branch_spec(old(cpu)@, FLAG_N, true).0,
        extra == branch_spec(old(cpu)@, FLAG_N, true).1,
        final(cpu).curr_instruction == old(cpu).curr_instruction,
{
    if cpu.status.is_flag_set(Flag::N) {
        let mut cycles: u8 = 1;
        let addr = cpu.pc.wrapping_add(cpu.rel_working_addr);

        if (addr & 0xFF00) != (cpu.pc & 0xFF00) {
            cycles = cycles + 1;
        }

        cpu.pc = addr;
        return cycles;
    }
    0x00
}

/// Branch when Zero is clear (not equal): one extra cycle when taken, a further one when the target lies on
/// a different page.
pub fn bne(cpu: &mut CPU) -> (extra: u8)
    requires
        old(cpu).wf(),
    ensures
        final(cpu).wf(),
        final(cpu)@ == branch_spec(old(cpu)@, FLAG_Z, false).0,
        extra == branch_spec(old(cpu)@, FLAG_Z, false).1,
        final(cpu).curr_instruction == old(cpu).curr_instruction,
{
    if !cpu.status.is_flag_set(Flag::Z) {
        let mut cycles: u8 = 1;
        let addr = cpu.pc.wrapping_add(cpu.rel_working_addr);

        if (addr & 0xFF00) != (cpu.pc & 0xFF00) {
            cycles = cycles + 1;
        }

        cpu.pc = addr;
        return cycles;
    }
    0x00
}

/// Branch when Negative is clear (plus): one extra cycle when taken, a further one when the target lies on
/// a different page.
pub fn bpl(cpu: &mut CPU) -> (extra: u8)
    requires
        old(cpu).wf(),
    ensures
        final(cpu).wf(),
        final(cpu)@ == branch_spec(old(cpu)@, FLAG_N, false).0,
        extra == branch_spec(old(cpu)@, FLAG_N, false).1,
        final(cpu).curr_instruction == old(cpu).curr_instruction,
{
    if !cpu.status.is_flag_set(Flag::N) {
        let mut cycles: u8 = 1;
        let addr = cpu.pc.wrapping_add(cpu.rel_working_addr);

        if (addr & 0xFF00) != (cpu.pc & 0xFF00) {
            cycles = cycles + 1;
        }

        cpu.pc = addr;
        return cycles;
    }
    0x00
}

/// Branch when Overflow is clear: one extra cycle when taken, a further one when the target lies on
/// a different page.
pub fn bvc(cpu: &mut CPU) -> (extra: u8)
    requires
        old(cpu).wf(),
    ensures
        final(cpu).wf(),
        final(cpu)@ == branch_spec(old(cpu)@, FLAG_V, false).0,
        extra == branch_spec(old(cpu)@, FLAG_V, false).1,
        final(cpu).curr_instruction == old(cpu).curr_instruction,
{
    if !cpu.status.is_flag_set(Flag::V) {
        let mut cycles: u8 = 1;
        let addr = cpu.pc.wrapping_add(cpu.rel_working_addr);

        if (addr & 0xFF00) != (cpu.pc & 0xFF00) {
            cycles = cycles + 1;
        }

        cpu.pc = addr;
        return cycles;
    }
    0x00
}

/// Branch when Overflow is set: one extra cycle when taken, a further one when the target lies on
/// a different page.
pub fn bvs(cpu: &mut CPU) -> (extra: u8)
    requires
        old(cpu).wf(),
    ensures
        final(cpu).wf(),
        final(cpu)@ == branch_spec(old(cpu)@, FLAG_V, true).0,
        extra == branch_spec(old(cpu)@, FLAG_V, true).1,
        final(cpu).curr_instruction == old(cpu).curr_instruction,
{
    if cpu.status.is_flag_set(Flag::V) {
        let mut cycles: u8 = 1;
        let addr = cpu.pc.wrapping_add(cpu.rel_working_addr);

        if (addr & 0xFF00) != (cpu.pc & 0xFF00) {
            cycles = cycles + 1;
        }

        cpu.pc = addr;
        return cycles;
    }
    0x00
}

/// Bit test: Negative and Overflow copy the operand's top bits; Zero reports
/// operand AND accumulator being zero; the accumulator is untouched.
pub fn bit(cpu: &mut CPU) -> (extra: u8)
    requires
        old(cpu).wf(),
    ensures
        final(cpu).wf(),
        final(cpu)@ == bit_spec(old(cpu)@).0,
        extra == bit_spec(old(cpu)@).1,
        final(cpu).curr_instruction == old(cpu).curr_instruction,
{
    cpu.fill_working_data();
    let data = cpu.working_data;

    if data & 0x80 == 0x80 {
        cpu.status.set_flag(Flag::N);
    } else {
        cpu.status.clear_flag(Flag::N);
    }
    if data & 0x40 == 0x40 {
        cpu.status.set_flag(Flag::V);
    } else {
        cpu.status.clear_flag(Flag::V);
    }
    if data & cpu.reg_a == 0x00 {
        cpu.status.set_flag(Flag::Z);
    } else {
        cpu.status.clear_flag(Flag::Z);
    }
    0x00
}

/// Software interrupt: pushes the incremented program counter and the status
/// byte with Break and Unused forced set, masks interrupt requests, and jumps
/// through the interrupt vector.
pub fn brk(cpu: &mut CPU) -> (extra: u8)
    requires
        old(cpu).wf(),
    ensures
        final(cpu).wf(),
        final(cpu)@ == brk_spec(old(cpu)@).0,
        extra == brk_spec(old(cpu)@).1,
        final(cpu).curr_instruction == old(cpu).curr_instruction,
{
    cpu.pc = cpu.pc.wrapping_add(1);

    cpu.status.set_flag(Flag::B);
    cpu.status.set_flag(Flag::U);
    cpu.status.set_flag(Flag::I);

    cpu.mem.write(cpu.sp as u16 + 0x0100, (cpu.pc >> 8) as u8);
    cpu.sp = cpu.sp.wrapping_sub(1);
    cpu.mem.write(cpu.sp as u16 + 0x0100, cpu.pc as u8);
    cpu.sp = cpu.sp.wrapping_sub(1);
    cpu.mem.write(cpu.sp as u16 + 0x0100, cpu.status.bits);
    cpu.sp = cpu.sp.wrapping_sub(1);

    let lo = cpu.mem.read(0xFFFE) as u16;
    let hi = cpu.mem.read(0xFFFF) as u16;
    cpu.pc = (hi << 8) | lo;
    0x00
}

/// Clears the Carry flag.
pub fn clc(cpu: &mut CPU) -> (extra: u8)
    requires
        old(cpu).wf(),
    ensures
        final(cpu).wf(),
        final(cpu)@ == clear_spec(old(cpu)@, FLAG_C).0,
        extra == clear_spec(old(cpu)@, FLAG_C).1,
        final(cpu).curr_instruction == old(cpu).curr_instruction,
{
    cpu.status.clear_flag(Flag::C);
    0x00
}

/// Clears the Decimal flag.
pub fn cld(cpu: &mut CPU) -> (extra: u8)
    requires
        old(cpu).wf(),
    ensures
        final(cpu).wf(),
        final(cpu)@ == clear_spec(old(cpu)@, FLAG_D).0,
        extra == clear_spec(old(cpu)@, FLAG_D).1,
        final(cpu).curr_instruction == old(cpu).curr_instruction,
{
    cpu.status.clear_flag(Flag::D);
    0x00
}

/// Clears the Interrupt-disable flag.
pub fn cli(cpu: &mut CPU) -> (extra: u8)
    requires
        old(cpu).wf(),
    ensures
        final(cpu).wf(),
        final(cpu)@ == clear_spec(old(cpu)@, FLAG_I).0,
        extra == clear_spec(old(cpu)@, FLAG_I).1,
        final(cpu).curr_instruction == old(cpu).curr_instruction,
{
    cpu.status.clear_flag(Flag::I);
    0x00
}

/// Clears the Overflow flag.
pub fn clv(cpu: &mut CPU) -> (extra: u8)
    requires
        old(cpu).wf(),
    ensures
        final(cpu).wf(),
        final(cpu)@ == clear_spec(old(cpu)@, FLAG_V).0,
        extra == clear_spec(old(cpu)@, FLAG_V).1,
        final(cpu).curr_instruction == old(cpu).curr_instruction,
{
    cpu.status.clear_flag(Flag::V);
    0x00
}

/// Compares the accumulator with the operand: Carry reports register at least
/// operand, Negative and Zero track the wrapping difference.
pub fn cmp(cpu: &mut CPU) -> (extra: u8)
    requires
        old(cpu).wf(),
    ensures
        final(cpu).wf(),
        final(cpu)@ == cmp_spec(old(cpu)@).0,
        extra == cmp_spec(old(cpu)@).1,
        final(cpu).curr_instruction == old(cpu).curr_instruction,
{
    cpu.fill_working_data();
    let data = cpu.working_data;

    if cpu.reg_a >= data {
        cpu.status.set_flag(Flag::C);
    } else {
        cpu.status.clear_flag(Flag::C);
    }

    let temp = cpu.reg_a.wrapping_sub(data);

    if temp & 0x80 == 0x80 {
        cpu.status.set_flag(Flag::N);
    } else {
        cpu.status.clear_flag(Flag::N);
    }
    if temp == 0x00 {
        cpu.status.set_flag(Flag::Z);
    } else {
        cpu.status.clear_flag(Flag::Z);
    }
    0x01
}

/// Compares the X index register with the operand: Carry reports register at least
/// operand, Negative and Zero track the wrapping difference.
pub fn cpx(cpu: &mut CPU) -> (extra: u8)
    requires
        old(cpu).wf(),
    ensures
        final(cpu).wf(),
        final(cpu)@ == cpx_spec(old(cpu)@).0,
        extra == cpx_spec(old(cpu)@).1,
        final(cpu).curr_instruction == old(cpu).curr_instruction,
{
    cpu.fill_working_data();
    let data = cpu.working_data;

    if cpu.reg_x >= data {
        cpu.status.set_flag(Flag::C);
    } else {
        cpu.status.clear_flag(Flag::C);
    }

    let temp = cpu.reg_x.wrapping_sub(data);

    if temp & 0x80 == 0x80 {
        cpu.status.set_flag(Flag::N);
    } else {
        cpu.status.clear_flag(Flag::N);
    }
    if temp == 0x00 {
        cpu.status.set_flag(Flag::Z);
    } else {
        cpu.status.clear_flag(Flag::Z);
    }
    0x00
}

/// Compares the Y index register with the operand: Carry reports register at least
/// operand, Negative and Zero track the wrapping difference.
pub fn cpy(cpu: &mut CPU) -> (extra: u8)
    requires
        old(cpu).wf(),
    ensures
        final(cpu).wf(),
        final(cpu)@ == cpy_spec(old(cpu)@).0,
        extra == cpy_spec(old(cpu)@).1,
        final(cpu).curr_instruction == old(cpu).curr_instruction,
{
    cpu.fill_working_data();
    let data = cpu.working_data;

    if cpu.reg_y >= data {
        cpu.status.set_flag(Flag::C);
    } else {
        cpu.status.clear_flag(Flag::C);
    }

    let temp = cpu.reg_y.wrapping_sub(data);

    if temp & 0x80 == 0x80 {
        cpu.status.set_flag(Flag::N);
    } else {
        cpu.status.clear_flag(Flag::N);
    }
    if temp == 0x00 {
        cpu.status.set_flag(Flag::Z);
    } else {
        cpu.status.clear_flag(Flag::Z);
    }
    0x00
}

/// Wrapping decrement of the addressed memory byte; Negative and Zero track the
/// result.
pub fn dec(cpu: &mut CPU) -> (extra: u8)
    requires
        old(cpu).wf(),
    ensures
        final(cpu).wf(),
        final(cpu)@ == dec_spec(old(cpu)@).0,
        extra == dec_spec(old(cpu)@).1,
        final(cpu).curr_instruction == old(cpu).curr_instruction,
{
    cpu.fill_working_data();
    let temp = cpu.working_data.wrapping_sub(1);

    if temp & 0x80 == 0x80 {
        cpu.status.set_flag(Flag::N);
    } else {
        cpu.status.clear_flag(Flag::N);
    }
    if temp == 0x00 {
        cpu.status.set_flag(Flag::Z);
    } else {
        cpu.status.clear_flag(Flag::Z);
    }

    cpu.mem.write(cpu.working_addr, temp);
    0x00
}

/// Wrapping increment of the addressed memory byte; Negative and Zero track the
/// result.
pub fn inc(cpu: &mut CPU) -> (extra: u8)
    requires
        old(cpu).wf(),
    ensures
        final(cpu).wf(),
        final(cpu)@ == inc_spec(old(cpu)@).0,
        extra == inc_spec(old(cpu)@).1,
        final(cpu).curr_instruction == old(cpu).curr_instruction,
{
    cpu.fill_working_data();
    let temp = cpu.working_data.wrapping_add(1);

    if temp & 0x80 == 0x80 {
        cpu.status.set_flag(Flag::N);
    } else {
        cpu.status.clear_flag(Flag::N);
    }
    if temp == 0x00 {
        cpu.status.set_flag(Flag::Z);
    } else {
        cpu.status.clear_flag(Flag::Z);
    }

    cpu.mem.write(cpu.working_addr, temp);
    0x00
}

/// Wrapping decrement of the X index register.
pub fn dex(cpu: &mut CPU) -> (extra: u8)
    requires
        old(cpu).wf(),
    ensures
        final(cpu).wf(),
        final(cpu)@ == dex_spec(old(cpu)@).0,
        extra == dex_spec(old(cpu)@).1,
        final(cpu).curr_instruction == old(cpu).curr_instruction,
{
    cpu.reg_x = cpu.reg_x.wrapping_sub(1);

    if cpu.reg_x & 0x80 == 0x80 {
        cpu.status.set_flag(Flag::N);
    } else {
        cpu.status.clear_flag(Flag::N);
    }
    if cpu.reg_x == 0x00 {
        cpu.status.set_flag(Flag::Z);
    } else {
        cpu.status.clear_flag(Flag::Z);
    }
    0x00
}

/// Wrapping decrement of the Y index register.
pub fn dey(cpu: &mut CPU) -> (extra: u8)
    requires
        old(cpu).wf(),
    ensures
        final(cpu).wf(),
        final(cpu)@ == dey_spec(old(cpu)@).0,
        extra == dey_spec(old(cpu)@).1,
        final(cpu).curr_instruction == old(cpu).curr_instruction,
{
    cpu.reg_y = cpu.reg_y.wrapping_sub(1);

    if cpu.reg_y & 0x80 == 0x80 {
        cpu.status.set_flag(Flag::N);
    } else {
        cpu.status.clear_flag(Flag::N);
    }
    if cpu.reg_y == 0x00 {
        cpu.status.set_flag(Flag::Z);
    } else {
        cpu.status.clear_flag(Flag::Z);
    }
    0x00
}

/// Wrapping increment of the X index register.
pub fn inx(cpu: &mut CPU) -> (extra: u8)
    requires
        old(cpu).wf(),
    ensures
        final(cpu).wf(),
        final(cpu)@ == inx_spec(old(cpu)@).0,
        extra == inx_spec(old(cpu)@).1,
        final(cpu).curr_instruction == old(cpu).curr_instruction,
{
    cpu.reg_x = cpu.reg_x.wrapping_add(1);

    if cpu.reg_x & 0x80 == 0x80 {
        cpu.status.set_flag(Flag::N);
    } else {
        cpu.status.clear_flag(Flag::N);
    }
    if cpu.reg_x == 0x00 {
        cpu.status.set_flag(Flag::Z);
    } else {
        cpu.status.clear_flag(Flag::Z);
    }
    0x00
}

/// Wrapping increment of the Y index register.
pub fn iny(cpu: &mut CPU) -> (extra: u8)
    requires
        old(cpu).wf(),
    ensures
        final(cpu).wf(),
        final(cpu)@ == iny_spec(old(cpu)@).0,
        extra == iny_spec(old(cpu)@).1,
        final(cpu).curr_instruction == old(cpu).curr_instruction,
{
    cpu.reg_y = cpu.reg_y.wrapping_add(1);

    if cpu.reg_y & 0x80 == 0x80 {
        cpu.status.set_flag(Flag::N);
    } else {
        cpu.status.clear_flag(Flag::N);
    }
    if cpu.reg_y == 0x00 {
        cpu.status.set_flag(Flag::Z);
    } else {
        cpu.status.clear_flag(Flag::Z);
    }
    0x00
}

/// Bitwise exclusive OR with the accumulator.
pub fn eor(cpu: &mut CPU) -> (extra: u8)
    requires
        old(cpu).wf(),
    ensures
        final(cpu).wf(),
        final(cpu)@ == eor_spec(old(cpu)@).0,
        extra == eor_spec(old(cpu)@).1,
        final(cpu).curr_instruction == old(cpu).curr_instruction,
{
    cpu.fill_working_data();
    cpu.reg_a = cpu.reg_a ^ cpu.working_data;

    if cpu.reg_a & 0x80 == 0x80 {
        cpu.status.set_flag(Flag::N);
    } else {
        cpu.status.clear_flag(Flag::N);
    }
    if cpu.reg_a == 0x00 {
        cpu.status.set_flag(Flag::Z);
    } else {
        cpu.status.clear_flag(Flag::Z);
    }
    0x01
}

/// Bitwise inclusive OR with the accumulator.
pub fn ora(cpu: &mut CPU) -> (extra: u8)
    requires
        old(cpu).wf(),
    ensures
        final(cpu).wf(),
        final(cpu)@ == ora_spec(old(cpu)@).0,
        extra == ora_spec(old(cpu)@).1,
        final(cpu).curr_instruction == old(cpu).curr_instruction,
{
    cpu.fill_working_data();
    cpu.reg_a = cpu.reg_a | cpu.working_data;

    if cpu.reg_a & 0x80 == 0x80 {
        cpu.status.set_flag(Flag::N);
    } else {
        cpu.status.clear_flag(Flag::N);
    }
    if cpu.reg_a == 0x00 {
        cpu.status.set_flag(Flag::Z);
    } else {
        cpu.status.clear_flag(Flag::Z);
    }
    0x01
}

/// Jump: the program counter becomes the resolved address.
pub fn jmp(cpu: &mut CPU) -> (extra: u8)
    requires
        old(cpu).wf(),
    ensures
        final(cpu).wf(),
        final(cpu)@ == jmp_spec(old(cpu)@).0,
        extra == jmp_spec(old(cpu)@).1,
        final(cpu).curr_instruction == old(cpu).curr_instruction,
{
    cpu.pc = cpu.working_addr;
    0x00
}

/// Call: pushes the program counter minus one, high byte then low byte, then
/// jumps to the resolved address.
pub fn jsr(cpu: &mut CPU) -> (extra: u8)
    requires
        old(cpu).wf(),
    ensures
        final(cpu).wf(),
        final(cpu)@ == jsr_spec(old(cpu)@).0,
        extra == jsr_spec(old(cpu)@).1,
        final(cpu).curr_instruction == old(cpu).curr_instruction,
{
    let temp = cpu.pc.wrapping_sub(1);

    cpu.mem.write(cpu.sp as u16 + 0x0100, (temp >> 8) as u8);
    cpu.sp = cpu.sp.wrapping_sub(1);
    cpu.mem.write(cpu.sp as u16 + 0x0100, temp as u8);
    cpu.sp = cpu.sp.wrapping_sub(1);

    cpu.pc = cpu.working_addr;
    0x00
}

/// Loads the accumulator from the resolved operand; Negative and Zero track the
/// loaded value.
pub fn lda(cpu: &mut CPU) -> (extra: u8)
    requires
        old(cpu).wf(),
    ensures
        final(cpu).wf(),
        final(cpu)@ == lda_spec(old(cpu)@).0,
        extra == lda_spec(old(cpu)@).1,
        final(cpu).curr_instruction == old(cpu).curr_instruction,
{
    cpu.fill_working_data();
    cpu.reg_a = cpu.working_data;

    if cpu.reg_a & 0x80 == 0x80 {
        cpu.status.set_flag(Flag::N);
    } else {
        cpu.status.clear_flag(Flag::N);
    }
    if cpu.reg_a == 0x00 {
        cpu.status.set_flag(Flag::Z);
    } else {
        cpu.status.clear_flag(Flag::Z);
    }
    0x01
}

/// Loads the X index register from the resolved operand; Negative and Zero track the
/// loaded value.
pub fn ldx(cpu: &mut CPU) -> (extra: u8)
    requires
        old(cpu).wf(),
    ensures
        final(cpu).wf(),
        final(cpu)@ == ldx_spec(old(cpu)@).0,
        extra == ldx_spec(old(cpu)@).1,
        final(cpu).curr_instruction == old(cpu).curr_instruction,
{
    cpu.fill_working_data();
    cpu.reg_x = cpu.working_data;

    if cpu.reg_x & 0x80 == 0x80 {
        cpu.status.set_flag(Flag::N);
    } else {
        cpu.status.clear_flag(Flag::N);
    }
    if cpu.reg_x == 0x00 {
        cpu.status.set_flag(Flag::Z);
    } else {
        cpu.status.clear_flag(Flag::Z);
    }
    0x01
}

/// Loads the Y index register from the resolved operand; Negative and Zero track the
/// loaded value.
pub fn ldy(cpu: &mut CPU) -> (extra: u8)
    requires
        old(cpu).wf(),
    ensures
        final(cpu).wf(),
        final(cpu)@ == ldy_spec(old(cpu)@).0,
        extra == ldy_spec(old(cpu)@).1,
        final(cpu).curr_instruction == old(cpu).curr_instruction,
{
    cpu.fill_working_data();
    cpu.reg_y = cpu.working_data;

    if cpu.reg_y & 0x80 == 0x80 {
        cpu.status.set_flag(Flag::N);
    } else {
        cpu.status.clear_flag(Flag::N);
    }
    if cpu.reg_y == 0x00 {
        cpu.status.set_flag(Flag::Z);
    } else {
        cpu.status.clear_flag(Flag::Z);
    }
    0x01
}

/// Logical shift right of the accumulator or the addressed byte; Carry
/// captures the bit shifted out.
pub fn lsr(cpu: &mut CPU) -> (extra: u8)
    requires
        old(cpu).wf(),
    ensures
        final(cpu).wf(),
        final(cpu)@ == lsr_spec(old(cpu)@).0,
        extra == lsr_spec(old(cpu)@).1,
        final(cpu).curr_instruction == old(cpu).curr_instruction,
{
    cpu.fill_working_data();
    let data = cpu.working_data;

    if data & 0x01 == 0x01 {
        cpu.status.set_flag(Flag::C);
    } else {
        cpu.status.clear_flag(Flag::C);
    }

    let temp = data >> 1;

    if temp & 0x80 == 0x80 {
        cpu.status.set_flag(Flag::N);
    } else {
        cpu.status.clear_flag(Flag::N);
    }
    if temp == 0x00 {
        cpu.status.set_flag(Flag::Z);
    } else {
        cpu.status.clear_flag(Flag::Z);
    }

    if cpu.curr_instruction.addr_mode == ADDR_MODE::IMPLIED {
        cpu.reg_a = temp;
    } else {
        cpu.mem.write(cpu.working_addr, temp);
    }
    0x00
}

/// No operation: no state change and no extra cycles.
pub fn nop(cpu: &mut CPU) -> (extra: u8)
    requires
        old(cpu).wf(),
    ensures
        final(cpu).wf(),
        final(cpu)@ == old(cpu)@,
        extra == 0,
        final(cpu).curr_instruction == old(cpu).curr_instruction,
{
    0x00
}

/// Pushes the accumulator onto the stack page.
pub fn pha(cpu: &mut CPU) -> (extra: u8)
    requires
        old(cpu).wf(),
    ensures
        final(cpu).wf(),
        final(cpu)@ == pha_spec(old(cpu)@).0,
        extra == pha_spec(old(cpu)@).1,
        final(cpu).curr_instruction == old(cpu).curr_instruction,
{
    cpu.mem.write(cpu.sp as u16 + 0x0100, cpu.reg_a);
    cpu.sp = cpu.sp.wrapping_sub(1);
    0x00
}

/// Pushes the status byte onto the stack page.
pub fn php(cpu: &mut CPU) -> (extra: u8)
    requires
        old(cpu).wf(),
    ensures
        final(cpu).wf(),
        final(cpu)@ == php_spec(old(cpu)@).0,
        extra == php_spec(old(cpu)@).1,
        final(cpu).curr_instruction == old(cpu).curr_instruction,
{
    cpu.mem.write(cpu.sp as u16 + 0x0100, cpu.status.bits);
    cpu.sp = cpu.sp.wrapping_sub(1);
    0x00
}

/// Pulls the accumulator from the stack page; Negative and Zero track the
/// pulled value.
pub fn pla(cpu: &mut CPU) -> (extra: u8)
    requires
        old(cpu).wf(),
    ensures
        final(cpu).wf(),
        final(cpu)@ == pla_spec(old(cpu)@).0,
        extra == pla_spec(old(cpu)@).1,
        final(cpu).curr_instruction == old(cpu).curr_instruction,
{
    cpu.sp = cpu.sp.wrapping_add(1);
    cpu.reg_a = cpu.mem.read(cpu.sp as u16 + 0x0100);

    if cpu.reg_a & 0x80 == 0x80 {
        cpu.status.set_flag(Flag::N);
    } else {
        cpu.status.clear_flag(Flag::N);
    }
    if cpu.reg_a == 0x00 {
        cpu.status.set_flag(Flag::Z);
    } else {
        cpu.status.clear_flag(Flag::Z);
    }
    0x00
}

/// Pulls the status byte from the stack page, replacing it wholesale.
pub fn plp(cpu: &mut CPU) -> (extra: u8)
    requires
        old(cpu).wf(),
    ensures
        final(cpu).wf(),
        final(cpu)@ == plp_spec(old(cpu)@).0,
        extra == plp_spec(old(cpu)@).1,
        final(cpu).curr_instruction == old(cpu).curr_instruction,
{
    cpu.sp = cpu.sp.wrapping_add(1);
    cpu.status = CpuStatus { bits: cpu.mem.read(cpu.sp as u16 + 0x0100) };
    0x00
}

/// Rotate left through Carry.
pub fn rol(cpu: &mut CPU) -> (extra: u8)
    requires
        old(cpu).wf(),
    ensures
        final(cpu).wf(),
        final(cpu)@ == rol_spec(old(cpu)@).0,
        extra == rol_spec(old(cpu)@).1,
        final(cpu).curr_instruction == old(cpu).curr_instruction,
{
    cpu.fill_working_data();
    let data = cpu.working_data;

    let mut temp = (data as u16) << 1;
    if cpu.status.is_flag_set(Flag::C) {
        temp = temp | 0x0001;
    }

    if temp & 0x0080 == 0x0080 {
        cpu.status.set_flag(Flag::N);
    } else {
        cpu.status.clear_flag(Flag::N);
    }
    if (temp as u8) == 0x00 {
        cpu.status.set_flag(Flag::Z);
    } else {
        cpu.status.clear_flag(Flag::Z);
    }
    if (temp & 0xFF00) > 0 {
        cpu.status.set_flag(Flag::C);
    } else {
        cpu.status.clear_flag(Flag::C);
    }

    if cpu.curr_instruction.addr_mode == ADDR_MODE::IMPLIED {
        cpu.reg_a = temp as u8;
    } else {
        cpu.mem.write(cpu.working_addr, temp as u8);
    }
    0x00
}

/// Rotate right through Carry: the prior Carry enters bit 7 and Carry
/// captures the bit shifted out of bit 0.
pub fn ror(cpu: &mut CPU) -> (extra: u8)
    requires
        old(cpu).wf(),
    ensures
        final(cpu).wf(),
        final(cpu)@ == ror_spec(old(cpu)@).0,
        extra == ror_spec(old(cpu)@).1,
        final(cpu).curr_instruction == old(cpu).curr_instruction,
{
    cpu.fill_working_data();
    let data = cpu.working_data;

    let temp: u8 = if cpu.status.is_flag_set(Flag::C) {
        (data >> 1) | 0x80
    } else {
        data >> 1
    };

    if data & 0x01 == 0x01 {
        cpu.status.set_flag(Flag::C);
    } else {
        cpu.status.clear_flag(Flag::C);
    }
    if temp & 0x80 == 0x80 {
        cpu.status.set_flag(Flag::N);
    } else {
        cpu.status.clear_flag(Flag::N);
    }
    if temp == 0x00 {
        cpu.status.set_flag(Flag::Z);
    } else {
        cpu.status.clear_flag(Flag::Z);
    }

    if cpu.curr_instruction.addr_mode == ADDR_MODE::IMPLIED {
        cpu.reg_a = temp;
    } else {
        cpu.mem.write(cpu.working_addr, temp);
    }
    0x00
}

/// Return from interrupt: pulls the status byte, then the program counter
/// low byte, then its high byte.
pub fn rti(cpu: &mut CPU) -> (extra: u8)
    requires
        old(cpu).wf(),
    ensures
        final(cpu).wf(),
        final(cpu)@ == rti_op_spec(old(cpu)@).0,
        extra == rti_op_spec(old(cpu)@).1,
        final(cpu).curr_instruction == old(cpu).curr_instruction,
{
    cpu.sp = cpu.sp.wrapping_add(1);
    cpu.status = CpuStatus { bits: cpu.mem.read(cpu.sp as u16 + 0x0100) };

    cpu.sp = cpu.sp.wrapping_add(1);
    let lo = cpu.mem.read(cpu.sp as u16 + 0x0100) as u16;
    cpu.sp = cpu.sp.wrapping_add(1);
    let hi = cpu.mem.read(cpu.sp as u16 + 0x0100) as u16;
    cpu.pc = lo | (hi << 8);
    0x00
}

/// Return from subroutine: pulls low byte then high byte and increments the
/// result by one.
pub fn rts(cpu: &mut CPU) -> (extra: u8)
    requires
        old(cpu).wf(),
    ensures
        final(cpu).wf(),
        final(cpu)@ == rts_spec(old(cpu)@).0,
        extra == rts_spec(old(cpu)@).1,
        final(cpu).curr_instruction == old(cpu).curr_instruction,
{
    cpu.sp = cpu.sp.wrapping_add(1);
    let lo = cpu.mem.read(cpu.sp as u16 + 0x0100) as u16;
    cpu.sp = cpu.sp.wrapping_add(1);
    let hi = cpu.mem.read(cpu.sp as u16 + 0x0100) as u16;

    cpu.pc = (lo | (hi << 8)).wrapping_add(1);
    0x00
}

/// Sets the Carry flag.
pub fn sec(cpu: &mut CPU) -> (extra: u8)
    requires
        old(cpu).wf(),
    ensures
        final(cpu).wf(),
        final(cpu)@ == set_spec(old(cpu)@, FLAG_C).0,
        extra == set_spec(old(cpu)@, FLAG_C).1,
        final(cpu).curr_instruction == old(cpu).curr_instruction,
{
    cpu.status.set_flag(Flag::C);
    0x00
}

/// Sets the Decimal flag.
pub fn sed(cpu: &mut CPU) -> (extra: u8)
    requires
        old(cpu).wf(),
    ensures
        final(cpu).wf(),
        final(cpu)@ == set_spec(old(cpu)@, FLAG_D).0,
        extra == set_spec(old(cpu)@, FLAG_D).1,
        final(cpu).curr_instruction == old(cpu).curr_instruction,
{
    cpu.status.set_flag(Flag::D);
    0x00
}

/// Sets the Interrupt-disable flag.
pub fn sei(cpu: &mut CPU) -> (extra: u8)
    requires
        old(cpu).wf(),
    ensures
        final(cpu).wf(),
        final(cpu)@ == set_spec(old(cpu)@, FLAG_I).0,
        extra == set_spec(old(cpu)@, FLAG_I).1,
        final(cpu).curr_instruction == old(cpu).curr_instruction,
{
    cpu.status.set_flag(Flag::I);
    0x00
}

/// Stores the accumulator at the resolved address; no flag effect.
pub fn sta(cpu: &mut CPU) -> (extra: u8)
    requires
        old(cpu).wf(),
    ensures
        final(cpu).wf(),
        final(cpu)@ == sta_spec(old(cpu)@).0,
        extra == sta_spec(old(cpu)@).1,
        final(cpu).curr_instruction == old(cpu).curr_instruction,
{
    cpu.mem.write(cpu.working_addr, cpu.reg_a);
    0x00
}

/// Stores the X index register at the resolved address; no flag effect.
pub fn stx(cpu: &mut CPU) -> (extra: u8)
    requires
        old(cpu).wf(),
    ensures
        final(cpu).wf(),
        final(cpu)@ == stx_spec(old(cpu)@).0,
        extra == stx_spec(old(cpu)@).1,
        final(cpu).curr_instruction == old(cpu).curr_instruction,
{
    cpu.mem.write(cpu.working_addr, cpu.reg_x);
    0x00
}

/// Stores the Y index register at the resolved address; no flag effect.
pub fn sty(cpu: &mut CPU) -> (extra: u8)
    requires
        old(cpu).wf(),
    ensures
        final(cpu).wf(),
        final(cpu)@ == sty_spec(old(cpu)@).0,
        extra == sty_spec(old(cpu)@).1,
        final(cpu).curr_instruction == old(cpu).curr_instruction,
{
    cpu.mem.write(cpu.working_addr, cpu.reg_y);
    0x00
}

/// Transfers the accumulator to X; Negative and Zero track the copied value.
pub fn tax(cpu: &mut CPU) -> (extra: u8)
    requires
        old(cpu).wf(),
    ensures
        final(cpu).wf(),
        final(cpu)@ == tax_spec(old(cpu)@).0,
        extra == tax_spec(old(cpu)@).1,
        final(cpu).curr_instruction == old(cpu).curr_instruction,
{
    cpu.reg_x = cpu.reg_a;

    if cpu.reg_x & 0x80 == 0x80 {
        cpu.status.set_flag(Flag::N);
    } else {
        cpu.status.clear_flag(Flag::N);
    }
    if cpu.reg_x == 0x00 {
        cpu.status.set_flag(Flag::Z);
    } else {
        cpu.status.clear_flag(Flag::Z);
    }
    0x00
}

/// Transfers the accumulator to Y; Negative and Zero track the copied value.
pub fn tay(cpu: &mut CPU) -> (extra: u8)
    requires
        old(cpu).wf(),
    ensures
        final(cpu).wf(),
        final(cpu)@ == tay_spec(old(cpu)@).0,
        extra == tay_spec(old(cpu)@).1,
        final(cpu).curr_instruction == old(cpu).curr_instruction,
{
    cpu.reg_y = cpu.reg_a;

    if cpu.reg_y & 0x80 == 0x80 {
        cpu.status.set_flag(Flag::N);
    } else {
        cpu.status.clear_flag(Flag::N);
    }
    if cpu.reg_y == 0x00 {
        cpu.status.set_flag(Flag::Z);
    } else {
        cpu.status.clear_flag(Flag::Z);
    }
    0x00
}

/// Transfers the stack pointer to X; Negative and Zero track the copied value.
pub fn tsx(cpu: &mut CPU) -> (extra: u8)
    requires
        old(cpu).wf(),
    ensures
        final(cpu).wf(),
        final(cpu)@ == tsx_spec(old(cpu)@).0,
        extra == tsx_spec(old(cpu)@).1,
        final(cpu).curr_instruction == old(cpu).curr_instruction,
{
    cpu.reg_x = cpu.sp;

    if cpu.reg_x & 0x80 == 0x80 {
        cpu.status.set_flag(Flag::N);
    } else {
        cpu.status.clear_flag(Flag::N);
    }
    if cpu.reg_x == 0x00 {
        cpu.status.set_flag(Flag::Z);
    } else {
        cpu.status.clear_flag(Flag::Z);
    }
    0x00
}

/// Transfers the X to the accumulator; Negative and Zero track the copied value.
pub fn txa(cpu: &mut CPU) -> (extra: u8)
    requires
        old(cpu).wf(),
    ensures
        final(cpu).wf(),
        final(cpu)@ == txa_spec(old(cpu)@).0,
        extra == txa_spec(old(cpu)@).1,
        final(cpu).curr_instruction == old(cpu).curr_instruction,
{
    cpu.reg_a = cpu.reg_x;

    if cpu.reg_a & 0x80 == 0x80 {
        cpu.status.set_flag(Flag::N);
    } else {
        cpu.status.clear_flag(Flag::N);
    }
    if cpu.reg_a == 0x00 {
        cpu.status.set_flag(Flag::Z);
    } else {
        cpu.status.clear_flag(Flag::Z);
    }
    0x00
}

/// Transfers the Y to the accumulator; Negative and Zero track the copied value.
pub fn tya(cpu: &mut CPU) -> (extra: u8)
    requires
        old(cpu).wf(),
    ensures
        final(cpu).wf(),
        final(cpu)@ == tya_spec(old(cpu)@).0,
        extra == tya_spec(old(cpu)@).1,
        final(cpu).curr_instruction == old(cpu).curr_instruction,
{
    cpu.reg_a = cpu.reg_y;

    if cpu.reg_a & 0x80 == 0x80 {
        cpu.status.set_flag(Flag::N);
    } else {
        cpu.status.clear_flag(Flag::N);
    }
    if cpu.reg_a == 0x00 {
        cpu.status.set_flag(Flag::Z);
    } else {
        cpu.status.clear_flag(Flag::Z);
    }
    0x00
}

/// Transfers X to the stack pointer; the one transfer with no flag effect.
pub fn txs(cpu: &mut CPU) -> (extra: u8)
    requires
        old(cpu).wf(),
    ensures
        final(cpu).wf(),
        final(cpu)@ == txs_spec(old(cpu)@).0,
        extra == txs_spec(old(cpu)@).1,
        final(cpu).curr_instruction == old(cpu).curr_instruction,
{
    cpu.sp = cpu.reg_x;
    0x00
}

/// Add with carry: the 9-bit intermediate drives Negative, Zero, the signed
/// Overflow test and Carry, and its low byte lands in the accumulator. The
/// decimal flag never alters the computation.
pub fn adc(cpu: &mut CPU) -> (extra: u8)
    requires
        old(cpu).wf(),
    ensures
        final(cpu).wf(),
        final(cpu)@ == adc_spec(old(cpu)@).0,
        extra == adc_spec(old(cpu)@).1,
        final(cpu).curr_instruction == old(cpu).curr_instruction,
{
    cpu.fill_working_data();
    let data = cpu.working_data;

    let mut temp = cpu.reg_a as u16 + data as u16;
    if cpu.status.is_flag_set(Flag::C) {
        temp = temp + 1;
    }

    if temp & 0x80 == 0x80 {
        cpu.status.set_flag(Flag::N);
    } else {
        cpu.status.clear_flag(Flag::N);
    }
    if temp & 0xFF == 0x00 {
        cpu.status.set_flag(Flag::Z);
    } else {
        cpu.status.clear_flag(Flag::Z);
    }
    if (!(cpu.reg_a as u16 ^ data as u16) & (cpu.reg_a as u16 ^ temp) & 0x0080) == 0x0080 {
        cpu.status.set_flag(Flag::V);
    } else {
        cpu.status.clear_flag(Flag::V);
    }
    if temp > 0xFF {
        cpu.status.set_flag(Flag::C);
    } else {
        cpu.status.clear_flag(Flag::C);
    }

    cpu.reg_a = temp as u8;
    0x01
}

/// Subtract with carry: adds the operand's complement, so Carry reports
/// no-borrow and the signed Overflow test runs on the complemented operand.
pub fn sbc(cpu: &mut CPU) -> (extra: u8)
    requires
        old(cpu).wf(),
    ensures
        final(cpu).wf(),
        final(cpu)@ == sbc_spec(old(cpu)@).0,
        extra == sbc_spec(old(cpu)@).1,
        final(cpu).curr_instruction == old(cpu).curr_instruction,
{
    cpu.fill_working_data();
    let data = cpu.working_data;
    let value = (data as u16) ^ 0x00FF;
    proof {
        assert((data as u16) ^ 0x00FF <= 0xFF) by (bit_vector);
    }

    let mut temp = cpu.reg_a as u16 + value;
    if cpu.status.is_flag_set(Flag::C) {
        temp = temp + 1;
    }

    if temp & 0x80 == 0x80 {
        cpu.status.set_flag(Flag::N);
    } else {
        cpu.status.clear_flag(Flag::N);
    }
    if temp & 0xFF == 0x00 {
        cpu.status.set_flag(Flag::Z);
    } else {
        cpu.status.clear_flag(Flag::Z);
    }
    if (temp ^ cpu.reg_a as u16) & (temp ^ value) & 0x0080 == 0x0080 {
        cpu.status.set_flag(Flag::V);
    } else {
        cpu.status.clear_flag(Flag::V);
    }
    if temp > 0xFF {
        cpu.status.set_flag(Flag::C);
    } else {
        cpu.status.clear_flag(Flag::C);
    }

    cpu.reg_a = temp as u8;
    0x01
}

/// One resolve-then-execute pass over an already-decoded descriptor: the
/// addressing mode consumes its operand bytes, the operation applies its
/// semantics, and the two extra-cycle signals add up into the returned value.
pub fn execute(cpu: &mut CPU, instruction: Instruction) -> (extra: u8)
    requires
        old(cpu).wf(),
    ensures
        final(cpu).wf(),
        final(cpu)@ == execute_spec(instruction.addr_mode, instruction.opr, old(cpu)@).0,
        extra == execute_spec(instruction.addr_mode, instruction.opr, old(cpu)@).1,
        final(cpu).curr_instruction == old(cpu).curr_instruction,
{
    let e1: u8 = match instruction.addr_mode {
        ADDR_MODE::ABSOLUTE => abs(cpu),
        ADDR_MODE::ABSOLUTE_X => abx(cpu),
        ADDR_MODE::ABSOLUTE_Y => aby(cpu),
        ADDR_MODE::IMMEDIATE => imm(cpu),
        ADDR_MODE::IMPLIED => imp(cpu),
        ADDR_MODE::INDIRECT => ind(cpu),
        ADDR_MODE::INDIRECT_X => izx(cpu),
        ADDR_MODE::INDIRECT_Y => izy(cpu),
        ADDR_MODE::RELATIVE => rel(cpu),
        ADDR_MODE::ZERO_PAGE => zp0(cpu),
        ADDR_MODE::ZERO_PAGE_X => zpx(cpu),
        ADDR_MODE::ZERO_PAGE_Y => zpy(cpu),
        ADDR_MODE::NONE => 0x00,
    };

    let e2: u8 = match instruction.opr {
        OPS::ADC => adc(cpu),
        OPS::AND => and(cpu),
        OPS::ASL => asl(cpu),
        OPS::BCC => bcc(cpu),
        OPS::BCS => bcs(cpu),
        OPS::BEQ => beq(cpu),
        OPS::BIT => bit(cpu),
        OPS::BMI => bmi(cpu),
        OPS::BNE => bne(cpu),
        OPS::BPL => bpl(cpu),
        OPS::BRK => brk(cpu),
        OPS::BVC => bvc(cpu),
        OPS::BVS => bvs(cpu),
        OPS::CLC => clc(cpu),
        OPS::CLD => cld(cpu),
        OPS::CLI => cli(cpu),
        OPS::CLV => clv(cpu),
        OPS::CMP => cmp(cpu),
        OPS::CPX => cpx(cpu),
        OPS::CPY => cpy(cpu),
        OPS::DEC => dec(cpu),
        OPS::DEX => dex(cpu),
        OPS::DEY => dey(cpu),
        OPS::EOR => eor(cpu),
        OPS::INC => inc(cpu),
        OPS::INX => inx(cpu),
        OPS::INY => iny(cpu),
        OPS::JMP => jmp(cpu),
        OPS::JSR => jsr(cpu),
        OPS::LDA => lda(cpu),
        OPS::LDX => ldx(cpu),
        OPS::LDY => ldy(cpu),
        OPS::LSR => lsr(cpu),
        OPS::NOP => nop(cpu),
        OPS::ORA => ora(cpu),
        OPS::PHA => pha(cpu),
        OPS::PHP => php(cpu),
        OPS::PLA => pla(cpu),
        OPS::PLP => plp(cpu),
        OPS::ROL => rol(cpu),
        OPS::ROR => ror(cpu),
        OPS::RTI => rti(cpu),
        OPS::RTS => rts(cpu),
        OPS::SBC => sbc(cpu),
        OPS::SEC => sec(cpu),
        OPS::SED => sed(cpu),
        OPS::SEI => sei(cpu),
        OPS::STA => sta(cpu),
        OPS::STX => stx(cpu),
        OPS::STY => sty(cpu),
        OPS::TAX => tax(cpu),
        OPS::TAY => tay(cpu),
        OPS::TSX => tsx(cpu),
        OPS::TXA => txa(cpu),
        OPS::TXS => txs(cpu),
        OPS::TYA => tya(cpu),
        OPS::XXX => 0x00,
    };

    e1 + e2
}

} // verus!
