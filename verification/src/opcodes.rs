//! The 6502 instruction table: every opcode byte with its mnemonic,
//! length, base cycle count and addressing mode. Unofficial opcodes carry
//! a `*` prefix, as test logs conventionally print them.

use vstd::prelude::*;

verus! {

/// How an instruction names its operand.
#[derive(Debug, PartialEq, Eq, Structural, Clone, Copy)]
#[allow(non_camel_case_types)]
pub enum AddressingMode {
    Immediate,
    ZeroPage,
    ZeroPage_X,
    ZeroPage_Y,
    Absolute,
    Absolute_X,
    Absolute_Y,
    Indirect,
    Indirect_X,
    Indirect_Y,
    Relative,
    Implied,
    Accumulator,
}

/// One row of the instruction table.
pub struct OpCode {
    pub code: u8,
    pub name: &'static str,
    pub bytes: u8,
    pub cycles: u8,
    pub mode: AddressingMode,
}

impl OpCode {
    pub fn new(code: u8, name: &'static str, bytes: u8, cycles: u8, mode: AddressingMode) -> (r:
        OpCode)
        ensures
            r.code == code && r.name == name && r.bytes == bytes && r.cycles == cycles && r.mode
                == mode,
    {
        OpCode { code, name, bytes, cycles, mode }
    }
}

/// Instruction length in bytes, opcode included.
pub open spec fn opcode_len(code: u8) -> u8 {
    if code == 0x00 || code == 0x02 || code == 0x08 || code == 0x0A || code == 0x12 ||
        code == 0x18 || code == 0x1A || code == 0x22 || code == 0x28 || code == 0x2A ||
        code == 0x32 || code == 0x38 || code == 0x3A || code == 0x40 || code == 0x42 ||
        code == 0x48 || code == 0x4A || code == 0x52 || code == 0x58 || code == 0x5A ||
        code == 0x60 || code == 0x62 || code == 0x68 || code == 0x6A || code == 0x72 ||
        code == 0x78 || code == 0x7A || code == 0x88 || code == 0x8A || code == 0x92 ||
        code == 0x98 || code == 0x9A || code == 0xA8 || code == 0xAA || code == 0xB2 ||
        code == 0xB8 || code == 0xBA || code == 0xC8 || code == 0xCA || code == 0xD2 ||
        code == 0xD8 || code == 0xDA || code == 0xE8 || code == 0xEA || code == 0xF2 ||
        code == 0xF8 || code == 0xFA {
        1u8
    } else if code == 0x01 || code == 0x03 || code == 0x04 || code == 0x05 || code == 0x06 ||
        code == 0x07 || code == 0x09 || code == 0x0B || code == 0x10 || code == 0x11 ||
        code == 0x13 || code == 0x14 || code == 0x15 || code == 0x16 || code == 0x17 ||
        code == 0x21 || code == 0x23 || code == 0x24 || code == 0x25 || code == 0x26 ||
        code == 0x27 || code == 0x29 || code == 0x2B || code == 0x30 || code == 0x31 ||
        code == 0x33 || code == 0x34 || code == 0x35 || code == 0x36 || code == 0x37 ||
        code == 0x41 || code == 0x43 || code == 0x44 || code == 0x45 || code == 0x46 ||
        code == 0x47 || code == 0x49 || code == 0x4B || code == 0x50 || code == 0x51 ||
        code == 0x53 || code == 0x54 || code == 0x55 || code == 0x56 || code == 0x57 ||
        code == 0x61 || code == 0x63 || code == 0x64 || code == 0x65 || code == 0x66 ||
        code == 0x67 || code == 0x69 || code == 0x6B || code == 0x70 || code == 0x71 ||
        code == 0x73 || code == 0x74 || code == 0x75 || code == 0x76 || code == 0x77 ||
        code == 0x80 || code == 0x81 || code == 0x82 || code == 0x83 || code == 0x84 ||
        code == 0x85 || code == 0x86 || code == 0x87 || code == 0x89 || code == 0x8B ||
        code == 0x90 || code == 0x91 || code == 0x93 || code == 0x94 || code == 0x95 ||
        code == 0x96 || code == 0x97 || code == 0xA0 || code == 0xA1 || code == 0xA2 ||
        code == 0xA3 || code == 0xA4 || code == 0xA5 || code == 0xA6 || code == 0xA7 ||
        code == 0xA9 || code == 0xAB || code == 0xB0 || code == 0xB1 || code == 0xB3 ||
        code == 0xB4 || code == 0xB5 || code == 0xB6 || code == 0xB7 || code == 0xC0 ||
        code == 0xC1 || code == 0xC2 || code == 0xC3 || code == 0xC4 || code == 0xC5 ||
        code == 0xC6 || code == 0xC7 || code == 0xC9 || code == 0xCB || code == 0xD0 ||
        code == 0xD1 || code == 0xD3 || code == 0xD4 || code == 0xD5 || code == 0xD6 ||
        code == 0xD7 || code == 0xE0 || code == 0xE1 || code == 0xE2 || code == 0xE3 ||
        code == 0xE4 || code == 0xE5 || code == 0xE6 || code == 0xE7 || code == 0xE9 ||
        code == 0xEB || code == 0xF0 || code == 0xF1 || code == 0xF3 || code == 0xF4 ||
        code == 0xF5 || code == 0xF6 || code == 0xF7 {
        2u8
    } else {
        3u8
    }
}

/// Base cycle cost of the instruction (0 for the KIL opcodes, which halt).
pub open spec fn opcode_cycles(code: u8) -> u8 {
    if code == 0x02 || code == 0x12 || code == 0x22 || code == 0x32 || code == 0x42 ||
        code == 0x52 || code == 0x62 || code == 0x72 || code == 0x92 || code == 0xB2 ||
        code == 0xD2 || code == 0xF2 {
        0u8
    } else if code == 0x09 || code == 0x0A || code == 0x0B || code == 0x10 || code == 0x18 ||
        code == 0x1A || code == 0x29 || code == 0x2A || code == 0x2B || code == 0x30 ||
        code == 0x38 || code == 0x3A || code == 0x49 || code == 0x4A || code == 0x4B ||
        code == 0x50 || code == 0x58 || code == 0x5A || code == 0x69 || code == 0x6A ||
        code == 0x6B || code == 0x70 || code == 0x78 || code == 0x7A || code == 0x80 ||
        code == 0x82 || code == 0x88 || code == 0x89 || code == 0x8A || code == 0x8B ||
        code == 0x90 || code == 0x98 || code == 0x9A || code == 0xA0 || code == 0xA2 ||
        code == 0xA8 || code == 0xA9 || code == 0xAA || code == 0xAB || code == 0xB0 ||
        code == 0xB8 || code == 0xBA || code == 0xC0 || code == 0xC2 || code == 0xC8 ||
        code == 0xC9 || code == 0xCA || code == 0xCB || code == 0xD0 || code == 0xD8 ||
        code == 0xDA || code == 0xE0 || code == 0xE2 || code == 0xE8 || code == 0xE9 ||
        code == 0xEA || code == 0xEB || code == 0xF0 || code == 0xF8 || code == 0xFA {
        2u8
    } else if code == 0x04 || code == 0x05 || code == 0x08 || code == 0x24 || code == 0x25 ||
        code == 0x44 || code == 0x45 || code == 0x48 || code == 0x4C || code == 0x64 ||
        code == 0x65 || code == 0x84 || code == 0x85 || code == 0x86 || code == 0x87 ||
        code == 0xA4 || code == 0xA5 || code == 0xA6 || code == 0xA7 || code == 0xC4 ||
        code == 0xC5 || code == 0xE4 || code == 0xE5 {
        3u8
    } else if code == 0x0C || code == 0x0D || code == 0x14 || code == 0x15 || code == 0x19 ||
        code == 0x1C || code == 0x1D || code == 0x28 || code == 0x2C || code == 0x2D ||
        code == 0x34 || code == 0x35 || code == 0x39 || code == 0x3C || code == 0x3D ||
        code == 0x4D || code == 0x54 || code == 0x55 || code == 0x59 || code == 0x5C ||
        code == 0x5D || code == 0x68 || code == 0x6D || code == 0x74 || code == 0x75 ||
        code == 0x79 || code == 0x7C || code == 0x7D || code == 0x8C || code == 0x8D ||
        code == 0x8E || code == 0x8F || code == 0x94 || code == 0x95 || code == 0x96 ||
        code == 0x97 || code == 0xAC || code == 0xAD || code == 0xAE || code == 0xAF ||
        code == 0xB4 || code == 0xB5 || code == 0xB6 || code == 0xB7 || code == 0xB9 ||
        code == 0xBB || code == 0xBC || code == 0xBD || code == 0xBE || code == 0xBF ||
        code == 0xCC || code == 0xCD || code == 0xD4 || code == 0xD5 || code == 0xD9 ||
        code == 0xDC || code == 0xDD || code == 0xEC || code == 0xED || code == 0xF4 ||
        code == 0xF5 || code == 0xF9 || code == 0xFC || code == 0xFD {
        4u8
    } else if code == 0x06 || code == 0x07 || code == 0x11 || code == 0x26 || code == 0x27 ||
        code == 0x31 || code == 0x46 || code == 0x47 || code == 0x51 || code == 0x66 ||
        code == 0x67 || code == 0x6C || code == 0x71 || code == 0x99 || code == 0x9B ||
        code == 0x9C || code == 0x9D || code == 0x9E || code == 0x9F || code == 0xB1 ||
        code == 0xB3 || code == 0xC6 || code == 0xC7 || code == 0xD1 || code == 0xE6 ||
        code == 0xE7 || code == 0xF1 {
        5u8
    } else if code == 0x01 || code == 0x0E || code == 0x0F || code == 0x16 || code == 0x17 ||
        code == 0x20 || code == 0x21 || code == 0x2E || code == 0x2F || code == 0x36 ||
        code == 0x37 || code == 0x40 || code == 0x41 || code == 0x4E || code == 0x4F ||
        code == 0x56 || code == 0x57 || code == 0x60 || code == 0x61 || code == 0x6E ||
        code == 0x6F || code == 0x76 || code == 0x77 || code == 0x81 || code == 0x83 ||
        code == 0x91 || code == 0x93 || code == 0xA1 || code == 0xA3 || code == 0xC1 ||
        code == 0xCE || code == 0xCF || code == 0xD6 || code == 0xD7 || code == 0xE1 ||
        code == 0xEE || code == 0xEF || code == 0xF6 || code == 0xF7 {
        6u8
    } else if code == 0x00 || code == 0x1B || code == 0x1E || code == 0x1F || code == 0x3B ||
        code == 0x3E || code == 0x3F || code == 0x5B || code == 0x5E || code == 0x5F ||
        code == 0x7B || code == 0x7E || code == 0x7F || code == 0xDB || code == 0xDE ||
        code == 0xDF || code == 0xFB || code == 0xFE || code == 0xFF {
        7u8
    } else {
        8u8
    }
}

/// The twelve KIL opcodes jam the processor.
pub open spec fn opcode_is_kil(code: u8) -> bool {
    code == 0x02 || code == 0x12 || code == 0x22 || code == 0x32 || code == 0x42 ||
    code == 0x52 || code == 0x62 || code == 0x72 || code == 0x92 || code == 0xB2 ||
    code == 0xD2 || code == 0xF2
}

/// The addressing mode of each opcode.
pub open spec fn opcode_mode(code: u8) -> AddressingMode {
    if code == 0x6C {
        AddressingMode::Indirect
    }
    else if code == 0x0A || code == 0x2A || code == 0x4A || code == 0x6A {
        AddressingMode::Accumulator
    }
    else if code == 0x96 || code == 0x97 || code == 0xB6 || code == 0xB7 {
        AddressingMode::ZeroPage_Y
    }
    else if code == 0x10 || code == 0x30 || code == 0x50 || code == 0x70 || code == 0x90
        || code == 0xB0 || code == 0xD0 || code == 0xF0 {
        AddressingMode::Relative
    }
    else if code == 0x01 || code == 0x03 || code == 0x21 || code == 0x23 || code == 0x41
        || code == 0x43 || code == 0x61 || code == 0x63 || code == 0x81 || code == 0x83
        || code == 0xA1 || code == 0xA3 || code == 0xC1 || code == 0xC3 || code == 0xE1
        || code == 0xE3 {
        AddressingMode::Indirect_X
    }
    else if code == 0x11 || code == 0x13 || code == 0x31 || code == 0x33 || code == 0x51
        || code == 0x53 || code == 0x71 || code == 0x73 || code == 0x91 || code == 0x93
        || code == 0xB1 || code == 0xB3 || code == 0xD1 || code == 0xD3 || code == 0xF1
        || code == 0xF3 {
        AddressingMode::Indirect_Y
    }
    else if code == 0x19 || code == 0x1B || code == 0x39 || code == 0x3B || code == 0x59
        || code == 0x5B || code == 0x79 || code == 0x7B || code == 0x99 || code == 0x9B
        || code == 0x9E || code == 0x9F || code == 0xB9 || code == 0xBB || code == 0xBE
        || code == 0xBF || code == 0xD9 || code == 0xDB || code == 0xF9 || code == 0xFB {
        AddressingMode::Absolute_Y
    }
    else if code == 0x09 || code == 0x0B || code == 0x29 || code == 0x2B || code == 0x49
        || code == 0x4B || code == 0x69 || code == 0x6B || code == 0x80 || code == 0x82
        || code == 0x89 || code == 0x8B || code == 0xA0 || code == 0xA2 || code == 0xA9
        || code == 0xAB || code == 0xC0 || code == 0xC2 || code == 0xC9 || code == 0xCB
        || code == 0xE0 || code == 0xE2 || code == 0xE9 || code == 0xEB {
        AddressingMode::Immediate
    }
    else if code == 0x14 || code == 0x15 || code == 0x16 || code == 0x17 || code == 0x34
        || code == 0x35 || code == 0x36 || code == 0x37 || code == 0x54 || code == 0x55
        || code == 0x56 || code == 0x57 || code == 0x74 || code == 0x75 || code == 0x76
        || code == 0x77 || code == 0x94 || code == 0x95 || code == 0xB4 || code == 0xB5
        || code == 0xD4 || code == 0xD5 || code == 0xD6 || code == 0xD7 || code == 0xF4
        || code == 0xF5 || code == 0xF6 || code == 0xF7 {
        AddressingMode::ZeroPage_X
    }
    else if code == 0x1C || code == 0x1D || code == 0x1E || code == 0x1F || code == 0x3C
        || code == 0x3D || code == 0x3E || code == 0x3F || code == 0x5C || code == 0x5D
        || code == 0x5E || code == 0x5F || code == 0x7C || code == 0x7D || code == 0x7E
        || code == 0x7F || code == 0x9C || code == 0x9D || code == 0xBC || code == 0xBD
        || code == 0xDC || code == 0xDD || code == 0xDE || code == 0xDF || code == 0xFC
        || code == 0xFD || code == 0xFE || code == 0xFF {
        AddressingMode::Absolute_X
    }
    else if code == 0x04 || code == 0x05 || code == 0x06 || code == 0x07 || code == 0x24
        || code == 0x25 || code == 0x26 || code == 0x27 || code == 0x44 || code == 0x45
        || code == 0x46 || code == 0x47 || code == 0x64 || code == 0x65 || code == 0x66
        || code == 0x67 || code == 0x84 || code == 0x85 || code == 0x86 || code == 0x87
        || code == 0xA4 || code == 0xA5 || code == 0xA6 || code == 0xA7 || code == 0xC4
        || code == 0xC5 || code == 0xC6 || code == 0xC7 || code == 0xE4 || code == 0xE5
        || code == 0xE6 || code == 0xE7 {
        AddressingMode::ZeroPage
    }
    else if code == 0x0C || code == 0x0D || code == 0x0E || code == 0x0F || code == 0x20
        || code == 0x2C || code == 0x2D || code == 0x2E || code == 0x2F || code == 0x4C
        || code == 0x4D || code == 0x4E || code == 0x4F || code == 0x6D || code == 0x6E
        || code == 0x6F || code == 0x8C || code == 0x8D || code == 0x8E || code == 0x8F
        || code == 0xAC || code == 0xAD || code == 0xAE || code == 0xAF || code == 0xCC
        || code == 0xCD || code == 0xCE || code == 0xCF || code == 0xEC || code == 0xED
        || code == 0xEE || code == 0xEF {
        AddressingMode::Absolute
    }
    else {
        AddressingMode::Implied
    }
}

/// The table row for an opcode byte; the table is total.
pub fn opcode_lookup(code: u8) -> (r: OpCode)
    ensures
        r.code == code,
        r.bytes == opcode_len(code),
        r.cycles == opcode_cycles(code),
        r.mode == opcode_mode(code),
        1 <= r.bytes <= 3,
        r.cycles == 0 <==> opcode_is_kil(code),
{
    if code < 0x20 { opcode_row_0(code) }
    else if code < 0x40 { opcode_row_1(code) }
    else if code < 0x60 { opcode_row_2(code) }
    else if code < 0x80 { opcode_row_3(code) }
    else if code < 0xA0 { opcode_row_4(code) }
    else if code < 0xC0 { opcode_row_5(code) }
    else if code < 0xE0 { opcode_row_6(code) }
    else { opcode_row_7(code) }
}

#[verifier::rlimit(100)]
fn opcode_row_0(code: u8) -> (r: OpCode)
    requires
        0x00 <= code < 0x20,
    ensures
        r.code == code,
        r.bytes == opcode_len(code),
        r.cycles == opcode_cycles(code),
        r.mode == opcode_mode(code),
        1 <= r.bytes <= 3,
        r.cycles == 0 <==> opcode_is_kil(code),
{
    match code {
        0x00 => OpCode::new(0x00, "BRK", 1, 7, AddressingMode::Implied),
        0x01 => OpCode::new(0x01, "ORA", 2, 6, AddressingMode::Indirect_X),
        0x02 => OpCode::new(0x02, "*KIL", 1, 0, AddressingMode::Implied),
        0x03 => OpCode::new(0x03, "*SLO", 2, 8, AddressingMode::Indirect_X),
        0x04 => OpCode::new(0x04, "*NOP", 2, 3, AddressingMode::ZeroPage),
        0x05 => OpCode::new(0x05, "ORA", 2, 3, AddressingMode::ZeroPage),
        0x06 => OpCode::new(0x06, "ASL", 2, 5, AddressingMode::ZeroPage),
        0x07 => OpCode::new(0x07, "*SLO", 2, 5, AddressingMode::ZeroPage),
        0x08 => OpCode::new(0x08, "PHP", 1, 3, AddressingMode::Implied),
        0x09 => OpCode::new(0x09, "ORA", 2, 2, AddressingMode::Immediate),
        0x0A => OpCode::new(0x0A, "ASL", 1, 2, AddressingMode::Accumulator),
        0x0B => OpCode::new(0x0B, "*AAC", 2, 2, AddressingMode::Immediate),
        0x0C => OpCode::new(0x0C, "*NOP", 3, 4, AddressingMode::Absolute),
        0x0D => OpCode::new(0x0D, "ORA", 3, 4, AddressingMode::Absolute),
        0x0E => OpCode::new(0x0E, "ASL", 3, 6, AddressingMode::Absolute),
        0x0F => OpCode::new(0x0F, "*SLO", 3, 6, AddressingMode::Absolute),
        0x10 => OpCode::new(0x10, "BPL", 2, 2, AddressingMode::Relative),
        0x11 => OpCode::new(0x11, "ORA", 2, 5, AddressingMode::Indirect_Y),
        0x12 => OpCode::new(0x12, "*KIL", 1, 0, AddressingMode::Implied),
        0x13 => OpCode::new(0x13, "*SLO", 2, 8, AddressingMode::Indirect_Y),
        0x14 => OpCode::new(0x14, "*NOP", 2, 4, AddressingMode::ZeroPage_X),
        0x15 => OpCode::new(0x15, "ORA", 2, 4, AddressingMode::ZeroPage_X),
        0x16 => OpCode::new(0x16, "ASL", 2, 6, AddressingMode::ZeroPage_X),
        0x17 => OpCode::new(0x17, "*SLO", 2, 6, AddressingMode::ZeroPage_X),
        0x18 => OpCode::new(0x18, "CLC", 1, 2, AddressingMode::Implied),
        0x19 => OpCode::new(0x19, "ORA", 3, 4, AddressingMode::Absolute_Y),
        0x1A => OpCode::new(0x1A, "*NOP", 1, 2, AddressingMode::Implied),
        0x1B => OpCode::new(0x1B, "*SLO", 3, 7, AddressingMode::Absolute_Y),
        0x1C => OpCode::new(0x1C, "*NOP", 3, 4, AddressingMode::Absolute_X),
        0x1D => OpCode::new(0x1D, "ORA", 3, 4, AddressingMode::Absolute_X),
        0x1E => OpCode::new(0x1E, "ASL", 3, 7, AddressingMode::Absolute_X),
        _ => OpCode::new(0x1F, "*SLO", 3, 7, AddressingMode::Absolute_X),
    }
}

#[verifier::rlimit(100)]
fn opcode_row_1(code: u8) -> (r: OpCode)
    requires
        0x20 <= code < 0x40,
    ensures
        r.code == code,
        r.bytes == opcode_len(code),
        r.cycles == opcode_cycles(code),
        r.mode == opcode_mode(code),
        1 <= r.bytes <= 3,
        r.cycles == 0 <==> opcode_is_kil(code),
{
    match code {
        0x20 => OpCode::new(0x20, "JSR", 3, 6, AddressingMode::Absolute),
        0x21 => OpCode::new(0x21, "AND", 2, 6, AddressingMode::Indirect_X),
        0x22 => OpCode::new(0x22, "*KIL", 1, 0, AddressingMode::Implied),
        0x23 => OpCode::new(0x23, "*RLA", 2, 8, AddressingMode::Indirect_X),
        0x24 => OpCode::new(0x24, "BIT", 2, 3, AddressingMode::ZeroPage),
        0x25 => OpCode::new(0x25, "AND", 2, 3, AddressingMode::ZeroPage),
        0x26 => OpCode::new(0x26, "ROL", 2, 5, AddressingMode::ZeroPage),
        0x27 => OpCode::new(0x27, "*RLA", 2, 5, AddressingMode::ZeroPage),
        0x28 => OpCode::new(0x28, "PLP", 1, 4, AddressingMode::Implied),
        0x29 => OpCode::new(0x29, "AND", 2, 2, AddressingMode::Immediate),
        0x2A => OpCode::new(0x2A, "ROL", 1, 2, AddressingMode::Accumulator),
        0x2B => OpCode::new(0x2B, "*AAC", 2, 2, AddressingMode::Immediate),
        0x2C => OpCode::new(0x2C, "BIT", 3, 4, AddressingMode::Absolute),
        0x2D => OpCode::new(0x2D, "AND", 3, 4, AddressingMode::Absolute),
        0x2E => OpCode::new(0x2E, "ROL", 3, 6, AddressingMode::Absolute),
        0x2F => OpCode::new(0x2F, "*RLA", 3, 6, AddressingMode::Absolute),
        0x30 => OpCode::new(0x30, "BMI", 2, 2, AddressingMode::Relative),
        0x31 => OpCode::new(0x31, "AND", 2, 5, AddressingMode::Indirect_Y),
        0x32 => OpCode::new(0x32, "*KIL", 1, 0, AddressingMode::Implied),
        0x33 => OpCode::new(0x33, "*RLA", 2, 8, AddressingMode::Indirect_Y),
        0x34 => OpCode::new(0x34, "*NOP", 2, 4, AddressingMode::ZeroPage_X),
        0x35 => OpCode::new(0x35, "AND", 2, 4, AddressingMode::ZeroPage_X),
        0x36 => OpCode::new(0x36, "ROL", 2, 6, AddressingMode::ZeroPage_X),
        0x37 => OpCode::new(0x37, "*RLA", 2, 6, AddressingMode::ZeroPage_X),
        0x38 => OpCode::new(0x38, "SEC", 1, 2, AddressingMode::Implied),
        0x39 => OpCode::new(0x39, "AND", 3, 4, AddressingMode::Absolute_Y),
        0x3A => OpCode::new(0x3A, "*NOP", 1, 2, AddressingMode::Implied),
        0x3B => OpCode::new(0x3B, "*RLA", 3, 7, AddressingMode::Absolute_Y),
        0x3C => OpCode::new(0x3C, "*NOP", 3, 4, AddressingMode::Absolute_X),
        0x3D => OpCode::new(0x3D, "AND", 3, 4, AddressingMode::Absolute_X),
        0x3E => OpCode::new(0x3E, "ROL", 3, 7, AddressingMode::Absolute_X),
        _ => OpCode::new(0x3F, "*RLA", 3, 7, AddressingMode::Absolute_X),
    }
}

#[verifier::rlimit(100)]
fn opcode_row_2(code: u8) -> (r: OpCode)
    requires
        0x40 <= code < 0x60,
    ensures
        r.code == code,
        r.bytes == opcode_len(code),
        r.cycles == opcode_cycles(code),
        r.mode == opcode_mode(code),
        1 <= r.bytes <= 3,
        r.cycles == 0 <==> opcode_is_kil(code),
{
    match code {
        0x40 => OpCode::new(0x40, "RTI", 1, 6, AddressingMode::Implied),
        0x41 => OpCode::new(0x41, "EOR", 2, 6, AddressingMode::Indirect_X),
        0x42 => OpCode::new(0x42, "*KIL", 1, 0, AddressingMode::Implied),
        0x43 => OpCode::new(0x43, "*SRE", 2, 8, AddressingMode::Indirect_X),
        0x44 => OpCode::new(0x44, "*NOP", 2, 3, AddressingMode::ZeroPage),
        0x45 => OpCode::new(0x45, "EOR", 2, 3, AddressingMode::ZeroPage),
        0x46 => OpCode::new(0x46, "LSR", 2, 5, AddressingMode::ZeroPage),
        0x47 => OpCode::new(0x47, "*SRE", 2, 5, AddressingMode::ZeroPage),
        0x48 => OpCode::new(0x48, "PHA", 1, 3, AddressingMode::Implied),
        0x49 => OpCode::new(0x49, "EOR", 2, 2, AddressingMode::Immediate),
        0x4A => OpCode::new(0x4A, "LSR", 1, 2, AddressingMode::Accumulator),
        0x4B => OpCode::new(0x4B, "*ASR", 2, 2, AddressingMode::Immediate),
        0x4C => OpCode::new(0x4C, "JMP", 3, 3, AddressingMode::Absolute),
        0x4D => OpCode::new(0x4D, "EOR", 3, 4, AddressingMode::Absolute),
        0x4E => OpCode::new(0x4E, "LSR", 3, 6, AddressingMode::Absolute),
        0x4F => OpCode::new(0x4F, "*SRE", 3, 6, AddressingMode::Absolute),
        0x50 => OpCode::new(0x50, "BVC", 2, 2, AddressingMode::Relative),
        0x51 => OpCode::new(0x51, "EOR", 2, 5, AddressingMode::Indirect_Y),
        0x52 => OpCode::new(0x52, "*KIL", 1, 0, AddressingMode::Implied),
        0x53 => OpCode::new(0x53, "*SRE", 2, 8, AddressingMode::Indirect_Y),
        0x54 => OpCode::new(0x54, "*NOP", 2, 4, AddressingMode::ZeroPage_X),
        0x55 => OpCode::new(0x55, "EOR", 2, 4, AddressingMode::ZeroPage_X),
        0x56 => OpCode::new(0x56, "LSR", 2, 6, AddressingMode::ZeroPage_X),
        0x57 => OpCode::new(0x57, "*SRE", 2, 6, AddressingMode::ZeroPage_X),
        0x58 => OpCode::new(0x58, "CLI", 1, 2, AddressingMode::Implied),
        0x59 => OpCode::new(0x59, "EOR", 3, 4, AddressingMode::Absolute_Y),
        0x5A => OpCode::new(0x5A, "*NOP", 1, 2, AddressingMode::Implied),
        0x5B => OpCode::new(0x5B, "*SRE", 3, 7, AddressingMode::Absolute_Y),
        0x5C => OpCode::new(0x5C, "*NOP", 3, 4, AddressingMode::Absolute_X),
        0x5D => OpCode::new(0x5D, "EOR", 3, 4, AddressingMode::Absolute_X),
        0x5E => OpCode::new(0x5E, "LSR", 3, 7, AddressingMode::Absolute_X),
        _ => OpCode::new(0x5F, "*SRE", 3, 7, AddressingMode::Absolute_X),
    }
}

#[verifier::rlimit(100)]
fn opcode_row_3(code: u8) -> (r: OpCode)
    requires
        0x60 <= code < 0x80,
    ensures
        r.code == code,
        r.bytes == opcode_len(code),
        r.cycles == opcode_cycles(code),
        r.mode == opcode_mode(code),
        1 <= r.bytes <= 3,
        r.cycles == 0 <==> opcode_is_kil(code),
{
    match code {
        0x60 => OpCode::new(0x60, "RTS", 1, 6, AddressingMode::Implied),
        0x61 => OpCode::new(0x61, "ADC", 2, 6, AddressingMode::Indirect_X),
        0x62 => OpCode::new(0x62, "*KIL", 1, 0, AddressingMode::Implied),
        0x63 => OpCode::new(0x63, "*RRA", 2, 8, AddressingMode::Indirect_X),
        0x64 => OpCode::new(0x64, "*NOP", 2, 3, AddressingMode::ZeroPage),
        0x65 => OpCode::new(0x65, "ADC", 2, 3, AddressingMode::ZeroPage),
        0x66 => OpCode::new(0x66, "ROR", 2, 5, AddressingMode::ZeroPage),
        0x67 => OpCode::new(0x67, "*RRA", 2, 5, AddressingMode::ZeroPage),
        0x68 => OpCode::new(0x68, "PLA", 1, 4, AddressingMode::Implied),
        0x69 => OpCode::new(0x69, "ADC", 2, 2, AddressingMode::Immediate),
        0x6A => OpCode::new(0x6A, "ROR", 1, 2, AddressingMode::Accumulator),
        0x6B => OpCode::new(0x6B, "*ARR", 2, 2, AddressingMode::Immediate),
        0x6C => OpCode::new(0x6C, "JMP", 3, 5, AddressingMode::Indirect),
        0x6D => OpCode::new(0x6D, "ADC", 3, 4, AddressingMode::Absolute),
        0x6E => OpCode::new(0x6E, "ROR", 3, 6, AddressingMode::Absolute),
        0x6F => OpCode::new(0x6F, "*RRA", 3, 6, AddressingMode::Absolute),
        0x70 => OpCode::new(0x70, "BVS", 2, 2, AddressingMode::Relative),
        0x71 => OpCode::new(0x71, "ADC", 2, 5, AddressingMode::Indirect_Y),
        0x72 => OpCode::new(0x72, "*KIL", 1, 0, AddressingMode::Implied),
        0x73 => OpCode::new(0x73, "*RRA", 2, 8, AddressingMode::Indirect_Y),
        0x74 => OpCode::new(0x74, "*NOP", 2, 4, AddressingMode::ZeroPage_X),
        0x75 => OpCode::new(0x75, "ADC", 2, 4, AddressingMode::ZeroPage_X),
        0x76 => OpCode::new(0x76, "ROR", 2, 6, AddressingMode::ZeroPage_X),
        0x77 => OpCode::new(0x77, "*RRA", 2, 6, AddressingMode::ZeroPage_X),
        0x78 => OpCode::new(0x78, "SEI", 1, 2, AddressingMode::Implied),
        0x79 => OpCode::new(0x79, "ADC", 3, 4, AddressingMode::Absolute_Y),
        0x7A => OpCode::new(0x7A, "*NOP", 1, 2, AddressingMode::Implied),
        0x7B => OpCode::new(0x7B, "*RRA", 3, 7, AddressingMode::Absolute_Y),
        0x7C => OpCode::new(0x7C, "*NOP", 3, 4, AddressingMode::Absolute_X),
        0x7D => OpCode::new(0x7D, "ADC", 3, 4, AddressingMode::Absolute_X),
        0x7E => OpCode::new(0x7E, "ROR", 3, 7, AddressingMode::Absolute_X),
        _ => OpCode::new(0x7F, "*RRA", 3, 7, AddressingMode::Absolute_X),
    }
}

#[verifier::rlimit(100)]
fn opcode_row_4(code: u8) -> (r: OpCode)
    requires
        0x80 <= code < 0xA0,
    ensures
        r.code == code,
        r.bytes == opcode_len(code),
        r.cycles == opcode_cycles(code),
        r.mode == opcode_mode(code),
        1 <= r.bytes <= 3,
        r.cycles == 0 <==> opcode_is_kil(code),
{
    match code {
        0x80 => OpCode::new(0x80, "*NOP", 2, 2, AddressingMode::Immediate),
        0x81 => OpCode::new(0x81, "STA", 2, 6, AddressingMode::Indirect_X),
        0x82 => OpCode::new(0x82, "*NOP", 2, 2, AddressingMode::Immediate),
        0x83 => OpCode::new(0x83, "*SAX", 2, 6, AddressingMode::Indirect_X),
        0x84 => OpCode::new(0x84, "STY", 2, 3, AddressingMode::ZeroPage),
        0x85 => OpCode::new(0x85, "STA", 2, 3, AddressingMode::ZeroPage),
        0x86 => OpCode::new(0x86, "STX", 2, 3, AddressingMode::ZeroPage),
        0x87 => OpCode::new(0x87, "*SAX", 2, 3, AddressingMode::ZeroPage),
        0x88 => OpCode::new(0x88, "DEY", 1, 2, AddressingMode::Implied),
        0x89 => OpCode::new(0x89, "*NOP", 2, 2, AddressingMode::Immediate),
        0x8A => OpCode::new(0x8A, "TXA", 1, 2, AddressingMode::Implied),
        0x8B => OpCode::new(0x8B, "*XAA", 2, 2, AddressingMode::Immediate),
        0x8C => OpCode::new(0x8C, "STY", 3, 4, AddressingMode::Absolute),
        0x8D => OpCode::new(0x8D, "STA", 3, 4, AddressingMode::Absolute),
        0x8E => OpCode::new(0x8E, "STX", 3, 4, AddressingMode::Absolute),
        0x8F => OpCode::new(0x8F, "*SAX", 3, 4, AddressingMode::Absolute),
        0x90 => OpCode::new(0x90, "BCC", 2, 2, AddressingMode::Relative),
        0x91 => OpCode::new(0x91, "STA", 2, 6, AddressingMode::Indirect_Y),
        0x92 => OpCode::new(0x92, "*KIL", 1, 0, AddressingMode::Implied),
        0x93 => OpCode::new(0x93, "*AXA", 2, 6, AddressingMode::Indirect_Y),
        0x94 => OpCode::new(0x94, "STY", 2, 4, AddressingMode::ZeroPage_X),
        0x95 => OpCode::new(0x95, "STA", 2, 4, AddressingMode::ZeroPage_X),
        0x96 => OpCode::new(0x96, "STX", 2, 4, AddressingMode::ZeroPage_Y),
        0x97 => OpCode::new(0x97, "*SAX", 2, 4, AddressingMode::ZeroPage_Y),
        0x98 => OpCode::new(0x98, "TYA", 1, 2, AddressingMode::Implied),
        0x99 => OpCode::new(0x99, "STA", 3, 5, AddressingMode::Absolute_Y),
        0x9A => OpCode::new(0x9A, "TXS", 1, 2, AddressingMode::Implied),
        0x9B => OpCode::new(0x9B, "*XAS", 3, 5, AddressingMode::Absolute_Y),
        0x9C => OpCode::new(0x9C, "*SYA", 3, 5, AddressingMode::Absolute_X),
        0x9D => OpCode::new(0x9D, "STA", 3, 5, AddressingMode::Absolute_X),
        0x9E => OpCode::new(0x9E, "*SXA", 3, 5, AddressingMode::Absolute_Y),
        _ => OpCode::new(0x9F, "*AXA", 3, 5, AddressingMode::Absolute_Y),
    }
}

#[verifier::rlimit(100)]
fn opcode_row_5(code: u8) -> (r: OpCode)
    requires
        0xA0 <= code < 0xC0,
    ensures
        r.code == code,
        r.bytes == opcode_len(code),
        r.cycles == opcode_cycles(code),
        r.mode == opcode_mode(code),
        1 <= r.bytes <= 3,
        r.cycles == 0 <==> opcode_is_kil(code),
{
    match code {
        0xA0 => OpCode::new(0xA0, "LDY", 2, 2, AddressingMode::Immediate),
        0xA1 => OpCode::new(0xA1, "LDA", 2, 6, AddressingMode::Indirect_X),
        0xA2 => OpCode::new(0xA2, "LDX", 2, 2, AddressingMode::Immediate),
        0xA3 => OpCode::new(0xA3, "*LAX", 2, 6, AddressingMode::Indirect_X),
        0xA4 => OpCode::new(0xA4, "LDY", 2, 3, AddressingMode::ZeroPage),
        0xA5 => OpCode::new(0xA5, "LDA", 2, 3, AddressingMode::ZeroPage),
        0xA6 => OpCode::new(0xA6, "LDX", 2, 3, AddressingMode::ZeroPage),
        0xA7 => OpCode::new(0xA7, "*LAX", 2, 3, AddressingMode::ZeroPage),
        0xA8 => OpCode::new(0xA8, "TAY", 1, 2, AddressingMode::Implied),
        0xA9 => OpCode::new(0xA9, "LDA", 2, 2, AddressingMode::Immediate),
        0xAA => OpCode::new(0xAA, "TAX", 1, 2, AddressingMode::Implied),
        0xAB => OpCode::new(0xAB, "*ATX", 2, 2, AddressingMode::Immediate),
        0xAC => OpCode::new(0xAC, "LDY", 3, 4, AddressingMode::Absolute),
        0xAD => OpCode::new(0xAD, "LDA", 3, 4, AddressingMode::Absolute),
        0xAE => OpCode::new(0xAE, "LDX", 3, 4, AddressingMode::Absolute),
        0xAF => OpCode::new(0xAF, "*LAX", 3, 4, AddressingMode::Absolute),
        0xB0 => OpCode::new(0xB0, "BCS", 2, 2, AddressingMode::Relative),
        0xB1 => OpCode::new(0xB1, "LDA", 2, 5, AddressingMode::Indirect_Y),
        0xB2 => OpCode::new(0xB2, "*KIL", 1, 0, AddressingMode::Implied),
        0xB3 => OpCode::new(0xB3, "*LAX", 2, 5, AddressingMode::Indirect_Y),
        0xB4 => OpCode::new(0xB4, "LDY", 2, 4, AddressingMode::ZeroPage_X),
        0xB5 => OpCode::new(0xB5, "LDA", 2, 4, AddressingMode::ZeroPage_X),
        0xB6 => OpCode::new(0xB6, "LDX", 2, 4, AddressingMode::ZeroPage_Y),
        0xB7 => OpCode::new(0xB7, "*LAX", 2, 4, AddressingMode::ZeroPage_Y),
        0xB8 => OpCode::new(0xB8, "CLV", 1, 2, AddressingMode::Implied),
        0xB9 => OpCode::new(0xB9, "LDA", 3, 4, AddressingMode::Absolute_Y),
        0xBA => OpCode::new(0xBA, "TSX", 1, 2, AddressingMode::Implied),
        0xBB => OpCode::new(0xBB, "*LAR", 3, 4, AddressingMode::Absolute_Y),
        0xBC => OpCode::new(0xBC, "LDY", 3, 4, AddressingMode::Absolute_X),
        0xBD => OpCode::new(0xBD, "LDA", 3, 4, AddressingMode::Absolute_X),
        0xBE => OpCode::new(0xBE, "LDX", 3, 4, AddressingMode::Absolute_Y),
        _ => OpCode::new(0xBF, "*LAX", 3, 4, AddressingMode::Absolute_Y),
    }
}

#[verifier::rlimit(100)]
fn opcode_row_6(code: u8) -> (r: OpCode)
    requires
        0xC0 <= code < 0xE0,
    ensures
        r.code == code,
        r.bytes == opcode_len(code),
        r.cycles == opcode_cycles(code),
        r.mode == opcode_mode(code),
        1 <= r.bytes <= 3,
        r.cycles == 0 <==> opcode_is_kil(code),
{
    match code {
        0xC0 => OpCode::new(0xC0, "CPY", 2, 2, AddressingMode::Immediate),
        0xC1 => OpCode::new(0xC1, "CMP", 2, 6, AddressingMode::Indirect_X),
        0xC2 => OpCode::new(0xC2, "*NOP", 2, 2, AddressingMode::Immediate),
        0xC3 => OpCode::new(0xC3, "*DCP", 2, 8, AddressingMode::Indirect_X),
        0xC4 => OpCode::new(0xC4, "CPY", 2, 3, AddressingMode::ZeroPage),
        0xC5 => OpCode::new(0xC5, "CMP", 2, 3, AddressingMode::ZeroPage),
        0xC6 => OpCode::new(0xC6, "DEC", 2, 5, AddressingMode::ZeroPage),
        0xC7 => OpCode::new(0xC7, "*DCP", 2, 5, AddressingMode::ZeroPage),
        0xC8 => OpCode::new(0xC8, "INY", 1, 2, AddressingMode::Implied),
        0xC9 => OpCode::new(0xC9, "CMP", 2, 2, AddressingMode::Immediate),
        0xCA => OpCode::new(0xCA, "DEX", 1, 2, AddressingMode::Implied),
        0xCB => OpCode::new(0xCB, "*AXS", 2, 2, AddressingMode::Immediate),
        0xCC => OpCode::new(0xCC, "CPY", 3, 4, AddressingMode::Absolute),
        0xCD => OpCode::new(0xCD, "CMP", 3, 4, AddressingMode::Absolute),
        0xCE => OpCode::new(0xCE, "DEC", 3, 6, AddressingMode::Absolute),
        0xCF => OpCode::new(0xCF, "*DCP", 3, 6, AddressingMode::Absolute),
        0xD0 => OpCode::new(0xD0, "BNE", 2, 2, AddressingMode::Relative),
        0xD1 => OpCode::new(0xD1, "CMP", 2, 5, AddressingMode::Indirect_Y),
        0xD2 => OpCode::new(0xD2, "*KIL", 1, 0, AddressingMode::Implied),
        0xD3 => OpCode::new(0xD3, "*DCP", 2, 8, AddressingMode::Indirect_Y),
        0xD4 => OpCode::new(0xD4, "*NOP", 2, 4, AddressingMode::ZeroPage_X),
        0xD5 => OpCode::new(0xD5, "CMP", 2, 4, AddressingMode::ZeroPage_X),
        0xD6 => OpCode::new(0xD6, "DEC", 2, 6, AddressingMode::ZeroPage_X),
        0xD7 => OpCode::new(0xD7, "*DCP", 2, 6, AddressingMode::ZeroPage_X),
        0xD8 => OpCode::new(0xD8, "CLD", 1, 2, AddressingMode::Implied),
        0xD9 => OpCode::new(0xD9, "CMP", 3, 4, AddressingMode::Absolute_Y),
        0xDA => OpCode::new(0xDA, "*NOP", 1, 2, AddressingMode::Implied),
        0xDB => OpCode::new(0xDB, "*DCP", 3, 7, AddressingMode::Absolute_Y),
        0xDC => OpCode::new(0xDC, "*NOP", 3, 4, AddressingMode::Absolute_X),
        0xDD => OpCode::new(0xDD, "CMP", 3, 4, AddressingMode::Absolute_X),
        0xDE => OpCode::new(0xDE, "DEC", 3, 7, AddressingMode::Absolute_X),
        _ => OpCode::new(0xDF, "*DCP", 3, 7, AddressingMode::Absolute_X),
    }
}

#[verifier::rlimit(100)]
fn opcode_row_7(code: u8) -> (r: OpCode)
    requires
        0xE0 <= code < 0x100,
    ensures
        r.code == code,
        r.bytes == opcode_len(code),
        r.cycles == opcode_cycles(code),
        r.mode == opcode_mode(code),
        1 <= r.bytes <= 3,
        r.cycles == 0 <==> opcode_is_kil(code),
{
    match code {
        0xE0 => OpCode::new(0xE0, "CPX", 2, 2, AddressingMode::Immediate),
        0xE1 => OpCode::new(0xE1, "SBC", 2, 6, AddressingMode::Indirect_X),
        0xE2 => OpCode::new(0xE2, "*NOP", 2, 2, AddressingMode::Immediate),
        0xE3 => OpCode::new(0xE3, "*ISB", 2, 8, AddressingMode::Indirect_X),
        0xE4 => OpCode::new(0xE4, "CPX", 2, 3, AddressingMode::ZeroPage),
        0xE5 => OpCode::new(0xE5, "SBC", 2, 3, AddressingMode::ZeroPage),
        0xE6 => OpCode::new(0xE6, "INC", 2, 5, AddressingMode::ZeroPage),
        0xE7 => OpCode::new(0xE7, "*ISB", 2, 5, AddressingMode::ZeroPage),
        0xE8 => OpCode::new(0xE8, "INX", 1, 2, AddressingMode::Implied),
        0xE9 => OpCode::new(0xE9, "SBC", 2, 2, AddressingMode::Immediate),
        0xEA => OpCode::new(0xEA, "NOP", 1, 2, AddressingMode::Implied),
        0xEB => OpCode::new(0xEB, "*SBC", 2, 2, AddressingMode::Immediate),
        0xEC => OpCode::new(0xEC, "CPX", 3, 4, AddressingMode::Absolute),
        0xED => OpCode::new(0xED, "SBC", 3, 4, AddressingMode::Absolute),
        0xEE => OpCode::new(0xEE, "INC", 3, 6, AddressingMode::Absolute),
        0xEF => OpCode::new(0xEF, "*ISB", 3, 6, AddressingMode::Absolute),
        0xF0 => OpCode::new(0xF0, "BEQ", 2, 2, AddressingMode::Relative),
        0xF1 => OpCode::new(0xF1, "SBC", 2, 5, AddressingMode::Indirect_Y),
        0xF2 => OpCode::new(0xF2, "*KIL", 1, 0, AddressingMode::Implied),
        0xF3 => OpCode::new(0xF3, "*ISB", 2, 8, AddressingMode::Indirect_Y),
        0xF4 => OpCode::new(0xF4, "*NOP", 2, 4, AddressingMode::ZeroPage_X),
        0xF5 => OpCode::new(0xF5, "SBC", 2, 4, AddressingMode::ZeroPage_X),
        0xF6 => OpCode::new(0xF6, "INC", 2, 6, AddressingMode::ZeroPage_X),
        0xF7 => OpCode::new(0xF7, "*ISB", 2, 6, AddressingMode::ZeroPage_X),
        0xF8 => OpCode::new(0xF8, "SED", 1, 2, AddressingMode::Implied),
        0xF9 => OpCode::new(0xF9, "SBC", 3, 4, AddressingMode::Absolute_Y),
        0xFA => OpCode::new(0xFA, "*NOP", 1, 2, AddressingMode::Implied),
        0xFB => OpCode::new(0xFB, "*ISB", 3, 7, AddressingMode::Absolute_Y),
        0xFC => OpCode::new(0xFC, "*NOP", 3, 4, AddressingMode::Absolute_X),
        0xFD => OpCode::new(0xFD, "SBC", 3, 4, AddressingMode::Absolute_X),
        0xFE => OpCode::new(0xFE, "INC", 3, 7, AddressingMode::Absolute_X),
        _ => OpCode::new(0xFF, "*ISB", 3, 7, AddressingMode::Absolute_X),
    }
}

} // verus!
